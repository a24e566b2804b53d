use crate::key::Pubkey;
use crate::states::pool::Pool;
use vstd::prelude::*;

verus! {

/// One staker's position in the pool.
///
/// `reward_debt` is the value of the pool's accumulator at the staker's last
/// synchronisation; rewards that accrued since then are owed to the staker.
#[derive(Clone, Copy, Debug, PartialEq, Eq)]
pub struct UserStakeInfo {
    pub owner: Pubkey,
    pub staked_amount: u64,
    pub reward_debt: u128,
    pub pending_rewards: u64,
    pub last_update_time: i64,
    pub bump: u8,
}

/// `2^64`: reward amounts are kept modulo this when added to `pending_rewards`.
pub open spec fn u64_modulus() -> int {
    u64::MAX + 1
}


/// Rounding each part down never gives more than rounding the sum down,
/// and at most one less.
proof fn lemma_floor_div_sum(a: int, b: int, d: int)
    requires
        a >= 0,
        b >= 0,
        d > 0,
    ensures
        a / d + b / d <= (a + b) / d,
        (a + b) / d <= a / d + b / d + 1,
        a / d <= (a + b) / d,
{
    vstd::arithmetic::div_mod::lemma_fundamental_div_mod(a, d);
    vstd::arithmetic::div_mod::lemma_fundamental_div_mod(b, d);
    vstd::arithmetic::div_mod::lemma_fundamental_div_mod(a + b, d);
    vstd::arithmetic::div_mod::lemma_mod_bound(a, d);
    vstd::arithmetic::div_mod::lemma_mod_bound(b, d);
    vstd::arithmetic::div_mod::lemma_mod_bound(a + b, d);
    vstd::arithmetic::div_mod::lemma_div_pos_is_pos(b, d);
    let qa = a / d;
    let qb = b / d;
    let q = (a + b) / d;
    assert(d * (qa + qb) < d * (q + 1)) by (nonlinear_arith)
        requires
            a == d * qa + a % d,
            b == d * qb + b % d,
            a + b == d * q + (a + b) % d,
            0 <= a % d,
            0 <= b % d,
            (a + b) % d < d,
    ;
    assert(qa + qb < q + 1) by (nonlinear_arith)
        requires
            d > 0,
            d * (qa + qb) < d * (q + 1),
    ;
    assert(d * q < d * (qa + qb + 2)) by (nonlinear_arith)
        requires
            a == d * qa + a % d,
            b == d * qb + b % d,
            a + b == d * q + (a + b) % d,
            a % d < d,
            b % d < d,
            0 <= (a + b) % d,
    ;
    assert(q < qa + qb + 2) by (nonlinear_arith)
        requires
            d > 0,
            d * q < d * (qa + qb + 2),
    ;
}

/// Synchronising records the accumulator as the new debt and leaves the
/// owner, the stake, the update time and the bump as they were.
pub proof fn lemma_claim_records_debt(user: UserStakeInfo, accrued: u128)
    ensures
        user.claimed_at(accrued).reward_debt == accrued,
        user.claimed_at(accrued).owner == user.owner,
        user.claimed_at(accrued).staked_amount == user.staked_amount,
        user.claimed_at(accrued).last_update_time == user.last_update_time,
        user.claimed_at(accrued).bump == user.bump,
{
}

/// With the accumulator at or above the debt and the earned amount below
/// `2^64`, a synchronisation adds exactly
/// `staked * (accrued - debt) / SCALING_FACTOR` (rounded down) to the
/// pending rewards.
pub proof fn lemma_claim_credits_earned_rewards(user: UserStakeInfo, accrued: u128)
    requires
        user.reward_debt <= accrued,
        user.claim_fits(accrued),
        user.reward_owed(accrued) < u64_modulus(),
    ensures
        user.claimed_at(accrued).pending_rewards == user.pending_rewards + (user.staked_amount * (
        accrued - user.reward_debt)) / (Pool::SCALING_FACTOR as int),
{
    if user.staked_amount == 0 {
        assert(user.staked_amount * (accrued - user.reward_debt) == 0) by (nonlinear_arith)
            requires
                user.staked_amount == 0,
        ;
    } else {
        vstd::arithmetic::div_mod::lemma_small_mod(
            user.reward_owed(accrued) as nat,
            u64_modulus() as nat,
        );
    }
}

/// Synchronising twice with the same accumulator is the same as doing it once.
pub proof fn lemma_claim_idempotent(user: UserStakeInfo, accrued: u128)
    requires
        user.claim_fits(accrued),
    ensures
        user.claimed_at(accrued).claim_fits(accrued),
        user.claimed_at(accrued).claimed_at(accrued) == user.claimed_at(accrued),
{
    let u1 = user.claimed_at(accrued);
    assert(u1.reward_per_share_owed(accrued) == 0);
    assert(u1.staked_amount * 0 == 0) by (nonlinear_arith);
}

/// Synchronising at `a1` and again at a later `a2` never credits more than
/// one synchronisation at `a2`, and at most one unit less, as long as the
/// amounts stay below `2^64`: rewards earned over a period do not grow by
/// being claimed in pieces, and rounding loses at most one unit.
pub proof fn lemma_split_claims_never_pay_more(user: UserStakeInfo, a1: u128, a2: u128)
    requires
        user.reward_debt <= a1 <= a2,
        user.pending_rewards + user.reward_owed(a2) <= u64::MAX,
        user.staked_amount * (a2 - user.reward_debt) <= u128::MAX,
    ensures
        user.claim_fits(a1),
        user.claimed_at(a1).claim_fits(a2),
        user.claim_fits(a2),
        user.claimed_at(a1).claimed_at(a2).pending_rewards <= user.claimed_at(a2).pending_rewards,
        user.claimed_at(a2).pending_rewards <= user.claimed_at(a1).claimed_at(a2).pending_rewards
            + 1,
        user.claimed_at(a1).claimed_at(a2).reward_debt == user.claimed_at(a2).reward_debt,
{
    if user.staked_amount > 0 {
        let s = user.staked_amount as int;
        let x = a1 - user.reward_debt;
        let y = a2 - a1;
        let d = Pool::SCALING_FACTOR as int;
        assert(s * (x + y) == s * x + s * y) by (nonlinear_arith);
        assert(s * x >= 0 && s * y >= 0) by (nonlinear_arith)
            requires
                s >= 0,
                x >= 0,
                y >= 0,
        ;
        lemma_floor_div_sum(s * x, s * y, d);
        lemma_floor_div_sum(s * y, s * x, d);
        vstd::arithmetic::div_mod::lemma_div_pos_is_pos(s * x, d);
        vstd::arithmetic::div_mod::lemma_div_pos_is_pos(s * y, d);
        let u1 = user.claimed_at(a1);
        assert(u1.reward_owed(a2) == (s * y) / d);
        vstd::arithmetic::div_mod::lemma_small_mod(((s * x) / d) as nat, u64_modulus() as nat);
        vstd::arithmetic::div_mod::lemma_small_mod(((s * y) / d) as nat, u64_modulus() as nat);
        vstd::arithmetic::div_mod::lemma_small_mod(
            ((s * (x + y)) / d) as nat,
            u64_modulus() as nat,
        );
    }
}

/// With the accumulator below the recorded debt nothing is credited: the
/// pending rewards stay and the debt drops to the accumulator.
pub proof fn lemma_claim_below_debt_credits_nothing(user: UserStakeInfo, accrued: u128)
    requires
        accrued < user.reward_debt,
    ensures
        user.claim_fits(accrued),
        user.claimed_at(accrued).pending_rewards == user.pending_rewards,
        user.claimed_at(accrued).reward_debt == accrued,
{
    assert(user.reward_per_share_owed(accrued) == 0);
    assert(user.staked_amount * 0 == 0) by (nonlinear_arith);
    assert(user.reward_owed(accrued) == 0);
    assert(0int % u64_modulus() == 0);
}

/// A position with nothing staked keeps its pending rewards when it
/// synchronises, and only records the accumulator as its debt.
pub proof fn lemma_claim_without_stake_keeps_pending(user: UserStakeInfo, accrued: u128)
    requires
        user.staked_amount == 0,
    ensures
        user.claim_fits(accrued),
        user.claimed_at(accrued) == (UserStakeInfo { reward_debt: accrued, ..user }),
{
}

/// In general a synchronisation adds the earned amount
/// `staked * max(accrued - debt, 0) / SCALING_FACTOR` (rounded down) reduced
/// modulo `2^64`, which is what a 64-bit truncation of that amount keeps.
pub proof fn lemma_claim_credits_truncated_earnings(user: UserStakeInfo, accrued: u128)
    requires
        user.claim_fits(accrued),
    ensures
        ({
            let growth = if accrued >= user.reward_debt {
                accrued - user.reward_debt
            } else {
                0
            };
            user.claimed_at(accrued).pending_rewards == user.pending_rewards + ((
            user.staked_amount * growth) / 1_000_000_000_000) % 0x1_0000_0000_0000_0000
        }),
{
    if user.staked_amount == 0 {
        let growth = if accrued >= user.reward_debt {
            accrued - user.reward_debt
        } else {
            0
        };
        assert(user.staked_amount * growth == 0) by (nonlinear_arith)
            requires
                user.staked_amount == 0,
        ;
    }
}

impl UserStakeInfo {
    /// Growth of the accumulator since the staker's last synchronisation
    /// (none when the accumulator stands below the recorded debt).
    pub open spec fn reward_per_share_owed(self, accrued: u128) -> int {
        if accrued >= self.reward_debt {
            accrued - self.reward_debt
        } else {
            0
        }
    }

    /// Rewards earned since the last synchronisation, scaled down to token units
    /// (rounded down).
    pub open spec fn reward_owed(self, accrued: u128) -> int {
        (self.staked_amount * self.reward_per_share_owed(accrued)) / (Pool::SCALING_FACTOR as int)
    }

    /// Claiming against `accrued` stays within bounds: the unscaled product
    /// fits in 128 bits and the new pending amount fits in 64 bits.
    pub open spec fn claim_fits(self, accrued: u128) -> bool {
        self.staked_amount != 0 ==> {
            &&& self.staked_amount * self.reward_per_share_owed(accrued) <= u128::MAX
            &&& self.pending_rewards + self.reward_owed(accrued) % u64_modulus() <= u64::MAX
        }
    }

    /// The position after synchronising with an accumulator value of `accrued`.
    pub open spec fn claimed_at(self, accrued: u128) -> UserStakeInfo {
        if self.staked_amount == 0 {
            UserStakeInfo { reward_debt: accrued, ..self }
        } else {
            UserStakeInfo {
                pending_rewards: (self.pending_rewards + self.reward_owed(accrued)
                    % u64_modulus()) as u64,
                reward_debt: accrued,
                ..self
            }
        }
    }

    /// Moves the rewards earned since the last synchronisation into
    /// `pending_rewards` and records the pool's accumulator as the new debt.
    pub fn claim_accrued_rewards(&mut self, pool: &Pool)
        requires
            old(self).claim_fits(pool.accrued_reward_per_share),
        ensures
            *final(self) == old(self).claimed_at(pool.accrued_reward_per_share),
    {
        if self.staked_amount == 0 {
            self.reward_debt = pool.accrued_reward_per_share;
            return ;
        }
        let current_accrued: u128 = pool.accrued_reward_per_share;
        let reward_per_share_earned: u128 = match current_accrued.checked_sub(self.reward_debt) {
            Some(d) => d,
            None => 0,
        };
        let staked: u128 = self.staked_amount as u128;
        let reward_earned_this_period: u128 = staked.checked_mul(
            reward_per_share_earned,
        ).unwrap().checked_div(Pool::SCALING_FACTOR).unwrap_or(0);
        let truncated: u64 = (reward_earned_this_period % 0x1_0000_0000_0000_0000u128) as u64;
        self.pending_rewards = self.pending_rewards.checked_add(truncated).unwrap();
        self.reward_debt = current_accrued;
    }

    /// Whether `claim_accrued_rewards` against `accrued` stays within bounds.
    pub fn claim_fits_with(&self, accrued: u128) -> (fits: bool)
        ensures
            fits == self.claim_fits(accrued),
    {
        if self.staked_amount == 0 {
            return true;
        }
        let reward_per_share_earned: u128 = match accrued.checked_sub(self.reward_debt) {
            Some(d) => d,
            None => 0,
        };
        let staked: u128 = self.staked_amount as u128;
        match staked.checked_mul(reward_per_share_earned) {
            Some(product) => {
                let earned: u128 = product / Pool::SCALING_FACTOR;
                let truncated: u64 = (earned % 0x1_0000_0000_0000_0000u128) as u64;
                self.pending_rewards.checked_add(truncated).is_some()
            },
            None => false,
        }
    }
}

} // verus!
