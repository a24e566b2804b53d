use crate::key::Pubkey;
use vstd::prelude::*;

verus! {

/// Shared state of the staking pool.
///
/// `reward_rate_per_second` is the rate as the accrual reads it: the whole
/// part of the configured rate, as an unsigned 128-bit number.
/// `accrued_reward_per_share` is the running sum of that rate over the
/// seconds during which something was staked; it is not scaled up, so with
/// rewards scaled down by `SCALING_FACTOR` at claim time one staked unit
/// earns `rate / SCALING_FACTOR` reward units per second.
#[derive(Clone, Copy, Debug, PartialEq, Eq)]
pub struct Pool {
    pub authority: Pubkey,
    pub reward_token_mint: Pubkey,
    pub staked_token_mint: Pubkey,
    pub lst_token_mint: Pubkey,
    pub reward_token_vault: Pubkey,
    pub staked_token_vault: Pubkey,
    pub lst_token_vault: Pubkey,
    pub total_staked_amount: u64,
    pub reward_rate_per_second: u128,
    pub accrued_reward_per_share: u128,
    pub last_reward_update_timestamp: i64,
    pub reward_vault_bump: u8,
    pub staked_vault_bump: u8,
    pub lst_vault_bump: u8,
    pub is_paused: bool,
    pub bump: u8,
}

/// `now - last` where that difference fits in an `i64`, and 0 where it does not.
pub open spec fn checked_elapsed(now: i64, last: i64) -> int {
    let d = now - last;
    if i64::MIN <= d <= i64::MAX {
        d
    } else {
        0
    }
}

/// A signed 64-bit duration read as an unsigned 128-bit number
/// (a negative duration wraps around to `2^128 + e`).
pub open spec fn as_unsigned_duration(e: int) -> int {
    if e >= 0 {
        e
    } else {
        e + u128::MAX + 1
    }
}

/// The duration `e` as an unsigned 128-bit number.
fn duration_as_u128(e: i64) -> (w: u128)
    ensures
        w == as_unsigned_duration(e as int),
{
    if e >= 0 {
        e as u128
    } else {
        let magnitude_less_one: i64 = -(e + 1);
        u128::MAX - (magnitude_less_one as u128)
    }
}

/// `(t * x) / t == x` for a positive `t`.
proof fn lemma_share_of_product(t: int, r: int, w: int)
    requires
        t > 0,
    ensures
        (t * r * w) / t == r * w,
{
    vstd::arithmetic::mul::lemma_mul_is_associative(t, r, w);
    vstd::arithmetic::div_mod::lemma_div_multiples_vanish(r * w, t);
}


/// While something is staked and the clock moves forward by `now - last`
/// seconds (a difference within the `i64` range), one accrual adds exactly `rate * (now - last)` to the
/// accumulator and records `now` as the last update.
pub proof fn lemma_accrual_adds_rate_times_elapsed(pool: Pool, now: i64)
    requires
        pool.total_staked_amount > 0,
        pool.last_reward_update_timestamp <= now,
        now - pool.last_reward_update_timestamp <= i64::MAX,
        pool.accrual_fits(now),
    ensures
        pool.accrued_at(now).accrued_reward_per_share == pool.accrued_reward_per_share
            + pool.reward_rate_per_second * (now - pool.last_reward_update_timestamp),
        pool.accrued_at(now).last_reward_update_timestamp == now,
{
    let e = now - pool.last_reward_update_timestamp;
    assert(e == 0 ==> pool.reward_rate_per_second * e == 0) by (nonlinear_arith);
}

/// Nothing accrues while nothing is staked: the accumulator keeps its value
/// and only the update time moves to `now`.
pub proof fn lemma_no_accrual_while_empty(pool: Pool, now: i64)
    requires
        pool.total_staked_amount == 0,
    ensures
        pool.accrued_at(now) == (Pool { last_reward_update_timestamp: now, ..pool }),
{
}

/// The accumulator never decreases, and accrual touches nothing but the
/// accumulator and the update time.
pub proof fn lemma_accrual_never_decreases(pool: Pool, now: i64)
    requires
        pool.accrual_fits(now),
    ensures
        pool.accrued_at(now).accrued_reward_per_share >= pool.accrued_reward_per_share,
        pool.accrued_at(now) == (Pool {
            accrued_reward_per_share: pool.accrued_at(now).accrued_reward_per_share,
            last_reward_update_timestamp: pool.accrued_at(now).last_reward_update_timestamp,
            ..pool
        }),
{
    let e = pool.accrual_period(now);
    if e != 0 {
        assert(as_unsigned_duration(e) >= 0);
        vstd::arithmetic::mul::lemma_mul_nonnegative(
            pool.reward_rate_per_second as int,
            as_unsigned_duration(e),
        );
    }
}

/// Accruing twice at the same time is the same as accruing once.
pub proof fn lemma_accrual_idempotent(pool: Pool, now: i64)
    requires
        pool.accrual_fits(now),
    ensures
        pool.accrued_at(now).accrual_fits(now),
        pool.accrued_at(now).accrued_at(now) == pool.accrued_at(now),
{
}

/// Accruing at `t1` and then at `t2` gives the same pool as accruing at `t2`
/// directly, for `last <= t1 <= t2` with `t2 - last` within the `i64` range.
pub proof fn lemma_accrual_composes(pool: Pool, t1: i64, t2: i64)
    requires
        pool.last_reward_update_timestamp <= t1 <= t2,
        t2 - pool.last_reward_update_timestamp <= i64::MAX,
        pool.accrual_fits(t2),
    ensures
        pool.accrual_fits(t1),
        pool.accrued_at(t1).accrual_fits(t2),
        pool.accrued_at(t1).accrued_at(t2) == pool.accrued_at(t2),
{
    if pool.total_staked_amount > 0 {
        let t = pool.total_staked_amount as int;
        let r = pool.reward_rate_per_second as int;
        let t0 = pool.last_reward_update_timestamp as int;
        let d1 = t1 - t0;
        let d2 = t2 - t1;
        assert(r * (d1 + d2) == r * d1 + r * d2) by (nonlinear_arith);
        assert(t * r * d1 <= t * r * (d1 + d2)) by (nonlinear_arith)
            requires
                t >= 0,
                r >= 0,
                d1 >= 0,
                d2 >= 0,
        ;
        assert(t * r * d2 <= t * r * (d1 + d2)) by (nonlinear_arith)
            requires
                t >= 0,
                r >= 0,
                d1 >= 0,
                d2 >= 0,
        ;
        assert(r * d1 >= 0 && r * d2 >= 0) by (nonlinear_arith)
            requires
                r >= 0,
                d1 >= 0,
                d2 >= 0,
        ;
    }
}

/// When the clock reads before the last update (a difference within the
/// `i64` range) while something is staked, the negative duration is read as
/// the unsigned `2^128 + (now - last)`: the accumulator grows by
/// `rate * (2^128 + now - last)` and the update time moves back to `now`.
pub proof fn lemma_accrual_before_last_update_wraps(pool: Pool, now: i64)
    requires
        pool.total_staked_amount > 0,
        now < pool.last_reward_update_timestamp,
        i64::MIN <= now - pool.last_reward_update_timestamp,
        pool.accrual_fits(now),
    ensures
        pool.accrued_at(now).accrued_reward_per_share == pool.accrued_reward_per_share
            + pool.reward_rate_per_second * (now - pool.last_reward_update_timestamp + u128::MAX
            + 1),
        pool.accrued_at(now).last_reward_update_timestamp == now,
{
}

/// When `now - last` leaves the `i64` range while something is staked,
/// nothing accrues and the update time stays where it was.
pub proof fn lemma_accrual_skips_out_of_range_elapsed(pool: Pool, now: i64)
    requires
        pool.total_staked_amount > 0,
        now - pool.last_reward_update_timestamp > i64::MAX || now
            - pool.last_reward_update_timestamp < i64::MIN,
    ensures
        pool.accrued_at(now) == pool,
{
}

/// An accrual always fits while nothing is staked or at the last update
/// time; over a forward duration `e` it fits as soon as `total * rate * e`
/// and `accumulator + rate * e` stay within 128 bits.
pub proof fn lemma_accrual_fits_within_bounds(pool: Pool, now: i64)
    ensures
        pool.total_staked_amount == 0 ==> pool.accrual_fits(now),
        now == pool.last_reward_update_timestamp ==> pool.accrual_fits(now),
        ({
            let e = now - pool.last_reward_update_timestamp;
            let t = pool.total_staked_amount as int;
            let r = pool.reward_rate_per_second as int;
            (0 <= e <= i64::MAX && t * r * e <= u128::MAX && pool.accrued_reward_per_share + r * e
                <= u128::MAX) ==> pool.accrual_fits(now)
        }),
{
    let e = now - pool.last_reward_update_timestamp;
    let t = pool.total_staked_amount as int;
    let r = pool.reward_rate_per_second as int;
    if 0 < e <= i64::MAX && t > 0 {
        assert(t * r <= t * r * e) by (nonlinear_arith)
            requires
                t >= 0,
                r >= 0,
                e >= 1,
        ;
    }
}

impl Pool {
    /// Divisor applied when a staker's `staked * (accumulator - debt)` is
    /// turned into reward units; the accumulator itself is never multiplied
    /// by it.
    pub const SCALING_FACTOR: u128 = 1_000_000_000_000;

    /// Seconds that the next accrual at `now` accounts for: nothing while
    /// nothing is staked, and nothing when `now - last` leaves the `i64` range.
    pub open spec fn accrual_period(self, now: i64) -> int {
        if self.total_staked_amount == 0 {
            0
        } else {
            checked_elapsed(now, self.last_reward_update_timestamp)
        }
    }

    /// Reward per staked unit produced over `period` seconds at the current rate.
    pub open spec fn reward_per_share_over(self, period: int) -> int {
        self.reward_rate_per_second * as_unsigned_duration(period)
    }

    /// The accrual at `now` stays within 128 bits: `total * rate`,
    /// `total * rate * period` and the new accumulator all fit.
    pub open spec fn accrual_fits(self, now: i64) -> bool {
        let e = self.accrual_period(now);
        e != 0 ==> {
            let t = self.total_staked_amount as int;
            let r = self.reward_rate_per_second as int;
            let w = as_unsigned_duration(e);
            &&& t * r <= u128::MAX
            &&& t * r * w <= u128::MAX
            &&& self.accrued_reward_per_share + r * w <= u128::MAX
        }
    }

    /// The pool after its reward accumulator is brought up to `now`.
    pub open spec fn accrued_at(self, now: i64) -> Pool {
        if self.total_staked_amount == 0 {
            Pool { last_reward_update_timestamp: now, ..self }
        } else if self.accrual_period(now) == 0 {
            self
        } else {
            Pool {
                accrued_reward_per_share: (self.accrued_reward_per_share
                    + self.reward_per_share_over(self.accrual_period(now))) as u128,
                last_reward_update_timestamp: now,
                ..self
            }
        }
    }

    /// Brings the reward accumulator up to `current_timestamp`: while
    /// something is staked, each elapsed second adds the reward rate to it.
    pub fn update_accrued_rewards_per_share(&mut self, current_timestamp: i64)
        requires
            old(self).accrual_fits(current_timestamp),
        ensures
            *final(self) == old(self).accrued_at(current_timestamp),
    {
        if self.total_staked_amount == 0 {
            self.last_reward_update_timestamp = current_timestamp;
        }
        let elapsed_time: i64 = match current_timestamp.checked_sub(
            self.last_reward_update_timestamp,
        ) {
            Some(d) => d,
            None => 0,
        };
        if elapsed_time == 0 {
            return ;
        }
        let total: u128 = self.total_staked_amount as u128;
        let rate: u128 = self.reward_rate_per_second;
        let duration: u128 = duration_as_u128(elapsed_time);
        let rewards_generated_this_period: u128 = total.checked_mul(rate).unwrap().checked_mul(
            duration,
        ).unwrap();
        let per_share: u128 = rewards_generated_this_period.checked_div(total).unwrap_or(0);
        proof {
            lemma_share_of_product(total as int, rate as int, duration as int);
        }
        self.accrued_reward_per_share = self.accrued_reward_per_share.checked_add(
            per_share,
        ).unwrap();
        self.last_reward_update_timestamp = current_timestamp;
    }

    /// Whether `update_accrued_rewards_per_share(current_timestamp)` stays
    /// within 128 bits.
    pub fn accrual_fits_at(&self, current_timestamp: i64) -> (fits: bool)
        ensures
            fits == self.accrual_fits(current_timestamp),
    {
        if self.total_staked_amount == 0 {
            return true;
        }
        let elapsed_time: i64 = match current_timestamp.checked_sub(
            self.last_reward_update_timestamp,
        ) {
            Some(d) => d,
            None => 0,
        };
        if elapsed_time == 0 {
            return true;
        }
        let total: u128 = self.total_staked_amount as u128;
        let rate: u128 = self.reward_rate_per_second;
        let duration: u128 = duration_as_u128(elapsed_time);
        let rewards: u128 = match total.checked_mul(rate) {
            Some(tr) => match tr.checked_mul(duration) {
                Some(trw) => trw,
                None => {
                    return false;
                },
            },
            None => {
                return false;
            },
        };
        proof {
            lemma_share_of_product(total as int, rate as int, duration as int);
        }
        let per_share: u128 = rewards / total;
        self.accrued_reward_per_share.checked_add(per_share).is_some()
    }
}

} // verus!
