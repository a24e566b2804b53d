use crate::error::StakingError;
use crate::key::Pubkey;
use crate::states::pool::Pool;
use crate::states::user::UserStakeInfo;
use vstd::prelude::*;

verus! {

/// What the claim instruction reads: the signer, the pool, the signer's
/// position and the address of the reward mint account that was passed in.
#[derive(Clone, Copy, Debug, PartialEq, Eq)]
pub struct ClaimReward {
    pub signer: Pubkey,
    pub pool: Pool,
    pub user_stake_info: UserStakeInfo,
    pub reward_token_mint: Pubkey,
}

impl ClaimReward {
    /// The first account check that fails, if any.
    pub open spec fn accounts_error(self) -> Option<StakingError> {
        if self.reward_token_mint@ != self.pool.reward_token_mint@ {
            Some(StakingError::InvalidRewardTokenMint)
        } else {
            None
        }
    }

    /// Checks the passed reward mint against the pool's.
    pub fn validate(&self) -> (r: Result<(), StakingError>)
        ensures
            r is Ok <==> self.accounts_error() is None,
            r matches Err(e) ==> self.accounts_error() == Some(e),
    {
        if !self.reward_token_mint.matches(&self.pool.reward_token_mint) {
            return Err(StakingError::InvalidRewardTokenMint);
        }
        Ok(())
    }

    /// The handler gets past its checks and reaches the reward arithmetic.
    pub open spec fn reaches_accrual(self) -> bool {
        self.accounts_error() is None && !self.pool.is_paused
    }

    /// Claiming at `now` stays within the integer bounds of the arithmetic.
    pub open spec fn fits_at(self, now: i64) -> bool {
        self.reaches_accrual() ==> {
            &&& self.pool.accrual_fits(now)
            &&& self.user_stake_info.claim_fits(
                self.pool.accrued_at(now).accrued_reward_per_share,
            )
        }
    }

    /// Whether `handle_claim_reward` at `current_timestamp` stays within bounds.
    pub fn fits(&self, current_timestamp: i64) -> (fits: bool)
        ensures
            fits == self.fits_at(current_timestamp),
    {
        if self.validate().is_err() || self.pool.is_paused {
            return true;
        }
        if !self.pool.accrual_fits_at(current_timestamp) {
            return false;
        }
        let mut pool = self.pool;
        pool.update_accrued_rewards_per_share(current_timestamp);
        self.user_stake_info.claim_fits_with(pool.accrued_reward_per_share)
    }
}

/// Result and accounts after a claim at `now`.
///
/// The pool accrues up to `now`, the staker is synchronised with it, and the
/// whole pending amount is paid out; a claim with nothing pending is refused.
pub open spec fn claim_reward_outcome(ctx: ClaimReward, now: i64) -> (Result<u64, StakingError>, ClaimReward) {
    if ctx.accounts_error() is Some {
        (Err(ctx.accounts_error()->0), ctx)
    } else if ctx.pool.is_paused {
        (Err(StakingError::Paused), ctx)
    } else {
        let pool = ctx.pool.accrued_at(now);
        let user = ctx.user_stake_info.claimed_at(pool.accrued_reward_per_share);
        if user.pending_rewards == 0 {
            (Err(StakingError::NoRewardsToClaim), ctx)
        } else {
            (
                Ok(user.pending_rewards),
                ClaimReward {
                    pool,
                    user_stake_info: UserStakeInfo {
                        pending_rewards: 0,
                        reward_debt: pool.accrued_reward_per_share,
                        ..user
                    },
                    ..ctx
                },
            )
        }
    }
}

/// Pays out the signer's pending rewards.
///
/// On `Ok(amount)` the runtime transfers `amount` reward tokens from the
/// reward vault to the signer; on `Err` the accounts are left as they were.
pub fn handle_claim_reward(ctx: &mut ClaimReward, current_timestamp: i64) -> (r: Result<
    u64,
    StakingError,
>)
    requires
        old(ctx).fits_at(current_timestamp),
    ensures
        (r, *final(ctx)) == claim_reward_outcome(*old(ctx), current_timestamp),
        r is Err ==> *final(ctx) == *old(ctx),
        r matches Ok(amount) ==> amount > 0 && final(ctx).user_stake_info.pending_rewards == 0,
{
    match ctx.validate() {
        Err(e) => {
            return Err(e);
        },
        Ok(()) => {},
    }
    if ctx.pool.is_paused {
        return Err(StakingError::Paused);
    }
    let mut pool = ctx.pool;
    let mut user_stake_info = ctx.user_stake_info;
    pool.update_accrued_rewards_per_share(current_timestamp);
    user_stake_info.claim_accrued_rewards(&pool);
    let pending_rewards: u64 = user_stake_info.pending_rewards;
    if pending_rewards == 0 {
        return Err(StakingError::NoRewardsToClaim);
    }
    user_stake_info.pending_rewards = 0;
    user_stake_info.reward_debt = pool.accrued_reward_per_share;
    ctx.pool = pool;
    ctx.user_stake_info = user_stake_info;
    Ok(pending_rewards)
}

} // verus!
