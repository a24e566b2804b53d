use crate::error::StakingError;
use crate::key::Pubkey;
use crate::states::pool::Pool;
use vstd::prelude::*;

verus! {

/// A requested reward rate as the rate update reads it: whether the
/// requested value is nonzero (the refusal test), and its whole part as an
/// unsigned 128-bit number (what the accrual uses from then on).
///
/// A request below one unit per second is nonzero with a whole part of 0.
#[derive(Clone, Copy, Debug, PartialEq, Eq)]
pub struct RewardRate {
    pub per_second: u128,
    pub is_nonzero: bool,
}

/// What the rate update reads: the signer and the pool.
#[derive(Clone, Copy, Debug, PartialEq, Eq)]
pub struct UpdateRewardRate {
    pub signer: Pubkey,
    pub pool: Pool,
}

impl UpdateRewardRate {
    /// The first account check that fails, if any: only the pool's authority
    /// may change the rate.
    pub open spec fn accounts_error(self) -> Option<StakingError> {
        if self.pool.authority@ != self.signer@ {
            Some(StakingError::Unauthorized)
        } else {
            None
        }
    }

    /// Checks that the signer is the pool's authority.
    pub fn validate(&self) -> (r: Result<(), StakingError>)
        ensures
            r is Ok <==> self.accounts_error() is None,
            r matches Err(e) ==> self.accounts_error() == Some(e),
    {
        if !self.pool.authority.matches(&self.signer) {
            return Err(StakingError::Unauthorized);
        }
        Ok(())
    }

    /// Updating the rate at `now` stays within the integer bounds of the accrual.
    pub open spec fn fits_at(self, now: i64, new_rate: RewardRate) -> bool {
        (self.accounts_error() is None && !self.pool.is_paused && new_rate.is_nonzero)
            ==> self.pool.accrual_fits(now)
    }

    /// Whether `handle_update_reward_rate` at `current_timestamp` stays within bounds.
    pub fn fits(&self, current_timestamp: i64, new_rate: RewardRate) -> (fits: bool)
        ensures
            fits == self.fits_at(current_timestamp, new_rate),
    {
        if self.validate().is_err() || self.pool.is_paused || !new_rate.is_nonzero {
            return true;
        }
        self.pool.accrual_fits_at(current_timestamp)
    }
}

/// Result and accounts after setting the rate to `new_rate` at `now`: a zero
/// request is refused; otherwise rewards up to `now` accrue at the old rate,
/// and the new rate's whole part applies from then on.
pub open spec fn update_reward_rate_outcome(ctx: UpdateRewardRate, now: i64, new_rate: RewardRate) -> (Result<(), StakingError>, UpdateRewardRate) {
    if ctx.accounts_error() is Some {
        (Err(ctx.accounts_error()->0), ctx)
    } else if ctx.pool.is_paused {
        (Err(StakingError::Paused), ctx)
    } else if !new_rate.is_nonzero {
        (Err(StakingError::InvalidRateAmount), ctx)
    } else {
        (
            Ok(()),
            UpdateRewardRate {
                pool: Pool {
                    reward_rate_per_second: new_rate.per_second,
                    ..ctx.pool.accrued_at(now)
                },
                ..ctx
            },
        )
    }
}

/// Changes the pool's reward rate; on `Err` the accounts are left as they were.
pub fn handle_update_reward_rate(
    ctx: &mut UpdateRewardRate,
    current_timestamp: i64,
    new_rate: RewardRate,
) -> (r: Result<(), StakingError>)
    requires
        old(ctx).fits_at(current_timestamp, new_rate),
    ensures
        (r, *final(ctx)) == update_reward_rate_outcome(*old(ctx), current_timestamp, new_rate),
        r is Err ==> *final(ctx) == *old(ctx),
{
    match ctx.validate() {
        Err(e) => {
            return Err(e);
        },
        Ok(()) => {},
    }
    if ctx.pool.is_paused {
        return Err(StakingError::Paused);
    }
    if !new_rate.is_nonzero {
        return Err(StakingError::InvalidRateAmount);
    }
    ctx.pool.update_accrued_rewards_per_share(current_timestamp);
    ctx.pool.reward_rate_per_second = new_rate.per_second;
    Ok(())
}

} // verus!
