use crate::error::StakingError;
use crate::key::Pubkey;
use crate::states::pool::Pool;
use vstd::prelude::*;

verus! {

/// What the funding instruction reads: the signer, the pool and the balance
/// of the signer's reward token account.
#[derive(Clone, Copy, Debug, PartialEq, Eq)]
pub struct FundRewardPool {
    pub signer: Pubkey,
    pub pool: Pool,
    pub admin_reward_token_amount: u64,
}

impl FundRewardPool {
    /// The first account check that fails, if any: only the pool's authority
    /// may fund it.
    pub open spec fn accounts_error(self) -> Option<StakingError> {
        if self.pool.authority@ != self.signer@ {
            Some(StakingError::Unauthorized)
        } else {
            None
        }
    }

    /// Checks that the signer is the pool's authority.
    pub fn validate(&self) -> (r: Result<(), StakingError>)
        ensures
            r is Ok <==> self.accounts_error() is None,
            r matches Err(e) ==> self.accounts_error() == Some(e),
    {
        if !self.pool.authority.matches(&self.signer) {
            return Err(StakingError::Unauthorized);
        }
        Ok(())
    }

    /// The handler gets past its checks and reaches the reward arithmetic.
    pub open spec fn reaches_accrual(self, amount: u64) -> bool {
        &&& self.accounts_error() is None
        &&& !self.pool.is_paused
        &&& amount > 0
        &&& self.admin_reward_token_amount >= amount
    }

    /// Funding at `now` stays within the integer bounds of the arithmetic.
    pub open spec fn fits_at(self, now: i64, amount: u64) -> bool {
        self.reaches_accrual(amount) ==> self.pool.accrual_fits(now)
    }

    /// Whether `handle_fund_reward_pool` at `current_timestamp` stays within bounds.
    pub fn fits(&self, current_timestamp: i64, amount: u64) -> (fits: bool)
        ensures
            fits == self.fits_at(current_timestamp, amount),
    {
        if self.validate().is_err() || self.pool.is_paused || amount == 0
            || self.admin_reward_token_amount < amount {
            return true;
        }
        self.pool.accrual_fits_at(current_timestamp)
    }
}

/// Result and accounts after funding the reward vault with `amount` at `now`:
/// the pool accrues up to `now` and records nothing else.
pub open spec fn fund_reward_pool_outcome(ctx: FundRewardPool, now: i64, amount: u64) -> (Result<u64, StakingError>, FundRewardPool) {
    if ctx.accounts_error() is Some {
        (Err(ctx.accounts_error()->0), ctx)
    } else if ctx.pool.is_paused {
        (Err(StakingError::Paused), ctx)
    } else if amount == 0 {
        (Err(StakingError::ZeroStakeAmount), ctx)
    } else if ctx.admin_reward_token_amount < amount {
        (Err(StakingError::InsufficientFunds), ctx)
    } else {
        (Ok(amount), FundRewardPool { pool: ctx.pool.accrued_at(now), ..ctx })
    }
}

/// Adds reward tokens to the reward vault.
///
/// On `Ok(amount)` the runtime transfers `amount` reward tokens from the
/// signer's reward token account to the reward vault; on `Err` the accounts
/// are left as they were.
pub fn handle_fund_reward_pool(ctx: &mut FundRewardPool, current_timestamp: i64, amount: u64) -> (r:
    Result<u64, StakingError>)
    requires
        old(ctx).fits_at(current_timestamp, amount),
    ensures
        (r, *final(ctx)) == fund_reward_pool_outcome(*old(ctx), current_timestamp, amount),
        r is Err ==> *final(ctx) == *old(ctx),
        r matches Ok(moved) ==> moved == amount,
{
    match ctx.validate() {
        Err(e) => {
            return Err(e);
        },
        Ok(()) => {},
    }
    if ctx.pool.is_paused {
        return Err(StakingError::Paused);
    }
    if amount == 0 {
        return Err(StakingError::ZeroStakeAmount);
    }
    if ctx.admin_reward_token_amount < amount {
        return Err(StakingError::InsufficientFunds);
    }
    ctx.pool.update_accrued_rewards_per_share(current_timestamp);
    Ok(amount)
}

} // verus!
