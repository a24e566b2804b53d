use crate::error::StakingError;
use crate::instructions::stake::{check_staking_accounts, staking_accounts_error};
use crate::key::Pubkey;
use crate::states::pool::Pool;
use crate::states::user::UserStakeInfo;
use vstd::prelude::*;

verus! {

/// What the unstake instruction reads: the signer, the pool, the signer's
/// position, the staking-side account addresses that were passed in and the
/// LST balance of the signer's LST token account.
#[derive(Clone, Copy, Debug, PartialEq, Eq)]
pub struct Unstake {
    pub signer: Pubkey,
    pub pool: Pool,
    pub user_stake_info: UserStakeInfo,
    pub staked_token_mint: Pubkey,
    pub staked_token_vault: Pubkey,
    pub lst_token_mint: Pubkey,
    pub user_lst_token_amount: u64,
}

impl Unstake {
    /// The first account check that fails, if any.
    pub open spec fn accounts_error(self) -> Option<StakingError> {
        staking_accounts_error(
            self.pool,
            self.staked_token_mint,
            self.staked_token_vault,
            self.lst_token_mint,
        )
    }

    /// Checks the passed accounts against the pool's records.
    pub fn validate(&self) -> (r: Result<(), StakingError>)
        ensures
            r is Ok <==> self.accounts_error() is None,
            r matches Err(e) ==> self.accounts_error() == Some(e),
    {
        check_staking_accounts(
            &self.pool,
            &self.staked_token_mint,
            &self.staked_token_vault,
            &self.lst_token_mint,
        )
    }

    /// Unstaking at `now` stays within the integer bounds of the arithmetic.
    pub open spec fn fits_at(self, now: i64) -> bool {
        self.accounts_error() is None ==> {
            &&& self.pool.accrual_fits(now)
            &&& self.user_stake_info.claim_fits(
                self.pool.accrued_at(now).accrued_reward_per_share,
            )
        }
    }

    /// Whether `handle_unstake` at `current_timestamp` stays within bounds.
    pub fn fits(&self, current_timestamp: i64) -> (fits: bool)
        ensures
            fits == self.fits_at(current_timestamp),
    {
        if self.validate().is_err() {
            return true;
        }
        if !self.pool.accrual_fits_at(current_timestamp) {
            return false;
        }
        let mut pool = self.pool;
        pool.update_accrued_rewards_per_share(current_timestamp);
        self.user_stake_info.claim_fits_with(pool.accrued_reward_per_share)
    }
}

/// Result and accounts after unstaking `amount` at `now`.
///
/// The pool accrues up to `now` and the staker's earned rewards move into
/// `pending_rewards`; then `amount` leaves both the staker's position and the
/// pool's total.
pub open spec fn unstake_outcome(ctx: Unstake, now: i64, amount: u64) -> (Result<u64, StakingError>, Unstake) {
    if ctx.accounts_error() is Some {
        (Err(ctx.accounts_error()->0), ctx)
    } else {
        let pool = ctx.pool.accrued_at(now);
        let user = ctx.user_stake_info.claimed_at(pool.accrued_reward_per_share);
        if user.staked_amount < amount {
            (Err(StakingError::InsufficientAmount), ctx)
        } else if ctx.user_lst_token_amount < amount {
            (Err(StakingError::InsufficientLSTAmount), ctx)
        } else if pool.total_staked_amount < amount {
            (Err(StakingError::MathOverflow), ctx)
        } else {
            (
                Ok(amount),
                Unstake {
                    pool: Pool {
                        total_staked_amount: (pool.total_staked_amount - amount) as u64,
                        ..pool
                    },
                    user_stake_info: UserStakeInfo {
                        staked_amount: (user.staked_amount - amount) as u64,
                        reward_debt: pool.accrued_reward_per_share,
                        ..user
                    },
                    ..ctx
                },
            )
        }
    }
}

/// Withdraws `amount` staked tokens for the signer.
///
/// On `Ok(amount)` the runtime burns `amount` LST from the signer's LST
/// account and transfers `amount` staked tokens from the staked vault to the
/// signer; on `Err` the accounts are left as they were.
pub fn handle_unstake(ctx: &mut Unstake, current_timestamp: i64, amount: u64) -> (r: Result<
    u64,
    StakingError,
>)
    requires
        old(ctx).fits_at(current_timestamp),
    ensures
        (r, *final(ctx)) == unstake_outcome(*old(ctx), current_timestamp, amount),
        r is Err ==> *final(ctx) == *old(ctx),
        r matches Ok(moved) ==> moved == amount,
{
    match ctx.validate() {
        Err(e) => {
            return Err(e);
        },
        Ok(()) => {},
    }
    let mut pool = ctx.pool;
    let mut user_stake_info = ctx.user_stake_info;
    pool.update_accrued_rewards_per_share(current_timestamp);
    user_stake_info.claim_accrued_rewards(&pool);
    if user_stake_info.staked_amount < amount {
        return Err(StakingError::InsufficientAmount);
    }
    if ctx.user_lst_token_amount < amount {
        return Err(StakingError::InsufficientLSTAmount);
    }
    user_stake_info.staked_amount = match user_stake_info.staked_amount.checked_sub(amount) {
        Some(left) => left,
        None => {
            return Err(StakingError::MathOverflow);
        },
    };
    user_stake_info.reward_debt = pool.accrued_reward_per_share;
    pool.total_staked_amount = match pool.total_staked_amount.checked_sub(amount) {
        Some(left) => left,
        None => {
            return Err(StakingError::MathOverflow);
        },
    };
    ctx.pool = pool;
    ctx.user_stake_info = user_stake_info;
    Ok(amount)
}

} // verus!
