use crate::error::StakingError;
use crate::key::Pubkey;
use crate::states::pool::Pool;
use vstd::prelude::*;

verus! {

/// The first failing check of the staking-side accounts against the pool's
/// records: the staked mint, then the staked-token vault, then the LST mint.
pub open spec fn staking_accounts_error(
    pool: Pool,
    staked_token_mint: Pubkey,
    staked_token_vault: Pubkey,
    lst_token_mint: Pubkey,
) -> Option<StakingError> {
    if staked_token_mint@ != pool.staked_token_mint@ {
        Some(StakingError::InvalidStakingMint)
    } else if staked_token_vault@ != pool.staked_token_vault@ {
        Some(StakingError::InvalidStakedVault)
    } else if lst_token_mint@ != pool.lst_token_mint@ {
        Some(StakingError::InvalidLSTMint)
    } else {
        None
    }
}

/// Checks the staked mint, the staked-token vault and the LST mint that were
/// passed in against the ones the pool records, in that order.
pub(crate) fn check_staking_accounts(
    pool: &Pool,
    staked_token_mint: &Pubkey,
    staked_token_vault: &Pubkey,
    lst_token_mint: &Pubkey,
) -> (r: Result<(), StakingError>)
    ensures
        r is Ok <==> staking_accounts_error(
            *pool,
            *staked_token_mint,
            *staked_token_vault,
            *lst_token_mint,
        ) is None,
        r matches Err(e) ==> staking_accounts_error(
            *pool,
            *staked_token_mint,
            *staked_token_vault,
            *lst_token_mint,
        ) == Some(e),
{
    if !staked_token_mint.matches(&pool.staked_token_mint) {
        return Err(StakingError::InvalidStakingMint);
    }
    if !staked_token_vault.matches(&pool.staked_token_vault) {
        return Err(StakingError::InvalidStakedVault);
    }
    if !lst_token_mint.matches(&pool.lst_token_mint) {
        return Err(StakingError::InvalidLSTMint);
    }
    Ok(())
}

/// What the stake instruction reads.
#[derive(Clone, Copy, Debug, PartialEq, Eq)]
pub struct Stake {
    pub signer: Pubkey,
    pub pool: Pool,
    pub staked_token_mint: Pubkey,
    pub staked_token_vault: Pubkey,
    pub lst_token_mint: Pubkey,
}

impl Stake {
    /// The first account check that fails, if any.
    pub open spec fn accounts_error(self) -> Option<StakingError> {
        staking_accounts_error(
            self.pool,
            self.staked_token_mint,
            self.staked_token_vault,
            self.lst_token_mint,
        )
    }

    /// Checks the passed accounts against the pool's records.
    pub fn validate(&self) -> (r: Result<(), StakingError>)
        ensures
            r is Ok <==> self.accounts_error() is None,
            r matches Err(e) ==> self.accounts_error() == Some(e),
    {
        check_staking_accounts(
            &self.pool,
            &self.staked_token_mint,
            &self.staked_token_vault,
            &self.lst_token_mint,
        )
    }
}

/// The stake instruction: it checks its accounts and records nothing, and
/// moves no tokens.
pub fn handle_stake(ctx: &Stake) -> (r: Result<(), StakingError>)
    ensures
        r is Ok <==> ctx.accounts_error() is None,
        r matches Err(e) ==> ctx.accounts_error() == Some(e),
{
    ctx.validate()
}

} // verus!
