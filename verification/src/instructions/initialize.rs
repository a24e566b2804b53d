use crate::key::Pubkey;
use crate::states::pool::Pool;
use vstd::prelude::*;

verus! {

/// What pool initialisation reads: the signer, the addresses of the mints
/// and vaults that were created or passed in, and the bump seeds found for
/// the pool and its vaults.
#[derive(Clone, Copy, Debug, PartialEq, Eq)]
pub struct InitializePool {
    pub signer: Pubkey,
    pub staked_token_mint: Pubkey,
    pub staked_token_vault: Pubkey,
    pub reward_token_mint: Pubkey,
    pub reward_token_vault: Pubkey,
    pub lst_token_mint: Pubkey,
    pub lst_token_vault: Pubkey,
    pub pool_bump: u8,
    pub staked_token_vault_bump: u8,
    pub reward_token_vault_bump: u8,
    pub lst_token_vault_bump: u8,
}

/// The pool that initialisation creates: the signer becomes its authority, it
/// records the passed mints, vaults and bumps, and it starts empty, unpaused,
/// with a zero accumulator and the given rate.
pub open spec fn initialized_pool(ctx: InitializePool, rate_per_second: u64) -> Pool {
    Pool {
        authority: ctx.signer,
        reward_token_mint: ctx.reward_token_mint,
        staked_token_mint: ctx.staked_token_mint,
        lst_token_mint: ctx.lst_token_mint,
        reward_token_vault: ctx.reward_token_vault,
        staked_token_vault: ctx.staked_token_vault,
        lst_token_vault: ctx.lst_token_vault,
        total_staked_amount: 0,
        reward_rate_per_second: rate_per_second as u128,
        accrued_reward_per_share: 0,
        last_reward_update_timestamp: 0,
        reward_vault_bump: ctx.reward_token_vault_bump,
        staked_vault_bump: ctx.staked_token_vault_bump,
        lst_vault_bump: ctx.lst_token_vault_bump,
        is_paused: false,
        bump: ctx.pool_bump,
    }
}

/// Creates the pool's state.
pub fn handle_initialize_pool(ctx: &InitializePool, rate_per_second: u64) -> (pool: Pool)
    ensures
        pool == initialized_pool(*ctx, rate_per_second),
{
    Pool {
        authority: ctx.signer,
        reward_token_mint: ctx.reward_token_mint,
        staked_token_mint: ctx.staked_token_mint,
        lst_token_mint: ctx.lst_token_mint,
        reward_token_vault: ctx.reward_token_vault,
        staked_token_vault: ctx.staked_token_vault,
        lst_token_vault: ctx.lst_token_vault,
        total_staked_amount: 0,
        reward_rate_per_second: rate_per_second as u128,
        accrued_reward_per_share: 0,
        last_reward_update_timestamp: 0,
        reward_vault_bump: ctx.reward_token_vault_bump,
        staked_vault_bump: ctx.staked_token_vault_bump,
        lst_vault_bump: ctx.lst_token_vault_bump,
        is_paused: false,
        bump: ctx.pool_bump,
    }
}

} // verus!
