//! Properties that span several instructions.
use crate::error::StakingError;
use crate::instructions::claim::{claim_reward_outcome, ClaimReward};
use crate::instructions::fund::{fund_reward_pool_outcome, FundRewardPool};
use crate::instructions::initialize::{initialized_pool, InitializePool};
use crate::instructions::pause::{pause_outcome, Pause};
use crate::instructions::stake::Stake;
use crate::instructions::rate::{update_reward_rate_outcome, RewardRate, UpdateRewardRate};
use crate::instructions::unpause::{unpause_outcome, Unpause};
use crate::instructions::unstake::{unstake_outcome, Unstake};
use crate::key::Pubkey;
use crate::states::pool::Pool;
use crate::states::user::UserStakeInfo;
use vstd::prelude::*;

verus! {

/// Only the pool's authority can pause, unpause, fund the pool or change its
/// rate: any other signer is refused with `Unauthorized`.
pub proof fn lemma_only_authority_administers(
    pool: Pool,
    signer: Pubkey,
    admin_reward_token_amount: u64,
    now: i64,
    amount: u64,
    new_rate: RewardRate,
)
    requires
        signer@ != pool.authority@,
    ensures
        pause_outcome(Pause { signer, pool }).0 == Err::<(), StakingError>(
            StakingError::Unauthorized,
        ),
        unpause_outcome(Unpause { signer, pool }).0 == Err::<(), StakingError>(
            StakingError::Unauthorized,
        ),
        fund_reward_pool_outcome(
            FundRewardPool { signer, pool, admin_reward_token_amount },
            now,
            amount,
        ).0 == Err::<u64, StakingError>(StakingError::Unauthorized),
        update_reward_rate_outcome(UpdateRewardRate { signer, pool }, now, new_rate).0 == Err::<
            (),
            StakingError,
        >(StakingError::Unauthorized),
{
}

/// While the pool is paused (and its accounts check out) claims, funding and
/// rate changes are refused with `Paused`.
pub proof fn lemma_paused_pool_refuses_reward_operations(
    claim: ClaimReward,
    fund: FundRewardPool,
    rate: UpdateRewardRate,
    now: i64,
    amount: u64,
    new_rate: RewardRate,
)
    requires
        claim.pool.is_paused,
        claim.accounts_error() is None,
        fund.pool.is_paused,
        fund.accounts_error() is None,
        rate.pool.is_paused,
        rate.accounts_error() is None,
    ensures
        claim_reward_outcome(claim, now).0 == Err::<u64, StakingError>(StakingError::Paused),
        fund_reward_pool_outcome(fund, now, amount).0 == Err::<u64, StakingError>(
            StakingError::Paused,
        ),
        update_reward_rate_outcome(rate, now, new_rate).0 == Err::<(), StakingError>(
            StakingError::Paused,
        ),
{
}

/// A paused pool stays paused: unpausing it is refused with
/// `AlreadyPaused` (or `Unauthorized`), and no instruction clears the flag.
pub proof fn lemma_pause_is_permanent(
    claim: ClaimReward,
    fund: FundRewardPool,
    rate: UpdateRewardRate,
    pause: Pause,
    unpause: Unpause,
    unstake: Unstake,
    now: i64,
    amount: u64,
    new_rate: RewardRate,
)
    requires
        claim.pool.is_paused,
        fund.pool.is_paused,
        rate.pool.is_paused,
        pause.pool.is_paused,
        unpause.pool.is_paused,
        unstake.pool.is_paused,
    ensures
        unpause_outcome(unpause).0 is Err,
        unpause.pool.authority@ == unpause.signer@ ==> unpause_outcome(unpause).0 == Err::<
            (),
            StakingError,
        >(StakingError::AlreadyPaused),
        unpause_outcome(unpause).1.pool.is_paused,
        pause_outcome(pause).1.pool.is_paused,
        claim_reward_outcome(claim, now).1.pool.is_paused,
        fund_reward_pool_outcome(fund, now, amount).1.pool.is_paused,
        update_reward_rate_outcome(rate, now, new_rate).1.pool.is_paused,
        unstake_outcome(unstake, now, amount).1.pool.is_paused,
{
}

/// Right after a successful claim, a second claim at the same time finds
/// nothing to pay and is refused with `NoRewardsToClaim`.
pub proof fn lemma_no_double_claim(ctx: ClaimReward, now: i64)
    requires
        claim_reward_outcome(ctx, now).0 is Ok,
    ensures
        claim_reward_outcome(claim_reward_outcome(ctx, now).1, now).0 == Err::<u64, StakingError>(
            StakingError::NoRewardsToClaim,
        ),
{
    let after = claim_reward_outcome(ctx, now).1;
    let pool = after.pool;
    assert(pool.accrued_at(now) == pool);
    let user = after.user_stake_info;
    assert(user.reward_per_share_owed(pool.accrued_reward_per_share) == 0);
    assert(user.staked_amount * 0 == 0) by (nonlinear_arith);
}

/// A successful unstake of `amount` takes `amount` from both the staker's
/// position and the pool's total, so their difference is unchanged, and the
/// rewards earned up to then stay pending for the staker.
pub proof fn lemma_unstake_moves_stake_out_of_both(ctx: Unstake, now: i64, amount: u64)
    requires
        unstake_outcome(ctx, now, amount).0 is Ok,
    ensures
        ({
            let after = unstake_outcome(ctx, now, amount).1;
            let synced_pool = ctx.pool.accrued_at(now);
            let synced_user = ctx.user_stake_info.claimed_at(
                synced_pool.accrued_reward_per_share,
            );
            &&& after.pool.total_staked_amount == synced_pool.total_staked_amount - amount
            &&& after.user_stake_info.staked_amount == ctx.user_stake_info.staked_amount - amount
            &&& after.pool.total_staked_amount - after.user_stake_info.staked_amount
                == ctx.pool.total_staked_amount - ctx.user_stake_info.staked_amount
            &&& after.user_stake_info.pending_rewards == synced_user.pending_rewards
            &&& after.user_stake_info.reward_debt == synced_pool.accrued_reward_per_share
        }),
{
}

/// A rate change is not retroactive: the seconds before it accrue at the old
/// rate, and the new rate only applies from the time of the change on.
pub proof fn lemma_rate_change_not_retroactive(
    ctx: UpdateRewardRate,
    now: i64,
    new_rate: RewardRate,
    later: i64,
)
    requires
        update_reward_rate_outcome(ctx, now, new_rate).0 is Ok,
        ctx.pool.total_staked_amount > 0,
        ctx.pool.last_reward_update_timestamp <= now <= later,
        later - ctx.pool.last_reward_update_timestamp <= i64::MAX,
        ctx.pool.accrual_fits(now),
        update_reward_rate_outcome(ctx, now, new_rate).1.pool.accrual_fits(later),
    ensures
        ({
            let changed = update_reward_rate_outcome(ctx, now, new_rate).1.pool;
            &&& changed.reward_rate_per_second == new_rate.per_second
            &&& changed.accrued_reward_per_share == ctx.pool.accrued_reward_per_share
                + ctx.pool.reward_rate_per_second * (now - ctx.pool.last_reward_update_timestamp)
            &&& changed.accrued_at(later).accrued_reward_per_share
                == changed.accrued_reward_per_share + new_rate.per_second * (later - now)
        }),
{
    crate::states::pool::lemma_accrual_adds_rate_times_elapsed(ctx.pool, now);
    let changed = update_reward_rate_outcome(ctx, now, new_rate).1.pool;
    crate::states::pool::lemma_accrual_adds_rate_times_elapsed(changed, later);
}


/// A claim whose accounts check out on a running pool pays exactly the
/// staker's pending rewards after synchronising with the pool accrued to
/// `now`, whenever that amount is positive, whatever the staked amount; it is
/// refused with `NoRewardsToClaim` exactly when that amount is zero. In
/// particular a position with nothing staked is paid its recorded pending
/// rewards, and a paid claim leaves nothing pending and the stake as it was.
pub proof fn lemma_claim_pays_whatever_is_pending(ctx: ClaimReward, now: i64)
    requires
        ctx.accounts_error() is None,
        !ctx.pool.is_paused,
    ensures
        ({
            let pending = ctx.user_stake_info.claimed_at(
                ctx.pool.accrued_at(now).accrued_reward_per_share,
            ).pending_rewards;
            let (r, after) = claim_reward_outcome(ctx, now);
            &&& pending > 0 ==> r == Ok::<u64, StakingError>(pending)
            &&& pending > 0 ==> after.user_stake_info.pending_rewards == 0
            &&& pending > 0 ==> after.user_stake_info.staked_amount
                == ctx.user_stake_info.staked_amount
            &&& pending > 0 ==> after.pool.total_staked_amount == ctx.pool.total_staked_amount
            &&& pending == 0 ==> r == Err::<u64, StakingError>(StakingError::NoRewardsToClaim)
        }),
        ctx.user_stake_info.staked_amount == 0 && ctx.user_stake_info.pending_rewards > 0
            ==> claim_reward_outcome(ctx, now).0 == Ok::<u64, StakingError>(
            ctx.user_stake_info.pending_rewards,
        ),
        ctx.user_stake_info.staked_amount == 0 && ctx.user_stake_info.pending_rewards == 0
            ==> claim_reward_outcome(ctx, now).0 == Err::<u64, StakingError>(
            StakingError::NoRewardsToClaim,
        ),
{
}

/// An unstake whose accounts check out succeeds with `Ok(amount)` whenever
/// `amount` is at most the staked amount, the LST balance and the pool's
/// total, including an amount equal to the pool's whole total; the amount
/// then leaves both the position and the pool's total. Otherwise it is
/// refused, with the first failing bound's error.
pub proof fn lemma_unstake_succeeds_within_bounds(ctx: Unstake, now: i64, amount: u64)
    requires
        ctx.accounts_error() is None,
    ensures
        ({
            let (r, after) = unstake_outcome(ctx, now, amount);
            let staked = ctx.user_stake_info.staked_amount;
            let total = ctx.pool.total_staked_amount;
            &&& (amount <= staked && amount <= ctx.user_lst_token_amount && amount <= total) ==> {
                &&& r == Ok::<u64, StakingError>(amount)
                &&& after.user_stake_info.staked_amount == staked - amount
                &&& after.pool.total_staked_amount == total - amount
            }
            &&& staked < amount ==> r == Err::<u64, StakingError>(
                StakingError::InsufficientAmount,
            )
            &&& (amount <= staked && ctx.user_lst_token_amount < amount) ==> r == Err::<
                u64,
                StakingError,
            >(StakingError::InsufficientLSTAmount)
            &&& (amount <= staked && amount <= ctx.user_lst_token_amount && total < amount)
                ==> r == Err::<u64, StakingError>(StakingError::MathOverflow)
        }),
{
}

/// A rate update that succeeds sets the pool's rate to the requested whole
/// rate, whatever is staked; it succeeds exactly when the signer is the
/// authority, the pool is running and the request is nonzero. The stake
/// total, the authority and the paused flag are left as they were.
pub proof fn lemma_rate_update_sets_the_rate(ctx: UpdateRewardRate, now: i64, new_rate: RewardRate)
    ensures
        ({
            let (r, after) = update_reward_rate_outcome(ctx, now, new_rate);
            &&& r is Ok <==> (ctx.accounts_error() is None && !ctx.pool.is_paused
                && new_rate.is_nonzero)
            &&& r is Ok ==> after.pool.reward_rate_per_second == new_rate.per_second
            &&& after.pool.total_staked_amount == ctx.pool.total_staked_amount
            &&& after.pool.authority == ctx.pool.authority
            &&& after.pool.is_paused == ctx.pool.is_paused
        }),
{
}

/// Funding by the authority of a running pool with
/// `0 < amount <= admin balance` succeeds with `Ok(amount)` whatever is
/// staked (an empty pool included), and changes nothing in the pool but its
/// accumulator and update time; the accumulator does not decrease.
pub proof fn lemma_fund_succeeds_within_balance(ctx: FundRewardPool, now: i64, amount: u64)
    requires
        ctx.accounts_error() is None,
        !ctx.pool.is_paused,
        0 < amount <= ctx.admin_reward_token_amount,
        ctx.pool.accrual_fits(now),
    ensures
        ({
            let (r, after) = fund_reward_pool_outcome(ctx, now, amount);
            &&& r == Ok::<u64, StakingError>(amount)
            &&& after.pool == (Pool {
                accrued_reward_per_share: after.pool.accrued_reward_per_share,
                last_reward_update_timestamp: after.pool.last_reward_update_timestamp,
                ..ctx.pool
            })
            &&& after.pool.accrued_reward_per_share >= ctx.pool.accrued_reward_per_share
            &&& after.admin_reward_token_amount == ctx.admin_reward_token_amount
        }),
{
    crate::states::pool::lemma_accrual_never_decreases(ctx.pool, now);
}

/// Initialisation makes the signer the authority, records the passed
/// accounts and bumps, keeps the given rate unchanged, and starts with
/// nothing staked, a zero accumulator and the pool running.
pub proof fn lemma_initialize_records_its_inputs(ctx: InitializePool, rate_per_second: u64)
    ensures
        ({
            let pool = initialized_pool(ctx, rate_per_second);
            &&& pool.reward_rate_per_second == rate_per_second as int
            &&& pool.authority@ == ctx.signer@
            &&& pool.reward_token_mint@ == ctx.reward_token_mint@
            &&& pool.staked_token_mint@ == ctx.staked_token_mint@
            &&& pool.lst_token_mint@ == ctx.lst_token_mint@
            &&& pool.reward_token_vault@ == ctx.reward_token_vault@
            &&& pool.staked_token_vault@ == ctx.staked_token_vault@
            &&& pool.lst_token_vault@ == ctx.lst_token_vault@
            &&& pool.total_staked_amount == 0
            &&& pool.accrued_reward_per_share == 0
            &&& pool.last_reward_update_timestamp == 0
            &&& !pool.is_paused
            &&& pool.bump == ctx.pool_bump
            &&& pool.reward_vault_bump == ctx.reward_token_vault_bump
            &&& pool.staked_vault_bump == ctx.staked_token_vault_bump
            &&& pool.lst_vault_bump == ctx.lst_token_vault_bump
        }),
{
}


/// The staking-side account checks (shared by staking and unstaking) pass
/// exactly when the passed staked mint, staked vault and LST mint are the
/// pool's; the first mismatch, in that order, decides the error.
pub proof fn lemma_staking_accounts_are_the_pools(ctx: Stake, unstake: Unstake)
    ensures
        ctx.accounts_error() is None <==> (ctx.staked_token_mint@ == ctx.pool.staked_token_mint@
            && ctx.staked_token_vault@ == ctx.pool.staked_token_vault@ && ctx.lst_token_mint@
            == ctx.pool.lst_token_mint@),
        ctx.staked_token_mint@ != ctx.pool.staked_token_mint@ ==> ctx.accounts_error() == Some(
            StakingError::InvalidStakingMint,
        ),
        (ctx.staked_token_mint@ == ctx.pool.staked_token_mint@ && ctx.staked_token_vault@
            != ctx.pool.staked_token_vault@) ==> ctx.accounts_error() == Some(
            StakingError::InvalidStakedVault,
        ),
        (ctx.staked_token_mint@ == ctx.pool.staked_token_mint@ && ctx.staked_token_vault@
            == ctx.pool.staked_token_vault@ && ctx.lst_token_mint@ != ctx.pool.lst_token_mint@)
            ==> ctx.accounts_error() == Some(StakingError::InvalidLSTMint),
        unstake.accounts_error() == (Stake {
            signer: unstake.signer,
            pool: unstake.pool,
            staked_token_mint: unstake.staked_token_mint,
            staked_token_vault: unstake.staked_token_vault,
            lst_token_mint: unstake.lst_token_mint,
        }).accounts_error(),
{
}

/// A claim is refused with `InvalidRewardTokenMint` when the passed reward
/// mint is not the pool's, then with `Paused` on a paused pool; a refused
/// claim changes nothing, and a paid claim leaves the pool accrued to `now`,
/// the position synchronised with it (debt at the new accumulator, owner,
/// stake, time and bump unchanged) and the other accounts unchanged.
pub proof fn lemma_claim_decides(ctx: ClaimReward, now: i64)
    ensures
        ({
            let (r, after) = claim_reward_outcome(ctx, now);
            let pool = ctx.pool.accrued_at(now);
            &&& ctx.reward_token_mint@ != ctx.pool.reward_token_mint@ ==> r == Err::<
                u64,
                StakingError,
            >(StakingError::InvalidRewardTokenMint)
            &&& (ctx.reward_token_mint@ == ctx.pool.reward_token_mint@ && ctx.pool.is_paused)
                ==> r == Err::<u64, StakingError>(StakingError::Paused)
            &&& r is Err ==> after == ctx
            &&& r is Ok ==> {
                &&& after.pool == pool
                &&& after.user_stake_info == (UserStakeInfo {
                    pending_rewards: 0,
                    reward_debt: pool.accrued_reward_per_share,
                    ..ctx.user_stake_info
                })
                &&& after.signer == ctx.signer
                &&& after.reward_token_mint == ctx.reward_token_mint
            }
        }),
{
}

/// A successful unstake leaves the pool accrued to `now` with `amount` less
/// staked, and the position with `amount` less staked, its debt at the new
/// accumulator, the rewards earned so far pending, and owner, time and bump
/// unchanged; a refused one changes nothing.
pub proof fn lemma_unstake_decides(ctx: Unstake, now: i64, amount: u64)
    ensures
        ({
            let (r, after) = unstake_outcome(ctx, now, amount);
            let pool = ctx.pool.accrued_at(now);
            let synced = ctx.user_stake_info.claimed_at(pool.accrued_reward_per_share);
            &&& r is Err ==> after == ctx
            &&& r is Ok ==> {
                &&& after.pool == (Pool {
                    total_staked_amount: (ctx.pool.total_staked_amount - amount) as u64,
                    ..pool
                })
                &&& after.user_stake_info == (UserStakeInfo {
                    staked_amount: (ctx.user_stake_info.staked_amount - amount) as u64,
                    pending_rewards: synced.pending_rewards,
                    reward_debt: pool.accrued_reward_per_share,
                    ..ctx.user_stake_info
                })
                &&& after.user_lst_token_amount == ctx.user_lst_token_amount
                &&& after.signer == ctx.signer
            }
        }),
{
}

/// Funding is refused, in this order, with `Unauthorized` when the signer is
/// not the authority, `Paused` on a paused pool, `ZeroStakeAmount` for a zero
/// amount and `InsufficientFunds` when the signer's balance is below the
/// amount; a refusal changes nothing, and a success only accrues the pool
/// to `now`.
pub proof fn lemma_fund_decides(ctx: FundRewardPool, now: i64, amount: u64)
    ensures
        ({
            let (r, after) = fund_reward_pool_outcome(ctx, now, amount);
            let authorized = ctx.signer@ == ctx.pool.authority@;
            &&& !authorized ==> r == Err::<u64, StakingError>(StakingError::Unauthorized)
            &&& (authorized && ctx.pool.is_paused) ==> r == Err::<u64, StakingError>(
                StakingError::Paused,
            )
            &&& (authorized && !ctx.pool.is_paused && amount == 0) ==> r == Err::<
                u64,
                StakingError,
            >(StakingError::ZeroStakeAmount)
            &&& (authorized && !ctx.pool.is_paused && amount > 0 && ctx.admin_reward_token_amount
                < amount) ==> r == Err::<u64, StakingError>(StakingError::InsufficientFunds)
            &&& (authorized && !ctx.pool.is_paused && amount > 0 && ctx.admin_reward_token_amount
                >= amount) ==> r == Ok::<u64, StakingError>(amount)
            &&& r is Err ==> after == ctx
            &&& r is Ok ==> after == (FundRewardPool { pool: ctx.pool.accrued_at(now), ..ctx })
        }),
{
}

/// A rate update is refused, in this order, with `Unauthorized`, `Paused`
/// and `InvalidRateAmount` (zero request); a refusal changes nothing, and a
/// success accrues the pool to `now` at the old rate and then installs the
/// requested whole rate.
pub proof fn lemma_rate_update_decides(ctx: UpdateRewardRate, now: i64, new_rate: RewardRate)
    ensures
        ({
            let (r, after) = update_reward_rate_outcome(ctx, now, new_rate);
            let authorized = ctx.signer@ == ctx.pool.authority@;
            &&& !authorized ==> r == Err::<(), StakingError>(StakingError::Unauthorized)
            &&& (authorized && ctx.pool.is_paused) ==> r == Err::<(), StakingError>(
                StakingError::Paused,
            )
            &&& (authorized && !ctx.pool.is_paused && !new_rate.is_nonzero) ==> r == Err::<
                (),
                StakingError,
            >(StakingError::InvalidRateAmount)
            &&& r is Err ==> after == ctx
            &&& r is Ok ==> after == (UpdateRewardRate {
                pool: Pool {
                    reward_rate_per_second: new_rate.per_second,
                    ..ctx.pool.accrued_at(now)
                },
                ..ctx
            })
        }),
{
}

/// Pausing succeeds exactly when the signer is the authority and the pool
/// is running, and then only sets the paused flag; unpausing succeeds under
/// the same condition and then leaves the pool exactly as it was.
pub proof fn lemma_pause_and_unpause_decide(pause: Pause, unpause: Unpause)
    ensures
        pause_outcome(pause).0 is Ok <==> (pause.signer@ == pause.pool.authority@
            && !pause.pool.is_paused),
        pause_outcome(pause).0 is Ok ==> pause_outcome(pause).1 == (Pause {
            pool: Pool { is_paused: true, ..pause.pool },
            ..pause
        }),
        pause_outcome(pause).0 is Err ==> pause_outcome(pause).1 == pause,
        unpause_outcome(unpause).0 is Ok <==> (unpause.signer@ == unpause.pool.authority@
            && !unpause.pool.is_paused),
        unpause_outcome(unpause).1 == unpause,
{
}

/// The overflow conditions only bite where arithmetic is reached: a claim,
/// unstake, funding or rate update refused by its checks always fits, and
/// one that reaches the arithmetic fits exactly when the accrual and the
/// staker's synchronisation fit.
pub proof fn lemma_refusals_always_fit(
    claim: ClaimReward,
    unstake: Unstake,
    fund: FundRewardPool,
    rate: UpdateRewardRate,
    now: i64,
    amount: u64,
    new_rate: RewardRate,
)
    ensures
        claim_reward_outcome(claim, now).0 != Err::<u64, StakingError>(
            StakingError::NoRewardsToClaim,
        ) && claim_reward_outcome(claim, now).0 is Err ==> claim.fits_at(now),
        claim.fits_at(now) <== (claim.pool.accrual_fits(now)
            && claim.user_stake_info.claim_fits(
            claim.pool.accrued_at(now).accrued_reward_per_share,
        )),
        unstake.accounts_error() is Some ==> unstake.fits_at(now),
        unstake.fits_at(now) <== (unstake.pool.accrual_fits(now)
            && unstake.user_stake_info.claim_fits(
            unstake.pool.accrued_at(now).accrued_reward_per_share,
        )),
        fund_reward_pool_outcome(fund, now, amount).0 is Err ==> fund.fits_at(now, amount),
        fund.pool.accrual_fits(now) ==> fund.fits_at(now, amount),
        update_reward_rate_outcome(rate, now, new_rate).0 is Err ==> rate.fits_at(now, new_rate),
        rate.pool.accrual_fits(now) ==> rate.fits_at(now, new_rate),
{
}

} // verus!
