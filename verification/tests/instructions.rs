use stakrr::error::StakingError;
use stakrr::instructions::claim::{handle_claim_reward, ClaimReward};
use stakrr::instructions::fund::{handle_fund_reward_pool, FundRewardPool};
use stakrr::instructions::initialize::{handle_initialize_pool, InitializePool};
use stakrr::instructions::pause::{handle_pause, Pause};
use stakrr::instructions::rate::{handle_update_reward_rate, RewardRate, UpdateRewardRate};
use stakrr::instructions::stake::{handle_stake, Stake};
use stakrr::instructions::unpause::{handle_unpause, Unpause};
use stakrr::instructions::unstake::{handle_unstake, Unstake};
use stakrr::key::Pubkey;
use stakrr::states::pool::Pool;
use stakrr::states::user::UserStakeInfo;

fn key(n: u8) -> Pubkey {
    Pubkey::new([n; 32])
}

const AUTHORITY: u8 = 1;
const STRANGER: u8 = 99;

fn pool(total: u64, rate: u128, acc: u128, last: i64) -> Pool {
    Pool {
        authority: key(AUTHORITY),
        reward_token_mint: key(2),
        staked_token_mint: key(3),
        lst_token_mint: key(4),
        reward_token_vault: key(5),
        staked_token_vault: key(6),
        lst_token_vault: key(7),
        total_staked_amount: total,
        reward_rate_per_second: rate,
        accrued_reward_per_share: acc,
        last_reward_update_timestamp: last,
        reward_vault_bump: 250,
        staked_vault_bump: 251,
        lst_vault_bump: 252,
        is_paused: false,
        bump: 253,
    }
}

fn paused(mut p: Pool) -> Pool {
    p.is_paused = true;
    p
}

fn user(staked: u64, debt: u128, pending: u64) -> UserStakeInfo {
    UserStakeInfo {
        owner: key(9),
        staked_amount: staked,
        reward_debt: debt,
        pending_rewards: pending,
        last_update_time: 0,
        bump: 254,
    }
}

fn claim_ctx(p: Pool, u: UserStakeInfo) -> ClaimReward {
    ClaimReward { signer: key(9), pool: p, user_stake_info: u, reward_token_mint: key(2) }
}

fn unstake_ctx(p: Pool, u: UserStakeInfo, lst: u64) -> Unstake {
    Unstake {
        signer: key(9),
        pool: p,
        user_stake_info: u,
        staked_token_mint: key(3),
        staked_token_vault: key(6),
        lst_token_mint: key(4),
        user_lst_token_amount: lst,
    }
}

// ---- initialize ----

#[test]
fn initialize_creates_an_empty_unpaused_pool() {
    let ctx = InitializePool {
        signer: key(1),
        staked_token_mint: key(3),
        staked_token_vault: key(6),
        reward_token_mint: key(2),
        reward_token_vault: key(5),
        lst_token_mint: key(4),
        lst_token_vault: key(7),
        pool_bump: 253,
        staked_token_vault_bump: 251,
        reward_token_vault_bump: 250,
        lst_token_vault_bump: 252,
    };
    let p = handle_initialize_pool(&ctx, 17);
    assert_eq!(p, pool(0, 17, 0, 0));
}

// ---- stake ----

#[test]
fn stake_accepts_the_pools_accounts_and_records_nothing() {
    let ctx = Stake {
        signer: key(9),
        pool: pool(5, 1, 0, 0),
        staked_token_mint: key(3),
        staked_token_vault: key(6),
        lst_token_mint: key(4),
    };
    assert_eq!(handle_stake(&ctx), Ok(()));
    assert_eq!(ctx.pool, pool(5, 1, 0, 0));
}

#[test]
fn stake_checks_accounts_in_order() {
    let good = Stake {
        signer: key(9),
        pool: paused(pool(5, 1, 0, 0)),
        staked_token_mint: key(3),
        staked_token_vault: key(6),
        lst_token_mint: key(4),
    };
    assert_eq!(handle_stake(&good), Ok(()));
    let all_wrong = Stake { staked_token_mint: key(40), staked_token_vault: key(41), lst_token_mint: key(42), ..good };
    assert_eq!(handle_stake(&all_wrong), Err(StakingError::InvalidStakingMint));
    let vault_wrong = Stake { staked_token_vault: key(41), lst_token_mint: key(42), ..good };
    assert_eq!(handle_stake(&vault_wrong), Err(StakingError::InvalidStakedVault));
    let lst_wrong = Stake { lst_token_mint: key(42), ..good };
    assert_eq!(handle_stake(&lst_wrong), Err(StakingError::InvalidLSTMint));
}

// ---- claim ----

#[test]
fn claim_pays_everything_pending() {
    let mut ctx = claim_ctx(pool(1000, 2, 0, 100), user(500, 0, 7));
    assert!(ctx.fits(110));
    // 10 seconds at rate 2: accumulator 20; 500 * 20 / 10^12 rounds to 0.
    assert_eq!(handle_claim_reward(&mut ctx, 110), Ok(7));
    assert_eq!(ctx.pool.accrued_reward_per_share, 20);
    assert_eq!(ctx.pool.last_reward_update_timestamp, 110);
    assert_eq!(ctx.user_stake_info.pending_rewards, 0);
    assert_eq!(ctx.user_stake_info.reward_debt, 20);
    assert_eq!(ctx.user_stake_info.staked_amount, 500);
}

#[test]
fn claim_pays_rewards_accrued_since_last_claim() {
    let mut ctx = claim_ctx(pool(1, 1_000_000_000_000, 0, 0), user(3, 0, 0));
    assert_eq!(handle_claim_reward(&mut ctx, 5), Ok(15));
    assert_eq!(ctx.user_stake_info.pending_rewards, 0);
    assert_eq!(ctx.user_stake_info.reward_debt, 5_000_000_000_000);
}

#[test]
fn claim_twice_at_same_time_is_refused() {
    let mut ctx = claim_ctx(pool(1, 1_000_000_000_000, 0, 0), user(3, 0, 0));
    assert_eq!(handle_claim_reward(&mut ctx, 5), Ok(15));
    let after_first = ctx;
    assert_eq!(handle_claim_reward(&mut ctx, 5), Err(StakingError::NoRewardsToClaim));
    assert_eq!(ctx, after_first);
}

#[test]
fn claim_with_nothing_pending_is_refused_and_changes_nothing() {
    let start = claim_ctx(pool(10, 1, 0, 0), user(1, 0, 0));
    let mut ctx = start;
    assert_eq!(handle_claim_reward(&mut ctx, 50), Err(StakingError::NoRewardsToClaim));
    assert_eq!(ctx, start);
}

#[test]
fn claim_on_paused_pool_is_refused() {
    let start = claim_ctx(paused(pool(10, 1, 0, 0)), user(1, 0, 5));
    let mut ctx = start;
    assert_eq!(handle_claim_reward(&mut ctx, 50), Err(StakingError::Paused));
    assert_eq!(ctx, start);
}

#[test]
fn claim_with_wrong_reward_mint_is_refused() {
    let start = ClaimReward { reward_token_mint: key(77), ..claim_ctx(paused(pool(10, 1, 0, 0)), user(1, 0, 5)) };
    let mut ctx = start;
    assert_eq!(handle_claim_reward(&mut ctx, 50), Err(StakingError::InvalidRewardTokenMint));
    assert_eq!(ctx, start);
}

#[test]
fn claim_overflow_is_reported_by_fits() {
    let ctx = claim_ctx(pool(u64::MAX, u64::MAX as u128, 0, 0), user(1, 0, 0));
    assert!(ctx.fits(1));
    assert!(!ctx.fits(2));
    let refused_first = claim_ctx(paused(pool(u64::MAX, u64::MAX as u128, 0, 0)), user(1, 0, 0));
    assert!(refused_first.fits(2));
    let big_stake = claim_ctx(pool(1, 1, u128::MAX - 10, 0), user(u64::MAX, 0, 0));
    assert!(!big_stake.fits(0));
}

// ---- fund ----

fn fund_ctx(p: Pool, signer: u8, balance: u64) -> FundRewardPool {
    FundRewardPool { signer: key(signer), pool: p, admin_reward_token_amount: balance }
}

#[test]
fn fund_accrues_and_moves_amount() {
    let mut ctx = fund_ctx(pool(4, 3, 1, 10), AUTHORITY, 500);
    assert!(ctx.fits(12, 500));
    assert_eq!(handle_fund_reward_pool(&mut ctx, 12, 500), Ok(500));
    assert_eq!(ctx.pool.accrued_reward_per_share, 7);
    assert_eq!(ctx.pool.last_reward_update_timestamp, 12);
    assert_eq!(ctx.admin_reward_token_amount, 500);
}

#[test]
fn fund_refusals_in_order() {
    let start = fund_ctx(paused(pool(4, 3, 1, 10)), STRANGER, 0);
    let mut ctx = start;
    assert_eq!(handle_fund_reward_pool(&mut ctx, 12, 0), Err(StakingError::Unauthorized));
    assert_eq!(ctx, start);
    let mut ctx = fund_ctx(paused(pool(4, 3, 1, 10)), AUTHORITY, 0);
    assert_eq!(handle_fund_reward_pool(&mut ctx, 12, 0), Err(StakingError::Paused));
    let mut ctx = fund_ctx(pool(4, 3, 1, 10), AUTHORITY, 0);
    assert_eq!(handle_fund_reward_pool(&mut ctx, 12, 0), Err(StakingError::ZeroStakeAmount));
    let start = fund_ctx(pool(4, 3, 1, 10), AUTHORITY, 99);
    let mut ctx = start;
    assert_eq!(handle_fund_reward_pool(&mut ctx, 12, 100), Err(StakingError::InsufficientFunds));
    assert_eq!(ctx, start);
}

#[test]
fn fund_overflow_is_reported_by_fits() {
    let ctx = fund_ctx(pool(u64::MAX, u64::MAX as u128, 0, 0), AUTHORITY, 10);
    assert!(!ctx.fits(2, 10));
    assert!(ctx.fits(2, 11));
}

// ---- update rate ----

fn whole_rate(per_second: u128) -> RewardRate {
    RewardRate { per_second, is_nonzero: per_second != 0 }
}

fn rate_ctx(p: Pool, signer: u8) -> UpdateRewardRate {
    UpdateRewardRate { signer: key(signer), pool: p }
}

#[test]
fn rate_change_accrues_at_old_rate_first() {
    let mut ctx = rate_ctx(pool(10, 2, 0, 0), AUTHORITY);
    assert!(ctx.fits(5, whole_rate(7)));
    assert_eq!(handle_update_reward_rate(&mut ctx, 5, whole_rate(7)), Ok(()));
    assert_eq!(ctx.pool.accrued_reward_per_share, 10);
    assert_eq!(ctx.pool.reward_rate_per_second, 7);
    let mut later = ctx.pool;
    later.update_accrued_rewards_per_share(8);
    assert_eq!(later.accrued_reward_per_share, 10 + 7 * 3);
}

#[test]
fn rate_change_refusals() {
    let start = rate_ctx(paused(pool(10, 2, 0, 0)), STRANGER);
    let mut ctx = start;
    assert_eq!(handle_update_reward_rate(&mut ctx, 5, whole_rate(0)), Err(StakingError::Unauthorized));
    assert_eq!(ctx, start);
    let mut ctx = rate_ctx(paused(pool(10, 2, 0, 0)), AUTHORITY);
    assert_eq!(handle_update_reward_rate(&mut ctx, 5, whole_rate(0)), Err(StakingError::Paused));
    let start = rate_ctx(pool(10, 2, 0, 0), AUTHORITY);
    let mut ctx = start;
    assert_eq!(handle_update_reward_rate(&mut ctx, 5, whole_rate(0)), Err(StakingError::InvalidRateAmount));
    assert_eq!(ctx, start);
}

#[test]
fn rate_change_overflow_is_reported_by_fits() {
    let ctx = rate_ctx(pool(u64::MAX, u64::MAX as u128, 0, 0), AUTHORITY);
    assert!(!ctx.fits(2, whole_rate(1)));
    assert!(ctx.fits(2, whole_rate(0)));
}

#[test]
fn rate_below_one_unit_is_accepted_and_accrues_nothing() {
    let mut ctx = rate_ctx(pool(10, 2, 0, 0), AUTHORITY);
    let half = RewardRate { per_second: 0, is_nonzero: true };
    assert!(ctx.fits(5, half));
    assert_eq!(handle_update_reward_rate(&mut ctx, 5, half), Ok(()));
    assert_eq!(ctx.pool.reward_rate_per_second, 0);
    assert_eq!(ctx.pool.accrued_reward_per_share, 10);
    let mut later = ctx.pool;
    later.update_accrued_rewards_per_share(50);
    assert_eq!(later.accrued_reward_per_share, 10);
    assert_eq!(later.last_reward_update_timestamp, 50);
}

#[test]
fn rate_above_u64_range_is_kept_whole() {
    let mut ctx = rate_ctx(pool(1, 2, 0, 0), AUTHORITY);
    let huge = whole_rate(1u128 << 100);
    assert_eq!(handle_update_reward_rate(&mut ctx, 0, huge), Ok(()));
    assert_eq!(ctx.pool.reward_rate_per_second, 1u128 << 100);
    let mut later = ctx.pool;
    assert!(later.accrual_fits_at(3));
    later.update_accrued_rewards_per_share(3);
    assert_eq!(later.accrued_reward_per_share, 3u128 << 100);
}

// ---- pause / unpause ----

#[test]
fn pause_by_authority() {
    let mut ctx = Pause { signer: key(AUTHORITY), pool: pool(1, 1, 0, 0) };
    assert_eq!(handle_pause(&mut ctx), Ok(()));
    assert!(ctx.pool.is_paused);
    assert_eq!(handle_pause(&mut ctx), Err(StakingError::AlreadyPaused));
    assert!(ctx.pool.is_paused);
}

#[test]
fn pause_by_stranger_is_refused() {
    let start = Pause { signer: key(STRANGER), pool: paused(pool(1, 1, 0, 0)) };
    let mut ctx = start;
    assert_eq!(handle_pause(&mut ctx), Err(StakingError::Unauthorized));
    assert_eq!(ctx, start);
}

#[test]
fn unpause_of_paused_pool_is_refused() {
    let start = Unpause { signer: key(AUTHORITY), pool: paused(pool(1, 1, 0, 0)) };
    let mut ctx = start;
    assert_eq!(handle_unpause(&mut ctx), Err(StakingError::AlreadyPaused));
    assert_eq!(ctx, start);
    assert!(ctx.pool.is_paused);
}

#[test]
fn unpause_of_running_pool_keeps_it_running() {
    let mut ctx = Unpause { signer: key(AUTHORITY), pool: pool(1, 1, 0, 0) };
    assert_eq!(handle_unpause(&mut ctx), Ok(()));
    assert!(!ctx.pool.is_paused);
    let mut stranger = Unpause { signer: key(STRANGER), pool: pool(1, 1, 0, 0) };
    assert_eq!(handle_unpause(&mut stranger), Err(StakingError::Unauthorized));
}

// ---- unstake ----

#[test]
fn unstake_moves_stake_out_of_position_and_pool() {
    let mut ctx = unstake_ctx(pool(100, 1_000_000_000_000, 0, 0), user(40, 0, 1), 30);
    assert!(ctx.fits(2));
    assert_eq!(handle_unstake(&mut ctx, 2, 30), Ok(30));
    assert_eq!(ctx.pool.total_staked_amount, 70);
    assert_eq!(ctx.user_stake_info.staked_amount, 10);
    // 40 staked for 2 seconds at one full reward unit per second.
    assert_eq!(ctx.user_stake_info.pending_rewards, 81);
    assert_eq!(ctx.user_stake_info.reward_debt, 2_000_000_000_000);
    assert_eq!(ctx.pool.accrued_reward_per_share, 2_000_000_000_000);
    assert_eq!(ctx.user_lst_token_amount, 30);
}

#[test]
fn unstake_is_allowed_while_paused() {
    let mut ctx = unstake_ctx(paused(pool(100, 0, 0, 0)), user(40, 0, 0), 40);
    assert_eq!(handle_unstake(&mut ctx, 2, 40), Ok(40));
    assert_eq!(ctx.user_stake_info.staked_amount, 0);
    assert_eq!(ctx.pool.total_staked_amount, 60);
}

#[test]
fn unstake_refusals() {
    let base = unstake_ctx(pool(100, 1, 0, 0), user(40, 0, 0), 30);
    let wrong_mint = Unstake { staked_token_mint: key(50), ..base };
    let mut ctx = wrong_mint;
    assert_eq!(handle_unstake(&mut ctx, 1, 10), Err(StakingError::InvalidStakingMint));
    assert_eq!(ctx, wrong_mint);
    let mut ctx = Unstake { staked_token_vault: key(50), ..base };
    assert_eq!(handle_unstake(&mut ctx, 1, 10), Err(StakingError::InvalidStakedVault));
    let mut ctx = Unstake { lst_token_mint: key(50), ..base };
    assert_eq!(handle_unstake(&mut ctx, 1, 10), Err(StakingError::InvalidLSTMint));
    let mut ctx = base;
    assert_eq!(handle_unstake(&mut ctx, 1, 41), Err(StakingError::InsufficientAmount));
    assert_eq!(ctx, base);
    let mut ctx = base;
    assert_eq!(handle_unstake(&mut ctx, 1, 31), Err(StakingError::InsufficientLSTAmount));
    assert_eq!(ctx, base);
    let inconsistent = unstake_ctx(pool(5, 1, 0, 0), user(40, 0, 0), 30);
    let mut ctx = inconsistent;
    assert_eq!(handle_unstake(&mut ctx, 1, 10), Err(StakingError::MathOverflow));
    assert_eq!(ctx, inconsistent);
}

#[test]
fn unstake_overflow_is_reported_by_fits() {
    let ctx = unstake_ctx(pool(u64::MAX, u64::MAX as u128, 0, 0), user(1, 0, 0), 1);
    assert!(!ctx.fits(2));
    let wrong = Unstake { lst_token_mint: key(50), ..ctx };
    assert!(wrong.fits(2));
}
