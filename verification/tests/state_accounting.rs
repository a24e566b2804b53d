use stakrr::key::Pubkey;
use stakrr::states::pool::Pool;
use stakrr::states::user::UserStakeInfo;

fn key(n: u8) -> Pubkey {
    Pubkey::new([n; 32])
}

fn pool(total: u64, rate: u128, acc: u128, last: i64) -> Pool {
    Pool {
        authority: key(1),
        reward_token_mint: key(2),
        staked_token_mint: key(3),
        lst_token_mint: key(4),
        reward_token_vault: key(5),
        staked_token_vault: key(6),
        lst_token_vault: key(7),
        total_staked_amount: total,
        reward_rate_per_second: rate,
        accrued_reward_per_share: acc,
        last_reward_update_timestamp: last,
        reward_vault_bump: 250,
        staked_vault_bump: 251,
        lst_vault_bump: 252,
        is_paused: false,
        bump: 253,
    }
}

fn user(staked: u64, debt: u128, pending: u64) -> UserStakeInfo {
    UserStakeInfo {
        owner: key(9),
        staked_amount: staked,
        reward_debt: debt,
        pending_rewards: pending,
        last_update_time: 7,
        bump: 254,
    }
}

#[test]
fn pubkey_matches_only_identical_bytes() {
    let a = key(1);
    let mut bytes = [1u8; 32];
    assert!(a.matches(&Pubkey::new(bytes)));
    bytes[31] = 2;
    assert!(!a.matches(&Pubkey::new(bytes)));
    bytes[31] = 1;
    bytes[0] = 0;
    assert!(!a.matches(&Pubkey::new(bytes)));
}

#[test]
fn accrual_adds_rate_times_elapsed() {
    let mut p = pool(100, 5, 7, 10);
    assert!(p.accrual_fits_at(20));
    p.update_accrued_rewards_per_share(20);
    assert_eq!(p.accrued_reward_per_share, 7 + 5 * 10);
    assert_eq!(p.last_reward_update_timestamp, 20);
    assert_eq!(p.total_staked_amount, 100);
    assert_eq!(p.reward_rate_per_second, 5);
}

#[test]
fn accrual_does_not_depend_on_total_staked() {
    let mut small = pool(1, 3, 0, 0);
    let mut large = pool(1_000_000, 3, 0, 0);
    small.update_accrued_rewards_per_share(1000);
    large.update_accrued_rewards_per_share(1000);
    assert_eq!(small.accrued_reward_per_share, 3000);
    assert_eq!(large.accrued_reward_per_share, 3000);
}

#[test]
fn nothing_accrues_while_nothing_is_staked() {
    let mut p = pool(0, 5, 42, 10);
    p.update_accrued_rewards_per_share(1_000);
    assert_eq!(p.accrued_reward_per_share, 42);
    assert_eq!(p.last_reward_update_timestamp, 1_000);
}

#[test]
fn accrual_twice_at_same_time_is_accrual_once() {
    let mut once = pool(10, 2, 0, 5);
    once.update_accrued_rewards_per_share(9);
    let mut twice = once;
    twice.update_accrued_rewards_per_share(9);
    assert_eq!(once, twice);
    assert_eq!(once.accrued_reward_per_share, 8);
}

#[test]
fn accrual_in_two_steps_equals_one_step() {
    let mut stepped = pool(10, 4, 100, 0);
    stepped.update_accrued_rewards_per_share(15);
    stepped.update_accrued_rewards_per_share(40);
    let mut direct = pool(10, 4, 100, 0);
    direct.update_accrued_rewards_per_share(40);
    assert_eq!(stepped, direct);
    assert_eq!(direct.accrued_reward_per_share, 100 + 4 * 40);
}

#[test]
fn accrual_skips_an_elapsed_time_outside_i64() {
    let mut p = pool(10, 4, 100, i64::MIN);
    assert!(p.accrual_fits_at(i64::MAX));
    p.update_accrued_rewards_per_share(i64::MAX);
    assert_eq!(p.accrued_reward_per_share, 100);
    assert_eq!(p.last_reward_update_timestamp, i64::MIN);
}

#[test]
fn accrual_backwards_at_zero_rate_moves_the_clock_back() {
    let mut p = pool(10, 0, 100, 500);
    assert!(p.accrual_fits_at(200));
    p.update_accrued_rewards_per_share(200);
    assert_eq!(p.accrued_reward_per_share, 100);
    assert_eq!(p.last_reward_update_timestamp, 200);
}

#[test]
fn accrual_backwards_with_unit_product_wraps_the_duration() {
    // total * rate == 1 and now - last == -1: the duration reads as 2^128 - 1.
    let mut p = pool(1, 1, 0, 10);
    assert!(p.accrual_fits_at(9));
    p.update_accrued_rewards_per_share(9);
    assert_eq!(p.accrued_reward_per_share, u128::MAX);
    assert_eq!(p.last_reward_update_timestamp, 9);
}

#[test]
fn accrual_overflow_is_detected() {
    let p = pool(u64::MAX, u64::MAX as u128, 0, 0);
    assert!(p.accrual_fits_at(1));
    assert!(!p.accrual_fits_at(2));
    let q = pool(1, 1, u128::MAX - 5, 0);
    assert!(q.accrual_fits_at(5));
    assert!(!q.accrual_fits_at(6));
    let backwards = pool(2, 1, 0, 10);
    assert!(!backwards.accrual_fits_at(9));
}

#[test]
fn scaling_factor_value() {
    assert_eq!(Pool::SCALING_FACTOR, 1_000_000_000_000);
}

#[test]
fn claim_credits_stake_times_growth_scaled_down() {
    let p = pool(1000, 1, 3_000_000_000_000, 0);
    let mut u = user(1000, 0, 11);
    assert!(u.claim_fits_with(p.accrued_reward_per_share));
    u.claim_accrued_rewards(&p);
    assert_eq!(u.pending_rewards, 11 + 3000);
    assert_eq!(u.reward_debt, 3_000_000_000_000);
    assert_eq!(u.staked_amount, 1000);
}

#[test]
fn claim_rounds_down() {
    let p = pool(1, 1, 2_500_000_000_000, 0);
    let mut u = user(1, 1_000_000_000_000, 0);
    u.claim_accrued_rewards(&p);
    assert_eq!(u.pending_rewards, 1);
    assert_eq!(u.reward_debt, 2_500_000_000_000);
}

#[test]
fn claim_with_debt_above_accumulator_earns_nothing() {
    let p = pool(1, 1, 5, 0);
    let mut u = user(100, 9_000_000_000_000, 4);
    u.claim_accrued_rewards(&p);
    assert_eq!(u.pending_rewards, 4);
    assert_eq!(u.reward_debt, 5);
}

#[test]
fn claim_without_stake_only_records_debt() {
    let p = pool(1, 1, 8_000_000_000_000, 0);
    let mut u = user(0, 0, 4);
    u.claim_accrued_rewards(&p);
    assert_eq!(u.pending_rewards, 4);
    assert_eq!(u.reward_debt, 8_000_000_000_000);
}

#[test]
fn claim_keeps_earned_amount_modulo_two_to_the_64() {
    let p = pool(1, 1, 2_000_000_000_000, 0);
    let mut u = user(u64::MAX, 0, 0);
    assert!(u.claim_fits_with(p.accrued_reward_per_share));
    u.claim_accrued_rewards(&p);
    assert_eq!(u.pending_rewards, u64::MAX - 1);
}

#[test]
fn claim_twice_with_same_accumulator_is_claim_once() {
    let p = pool(1, 1, 7_000_000_000_000, 0);
    let mut once = user(3, 1_000_000_000_000, 0);
    once.claim_accrued_rewards(&p);
    let mut twice = once;
    twice.claim_accrued_rewards(&p);
    assert_eq!(once, twice);
    assert_eq!(once.pending_rewards, 18);
}

#[test]
fn claims_in_pieces_lose_at_most_one_unit() {
    let mid = pool(1, 1, 1_999_999_999_999, 0);
    let end = pool(1, 1, 3_999_999_999_998, 0);
    let mut split = user(1, 0, 0);
    split.claim_accrued_rewards(&mid);
    split.claim_accrued_rewards(&end);
    let mut whole = user(1, 0, 0);
    whole.claim_accrued_rewards(&end);
    assert_eq!(split.pending_rewards, 2);
    assert_eq!(whole.pending_rewards, 3);
}

#[test]
fn claims_in_pieces_never_pay_more() {
    let mid = pool(1, 1, 1_500_000_000_000, 0);
    let end = pool(1, 1, 3_000_000_000_000, 0);
    let mut split = user(1, 0, 0);
    split.claim_accrued_rewards(&mid);
    split.claim_accrued_rewards(&end);
    let mut whole = user(1, 0, 0);
    whole.claim_accrued_rewards(&end);
    assert_eq!(split.pending_rewards, 2);
    assert_eq!(whole.pending_rewards, 3);
    assert_eq!(split.reward_debt, whole.reward_debt);
}

#[test]
fn claim_overflow_is_detected() {
    let u = user(u64::MAX, 0, 0);
    assert!(!u.claim_fits_with(u128::MAX));
    let v = user(1, 0, u64::MAX);
    assert!(v.claim_fits_with(999_999_999_999));
    assert!(!v.claim_fits_with(1_000_000_000_000));
    let empty = user(0, 0, u64::MAX);
    assert!(empty.claim_fits_with(u128::MAX));
}
