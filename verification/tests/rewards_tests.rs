use staking::rewards::{
    can_store_pending_reward, can_update_reward_debt, can_update_reward_pool, store_pending_reward,
    update_reward_debt, update_reward_pool, COMPUTATION_DECIMALS,
};
use staking::state::{keys_equal, StakingInstance, User};

fn pool(rate: u64, last: u64, acc: u64, shares: u64) -> StakingInstance {
    StakingInstance {
        authority: [1u8; 32],
        reward_token_per_sec: rate,
        reward_token_mint: [2u8; 32],
        allowed_collection_address: [3u8; 32],
        accumulated_reward_per_share: acc,
        last_reward_timestamp: last,
        total_shares: shares,
    }
}

fn user(deposited: u64, debt: u64, accumulated: u64) -> User {
    User { deposited_amount: deposited, reward_debt: debt, accumulated_reward: accumulated }
}

#[test]
fn keys_compare_byte_by_byte() {
    let a = [7u8; 32];
    let mut b = [7u8; 32];
    assert!(keys_equal(&a, &b));
    b[31] = 8;
    assert!(!keys_equal(&a, &b));
    b[31] = 7;
    b[0] = 0;
    assert!(!keys_equal(&a, &b));
}

#[test]
fn defaults_are_zero() {
    let s = StakingInstance::default();
    assert_eq!(s.total_shares, 0);
    assert_eq!(s.accumulated_reward_per_share, 0);
    assert_eq!(s.authority, [0u8; 32]);
    let u = User::default();
    assert_eq!((u.deposited_amount, u.reward_debt, u.accumulated_reward), (0, 0, 0));
}

#[test]
fn pool_update_spreads_income_over_shares() {
    let mut s = pool(10, 100, 7, 3);
    let mut u = user(5, 6, 7);
    assert!(can_update_reward_pool(&s, 110));
    update_reward_pool(110, &mut s, &mut u);
    // 10 tokens/s * 10 s * 10^10 / 3 shares, rounded down, on top of 7
    assert_eq!(s.accumulated_reward_per_share, 333_333_333_340);
    assert_eq!(s.last_reward_timestamp, 110);
    assert_eq!(s.total_shares, 3);
    assert_eq!((u.deposited_amount, u.reward_debt, u.accumulated_reward), (5, 6, 7));
}

#[test]
fn pool_update_without_shares_only_moves_the_clock() {
    let mut s = pool(10, 100, 42, 0);
    let mut u = user(0, 0, 0);
    update_reward_pool(1_000, &mut s, &mut u);
    assert_eq!(s.accumulated_reward_per_share, 42);
    assert_eq!(s.last_reward_timestamp, 1_000);
}

#[test]
fn pool_update_twice_in_one_second_is_one_update() {
    let mut once = pool(3, 50, 0, 4);
    let mut u = user(0, 0, 0);
    update_reward_pool(90, &mut once, &mut u);
    let mut twice = once;
    update_reward_pool(90, &mut twice, &mut u);
    assert_eq!(once.accumulated_reward_per_share, twice.accumulated_reward_per_share);
    assert_eq!(once.last_reward_timestamp, twice.last_reward_timestamp);
    assert_eq!(once.accumulated_reward_per_share, 300_000_000_000);
}

#[test]
fn pool_update_refusals() {
    // clock behind the last update
    assert!(!can_update_reward_pool(&pool(1, 100, 0, 1), 99));
    // income overflows
    assert!(!can_update_reward_pool(&pool(u64::MAX, 0, 0, 1), 2));
    // scaled income overflows
    assert!(!can_update_reward_pool(&pool(u64::MAX / COMPUTATION_DECIMALS + 1, 0, 0, 1), 1));
    // per-share reward overflows
    assert!(!can_update_reward_pool(&pool(1, 0, u64::MAX, 1), 1));
    // an empty pool adds nothing, so even a full per-share counter is fine
    assert!(can_update_reward_pool(&pool(1, 0, u64::MAX, 0), 1));
}

#[test]
fn pending_reward_moves_to_accumulated() {
    let mut s = pool(0, 0, 3 * COMPUTATION_DECIMALS, 4);
    let mut u = user(4, 5, 1);
    assert!(can_store_pending_reward(&s, &u));
    store_pending_reward(&mut s, &mut u);
    // earned 4 * 3 = 12, debt 5, pending 7
    assert_eq!(u.accumulated_reward, 8);
    assert_eq!(u.reward_debt, 5);
    assert_eq!(s.accumulated_reward_per_share, 3 * COMPUTATION_DECIMALS);
}

#[test]
fn pending_reward_refusals() {
    let s = pool(0, 0, 3 * COMPUTATION_DECIMALS, 4);
    // debt above what was earned
    assert!(!can_store_pending_reward(&s, &user(4, 13, 0)));
    // accumulated reward overflows
    assert!(!can_store_pending_reward(&s, &user(4, 0, u64::MAX)));
    // product overflows
    assert!(!can_store_pending_reward(&s, &user(u64::MAX, 0, 0)));
}

#[test]
fn reward_debt_is_the_earned_reward() {
    let mut s = pool(0, 0, 25_000_000_000, 4);
    let mut u = user(3, 0, 9);
    assert!(can_update_reward_debt(&s, &u));
    update_reward_debt(&mut s, &mut u);
    // 3 * 2.5 = 7.5, rounded down
    assert_eq!(u.reward_debt, 7);
    assert_eq!(u.accumulated_reward, 9);
    assert!(!can_update_reward_debt(&s, &user(u64::MAX, 0, 0)));
}

#[test]
fn settled_staker_has_nothing_pending() {
    let mut s = pool(0, 0, 25_000_000_000, 4);
    let mut u = user(3, 0, 9);
    update_reward_debt(&mut s, &mut u);
    store_pending_reward(&mut s, &mut u);
    assert_eq!(u.accumulated_reward, 9);
}

#[test]
fn split_updates_can_round_differently() {
    // one update over two seconds
    let mut straight = pool(1, 0, 0, 7);
    let mut u = user(0, 0, 0);
    update_reward_pool(2, &mut straight, &mut u);
    // two updates of one second each
    let mut split = pool(1, 0, 0, 7);
    update_reward_pool(1, &mut split, &mut u);
    update_reward_pool(2, &mut split, &mut u);
    assert_eq!(straight.accumulated_reward_per_share, 2_857_142_857);
    assert_eq!(split.accumulated_reward_per_share, 2_857_142_856);
}
