use staking::metaverse_staking::{
    can_cancel_staking, can_enter_staking, cancel_staking, enter_staking, initialize_staking,
};
use staking::state::{StakingInstance, User};

fn pool(rate: u64, last: u64, acc: u64, shares: u64) -> StakingInstance {
    StakingInstance {
        authority: [1u8; 32],
        reward_token_per_sec: rate,
        reward_token_mint: [2u8; 32],
        allowed_collection_address: [3u8; 32],
        accumulated_reward_per_share: acc,
        last_reward_timestamp: last,
        total_shares: shares,
    }
}

#[test]
fn metaverse_initialize_sets_every_field_but_shares() {
    let mut s = pool(0, 0, 9, 6);
    initialize_staking(&mut s, [4u8; 32], [5u8; 32], [6u8; 32], 3, 50);
    assert_eq!((s.authority, s.reward_token_mint, s.allowed_collection_address), ([4u8; 32], [5u8; 32], [6u8; 32]));
    assert_eq!((s.reward_token_per_sec, s.accumulated_reward_per_share, s.last_reward_timestamp, s.total_shares), (3, 0, 50, 6));
}

#[test]
fn metaverse_enter_moves_tokens_only() {
    let s = pool(10, 100, 0, 2);
    let u = User { deposited_amount: 2, reward_debt: 0, accumulated_reward: 0 };
    assert!(can_enter_staking(&s, &u, 5, 110));
    assert_eq!(enter_staking(&s, &u, 5, 110), 5);
    assert_eq!((s.accumulated_reward_per_share, s.last_reward_timestamp, s.total_shares), (0, 100, 2));
    assert_eq!(u.deposited_amount, 2);
}

#[test]
fn metaverse_cancel_pays_at_the_payout_scale() {
    let s = pool(10, 100, 0, 2);
    let u = User { deposited_amount: 2, reward_debt: 0, accumulated_reward: 0 };
    assert!(can_cancel_staking(&s, &u, 1, 110));
    // per share: 100 * 10^10 / 2; payout: 2 * 5 * 10^11 / 10^12
    assert_eq!(cancel_staking(&s, &u, 1, 110), 1);
    let rich = pool(10, 100, 0, 1);
    let whale = User { deposited_amount: 1_000, reward_debt: 3, accumulated_reward: 0 };
    // per share: 10^12; payout: 1000 * 10^12 / 10^12 - 3
    assert_eq!(cancel_staking(&rich, &whale, 10, 110), 997);
}

#[test]
fn metaverse_refusals() {
    let empty = pool(10, 100, 0, 0);
    let u = User { deposited_amount: 2, reward_debt: 0, accumulated_reward: 0 };
    // division by the empty pool's zero shares
    assert!(!can_enter_staking(&empty, &u, 1, 110));
    assert!(!can_cancel_staking(&empty, &u, 1, 110));
    let s = pool(10, 100, 0, 2);
    assert!(!can_enter_staking(&s, &u, 1, 99));
    assert!(!can_cancel_staking(&s, &u, 3, 110));
    assert!(!can_enter_staking(&s, &u, u64::MAX, 110));
    let indebted = User { deposited_amount: 2, reward_debt: 2, accumulated_reward: 0 };
    assert!(!can_cancel_staking(&s, &indebted, 1, 110));
}
