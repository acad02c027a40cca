use staking::nft_staking::{
    can_cancel_staking, can_claim_rewards, can_enter_staking, cancel_staking, claim_rewards,
    enter_staking, initialize_staking, initialize_user, StakeDecision, StakingError,
};
use staking::rewards::COMPUTATION_DECIMALS;
use staking::state::{Pubkey, StakingInstance, User};

const COLLECTION: Pubkey = [3u8; 32];
const NFT_MINT: Pubkey = [9u8; 32];

fn pool(rate: u64, last: u64, acc: u64, shares: u64) -> StakingInstance {
    StakingInstance {
        authority: [1u8; 32],
        reward_token_per_sec: rate,
        reward_token_mint: [2u8; 32],
        allowed_collection_address: COLLECTION,
        accumulated_reward_per_share: acc,
        last_reward_timestamp: last,
        total_shares: shares,
    }
}

fn user(deposited: u64, debt: u64, accumulated: u64) -> User {
    User { deposited_amount: deposited, reward_debt: debt, accumulated_reward: accumulated }
}

fn push_string(out: &mut Vec<u8>, s: &str) {
    out.extend_from_slice(&(s.len() as u32).to_le_bytes());
    out.extend_from_slice(s.as_bytes());
}

/// The Borsh encoding of a Metaplex metadata account with the given mint and
/// creators (address, verified, share).
fn metadata_bytes(mint: Pubkey, creators: Option<Vec<(Pubkey, bool, u8)>>) -> Vec<u8> {
    let mut out = vec![4u8];
    out.extend_from_slice(&[5u8; 32]);
    out.extend_from_slice(&mint);
    push_string(&mut out, "Pixel");
    push_string(&mut out, "PIX");
    push_string(&mut out, "https://example.com/pixel.json");
    out.extend_from_slice(&500u16.to_le_bytes());
    match creators {
        None => out.push(0),
        Some(list) => {
            out.push(1);
            out.extend_from_slice(&(list.len() as u32).to_le_bytes());
            for (address, verified, share) in list {
                out.extend_from_slice(&address);
                out.push(verified as u8);
                out.push(share);
            }
        }
    }
    out.push(1); // primary sale happened
    out.push(1); // mutable
    out.extend_from_slice(&[0u8; 6]); // the six optional fields, all absent
    out
}

fn proper_metadata() -> Vec<u8> {
    metadata_bytes(NFT_MINT, Some(vec![([8u8; 32], false, 50), (COLLECTION, true, 50)]))
}

#[test]
fn initialize_sets_every_field_but_shares() {
    let mut s = pool(0, 0, 77, 4);
    initialize_staking(&mut s, [11u8; 32], [12u8; 32], [13u8; 32], 25, 1_700_000_000);
    assert_eq!(s.authority, [11u8; 32]);
    assert_eq!(s.reward_token_mint, [12u8; 32]);
    assert_eq!(s.allowed_collection_address, [13u8; 32]);
    assert_eq!(s.reward_token_per_sec, 25);
    assert_eq!(s.accumulated_reward_per_share, 0);
    assert_eq!(s.last_reward_timestamp, 1_700_000_000);
    assert_eq!(s.total_shares, 4);
}

#[test]
fn initialize_with_negative_clock_wraps() {
    let mut s = StakingInstance::default();
    initialize_staking(&mut s, [0u8; 32], [0u8; 32], [0u8; 32], 1, -1);
    assert_eq!(s.last_reward_timestamp, u64::MAX);
}

#[test]
fn initialize_user_clears_position() {
    let mut u = user(3, 4, 5);
    initialize_user(&mut u);
    assert_eq!((u.deposited_amount, u.reward_debt, u.accumulated_reward), (0, 0, 0));
}

#[test]
fn stake_unstake_claim_round() {
    let mut s = pool(10, 100, 0, 0);
    let mut u = user(0, 0, 0);

    let r = enter_staking(&mut s, &mut u, &proper_metadata(), &NFT_MINT, &COLLECTION, 110);
    assert_eq!(r, Ok(StakeDecision::Accepted));
    // no share was staked before: the first ten seconds of rewards are lost
    assert_eq!(s.accumulated_reward_per_share, 0);
    assert_eq!(s.last_reward_timestamp, 110);
    assert_eq!(s.total_shares, 1);
    assert_eq!((u.deposited_amount, u.reward_debt, u.accumulated_reward), (1, 0, 0));

    let r = cancel_staking(&mut s, &mut u, &proper_metadata(), &NFT_MINT, &COLLECTION, 120);
    assert_eq!(r, Ok(StakeDecision::Accepted));
    assert_eq!(s.accumulated_reward_per_share, 100 * COMPUTATION_DECIMALS);
    assert_eq!(s.total_shares, 0);
    assert_eq!((u.deposited_amount, u.reward_debt, u.accumulated_reward), (0, 0, 100));

    assert!(can_claim_rewards(&s, &u, 0, 120));
    let minted = claim_rewards(&mut s, &mut u, 0, 120);
    assert_eq!(minted, 100);
    assert_eq!(u.accumulated_reward, 0);
}

#[test]
fn staking_accepts_padded_metadata_accounts() {
    let mut data = proper_metadata();
    data.extend_from_slice(&[0u8; 100]);
    let mut s = pool(10, 100, 0, 0);
    let mut u = user(0, 0, 0);
    let r = enter_staking(&mut s, &mut u, &data, &NFT_MINT, &COLLECTION, 100);
    assert_eq!(r, Ok(StakeDecision::Accepted));
    assert_eq!(s.total_shares, 1);
}

#[test]
fn staking_rejects_foreign_nfts() {
    let cases = vec![
        // the collection is listed but not verified
        metadata_bytes(NFT_MINT, Some(vec![(COLLECTION, false, 100)])),
        // another verified creator
        metadata_bytes(NFT_MINT, Some(vec![([8u8; 32], true, 100)])),
        // no creator at all
        metadata_bytes(NFT_MINT, Some(vec![])),
        // proper collection, other mint
        metadata_bytes([10u8; 32], Some(vec![(COLLECTION, true, 100)])),
    ];
    for data in cases {
        let mut s = pool(10, 100, 0, 2);
        let mut u = user(2, 0, 0);
        assert_eq!(
            enter_staking(&mut s, &mut u, &data, &NFT_MINT, &COLLECTION, 200),
            Ok(StakeDecision::Rejected)
        );
        assert_eq!(
            cancel_staking(&mut s, &mut u, &data, &NFT_MINT, &COLLECTION, 200),
            Ok(StakeDecision::Rejected)
        );
        assert_eq!(s.last_reward_timestamp, 100);
        assert_eq!(s.total_shares, 2);
        assert_eq!(u.deposited_amount, 2);
    }
}

#[test]
fn staking_errors() {
    let mut s = pool(10, 100, 0, 0);
    let mut u = user(0, 0, 0);
    assert_eq!(
        enter_staking(&mut s, &mut u, &[1, 2, 3], &NFT_MINT, &COLLECTION, 110),
        Err(StakingError::InvalidMetadata)
    );
    assert_eq!(
        enter_staking(&mut s, &mut u, &metadata_bytes(NFT_MINT, None), &NFT_MINT, &COLLECTION, 110),
        Err(StakingError::MissingCreators)
    );
    // the clock is behind the pool
    assert_eq!(
        enter_staking(&mut s, &mut u, &proper_metadata(), &NFT_MINT, &COLLECTION, 99),
        Err(StakingError::ArithmeticOverflow)
    );
    // nothing staked: unstaking underflows
    assert_eq!(
        cancel_staking(&mut s, &mut u, &proper_metadata(), &NFT_MINT, &COLLECTION, 110),
        Err(StakingError::ArithmeticOverflow)
    );
    assert_eq!(
        cancel_staking(&mut s, &mut u, &[], &NFT_MINT, &COLLECTION, 110),
        Err(StakingError::InvalidMetadata)
    );
    assert_eq!(s.last_reward_timestamp, 100);
    assert_eq!(u.deposited_amount, 0);
    assert!(!can_enter_staking(&s, &u, 99));
    assert!(can_enter_staking(&s, &u, 110));
    assert!(!can_cancel_staking(&s, &u, 110));
    assert!(!can_enter_staking(&s, &user(u64::MAX, 0, 0), 110));
}

#[test]
fn claim_part_then_rest() {
    let mut s = pool(0, 100, 5 * COMPUTATION_DECIMALS, 2);
    let mut u = user(2, 4, 0);
    // earned 10, debt 4: 6 pending
    assert!(!can_claim_rewards(&s, &u, 7, 100));
    assert!(can_claim_rewards(&s, &u, 2, 100));
    assert_eq!(claim_rewards(&mut s, &mut u, 2, 100), 2);
    assert_eq!((u.accumulated_reward, u.reward_debt), (4, 10));
    assert_eq!(claim_rewards(&mut s, &mut u, 0, 100), 4);
    assert_eq!((u.accumulated_reward, u.reward_debt), (0, 10));
}

#[test]
fn second_claim_pays_nothing() {
    let mut s = pool(7, 100, 0, 3);
    let mut u = user(3, 0, 0);
    let first = claim_rewards(&mut s, &mut u, 0, 130);
    assert_eq!(first, 210);
    let (s1, u1) = (s, u);
    let second = claim_rewards(&mut s, &mut u, 0, 130);
    assert_eq!(second, 0);
    assert_eq!(s.accumulated_reward_per_share, s1.accumulated_reward_per_share);
    assert_eq!((u.deposited_amount, u.reward_debt, u.accumulated_reward),
        (u1.deposited_amount, u1.reward_debt, u1.accumulated_reward));
}

#[test]
fn stake_then_unstake_in_one_second_restores_counters() {
    let mut s = pool(4, 100, 3 * COMPUTATION_DECIMALS, 5);
    let mut u = user(2, 1, 9);
    assert_eq!(enter_staking(&mut s, &mut u, &proper_metadata(), &NFT_MINT, &COLLECTION, 150), Ok(StakeDecision::Accepted));
    let acc = s.accumulated_reward_per_share;
    assert_eq!(acc, 3 * COMPUTATION_DECIMALS + 40 * COMPUTATION_DECIMALS);
    assert_eq!((s.total_shares, u.deposited_amount), (6, 3));
    assert_eq!(cancel_staking(&mut s, &mut u, &proper_metadata(), &NFT_MINT, &COLLECTION, 150), Ok(StakeDecision::Accepted));
    assert_eq!(s.accumulated_reward_per_share, acc);
    assert_eq!((s.total_shares, u.deposited_amount, u.accumulated_reward), (5, 2, 9));
    assert_eq!(u.reward_debt, 86);
}

#[test]
fn shares_follow_a_single_staker() {
    let mut s = pool(1, 0, 0, 0);
    let mut u = user(0, 0, 0);
    for t in 1..5 {
        assert_eq!(enter_staking(&mut s, &mut u, &proper_metadata(), &NFT_MINT, &COLLECTION, t), Ok(StakeDecision::Accepted));
        assert_eq!(s.total_shares, u.deposited_amount);
    }
    for t in 5..9 {
        assert_eq!(cancel_staking(&mut s, &mut u, &proper_metadata(), &NFT_MINT, &COLLECTION, t), Ok(StakeDecision::Accepted));
        assert_eq!(s.total_shares, u.deposited_amount);
    }
    assert_eq!(s.total_shares, 0);
}
