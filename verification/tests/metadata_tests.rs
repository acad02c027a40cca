use staking::metadata::{has_verified_creator, nft_is_accepted, Creator, DecodedMetadata};

fn creator(byte: u8, verified: bool) -> Creator {
    Creator { address: [byte; 32], verified, share: 10 }
}

#[test]
fn verified_creator_is_found_anywhere_in_the_list() {
    let creators = vec![creator(1, true), creator(2, false), creator(3, true)];
    assert!(has_verified_creator(&creators, &[1u8; 32]));
    assert!(has_verified_creator(&creators, &[3u8; 32]));
    assert!(!has_verified_creator(&creators, &[2u8; 32]));
    assert!(!has_verified_creator(&creators, &[4u8; 32]));
    assert!(!has_verified_creator(&vec![], &[1u8; 32]));
}

#[test]
fn nft_needs_collection_and_mint() {
    let metadata = DecodedMetadata { mint: [9u8; 32], creators: Some(vec![creator(3, true)]) };
    assert!(nft_is_accepted(&metadata, &[9u8; 32], &[3u8; 32]));
    assert!(!nft_is_accepted(&metadata, &[8u8; 32], &[3u8; 32]));
    assert!(!nft_is_accepted(&metadata, &[9u8; 32], &[4u8; 32]));
    let no_creators = DecodedMetadata { mint: [9u8; 32], creators: None };
    assert!(!nft_is_accepted(&no_creators, &[9u8; 32], &[3u8; 32]));
}
