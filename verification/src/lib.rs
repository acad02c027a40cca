//! Reward accounting of two Solana NFT staking programs, verified with Verus.
//!
//! * [`state`] holds the staking pool and staker accounts.
//! * [`rewards`] holds the per-share reward arithmetic shared by the handlers.
//! * [`metadata`] holds the NFT metadata model and the collection check.
//! * [`nft_staking`] holds the handlers of the NFT staking program.
//! * [`metaverse_staking`] holds the handlers of the fungible staking program.
pub mod state;
pub mod rewards;
pub mod metadata;
pub mod nft_staking;
pub mod metaverse_staking;
