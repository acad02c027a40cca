//! The accounts that the staking programs keep between instructions.
use vstd::prelude::*;

verus! {

/// A Solana account address: 32 raw bytes.
pub type Pubkey = [u8; 32];

/// Compares two addresses byte by byte.
pub fn keys_equal(a: &Pubkey, b: &Pubkey) -> (equal: bool)
    ensures
        equal == (*a == *b),
{
    let mut i: usize = 0;
    while i < 32
        invariant
            0 <= i <= 32,
            forall|j: int| 0 <= j < i ==> a@[j] == b@[j],
        decreases 32 - i,
    {
        if a[i] != b[i] {
            return false;
        }
        i = i + 1;
    }
    assert(*a =~= *b);
    true
}

/// The staking pool: one per staking authority.
#[derive(Clone, Copy, Debug)]
pub struct StakingInstance {
    pub authority: Pubkey,
    pub reward_token_per_sec: u64,
    pub reward_token_mint: Pubkey,
    /// This address is checked as a verified creator of a staked NFT.
    pub allowed_collection_address: Pubkey,
    pub accumulated_reward_per_share: u64,
    pub last_reward_timestamp: u64,
    pub total_shares: u64,
}

/// One staker's position in a pool.
#[derive(Clone, Copy, Debug)]
pub struct User {
    pub deposited_amount: u64,
    pub reward_debt: u64,
    pub accumulated_reward: u64,
}

impl Default for StakingInstance {
    /// A freshly allocated, zero-filled pool account.
    fn default() -> (s: Self)
        ensures
            s.authority@ == Seq::new(32, |i: int| 0u8),
            s.reward_token_per_sec == 0,
            s.reward_token_mint@ == Seq::new(32, |i: int| 0u8),
            s.allowed_collection_address@ == Seq::new(32, |i: int| 0u8),
            s.accumulated_reward_per_share == 0,
            s.last_reward_timestamp == 0,
            s.total_shares == 0,
    {
        StakingInstance {
            authority: [0u8; 32],
            reward_token_per_sec: 0,
            reward_token_mint: [0u8; 32],
            allowed_collection_address: [0u8; 32],
            accumulated_reward_per_share: 0,
            last_reward_timestamp: 0,
            total_shares: 0,
        }
    }
}

impl Default for User {
    /// A freshly allocated, zero-filled staker account.
    fn default() -> (u: Self)
        ensures
            u.deposited_amount == 0,
            u.reward_debt == 0,
            u.accumulated_reward == 0,
    {
        User { deposited_amount: 0, reward_debt: 0, accumulated_reward: 0 }
    }
}

} // verus!
