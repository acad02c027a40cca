//! The fungible staking program: stakers lock any amount of a token and earn
//! the pool's reward token per second and per share.
//!
//! Its staking and unstaking handlers update copies of the pool and staker
//! accounts, so the stored accounts keep their values: an instruction moves
//! tokens and nothing else. The handlers here take the accounts by shared
//! reference for that reason and return the token amount that moves; the
//! caller performs the movement.
use vstd::prelude::*;
use crate::state::{Pubkey, StakingInstance, User};
use crate::rewards::pool_income;

verus! {

/// Fixed-point scale of `accumulated_reward_per_share`.
pub const REWARD_SCALE: u64 = 10_000_000_000;

/// The scale by which unstaking turns the per-share reward into a payout.
pub const PAYOUT_SCALE: u64 = 1_000_000_000_000;

/// The clock reading of an instruction, as the program stores it.
pub open spec fn clock_seconds(unix_timestamp: i64) -> u64 {
    unix_timestamp as u64
}

/// What an update at `now` adds to `accumulated_reward_per_share`.
pub open spec fn accrued_per_share(s: StakingInstance, now: u64) -> int {
    pool_income(s, now) * REWARD_SCALE / (s.total_shares as int)
}

/// The pool can be brought up to `now` without an arithmetic failure or a
/// division by zero.
pub open spec fn reward_pool_update_ok(s: StakingInstance, now: u64) -> bool {
    &&& s.last_reward_timestamp <= now
    &&& pool_income(s, now) <= u64::MAX
    &&& pool_income(s, now) * REWARD_SCALE <= u64::MAX
    &&& s.total_shares != 0
    &&& s.accumulated_reward_per_share + accrued_per_share(s, now) <= u64::MAX
}

/// The per-share reward after an update at `now`.
pub open spec fn updated_reward_per_share(s: StakingInstance, now: u64) -> int {
    s.accumulated_reward_per_share + accrued_per_share(s, now)
}

/// Staking `amount` at `now` completes without an arithmetic failure.
pub open spec fn enter_ok(s: StakingInstance, u: User, amount: u64, now: u64) -> bool {
    &&& reward_pool_update_ok(s, now)
    &&& u.deposited_amount + amount <= u64::MAX
    &&& s.total_shares + amount <= u64::MAX
    &&& amount * updated_reward_per_share(s, now) <= u64::MAX
}

/// The reward that unstaking at `now` pays out.
pub open spec fn payout(s: StakingInstance, u: User, now: u64) -> int {
    u.deposited_amount * updated_reward_per_share(s, now) / (PAYOUT_SCALE as int) - u.reward_debt
}

/// Unstaking `amount` at `now` completes without an arithmetic failure.
pub open spec fn cancel_ok(s: StakingInstance, u: User, amount: u64, now: u64) -> bool {
    &&& reward_pool_update_ok(s, now)
    &&& u.deposited_amount * updated_reward_per_share(s, now) <= u64::MAX
    &&& payout(s, u, now) >= 0
    &&& u.deposited_amount >= amount
    &&& s.total_shares >= amount
    &&& amount * updated_reward_per_share(s, now) <= u64::MAX
}

/// Opens a staking pool: records its authority, reward mint, collection and
/// reward rate, and starts accruing at `unix_timestamp`. The share count is
/// left as it was.
pub fn initialize_staking(
    staking_instance: &mut StakingInstance,
    authority: Pubkey,
    reward_token_mint: Pubkey,
    allowed_collection_address: Pubkey,
    token_per_sec: u64,
    unix_timestamp: i64,
)
    ensures
        *final(staking_instance) == (StakingInstance {
            authority,
            reward_token_per_sec: token_per_sec,
            reward_token_mint,
            allowed_collection_address,
            accumulated_reward_per_share: 0,
            last_reward_timestamp: clock_seconds(unix_timestamp),
            total_shares: old(staking_instance).total_shares,
        }),
{
    staking_instance.authority = authority;
    staking_instance.reward_token_mint = reward_token_mint;
    staking_instance.reward_token_per_sec = token_per_sec;
    staking_instance.last_reward_timestamp = unix_timestamp as u64;
    staking_instance.accumulated_reward_per_share = 0;
    staking_instance.allowed_collection_address = allowed_collection_address;
}

/// Tells whether staking `amount` at `unix_timestamp` completes without an
/// arithmetic failure.
pub fn can_enter_staking(staking_instance: &StakingInstance, user_instance: &User, amount: u64, unix_timestamp: i64) -> (ok: bool)
    ensures
        ok == enter_ok(*staking_instance, *user_instance, amount, clock_seconds(unix_timestamp)),
{
    match updated_reward_per_share_checked(staking_instance, unix_timestamp as u64) {
        None => false,
        Some(per_share) => user_instance.deposited_amount.checked_add(amount).is_some()
            && staking_instance.total_shares.checked_add(amount).is_some()
            && amount.checked_mul(per_share).is_some(),
    }
}

/// Tells whether unstaking `amount` at `unix_timestamp` completes without an
/// arithmetic failure.
pub fn can_cancel_staking(staking_instance: &StakingInstance, user_instance: &User, amount: u64, unix_timestamp: i64) -> (ok: bool)
    ensures
        ok == cancel_ok(*staking_instance, *user_instance, amount, clock_seconds(unix_timestamp)),
{
    match updated_reward_per_share_checked(staking_instance, unix_timestamp as u64) {
        None => false,
        Some(per_share) => match user_instance.deposited_amount.checked_mul(per_share) {
            None => false,
            Some(product) => product / PAYOUT_SCALE >= user_instance.reward_debt
                && user_instance.deposited_amount >= amount
                && staking_instance.total_shares >= amount
                && amount.checked_mul(per_share).is_some(),
        },
    }
}

/// The per-share reward after an update at `now`, or `None` where the update
/// fails.
fn updated_reward_per_share_checked(staking_instance: &StakingInstance, now: u64) -> (per_share: Option<u64>)
    ensures
        match per_share {
            Some(v) => reward_pool_update_ok(*staking_instance, now)
                && v == updated_reward_per_share(*staking_instance, now),
            None => !reward_pool_update_ok(*staking_instance, now),
        },
{
    if now < staking_instance.last_reward_timestamp || staking_instance.total_shares == 0 {
        return None;
    }
    let income = staking_instance.reward_token_per_sec.checked_mul(now - staking_instance.last_reward_timestamp)?;
    let scaled = income.checked_mul(REWARD_SCALE)?;
    staking_instance.accumulated_reward_per_share.checked_add(scaled / staking_instance.total_shares)
}

/// Stakes `amount` tokens: the pool is brought up to `unix_timestamp` and the
/// deposit, the shares and the reward debt are recomputed on copies of the
/// accounts, which are then dropped. Returns the amount to transfer from the
/// staker's wallet to the program's wallet.
pub fn enter_staking(
    staking_instance: &StakingInstance,
    user_instance: &User,
    amount: u64,
    unix_timestamp: i64,
) -> (transferred: u64)
    requires
        enter_ok(*staking_instance, *user_instance, amount, clock_seconds(unix_timestamp)),
    ensures
        transferred == amount,
{
    let mut staking_instance = *staking_instance;
    let mut user_instance = *user_instance;
    let current_timestamp = unix_timestamp as u64;

    let income = staking_instance.reward_token_per_sec
        * (current_timestamp - staking_instance.last_reward_timestamp);
    staking_instance.accumulated_reward_per_share = staking_instance.accumulated_reward_per_share
        + income * REWARD_SCALE / staking_instance.total_shares;
    staking_instance.last_reward_timestamp = current_timestamp;

    user_instance.deposited_amount = user_instance.deposited_amount + amount;
    staking_instance.total_shares = staking_instance.total_shares + amount;
    user_instance.reward_debt = amount * staking_instance.accumulated_reward_per_share / REWARD_SCALE;
    amount
}

/// Unstakes `amount` tokens: the pool is brought up to `unix_timestamp`, the
/// staker's payout is computed, and the deposit, the shares and the reward
/// debt are recomputed on copies of the accounts, which are then dropped.
/// Returns the number of reward tokens to mint to the staker. No staked token
/// is transferred back.
pub fn cancel_staking(
    staking_instance: &StakingInstance,
    user_instance: &User,
    amount: u64,
    unix_timestamp: i64,
) -> (minted: u64)
    requires
        cancel_ok(*staking_instance, *user_instance, amount, clock_seconds(unix_timestamp)),
    ensures
        minted == payout(*staking_instance, *user_instance, clock_seconds(unix_timestamp)),
{
    let mut staking_instance = *staking_instance;
    let mut user_instance = *user_instance;
    let current_timestamp = unix_timestamp as u64;

    let income = staking_instance.reward_token_per_sec
        * (current_timestamp - staking_instance.last_reward_timestamp);
    staking_instance.accumulated_reward_per_share = staking_instance.accumulated_reward_per_share
        + income * REWARD_SCALE / staking_instance.total_shares;
    staking_instance.last_reward_timestamp = current_timestamp;

    let pending_reward = (user_instance.deposited_amount * staking_instance.accumulated_reward_per_share)
        / PAYOUT_SCALE - user_instance.reward_debt;

    user_instance.deposited_amount = user_instance.deposited_amount - amount;
    staking_instance.total_shares = staking_instance.total_shares - amount;
    user_instance.reward_debt = amount * staking_instance.accumulated_reward_per_share / REWARD_SCALE;
    pending_reward
}

} // verus!
