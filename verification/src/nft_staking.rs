//! The NFT staking program: stakers lock NFTs of one collection, one share per
//! NFT, and earn the pool's reward token per second and per share.
//!
//! Each handler computes the accounts as the instruction leaves them. The
//! token movement that the instruction makes (a transfer of the NFT, a mint of
//! reward tokens) is performed by the caller, which stores the accounts only
//! once it succeeded: an instruction that fails changes no account.
use vstd::prelude::*;
use crate::state::{Pubkey, StakingInstance, User};
use crate::rewards::{
    reward_pool_update_ok, reward_pool_updated, pending_reward_ok, pending_reward_stored,
    reward_debt_ok, reward_debt_updated, update_reward_pool, store_pending_reward,
    update_reward_debt, can_update_reward_pool, can_store_pending_reward, can_update_reward_debt,
    pool_income, pending_reward, lemma_pool_update_monotone, lemma_settled_user_has_no_pending_reward,
    lemma_pool_update_idempotent, reward_per_share_at, COMPUTATION_DECIMALS,
};
use crate::metadata::{
    DecodedMetadata, decoded_metadata, decode_metadata, nft_accepted, nft_is_accepted, metadata_layout,
};

verus! {

/// What a staking or unstaking request comes to once the NFT was checked.
#[derive(Clone, Copy, Debug, PartialEq, Eq, Structural)]
pub enum StakeDecision {
    /// The NFT is not of the pool's collection or not of the given mint:
    /// nothing moves and no account changes.
    Rejected,
    /// One NFT moves (into the pool on staking, back to the staker on
    /// unstaking) and the accounts take their new values.
    Accepted,
}

/// Why a handler refused a request.
#[derive(Clone, Copy, Debug, PartialEq, Eq, Structural)]
pub enum StakingError {
    /// The metadata account does not decode.
    InvalidMetadata,
    /// The metadata lists no creators; the instruction aborts.
    MissingCreators,
    /// A reward or share counter would leave the range of `u64`, or the clock
    /// is behind the pool's last update; the instruction aborts.
    ArithmeticOverflow,
}

/// The clock reading of an instruction, as the programs store it.
pub open spec fn clock_seconds(unix_timestamp: i64) -> u64 {
    unix_timestamp as u64
}

/// The staker after one more NFT was deposited, before its debt is updated.
pub open spec fn user_deposited(u: User) -> User {
    User { deposited_amount: (u.deposited_amount + 1) as u64, ..u }
}

/// The pool after staking at `now`.
pub open spec fn pool_after_enter(s: StakingInstance, now: u64) -> StakingInstance {
    let p = reward_pool_updated(s, now);
    StakingInstance { total_shares: (p.total_shares + 1) as u64, ..p }
}

/// The staker after staking at `now`.
pub open spec fn user_after_enter(s: StakingInstance, u: User, now: u64) -> User {
    reward_debt_updated(pool_after_enter(s, now), user_deposited(u))
}

/// Staking at `now` completes without an arithmetic failure.
pub open spec fn enter_ok(s: StakingInstance, u: User, now: u64) -> bool {
    &&& reward_pool_update_ok(s, now)
    &&& u.deposited_amount < u64::MAX
    &&& s.total_shares < u64::MAX
    &&& reward_debt_ok(pool_after_enter(s, now), user_deposited(u))
}

/// The staker after its pending reward was stored and one NFT withdrawn,
/// before its debt is updated.
pub open spec fn user_withdrawn(s: StakingInstance, u: User, now: u64) -> User {
    let stored = pending_reward_stored(reward_pool_updated(s, now), u);
    User { deposited_amount: (stored.deposited_amount - 1) as u64, ..stored }
}

/// The pool after unstaking at `now`.
pub open spec fn pool_after_cancel(s: StakingInstance, now: u64) -> StakingInstance {
    let p = reward_pool_updated(s, now);
    StakingInstance { total_shares: (p.total_shares - 1) as u64, ..p }
}

/// The staker after unstaking at `now`.
pub open spec fn user_after_cancel(s: StakingInstance, u: User, now: u64) -> User {
    reward_debt_updated(pool_after_cancel(s, now), user_withdrawn(s, u, now))
}

/// Unstaking at `now` completes without an arithmetic failure.
pub open spec fn cancel_ok(s: StakingInstance, u: User, now: u64) -> bool {
    &&& reward_pool_update_ok(s, now)
    &&& pending_reward_ok(reward_pool_updated(s, now), u)
    &&& u.deposited_amount >= 1
    &&& s.total_shares >= 1
    &&& reward_debt_ok(pool_after_cancel(s, now), user_withdrawn(s, u, now))
}

/// The staker after its pending reward was stored at `now`.
pub open spec fn user_settled(s: StakingInstance, u: User, now: u64) -> User {
    pending_reward_stored(reward_pool_updated(s, now), u)
}

/// The reward tokens that a claim of `amount` at `now` pays out: everything
/// accumulated where `amount` is zero, else `amount`.
pub open spec fn claimed_amount(s: StakingInstance, u: User, amount: u64, now: u64) -> u64 {
    if amount == 0 {
        user_settled(s, u, now).accumulated_reward
    } else {
        amount
    }
}

/// The staker after a claim of `amount` at `now`.
pub open spec fn user_after_claim(s: StakingInstance, u: User, amount: u64, now: u64) -> User {
    let settled = user_settled(s, u, now);
    let paid = User {
        accumulated_reward: (settled.accumulated_reward - claimed_amount(s, u, amount, now)) as u64,
        ..settled
    };
    reward_debt_updated(reward_pool_updated(s, now), paid)
}

/// A claim of `amount` at `now` completes without an arithmetic failure.
pub open spec fn claim_ok(s: StakingInstance, u: User, amount: u64, now: u64) -> bool {
    &&& reward_pool_update_ok(s, now)
    &&& pending_reward_ok(reward_pool_updated(s, now), u)
    &&& claimed_amount(s, u, amount, now) <= user_settled(s, u, now).accumulated_reward
}


/// Opens a staking pool: records its authority, reward mint, collection and
/// reward rate, and starts accruing at `unix_timestamp`. The share count is
/// left as it was (zero on a new account).
pub fn initialize_staking(
    staking_instance: &mut StakingInstance,
    authority: Pubkey,
    reward_token_mint: Pubkey,
    allowed_collection_address: Pubkey,
    token_per_sec: u64,
    unix_timestamp: i64,
)
    ensures
        *final(staking_instance) == (StakingInstance {
            authority,
            reward_token_per_sec: token_per_sec,
            reward_token_mint,
            allowed_collection_address,
            accumulated_reward_per_share: 0,
            last_reward_timestamp: clock_seconds(unix_timestamp),
            total_shares: old(staking_instance).total_shares,
        }),
{
    staking_instance.authority = authority;
    staking_instance.reward_token_per_sec = token_per_sec;
    staking_instance.last_reward_timestamp = unix_timestamp as u64;
    staking_instance.accumulated_reward_per_share = 0;
    staking_instance.reward_token_mint = reward_token_mint;
    staking_instance.allowed_collection_address = allowed_collection_address;
}

/// Opens a staker's position: nothing deposited, owed or accumulated.
pub fn initialize_user(user_instance: &mut User)
    ensures
        final(user_instance).deposited_amount == 0,
        final(user_instance).reward_debt == 0,
        final(user_instance).accumulated_reward == 0,
{
    user_instance.deposited_amount = 0;
    user_instance.reward_debt = 0;
    user_instance.accumulated_reward = 0;
}

/// Tells whether staking at `unix_timestamp` completes without an arithmetic
/// failure.
pub fn can_enter_staking(staking_instance: &StakingInstance, user_instance: &User, unix_timestamp: i64) -> (ok: bool)
    ensures
        ok == enter_ok(*staking_instance, *user_instance, clock_seconds(unix_timestamp)),
{
    let now = unix_timestamp as u64;
    if !can_update_reward_pool(staking_instance, now) {
        return false;
    }
    let mut pool = *staking_instance;
    let mut user = *user_instance;
    update_reward_pool(now, &mut pool, &mut user);
    if user.deposited_amount == u64::MAX || pool.total_shares == u64::MAX {
        return false;
    }
    user.deposited_amount = user.deposited_amount + 1;
    pool.total_shares = pool.total_shares + 1;
    can_update_reward_debt(&pool, &user)
}

/// Stakes one NFT whose metadata was decoded into `metadata`.
///
/// The NFT is accepted when its metadata lists `allowed_collection_address` as
/// a verified creator and names `nft_mint` as its mint; then the pool is
/// brought up to date, the staker's deposit and the pool's shares grow by one,
/// and the staker's reward debt is reset. A rejected NFT changes nothing.
pub fn enter_staking_with_metadata(
    staking_instance: &mut StakingInstance,
    user_instance: &mut User,
    metadata: &DecodedMetadata,
    nft_mint: &Pubkey,
    allowed_collection_address: &Pubkey,
    unix_timestamp: i64,
) -> (decision: StakeDecision)
    requires
        metadata.creators is Some,
        nft_accepted(metadata@, *nft_mint, *allowed_collection_address)
            ==> enter_ok(*old(staking_instance), *old(user_instance), clock_seconds(unix_timestamp)),
    ensures
        nft_accepted(metadata@, *nft_mint, *allowed_collection_address) ==> {
            &&& decision == StakeDecision::Accepted
            &&& *final(staking_instance) == pool_after_enter(*old(staking_instance), clock_seconds(unix_timestamp))
            &&& *final(user_instance) == user_after_enter(
                *old(staking_instance), *old(user_instance), clock_seconds(unix_timestamp))
        },
        !nft_accepted(metadata@, *nft_mint, *allowed_collection_address) ==> {
            &&& decision == StakeDecision::Rejected
            &&& *final(staking_instance) == *old(staking_instance)
            &&& *final(user_instance) == *old(user_instance)
        },
{
    if !nft_is_accepted(metadata, nft_mint, allowed_collection_address) {
        return StakeDecision::Rejected;
    }
    let current_timestamp = unix_timestamp as u64;
    update_reward_pool(current_timestamp, staking_instance, user_instance);
    user_instance.deposited_amount = user_instance.deposited_amount + 1;
    staking_instance.total_shares = staking_instance.total_shares + 1;
    update_reward_debt(staking_instance, user_instance);
    StakeDecision::Accepted
}

/// Stakes one NFT, reading its Metaplex metadata account from
/// `metadata_account_data`. Where the request cannot complete, no account
/// changes and the error says why.
pub fn enter_staking(
    staking_instance: &mut StakingInstance,
    user_instance: &mut User,
    metadata_account_data: &[u8],
    nft_mint: &Pubkey,
    allowed_collection_address: &Pubkey,
    unix_timestamp: i64,
) -> (result: Result<StakeDecision, StakingError>)
    ensures
        match decoded_metadata(metadata_account_data@) {
            None => result == Err::<StakeDecision, StakingError>(StakingError::InvalidMetadata),
            Some(m) => metadata_layout(metadata_account_data@, m.0, m.1) && if m.1 is None {
                result == Err::<StakeDecision, StakingError>(StakingError::MissingCreators)
            } else if !nft_accepted(m, *nft_mint, *allowed_collection_address) {
                result == Ok::<StakeDecision, StakingError>(StakeDecision::Rejected)
            } else if !enter_ok(*old(staking_instance), *old(user_instance), clock_seconds(unix_timestamp)) {
                result == Err::<StakeDecision, StakingError>(StakingError::ArithmeticOverflow)
            } else {
                result == Ok::<StakeDecision, StakingError>(StakeDecision::Accepted)
            },
        },
        result == Ok::<StakeDecision, StakingError>(StakeDecision::Accepted) ==> {
            &&& *final(staking_instance) == pool_after_enter(*old(staking_instance), clock_seconds(unix_timestamp))
            &&& *final(user_instance) == user_after_enter(
                *old(staking_instance), *old(user_instance), clock_seconds(unix_timestamp))
        },
        result != Ok::<StakeDecision, StakingError>(StakeDecision::Accepted) ==> {
            &&& *final(staking_instance) == *old(staking_instance)
            &&& *final(user_instance) == *old(user_instance)
        },
{
    let metadata = match decode_metadata(metadata_account_data) {
        Some(m) => m,
        None => return Err(StakingError::InvalidMetadata),
    };
    if metadata.creators.is_none() {
        return Err(StakingError::MissingCreators);
    }
    if nft_is_accepted(&metadata, nft_mint, allowed_collection_address)
        && !can_enter_staking(staking_instance, user_instance, unix_timestamp) {
        return Err(StakingError::ArithmeticOverflow);
    }
    Ok(enter_staking_with_metadata(
        staking_instance,
        user_instance,
        &metadata,
        nft_mint,
        allowed_collection_address,
        unix_timestamp,
    ))
}


/// Tells whether unstaking at `unix_timestamp` completes without an
/// arithmetic failure.
pub fn can_cancel_staking(staking_instance: &StakingInstance, user_instance: &User, unix_timestamp: i64) -> (ok: bool)
    ensures
        ok == cancel_ok(*staking_instance, *user_instance, clock_seconds(unix_timestamp)),
{
    let now = unix_timestamp as u64;
    if !can_update_reward_pool(staking_instance, now) {
        return false;
    }
    let mut pool = *staking_instance;
    let mut user = *user_instance;
    update_reward_pool(now, &mut pool, &mut user);
    if !can_store_pending_reward(&pool, &user) {
        return false;
    }
    store_pending_reward(&mut pool, &mut user);
    if user.deposited_amount == 0 || pool.total_shares == 0 {
        return false;
    }
    user.deposited_amount = user.deposited_amount - 1;
    pool.total_shares = pool.total_shares - 1;
    can_update_reward_debt(&pool, &user)
}

/// Unstakes one NFT whose metadata was decoded into `metadata`.
///
/// The NFT is accepted as for staking; then the pool is brought up to date,
/// the staker's pending reward is stored, its deposit and the pool's shares
/// shrink by one, and its reward debt is reset. A rejected NFT changes
/// nothing.
pub fn cancel_staking_with_metadata(
    staking_instance: &mut StakingInstance,
    user_instance: &mut User,
    metadata: &DecodedMetadata,
    nft_mint: &Pubkey,
    allowed_collection_address: &Pubkey,
    unix_timestamp: i64,
) -> (decision: StakeDecision)
    requires
        metadata.creators is Some,
        nft_accepted(metadata@, *nft_mint, *allowed_collection_address)
            ==> cancel_ok(*old(staking_instance), *old(user_instance), clock_seconds(unix_timestamp)),
    ensures
        nft_accepted(metadata@, *nft_mint, *allowed_collection_address) ==> {
            &&& decision == StakeDecision::Accepted
            &&& *final(staking_instance) == pool_after_cancel(*old(staking_instance), clock_seconds(unix_timestamp))
            &&& *final(user_instance) == user_after_cancel(
                *old(staking_instance), *old(user_instance), clock_seconds(unix_timestamp))
        },
        !nft_accepted(metadata@, *nft_mint, *allowed_collection_address) ==> {
            &&& decision == StakeDecision::Rejected
            &&& *final(staking_instance) == *old(staking_instance)
            &&& *final(user_instance) == *old(user_instance)
        },
{
    if !nft_is_accepted(metadata, nft_mint, allowed_collection_address) {
        return StakeDecision::Rejected;
    }
    let current_timestamp = unix_timestamp as u64;
    update_reward_pool(current_timestamp, staking_instance, user_instance);
    store_pending_reward(staking_instance, user_instance);
    user_instance.deposited_amount = user_instance.deposited_amount - 1;
    staking_instance.total_shares = staking_instance.total_shares - 1;
    update_reward_debt(staking_instance, user_instance);
    StakeDecision::Accepted
}

/// Unstakes one NFT, reading its Metaplex metadata account from
/// `metadata_account_data`. Where the request cannot complete, no account
/// changes and the error says why.
pub fn cancel_staking(
    staking_instance: &mut StakingInstance,
    user_instance: &mut User,
    metadata_account_data: &[u8],
    nft_mint: &Pubkey,
    allowed_collection_address: &Pubkey,
    unix_timestamp: i64,
) -> (result: Result<StakeDecision, StakingError>)
    ensures
        match decoded_metadata(metadata_account_data@) {
            None => result == Err::<StakeDecision, StakingError>(StakingError::InvalidMetadata),
            Some(m) => metadata_layout(metadata_account_data@, m.0, m.1) && if m.1 is None {
                result == Err::<StakeDecision, StakingError>(StakingError::MissingCreators)
            } else if !nft_accepted(m, *nft_mint, *allowed_collection_address) {
                result == Ok::<StakeDecision, StakingError>(StakeDecision::Rejected)
            } else if !cancel_ok(*old(staking_instance), *old(user_instance), clock_seconds(unix_timestamp)) {
                result == Err::<StakeDecision, StakingError>(StakingError::ArithmeticOverflow)
            } else {
                result == Ok::<StakeDecision, StakingError>(StakeDecision::Accepted)
            },
        },
        result == Ok::<StakeDecision, StakingError>(StakeDecision::Accepted) ==> {
            &&& *final(staking_instance) == pool_after_cancel(*old(staking_instance), clock_seconds(unix_timestamp))
            &&& *final(user_instance) == user_after_cancel(
                *old(staking_instance), *old(user_instance), clock_seconds(unix_timestamp))
        },
        result != Ok::<StakeDecision, StakingError>(StakeDecision::Accepted) ==> {
            &&& *final(staking_instance) == *old(staking_instance)
            &&& *final(user_instance) == *old(user_instance)
        },
{
    let metadata = match decode_metadata(metadata_account_data) {
        Some(m) => m,
        None => return Err(StakingError::InvalidMetadata),
    };
    if metadata.creators.is_none() {
        return Err(StakingError::MissingCreators);
    }
    if nft_is_accepted(&metadata, nft_mint, allowed_collection_address)
        && !can_cancel_staking(staking_instance, user_instance, unix_timestamp) {
        return Err(StakingError::ArithmeticOverflow);
    }
    Ok(cancel_staking_with_metadata(
        staking_instance,
        user_instance,
        &metadata,
        nft_mint,
        allowed_collection_address,
        unix_timestamp,
    ))
}

/// Tells whether a claim of `amount` at `unix_timestamp` completes without an
/// arithmetic failure.
pub fn can_claim_rewards(staking_instance: &StakingInstance, user_instance: &User, amount: u64, unix_timestamp: i64) -> (ok: bool)
    ensures
        ok == claim_ok(*staking_instance, *user_instance, amount, clock_seconds(unix_timestamp)),
{
    let now = unix_timestamp as u64;
    if !can_update_reward_pool(staking_instance, now) {
        return false;
    }
    let mut pool = *staking_instance;
    let mut user = *user_instance;
    update_reward_pool(now, &mut pool, &mut user);
    if !can_store_pending_reward(&pool, &user) {
        return false;
    }
    store_pending_reward(&mut pool, &mut user);
    amount <= user.accumulated_reward
}

/// Claims reward tokens: brings the pool up to date, stores the staker's
/// pending reward, takes `amount` (everything accumulated where `amount` is
/// zero) from what the staker accumulated and resets its reward debt. Returns
/// the number of reward tokens to mint to the staker.
pub fn claim_rewards(
    staking_instance: &mut StakingInstance,
    user_instance: &mut User,
    amount: u64,
    unix_timestamp: i64,
) -> (minted: u64)
    requires
        claim_ok(*old(staking_instance), *old(user_instance), amount, clock_seconds(unix_timestamp)),
    ensures
        minted == claimed_amount(*old(staking_instance), *old(user_instance), amount, clock_seconds(unix_timestamp)),
        *final(staking_instance) == reward_pool_updated(*old(staking_instance), clock_seconds(unix_timestamp)),
        *final(user_instance) == user_after_claim(
            *old(staking_instance), *old(user_instance), amount, clock_seconds(unix_timestamp)),
        amount == 0 ==> final(user_instance).accumulated_reward == 0,
{
    let current_timestamp = unix_timestamp as u64;
    update_reward_pool(current_timestamp, staking_instance, user_instance);
    store_pending_reward(staking_instance, user_instance);
    let amount = if amount == 0 {
        user_instance.accumulated_reward
    } else {
        amount
    };
    user_instance.accumulated_reward = user_instance.accumulated_reward.checked_sub(amount).unwrap();
    update_reward_debt(staking_instance, user_instance);
    amount
}


/// Every accepted stake, unstake or claim leaves the staker with no pending
/// reward, never lowers the per-share reward nor turns the pool's clock back,
/// and moves the staker's deposit and the pool's shares together: by one NFT
/// on staking and unstaking, not at all on claiming. So a pool whose shares
/// equal its only staker's deposit keeps them equal.
pub proof fn lemma_handler_bookkeeping(s: StakingInstance, u: User, amount: u64, now: u64)
    ensures
        enter_ok(s, u, now) ==> {
            &&& pool_after_enter(s, now).total_shares == s.total_shares + 1
            &&& user_after_enter(s, u, now).deposited_amount == u.deposited_amount + 1
            &&& pending_reward(pool_after_enter(s, now), user_after_enter(s, u, now)) == 0
            &&& pool_after_enter(s, now).accumulated_reward_per_share >= s.accumulated_reward_per_share
            &&& pool_after_enter(s, now).last_reward_timestamp >= s.last_reward_timestamp
        },
        cancel_ok(s, u, now) ==> {
            &&& pool_after_cancel(s, now).total_shares == s.total_shares - 1
            &&& user_after_cancel(s, u, now).deposited_amount == u.deposited_amount - 1
            &&& pending_reward(pool_after_cancel(s, now), user_after_cancel(s, u, now)) == 0
            &&& pool_after_cancel(s, now).accumulated_reward_per_share >= s.accumulated_reward_per_share
            &&& pool_after_cancel(s, now).last_reward_timestamp >= s.last_reward_timestamp
        },
        claim_ok(s, u, amount, now) ==> {
            &&& reward_pool_updated(s, now).total_shares == s.total_shares
            &&& user_after_claim(s, u, amount, now).deposited_amount == u.deposited_amount
            &&& pending_reward(reward_pool_updated(s, now), user_after_claim(s, u, amount, now)) == 0
            &&& reward_pool_updated(s, now).accumulated_reward_per_share >= s.accumulated_reward_per_share
            &&& reward_pool_updated(s, now).last_reward_timestamp >= s.last_reward_timestamp
        },
{
    if enter_ok(s, u, now) {
        lemma_pool_update_monotone(s, now);
        lemma_settled_user_has_no_pending_reward(pool_after_enter(s, now), user_deposited(u));
    }
    if cancel_ok(s, u, now) {
        lemma_pool_update_monotone(s, now);
        lemma_settled_user_has_no_pending_reward(pool_after_cancel(s, now), user_withdrawn(s, u, now));
    }
    if claim_ok(s, u, amount, now) {
        let p = reward_pool_updated(s, now);
        let settled = user_settled(s, u, now);
        let paid = User {
            accumulated_reward: (settled.accumulated_reward - claimed_amount(s, u, amount, now)) as u64,
            ..settled
        };
        lemma_pool_update_monotone(s, now);
        lemma_settled_user_has_no_pending_reward(p, paid);
    }
}

/// Staking an NFT and unstaking it within the same second always goes
/// through, and gives the staker back its deposit and its accumulated reward,
/// and the pool its shares.
pub proof fn lemma_enter_then_cancel_restores(s: StakingInstance, u: User, now: u64)
    requires
        enter_ok(s, u, now),
    ensures
        cancel_ok(pool_after_enter(s, now), user_after_enter(s, u, now), now),
        pool_after_cancel(pool_after_enter(s, now), now).total_shares == s.total_shares,
        pool_after_cancel(pool_after_enter(s, now), now).accumulated_reward_per_share
            == pool_after_enter(s, now).accumulated_reward_per_share,
        user_after_cancel(pool_after_enter(s, now), user_after_enter(s, u, now), now).deposited_amount
            == u.deposited_amount,
        user_after_cancel(pool_after_enter(s, now), user_after_enter(s, u, now), now).accumulated_reward
            == u.accumulated_reward,
{
    let s1 = pool_after_enter(s, now);
    let d = user_deposited(u);
    let u1 = user_after_enter(s, u, now);
    assert(pool_income(s1, now) == 0) by (nonlinear_arith)
        requires
            s1.last_reward_timestamp == now,
    {
    }
    assert(reward_pool_updated(s1, now) == s1);
    lemma_settled_user_has_no_pending_reward(s1, d);
    let acc = s1.accumulated_reward_per_share;
    assert(u.deposited_amount * acc <= d.deposited_amount * acc) by (nonlinear_arith)
        requires
            d.deposited_amount == u.deposited_amount + 1,
            acc >= 0,
    {
    }
}

/// Claiming everything twice within the same second pays nothing the second
/// time and leaves both accounts as the first claim left them.
pub proof fn lemma_second_claim_pays_nothing(s: StakingInstance, u: User, now: u64)
    requires
        claim_ok(s, u, 0, now),
    ensures
        claim_ok(reward_pool_updated(s, now), user_after_claim(s, u, 0, now), 0, now),
        claimed_amount(reward_pool_updated(s, now), user_after_claim(s, u, 0, now), 0, now) == 0,
        reward_pool_updated(reward_pool_updated(s, now), now) == reward_pool_updated(s, now),
        user_after_claim(reward_pool_updated(s, now), user_after_claim(s, u, 0, now), 0, now)
            == user_after_claim(s, u, 0, now),
{
    let p = reward_pool_updated(s, now);
    let settled = user_settled(s, u, now);
    let paid = User { accumulated_reward: 0, ..settled };
    lemma_pool_update_idempotent(s, now);
    lemma_settled_user_has_no_pending_reward(p, paid);
}


/// The reward a staker has earned over its whole deposit once the pool is
/// brought up to `now`.
pub open spec fn earned_at(s: StakingInstance, u: User, now: u64) -> int {
    u.deposited_amount * reward_per_share_at(s, now) / (COMPUTATION_DECIMALS as int)
}

/// Staking keeps what the stakers already in the pool earned: an accepted
/// stake at `now` first credits the pool with the rewards of the seconds since
/// its last update, spread over the shares staked before, and only then adds
/// the new share; the staker's debt becomes its new deposit times that
/// per-share reward, and its accumulated reward stays. The stake goes through
/// exactly when the clock is not behind the pool and none of these figures
/// leaves the range of `u64`.
pub proof fn lemma_stake_credits_earlier_stakers(s: StakingInstance, u: User, now: u64)
    ensures
        enter_ok(s, u, now) <==> {
            &&& s.last_reward_timestamp <= now
            &&& s.reward_token_per_sec * (now - s.last_reward_timestamp) <= u64::MAX
            &&& s.reward_token_per_sec * (now - s.last_reward_timestamp) * COMPUTATION_DECIMALS <= u64::MAX
            &&& reward_per_share_at(s, now) <= u64::MAX
            &&& u.deposited_amount < u64::MAX
            &&& s.total_shares < u64::MAX
            &&& (u.deposited_amount + 1) * reward_per_share_at(s, now) <= u64::MAX
        },
        enter_ok(s, u, now) ==> {
            &&& pool_after_enter(s, now).accumulated_reward_per_share == reward_per_share_at(s, now)
            &&& pool_after_enter(s, now).last_reward_timestamp == now
            &&& pool_after_enter(s, now).total_shares == s.total_shares + 1
            &&& user_after_enter(s, u, now).deposited_amount == u.deposited_amount + 1
            &&& user_after_enter(s, u, now).reward_debt
                == (u.deposited_amount + 1) * reward_per_share_at(s, now) / (COMPUTATION_DECIMALS as int)
            &&& user_after_enter(s, u, now).accumulated_reward == u.accumulated_reward
        },
{
}

/// Unstaking pays the staker everything it earned up to `now`: the pool is
/// first credited with the rewards of the seconds since its last update, the
/// staker's accumulated reward grows by its earned reward at that per-share
/// rate less its debt, and only then its share leaves; its debt becomes its
/// remaining deposit times the per-share reward. The request goes through
/// exactly when the clock is not behind the pool, a share is staked, the debt
/// does not exceed the earned reward and none of these figures leaves the
/// range of `u64`.
pub proof fn lemma_unstake_pays_reward_up_to_now(s: StakingInstance, u: User, now: u64)
    ensures
        cancel_ok(s, u, now) <==> {
            &&& s.last_reward_timestamp <= now
            &&& s.reward_token_per_sec * (now - s.last_reward_timestamp) <= u64::MAX
            &&& s.reward_token_per_sec * (now - s.last_reward_timestamp) * COMPUTATION_DECIMALS <= u64::MAX
            &&& reward_per_share_at(s, now) <= u64::MAX
            &&& u.deposited_amount * reward_per_share_at(s, now) <= u64::MAX
            &&& u.reward_debt <= earned_at(s, u, now)
            &&& u.accumulated_reward + earned_at(s, u, now) - u.reward_debt <= u64::MAX
            &&& u.deposited_amount >= 1
            &&& s.total_shares >= 1
        },
        cancel_ok(s, u, now) ==> {
            &&& pool_after_cancel(s, now).accumulated_reward_per_share == reward_per_share_at(s, now)
            &&& pool_after_cancel(s, now).last_reward_timestamp == now
            &&& pool_after_cancel(s, now).total_shares == s.total_shares - 1
            &&& user_after_cancel(s, u, now).deposited_amount == u.deposited_amount - 1
            &&& user_after_cancel(s, u, now).accumulated_reward
                == u.accumulated_reward + earned_at(s, u, now) - u.reward_debt
            &&& user_after_cancel(s, u, now).reward_debt
                == (u.deposited_amount - 1) * reward_per_share_at(s, now) / (COMPUTATION_DECIMALS as int)
        },
{
    let p = reward_per_share_at(s, now);
    if u.deposited_amount >= 1 && p >= 0 {
        assert((u.deposited_amount - 1) * p <= u.deposited_amount * p) by (nonlinear_arith)
            requires
                u.deposited_amount >= 1,
                p >= 0,
        {
        }
    }
    if s.last_reward_timestamp <= now && s.total_shares >= 1 {
        assert(p >= 0) by (nonlinear_arith)
            requires
                p == s.accumulated_reward_per_share
                    + s.reward_token_per_sec * (now - s.last_reward_timestamp) * COMPUTATION_DECIMALS
                        / (s.total_shares as int),
                s.accumulated_reward_per_share >= 0,
                s.reward_token_per_sec >= 0,
                now - s.last_reward_timestamp >= 0,
                s.total_shares >= 1,
        {
        }
    }
}

/// A claim of any amount first credits the staker with everything it earned
/// up to `now`: the pool is brought up to `now`, the staker's accumulated
/// reward grows by its earned reward at that per-share rate less its debt,
/// the claimed tokens (all of it where `amount` is zero, else `amount`) are
/// taken from it, and its debt becomes its earned reward. The claim goes
/// through exactly when the clock is not behind the pool, the debt does not
/// exceed the earned reward, none of these figures leaves the range of `u64`
/// and `amount` does not exceed what the staker is owed.
pub proof fn lemma_claim_credits_reward_up_to_now(s: StakingInstance, u: User, amount: u64, now: u64)
    ensures
        claim_ok(s, u, amount, now) <==> {
            &&& s.last_reward_timestamp <= now
            &&& s.reward_token_per_sec * (now - s.last_reward_timestamp) <= u64::MAX
            &&& s.reward_token_per_sec * (now - s.last_reward_timestamp) * COMPUTATION_DECIMALS <= u64::MAX
            &&& reward_per_share_at(s, now) <= u64::MAX
            &&& u.deposited_amount * reward_per_share_at(s, now) <= u64::MAX
            &&& u.reward_debt <= earned_at(s, u, now)
            &&& u.accumulated_reward + earned_at(s, u, now) - u.reward_debt <= u64::MAX
            &&& amount <= u.accumulated_reward + earned_at(s, u, now) - u.reward_debt
        },
        claim_ok(s, u, amount, now) ==> {
            &&& claimed_amount(s, u, amount, now) == if amount == 0 {
                u.accumulated_reward + earned_at(s, u, now) - u.reward_debt
            } else {
                amount as int
            }
            &&& reward_pool_updated(s, now).accumulated_reward_per_share == reward_per_share_at(s, now)
            &&& reward_pool_updated(s, now).last_reward_timestamp == now
            &&& reward_pool_updated(s, now).total_shares == s.total_shares
            &&& user_after_claim(s, u, amount, now).deposited_amount == u.deposited_amount
            &&& user_after_claim(s, u, amount, now).accumulated_reward
                == u.accumulated_reward + earned_at(s, u, now) - u.reward_debt
                    - claimed_amount(s, u, amount, now)
            &&& user_after_claim(s, u, amount, now).reward_debt == earned_at(s, u, now)
        },
{
}

} // verus!
