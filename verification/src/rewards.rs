//! Per-share reward accounting.
//!
//! The pool accrues `reward_token_per_sec` reward tokens per second and spreads
//! them over `total_shares`, scaled by [`COMPUTATION_DECIMALS`]. A staker's
//! earned reward is `deposited_amount * accumulated_reward_per_share` scaled
//! back down; `reward_debt` is the part of it that was already settled.
use vstd::prelude::*;
use crate::state::{StakingInstance, User};

verus! {

/// Fixed-point scale of `accumulated_reward_per_share`.
pub const COMPUTATION_DECIMALS: u64 = 10_000_000_000;

/// Reward tokens that the pool emitted since its last update.
pub open spec fn pool_income(s: StakingInstance, now: u64) -> int {
    s.reward_token_per_sec * (now - s.last_reward_timestamp)
}

/// What an update at `now` adds to `accumulated_reward_per_share`: nothing
/// while no share is staked.
pub open spec fn accrued_per_share(s: StakingInstance, now: u64) -> int {
    if s.total_shares == 0 {
        0
    } else {
        pool_income(s, now) * COMPUTATION_DECIMALS / (s.total_shares as int)
    }
}

/// The per-share reward of pool `s` once it is brought up to `now`: the
/// tokens emitted since its last update, scaled by [`COMPUTATION_DECIMALS`]
/// and spread over the staked shares, on top of what it held; while no share
/// is staked it stays as it is.
pub open spec fn reward_per_share_at(s: StakingInstance, now: u64) -> int {
    if s.total_shares == 0 {
        s.accumulated_reward_per_share as int
    } else {
        s.accumulated_reward_per_share
            + s.reward_token_per_sec * (now - s.last_reward_timestamp) * COMPUTATION_DECIMALS
                / (s.total_shares as int)
    }
}

/// The pool can be brought up to `now` without an arithmetic failure.
pub open spec fn reward_pool_update_ok(s: StakingInstance, now: u64) -> bool {
    &&& s.last_reward_timestamp <= now
    &&& pool_income(s, now) <= u64::MAX
    &&& pool_income(s, now) * COMPUTATION_DECIMALS <= u64::MAX
    &&& s.accumulated_reward_per_share + accrued_per_share(s, now) <= u64::MAX
}

/// The pool after an update at `now`.
pub open spec fn reward_pool_updated(s: StakingInstance, now: u64) -> StakingInstance {
    StakingInstance {
        accumulated_reward_per_share: (s.accumulated_reward_per_share + accrued_per_share(s, now)) as u64,
        last_reward_timestamp: now,
        ..s
    }
}

/// The reward a staker has earned over the life of its deposit.
pub open spec fn earned_reward(s: StakingInstance, u: User) -> int {
    u.deposited_amount * s.accumulated_reward_per_share / (COMPUTATION_DECIMALS as int)
}

/// The earned reward that is not yet settled.
pub open spec fn pending_reward(s: StakingInstance, u: User) -> int {
    earned_reward(s, u) - u.reward_debt
}

/// The pending reward can be moved to `accumulated_reward` without an
/// arithmetic failure.
pub open spec fn pending_reward_ok(s: StakingInstance, u: User) -> bool {
    &&& u.deposited_amount * s.accumulated_reward_per_share <= u64::MAX
    &&& u.reward_debt <= earned_reward(s, u)
    &&& u.accumulated_reward + pending_reward(s, u) <= u64::MAX
}

/// The staker after its pending reward was moved to `accumulated_reward`.
pub open spec fn pending_reward_stored(s: StakingInstance, u: User) -> User {
    User { accumulated_reward: (u.accumulated_reward + pending_reward(s, u)) as u64, ..u }
}

/// The reward debt can be recomputed without an arithmetic failure.
pub open spec fn reward_debt_ok(s: StakingInstance, u: User) -> bool {
    u.deposited_amount * s.accumulated_reward_per_share <= u64::MAX
}

/// The staker after its whole earned reward was marked as settled.
pub open spec fn reward_debt_updated(s: StakingInstance, u: User) -> User {
    User { reward_debt: earned_reward(s, u) as u64, ..u }
}

/// Brings the pool's per-share reward up to `current_timestamp`.
pub fn update_reward_pool(
    current_timestamp: u64,
    staking_instance: &mut StakingInstance,
    user_instance: &mut User,
)
    requires
        reward_pool_update_ok(*old(staking_instance), current_timestamp),
    ensures
        *final(staking_instance) == reward_pool_updated(*old(staking_instance), current_timestamp),
        final(staking_instance).accumulated_reward_per_share
            >= old(staking_instance).accumulated_reward_per_share,
        *final(user_instance) == *old(user_instance),
{
    let elapsed = current_timestamp.checked_sub(staking_instance.last_reward_timestamp).unwrap();
    let income = staking_instance.reward_token_per_sec.checked_mul(elapsed).unwrap();
    let scaled = income.checked_mul(COMPUTATION_DECIMALS).unwrap();
    let share = scaled.checked_div(staking_instance.total_shares).unwrap_or(0);
    staking_instance.accumulated_reward_per_share =
        staking_instance.accumulated_reward_per_share.checked_add(share).unwrap();
    staking_instance.last_reward_timestamp = current_timestamp;
}

/// Moves the staker's pending reward into `accumulated_reward`.
pub fn store_pending_reward(staking_instance: &mut StakingInstance, user_instance: &mut User)
    requires
        pending_reward_ok(*old(staking_instance), *old(user_instance)),
    ensures
        *final(staking_instance) == *old(staking_instance),
        *final(user_instance) == pending_reward_stored(*old(staking_instance), *old(user_instance)),
{
    let earned = user_instance.deposited_amount
        .checked_mul(staking_instance.accumulated_reward_per_share).unwrap()
        .checked_div(COMPUTATION_DECIMALS).unwrap();
    let pending = earned.checked_sub(user_instance.reward_debt).unwrap();
    user_instance.accumulated_reward = user_instance.accumulated_reward.checked_add(pending).unwrap();
}

/// Marks the staker's whole earned reward as settled.
pub fn update_reward_debt(staking_instance: &mut StakingInstance, user_instance: &mut User)
    requires
        reward_debt_ok(*old(staking_instance), *old(user_instance)),
    ensures
        *final(staking_instance) == *old(staking_instance),
        *final(user_instance) == reward_debt_updated(*old(staking_instance), *old(user_instance)),
{
    user_instance.reward_debt = user_instance.deposited_amount
        .checked_mul(staking_instance.accumulated_reward_per_share).unwrap()
        .checked_div(COMPUTATION_DECIMALS).unwrap();
}

/// Tells whether [`update_reward_pool`] may run on `staking_instance` at
/// `current_timestamp`.
pub fn can_update_reward_pool(staking_instance: &StakingInstance, current_timestamp: u64) -> (ok: bool)
    ensures
        ok == reward_pool_update_ok(*staking_instance, current_timestamp),
{
    if current_timestamp < staking_instance.last_reward_timestamp {
        return false;
    }
    let elapsed = current_timestamp - staking_instance.last_reward_timestamp;
    match staking_instance.reward_token_per_sec.checked_mul(elapsed) {
        None => false,
        Some(income) => match income.checked_mul(COMPUTATION_DECIMALS) {
            None => false,
            Some(scaled) => {
                let share = scaled.checked_div(staking_instance.total_shares).unwrap_or(0);
                staking_instance.accumulated_reward_per_share.checked_add(share).is_some()
            },
        },
    }
}

/// Tells whether [`store_pending_reward`] may run on these accounts.
pub fn can_store_pending_reward(staking_instance: &StakingInstance, user_instance: &User) -> (ok: bool)
    ensures
        ok == pending_reward_ok(*staking_instance, *user_instance),
{
    match user_instance.deposited_amount.checked_mul(staking_instance.accumulated_reward_per_share) {
        None => false,
        Some(product) => {
            let earned = product / COMPUTATION_DECIMALS;
            if earned < user_instance.reward_debt {
                false
            } else {
                user_instance.accumulated_reward.checked_add(earned - user_instance.reward_debt).is_some()
            }
        },
    }
}

/// Tells whether [`update_reward_debt`] may run on these accounts.
pub fn can_update_reward_debt(staking_instance: &StakingInstance, user_instance: &User) -> (ok: bool)
    ensures
        ok == reward_debt_ok(*staking_instance, *user_instance),
{
    user_instance.deposited_amount.checked_mul(staking_instance.accumulated_reward_per_share).is_some()
}


/// Bringing the pool up to the same second twice is the same as doing it once.
pub proof fn lemma_pool_update_idempotent(s: StakingInstance, now: u64)
    requires
        reward_pool_update_ok(s, now),
    ensures
        reward_pool_update_ok(reward_pool_updated(s, now), now),
        reward_pool_updated(reward_pool_updated(s, now), now) == reward_pool_updated(s, now),
{
    let p = reward_pool_updated(s, now);
    assert(pool_income(p, now) == 0) by (nonlinear_arith)
        requires
            p.last_reward_timestamp == now,
    {
    }
    assert(accrued_per_share(p, now) == 0);
}

/// While no share is staked, an update only moves the pool's clock: the
/// rewards of that time are not distributed.
pub proof fn lemma_empty_pool_accrues_nothing(s: StakingInstance, now: u64)
    requires
        s.total_shares == 0,
        reward_pool_update_ok(s, now),
    ensures
        reward_pool_updated(s, now).accumulated_reward_per_share == s.accumulated_reward_per_share,
        reward_pool_updated(s, now).last_reward_timestamp == now,
{
}

/// An update never lowers the per-share reward and never turns the clock back.
pub proof fn lemma_pool_update_monotone(s: StakingInstance, now: u64)
    requires
        reward_pool_update_ok(s, now),
    ensures
        reward_pool_updated(s, now).accumulated_reward_per_share >= s.accumulated_reward_per_share,
        reward_pool_updated(s, now).last_reward_timestamp >= s.last_reward_timestamp,
{
    assert(pool_income(s, now) >= 0) by (nonlinear_arith)
        requires
            s.last_reward_timestamp <= now,
    {
    }
    if s.total_shares != 0 {
        assert(pool_income(s, now) * COMPUTATION_DECIMALS / (s.total_shares as int) >= 0) by (nonlinear_arith)
            requires
                pool_income(s, now) >= 0,
                s.total_shares > 0,
        {
        }
    }
}

/// Right after its reward debt was reset, a staker has no pending reward:
/// storing it changes nothing.
pub proof fn lemma_settled_user_has_no_pending_reward(s: StakingInstance, u: User)
    requires
        reward_debt_ok(s, u),
    ensures
        pending_reward(s, reward_debt_updated(s, u)) == 0,
        pending_reward_ok(s, reward_debt_updated(s, u)),
        pending_reward_stored(s, reward_debt_updated(s, u)) == reward_debt_updated(s, u),
{
    assert(earned_reward(s, u) >= 0) by (nonlinear_arith)
        requires
            u.deposited_amount >= 0,
            s.accumulated_reward_per_share >= 0,
    {
    }
    assert(earned_reward(s, u) <= u64::MAX) by (nonlinear_arith)
        requires
            u.deposited_amount * s.accumulated_reward_per_share <= u64::MAX,
            u.deposited_amount >= 0,
            s.accumulated_reward_per_share >= 0,
    {
    }
}

} // verus!
