//! The hook orchestrator and the admin operations.
//!
//! `transfer_hook` is the entry point invoked once per transfer attempt.
//! It sequences the access-control gate, the fee computation, and the
//! state updates; a rejection leaves both records untouched, an
//! acceptance applies every update. The admin operations require the
//! caller to be the configured authority, a precondition the host
//! establishes through `is_authorized` before calling in.

use vstd::prelude::*;
use crate::state::{Identity, HookConfig, UserState, ErrorCode};
use crate::tiers::{compute_fee, spec_fee};

verus! {

/// Saturating addition on `u64`: sticks at the maximum instead of
/// wrapping.
pub open spec fn sat_add(a: u64, b: u64) -> u64 {
    if a + b > u64::MAX {
        u64::MAX
    } else {
        (a + b) as u64
    }
}

/// The sender record after one accepted transfer of `amount` at time
/// `now`: on a first transfer the owner and first-seen time are set;
/// the lifetime counters grow saturating; the last-seen time is
/// refreshed.
pub open spec fn spec_user_after_transfer(
    user: UserState,
    sender: Identity,
    amount: u64,
    now: i64,
) -> UserState {
    UserState {
        owner: if user.transfer_count == 0 {
            sender
        } else {
            user.owner
        },
        first_transfer_timestamp: if user.transfer_count == 0 {
            now
        } else {
            user.first_transfer_timestamp
        },
        transfer_count: sat_add(user.transfer_count, 1),
        total_volume: sat_add(user.total_volume, amount),
        last_transfer_timestamp: now,
        is_blacklisted: user.is_blacklisted,
    }
}

/// The global configuration after one accepted transfer of `amount`
/// charging `fee`: the three aggregate counters grow saturating;
/// authority, fee collector and pause flag are untouched.
pub open spec fn spec_config_after_transfer(config: HookConfig, amount: u64, fee: u64) -> HookConfig {
    HookConfig {
        total_transfers: sat_add(config.total_transfers, 1),
        total_volume: sat_add(config.total_volume, amount),
        total_fees_collected: sat_add(config.total_fees_collected, fee),
        ..config
    }
}

/// Capability check for the admin operations: only the configured
/// authority may perform them.
pub fn is_authorized(caller: Identity, config: &HookConfig) -> (authorized: bool)
    ensures
        authorized == (caller == config.authority),
{
    caller == config.authority
}

/// Main transfer hook logic, invoked once per transfer attempt.
///
/// A paused config rejects every transfer, a blacklisted sender is
/// rejected even when unpaused, and either rejection leaves both
/// records exactly as they were. Otherwise the transfer is accepted:
/// the fee is computed from the amount and the sender's pre-update
/// transfer count, both records are updated, and the fee is returned.
pub fn transfer_hook(
    config: &mut HookConfig,
    user_state: &mut UserState,
    sender: Identity,
    amount: u64,
    now: i64,
) -> (result: Result<u64, ErrorCode>)
    ensures
        old(config).is_paused ==> {
            &&& result == Err::<u64, ErrorCode>(ErrorCode::HookPaused)
            &&& *final(config) == *old(config)
            &&& *final(user_state) == *old(user_state)
        },
        !old(config).is_paused && old(user_state).is_blacklisted ==> {
            &&& result == Err::<u64, ErrorCode>(ErrorCode::UserBlacklisted)
            &&& *final(config) == *old(config)
            &&& *final(user_state) == *old(user_state)
        },
        !old(config).is_paused && !old(user_state).is_blacklisted ==> {
            &&& result == Ok::<u64, ErrorCode>(
                spec_fee(amount, old(user_state).transfer_count) as u64,
            )
            &&& *final(user_state) == spec_user_after_transfer(
                *old(user_state),
                sender,
                amount,
                now,
            )
            &&& *final(config) == spec_config_after_transfer(
                *old(config),
                amount,
                spec_fee(amount, old(user_state).transfer_count) as u64,
            )
        },
{
    if config.is_paused {
        return Err(ErrorCode::HookPaused);
    }
    if user_state.is_blacklisted {
        return Err(ErrorCode::UserBlacklisted);
    }

    if user_state.transfer_count == 0 {
        user_state.owner = sender;
        user_state.first_transfer_timestamp = now;
    }

    let final_fee: u64 = compute_fee(amount, user_state.transfer_count);

    user_state.transfer_count = user_state.transfer_count.saturating_add(1);
    user_state.total_volume = user_state.total_volume.saturating_add(amount);
    user_state.last_transfer_timestamp = now;

    config.total_transfers = config.total_transfers.saturating_add(1);
    config.total_volume = config.total_volume.saturating_add(amount);
    config.total_fees_collected = config.total_fees_collected.saturating_add(final_fee);

    Ok(final_fee)
}

/// Admin: pause or unpause the hook. Only the pause flag changes.
pub fn set_pause(config: &mut HookConfig, caller: Identity, paused: bool)
    requires
        old(config).authority == caller,
    ensures
        *final(config) == (HookConfig { is_paused: paused, ..*old(config) }),
{
    config.is_paused = paused;
}

/// Admin: blacklist or whitelist a sender. Only the blacklist flag of
/// that sender's record changes; pre-emptive blacklisting of a sender
/// with no prior activity is allowed.
pub fn set_blacklist(
    config: &HookConfig,
    user_state: &mut UserState,
    caller: Identity,
    blacklisted: bool,
)
    requires
        config.authority == caller,
    ensures
        *final(user_state) == (UserState { is_blacklisted: blacklisted, ..*old(user_state) }),
{
    user_state.is_blacklisted = blacklisted;
}

/// Admin: redirect collected fees. Only the fee collector changes.
pub fn update_fee_collector(config: &mut HookConfig, caller: Identity, new_collector: Identity)
    requires
        old(config).authority == caller,
    ensures
        *final(config) == (HookConfig { fee_collector: new_collector, ..*old(config) }),
{
    config.fee_collector = new_collector;
}

} // verus!
