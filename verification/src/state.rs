//! Persistent state records.
//!
//! One `HookConfig` exists per deployment scope; one `UserState` exists
//! per distinct sender, created lazily on that sender's first transfer
//! (or explicitly, zeroed, by an admin pre-emptively blacklisting a
//! sender with no prior activity). The host keys the records and
//! persists every mutation the core makes to them.

use vstd::prelude::*;

verus! {

/// An opaque participant identity, as the host's addressing scheme
/// delivers it. The core only stores and compares identities.
#[derive(Debug, Clone, Copy, PartialEq, Eq, Structural, Hash)]
pub struct Identity {
    pub value: u128,
}

/// Process-wide configuration and aggregate statistics.
#[derive(Debug, Clone, Copy, PartialEq, Eq, Structural)]
pub struct HookConfig {
    /// Identity permitted to perform admin operations; set at creation,
    /// immutable thereafter.
    pub authority: Identity,
    /// Identity that conceptually receives collected fees.
    pub fee_collector: Identity,
    /// When true, every transfer is rejected.
    pub is_paused: bool,
    /// Aggregate counters; saturating, never decreasing.
    pub total_transfers: u64,
    pub total_volume: u64,
    pub total_fees_collected: u64,
}

/// Per-sender lifetime state.
#[derive(Debug, Clone, Copy, PartialEq, Eq, Structural)]
pub struct UserState {
    /// The sender this record belongs to; set on the first transfer.
    pub owner: Identity,
    /// Lifetime transfer count; saturating, never decreasing.
    pub transfer_count: u64,
    /// Lifetime cumulative transferred amount; saturating.
    pub total_volume: u64,
    pub first_transfer_timestamp: i64,
    pub last_transfer_timestamp: i64,
    /// When true, every transfer by this sender is rejected.
    pub is_blacklisted: bool,
}

/// Outcomes a transfer attempt or admin operation can fail with.
#[derive(Debug, Clone, Copy, PartialEq, Eq, Structural)]
pub enum ErrorCode {
    /// The hook is paused; all transfers are rejected.
    HookPaused,
    /// The sender is blacklisted.
    UserBlacklisted,
    /// The fee configuration is invalid.
    InvalidFeeConfig,
    /// An arithmetic operation overflowed.
    ArithmeticOverflow,
}

/// The zero-valued sender record: the state of a sender before any
/// transfer, as the host materialises it on lazy creation.
pub open spec fn spec_zeroed_user_state() -> UserState {
    UserState {
        owner: Identity { value: 0 },
        transfer_count: 0,
        total_volume: 0,
        first_transfer_timestamp: 0,
        last_transfer_timestamp: 0,
        is_blacklisted: false,
    }
}

impl UserState {
    /// Fresh zeroed record for a sender with no prior activity; the
    /// owner stays unset until the first real transfer.
    pub fn zeroed() -> (user: UserState)
        ensures
            user == spec_zeroed_user_state(),
    {
        UserState {
            owner: Identity { value: 0 },
            transfer_count: 0,
            total_volume: 0,
            first_transfer_timestamp: 0,
            last_transfer_timestamp: 0,
            is_blacklisted: false,
        }
    }
}

/// Initialize the hook configuration: records the admin authority and
/// the fee collector, starts unpaused with all counters at zero.
pub fn initialize(authority: Identity, fee_collector: Identity) -> (config: HookConfig)
    ensures
        config.authority == authority,
        config.fee_collector == fee_collector,
        !config.is_paused,
        config.total_transfers == 0,
        config.total_volume == 0,
        config.total_fees_collected == 0,
{
    HookConfig {
        authority,
        fee_collector,
        is_paused: false,
        total_transfers: 0,
        total_volume: 0,
        total_fees_collected: 0,
    }
}

} // verus!
