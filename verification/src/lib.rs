//! Transfer-hook core: dynamic fee computation with loyalty discounts,
//! persistent global and per-sender counters, and the state-machine rules
//! that govern how a transfer attempt is accepted or rejected.
//!
//! The host environment (account storage, clock, signature verification)
//! hands the core a validated sender identity, a transfer amount, and
//! exclusive handles to the two state records; the core decides and
//! records, and the host persists whatever the core wrote back.

pub mod tiers;
pub mod state;
pub mod hook;
pub mod laws;
