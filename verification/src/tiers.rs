//! Tier tables and the fee engine.
//!
//! Two pure step functions map a transfer amount to a base fee rate and a
//! sender's lifetime transfer count to a loyalty discount rate, both in
//! basis points (1 bp = 0.01%). The fee engine combines them into the
//! final fee for one transfer, widening to 128 bits before multiplying so
//! the intermediate product cannot overflow.

use vstd::prelude::*;
use vstd::arithmetic::mul::lemma_mul_inequality;
use vstd::arithmetic::div_mod::lemma_div_is_ordered;
use vstd::arithmetic::div_mod::lemma_div_by_multiple;

verus! {

/// Fee tier thresholds (in base token units).
pub const TIER_1_THRESHOLD: u64 = 100_000_000;
pub const TIER_2_THRESHOLD: u64 = 1_000_000_000;
pub const TIER_3_THRESHOLD: u64 = 10_000_000_000;

/// Base fee rate per tier, in basis points.
pub const TIER_1_FEE_BPS: u16 = 100;
pub const TIER_2_FEE_BPS: u16 = 50;
pub const TIER_3_FEE_BPS: u16 = 25;
pub const TIER_4_FEE_BPS: u16 = 10;

/// Loyalty tier thresholds (lifetime transfer counts).
pub const LOYALTY_BRONZE: u64 = 10;
pub const LOYALTY_SILVER: u64 = 50;
pub const LOYALTY_GOLD: u64 = 100;

/// Loyalty discount per tier, in basis points.
pub const BRONZE_DISCOUNT_BPS: u16 = 10;
pub const SILVER_DISCOUNT_BPS: u16 = 25;
pub const GOLD_DISCOUNT_BPS: u16 = 50;

/// Denominator converting basis points to a fraction.
pub const BPS_DENOMINATOR: u64 = 10_000;

#[derive(Debug, Clone, Copy, PartialEq, Eq, Structural)]
pub enum LoyaltyTier {
    Unranked,
    Bronze,
    Silver,
    Gold,
}

/// Base fee rate for a transfer amount: the largest rate whose threshold
/// the amount has not yet reached; a tie at a threshold falls into the
/// next (lower-fee) tier.
pub open spec fn spec_fee_tier_bps(amount: u64) -> u16 {
    if amount < TIER_1_THRESHOLD {
        TIER_1_FEE_BPS
    } else if amount < TIER_2_THRESHOLD {
        TIER_2_FEE_BPS
    } else if amount < TIER_3_THRESHOLD {
        TIER_3_FEE_BPS
    } else {
        TIER_4_FEE_BPS
    }
}

/// Loyalty tier for a lifetime transfer count: the highest tier whose
/// threshold the count meets or exceeds.
pub open spec fn spec_loyalty_tier(transfer_count: u64) -> LoyaltyTier {
    if transfer_count >= LOYALTY_GOLD {
        LoyaltyTier::Gold
    } else if transfer_count >= LOYALTY_SILVER {
        LoyaltyTier::Silver
    } else if transfer_count >= LOYALTY_BRONZE {
        LoyaltyTier::Bronze
    } else {
        LoyaltyTier::Unranked
    }
}

/// Discount rate granted by a loyalty tier, in basis points.
pub open spec fn spec_discount_bps(tier: LoyaltyTier) -> u16 {
    match tier {
        LoyaltyTier::Unranked => 0,
        LoyaltyTier::Bronze => BRONZE_DISCOUNT_BPS,
        LoyaltyTier::Silver => SILVER_DISCOUNT_BPS,
        LoyaltyTier::Gold => GOLD_DISCOUNT_BPS,
    }
}

/// Pre-discount base fee: `floor(amount * rate / 10000)`.
pub open spec fn spec_base_fee(amount: u64) -> int {
    (amount as int) * (spec_fee_tier_bps(amount) as int) / (BPS_DENOMINATOR as int)
}

/// Loyalty discount amount: `floor(amount * discount / 10000)`.
pub open spec fn spec_discount_amount(amount: u64, transfer_count: u64) -> int {
    (amount as int) * (spec_discount_bps(spec_loyalty_tier(transfer_count)) as int)
        / (BPS_DENOMINATOR as int)
}

/// Final fee for one transfer: base fee minus the loyalty discount,
/// floored at zero.
pub open spec fn spec_fee(amount: u64, transfer_count: u64) -> int {
    if spec_base_fee(amount) >= spec_discount_amount(amount, transfer_count) {
        spec_base_fee(amount) - spec_discount_amount(amount, transfer_count)
    } else {
        0
    }
}

/// `0 <= floor(a * bps / 10000) <= a` whenever `bps <= 10000`, and the
/// product fits comfortably below `u128::MAX`.
pub proof fn lemma_bps_product_bounds(a: u64, bps: u16)
    requires
        bps <= BPS_DENOMINATOR,
    ensures
        0 <= (a as int) * (bps as int),
        (a as int) * (bps as int) <= (a as int) * (BPS_DENOMINATOR as int),
        (a as int) * (BPS_DENOMINATOR as int) <= (u64::MAX as int) * (BPS_DENOMINATOR as int),
        0 <= (a as int) * (bps as int) / (BPS_DENOMINATOR as int),
        (a as int) * (bps as int) / (BPS_DENOMINATOR as int) <= a as int,
{
    let d: int = BPS_DENOMINATOR as int;
    lemma_mul_inequality(bps as int, d, a as int);
    assert((a as int) * (bps as int) == (bps as int) * (a as int)) by (nonlinear_arith);
    assert((a as int) * d == d * (a as int)) by (nonlinear_arith);
    lemma_mul_inequality(a as int, u64::MAX as int, d);
    lemma_div_is_ordered(0, (a as int) * (bps as int), d);
    lemma_div_is_ordered((a as int) * (bps as int), (a as int) * d, d);
    lemma_div_by_multiple(a as int, d);
}

/// Calculate the base fee tier for a transfer amount.
pub fn calculate_fee_tier(amount: u64) -> (rate: u16)
    ensures
        rate == spec_fee_tier_bps(amount),
        rate <= BPS_DENOMINATOR,
{
    if amount < TIER_1_THRESHOLD {
        TIER_1_FEE_BPS
    } else if amount < TIER_2_THRESHOLD {
        TIER_2_FEE_BPS
    } else if amount < TIER_3_THRESHOLD {
        TIER_3_FEE_BPS
    } else {
        TIER_4_FEE_BPS
    }
}

/// Determine the loyalty tier for a lifetime transfer count.
pub fn get_loyalty_tier(transfer_count: u64) -> (tier: LoyaltyTier)
    ensures
        tier == spec_loyalty_tier(transfer_count),
{
    if transfer_count >= LOYALTY_GOLD {
        LoyaltyTier::Gold
    } else if transfer_count >= LOYALTY_SILVER {
        LoyaltyTier::Silver
    } else if transfer_count >= LOYALTY_BRONZE {
        LoyaltyTier::Bronze
    } else {
        LoyaltyTier::Unranked
    }
}

/// Discount rate granted by a loyalty tier.
pub fn discount_bps_for(tier: LoyaltyTier) -> (bps: u16)
    ensures
        bps == spec_discount_bps(tier),
        bps <= BPS_DENOMINATOR,
{
    match tier {
        LoyaltyTier::Unranked => 0,
        LoyaltyTier::Bronze => BRONZE_DISCOUNT_BPS,
        LoyaltyTier::Silver => SILVER_DISCOUNT_BPS,
        LoyaltyTier::Gold => GOLD_DISCOUNT_BPS,
    }
}

/// Compute the final fee for one transfer of `amount` by a sender whose
/// lifetime transfer count, before this transfer, is `transfer_count`.
///
/// The fee never exceeds the pre-discount base fee, which itself never
/// exceeds the amount.
pub fn compute_fee(amount: u64, transfer_count: u64) -> (fee: u64)
    ensures
        fee == spec_fee(amount, transfer_count),
        fee <= spec_base_fee(amount),
        spec_base_fee(amount) <= amount,
{
    let fee_bps: u16 = calculate_fee_tier(amount);
    let tier: LoyaltyTier = get_loyalty_tier(transfer_count);
    let discount_bps: u16 = discount_bps_for(tier);
    proof {
        lemma_bps_product_bounds(amount, fee_bps);
        lemma_bps_product_bounds(amount, discount_bps);
    }
    let base_fee: u64 = ((amount as u128) * (fee_bps as u128) / (BPS_DENOMINATOR as u128)) as u64;
    let discount: u64 =
        ((amount as u128) * (discount_bps as u128) / (BPS_DENOMINATOR as u128)) as u64;
    base_fee.saturating_sub(discount)
}

} // verus!
