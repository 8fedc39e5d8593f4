//! Properties of the tier tables, the fee engine, and repeated
//! transfers, stated over the spec functions the contracts use and
//! proved for all inputs.

use vstd::prelude::*;
use crate::tiers::{
    spec_fee_tier_bps, spec_loyalty_tier, spec_discount_bps, spec_base_fee, spec_fee,
    TIER_1_FEE_BPS, TIER_2_FEE_BPS, TIER_3_FEE_BPS, TIER_4_FEE_BPS,
};
use crate::state::{Identity, UserState};
use crate::hook::{sat_add, spec_user_after_transfer};

verus! {

/// The base fee rate is non-increasing in the transfer amount: a
/// larger transfer never pays a higher rate.
pub proof fn lemma_fee_rate_non_increasing(smaller: u64, larger: u64)
    requires
        smaller <= larger,
    ensures
        spec_fee_tier_bps(larger) <= spec_fee_tier_bps(smaller),
{
}

/// Every amount falls into exactly one tier: the base fee rate is
/// always one of the four configured rates.
pub proof fn lemma_fee_rate_is_one_of_four(amount: u64)
    ensures
        spec_fee_tier_bps(amount) == TIER_1_FEE_BPS || spec_fee_tier_bps(amount) == TIER_2_FEE_BPS
            || spec_fee_tier_bps(amount) == TIER_3_FEE_BPS || spec_fee_tier_bps(amount)
            == TIER_4_FEE_BPS,
{
}

/// The loyalty discount is non-decreasing in the lifetime transfer
/// count: more transfers never shrink the discount.
pub proof fn lemma_loyalty_discount_non_decreasing(fewer: u64, more: u64)
    requires
        fewer <= more,
    ensures
        spec_discount_bps(spec_loyalty_tier(fewer)) <= spec_discount_bps(spec_loyalty_tier(more)),
{
}

/// The final fee is bounded for every amount and count: never
/// negative, never above the pre-discount base fee, never above the
/// amount itself.
pub proof fn lemma_fee_within_amount(amount: u64, transfer_count: u64)
    ensures
        0 <= spec_fee(amount, transfer_count),
        spec_fee(amount, transfer_count) <= spec_base_fee(amount),
        spec_base_fee(amount) <= amount,
{
    crate::tiers::lemma_bps_product_bounds(amount, spec_fee_tier_bps(amount));
    crate::tiers::lemma_bps_product_bounds(
        amount,
        spec_discount_bps(spec_loyalty_tier(transfer_count)),
    );
}

/// The sender record after a sequence of accepted transfers, each of
/// the listed amounts in order, all at time `now`.
pub open spec fn spec_user_after_transfers(
    user: UserState,
    sender: Identity,
    amounts: Seq<u64>,
    now: i64,
) -> UserState
    decreases amounts.len(),
{
    if amounts.len() == 0 {
        user
    } else {
        spec_user_after_transfers(
            spec_user_after_transfer(user, sender, amounts[0], now),
            sender,
            amounts.skip(1),
            now,
        )
    }
}

/// `start + n` on a `u64`, saturating at the maximum.
pub open spec fn sat_add_count(start: u64, n: int) -> u64 {
    if start + n > u64::MAX {
        u64::MAX
    } else {
        (start + n) as u64
    }
}

/// The saturating sum of a starting value and a sequence of amounts,
/// folded left in order.
pub open spec fn sat_sum(start: u64, amounts: Seq<u64>) -> u64
    decreases amounts.len(),
{
    if amounts.len() == 0 {
        start
    } else {
        sat_sum(sat_add(start, amounts[0]), amounts.skip(1))
    }
}

/// After N accepted transfers from one sender, the record's transfer
/// count is its initial count plus N, and its total volume is the
/// saturating sum of its initial volume and the transferred amounts.
pub proof fn lemma_repeated_transfers(
    user: UserState,
    sender: Identity,
    amounts: Seq<u64>,
    now: i64,
)
    ensures
        spec_user_after_transfers(user, sender, amounts, now).transfer_count == sat_add_count(
            user.transfer_count,
            amounts.len() as int,
        ),
        spec_user_after_transfers(user, sender, amounts, now).total_volume == sat_sum(
            user.total_volume,
            amounts,
        ),
    decreases amounts.len(),
{
    if amounts.len() > 0 {
        lemma_repeated_transfers(
            spec_user_after_transfer(user, sender, amounts[0], now),
            sender,
            amounts.skip(1),
            now,
        );
    }
}

} // verus!
