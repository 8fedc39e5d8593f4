use versa_transfer_hook::tiers::{
    calculate_fee_tier, get_loyalty_tier, discount_bps_for, compute_fee, LoyaltyTier,
    TIER_1_THRESHOLD, TIER_2_THRESHOLD, TIER_3_THRESHOLD, TIER_1_FEE_BPS, TIER_2_FEE_BPS,
    TIER_3_FEE_BPS, TIER_4_FEE_BPS, LOYALTY_BRONZE, LOYALTY_SILVER, LOYALTY_GOLD,
};

#[test]
fn fee_tier_boundaries_select_lower_fee_neighbor() {
    assert_eq!(calculate_fee_tier(0), TIER_1_FEE_BPS);
    assert_eq!(calculate_fee_tier(TIER_1_THRESHOLD - 1), TIER_1_FEE_BPS);
    assert_eq!(calculate_fee_tier(TIER_1_THRESHOLD), TIER_2_FEE_BPS);
    assert_eq!(calculate_fee_tier(TIER_2_THRESHOLD - 1), TIER_2_FEE_BPS);
    assert_eq!(calculate_fee_tier(TIER_2_THRESHOLD), TIER_3_FEE_BPS);
    assert_eq!(calculate_fee_tier(TIER_3_THRESHOLD - 1), TIER_3_FEE_BPS);
    assert_eq!(calculate_fee_tier(TIER_3_THRESHOLD), TIER_4_FEE_BPS);
    assert_eq!(calculate_fee_tier(u64::MAX), TIER_4_FEE_BPS);
}

#[test]
fn fee_tier_rate_non_increasing_samples() {
    let samples: [u64; 8] = [
        0,
        TIER_1_THRESHOLD - 1,
        TIER_1_THRESHOLD,
        TIER_2_THRESHOLD - 1,
        TIER_2_THRESHOLD,
        TIER_3_THRESHOLD - 1,
        TIER_3_THRESHOLD,
        u64::MAX,
    ];
    for pair in samples.windows(2) {
        assert!(calculate_fee_tier(pair[1]) <= calculate_fee_tier(pair[0]));
    }
}

#[test]
fn loyalty_tier_boundaries_qualify_for_that_tier() {
    assert_eq!(get_loyalty_tier(0), LoyaltyTier::Unranked);
    assert_eq!(get_loyalty_tier(LOYALTY_BRONZE - 1), LoyaltyTier::Unranked);
    assert_eq!(get_loyalty_tier(LOYALTY_BRONZE), LoyaltyTier::Bronze);
    assert_eq!(get_loyalty_tier(LOYALTY_SILVER - 1), LoyaltyTier::Bronze);
    assert_eq!(get_loyalty_tier(LOYALTY_SILVER), LoyaltyTier::Silver);
    assert_eq!(get_loyalty_tier(LOYALTY_GOLD - 1), LoyaltyTier::Silver);
    assert_eq!(get_loyalty_tier(LOYALTY_GOLD), LoyaltyTier::Gold);
    assert_eq!(get_loyalty_tier(u64::MAX), LoyaltyTier::Gold);
}

#[test]
fn loyalty_discount_non_decreasing_samples() {
    let samples: [u64; 7] = [0, 9, 10, 49, 50, 99, 100];
    for pair in samples.windows(2) {
        let lower: u16 = discount_bps_for(get_loyalty_tier(pair[0]));
        let higher: u16 = discount_bps_for(get_loyalty_tier(pair[1]));
        assert!(lower <= higher);
    }
}

#[test]
fn discount_bps_per_tier() {
    assert_eq!(discount_bps_for(LoyaltyTier::Unranked), 0);
    assert_eq!(discount_bps_for(LoyaltyTier::Bronze), 10);
    assert_eq!(discount_bps_for(LoyaltyTier::Silver), 25);
    assert_eq!(discount_bps_for(LoyaltyTier::Gold), 50);
}

#[test]
fn compute_fee_small_amount_no_loyalty() {
    // 50_000_000 is below the first threshold: 100 bps of it is 500_000,
    // and a count of 0 earns no discount.
    assert_eq!(compute_fee(50_000_000, 0), 500_000);
}

#[test]
fn compute_fee_gold_discount_cancels_mid_tier_fee() {
    // 2_000_000_000 pays 25 bps = 5_000_000; a Gold sender's 50 bps
    // discount is 10_000_000, so the fee bottoms out at zero.
    assert_eq!(compute_fee(2_000_000_000, 100), 0);
}

#[test]
fn compute_fee_exact_values_across_tiers() {
    assert_eq!(compute_fee(TIER_2_THRESHOLD, 0), 2_500_000);
    assert_eq!(compute_fee(TIER_3_THRESHOLD, 0), 10_000_000);
    // 500_000_000 pays 50 bps = 2_500_000 before the discount.
    assert_eq!(compute_fee(500_000_000, 0), 2_500_000);
    assert_eq!(compute_fee(500_000_000, 10), 2_000_000);
    assert_eq!(compute_fee(500_000_000, 50), 1_250_000);
    // 2_000_000_000 pays 25 bps = 5_000_000; Bronze refunds 10 bps.
    assert_eq!(compute_fee(2_000_000_000, 10), 3_000_000);
    // Fee rounds down to zero on tiny amounts.
    assert_eq!(compute_fee(99, 0), 0);
}

#[test]
fn compute_fee_never_exceeds_amount() {
    let amounts: [u64; 6] = [0, 1, 9_999, 50_000_000, 10_000_000_000, u64::MAX];
    let counts: [u64; 4] = [0, 10, 50, 100];
    for &amount in amounts.iter() {
        for &count in counts.iter() {
            assert!(compute_fee(amount, count) <= amount);
        }
    }
}

#[test]
fn compute_fee_discount_deeper_than_base_fee_is_floored_at_zero() {
    // In the top tier the base rate (10 bps) is below the Gold discount
    // rate (50 bps): the saturating subtraction floors the fee at zero.
    assert_eq!(compute_fee(20_000_000_000, 100), 0);
}
