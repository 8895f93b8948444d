use stellar_lend::debt::{
    accrue_interest, borrow_amount, effective_debt, elapsed_seconds, repay_amount, settle_accrual,
    DebtError, DebtPosition, DEFAULT_APR_BPS,
};
use stellar_lend::rounding::{
    calculate_interest_with_rounding, reconcile_debt_with_drift_correction, InterestCalcResult,
    RoundingError, RoundingMode, SECONDS_PER_YEAR,
};

// rounding strategy

#[test]
fn test_zero_borrowed_returns_zero_interest() {
    let result = calculate_interest_with_rounding(0, SECONDS_PER_YEAR, 500, RoundingMode::Floor);
    assert_eq!(result.unwrap().interest, 0);
}

#[test]
fn test_simple_one_year_accrual() {
    let result =
        calculate_interest_with_rounding(100, SECONDS_PER_YEAR, 500, RoundingMode::Floor).unwrap();
    assert_eq!(result.interest, 5);
}

#[test]
fn test_rounding_modes_differ_on_fractions() {
    let result_floor =
        calculate_interest_with_rounding(1000, SECONDS_PER_YEAR / 12, 500, RoundingMode::Floor)
            .unwrap();
    let result_ceil =
        calculate_interest_with_rounding(1000, SECONDS_PER_YEAR / 12, 500, RoundingMode::Ceil)
            .unwrap();
    assert!(result_ceil.interest >= result_floor.interest);
}

#[test]
fn test_long_horizon_no_drift_with_bankers() {
    let mut total_interest = 0i128;
    let borrowed = 1000i128;
    let monthly_seconds = SECONDS_PER_YEAR / 12;
    for _ in 0..24 {
        let result =
            calculate_interest_with_rounding(borrowed, monthly_seconds, 500, RoundingMode::Bankers)
                .unwrap();
        total_interest += result.interest;
    }
    assert!(total_interest >= 95 && total_interest <= 105, "total_interest: {total_interest}");
}

// interest drift regression

#[test]
fn test_24_month_long_horizon_drift_bounded() {
    let borrowed = 100_000i128;
    let monthly_seconds = SECONDS_PER_YEAR / 12;
    let mut total_interest = 0i128;
    for _ in 0..24 {
        let result =
            calculate_interest_with_rounding(borrowed, monthly_seconds, 500, RoundingMode::Bankers)
                .expect("should not overflow");
        total_interest += result.interest;
    }
    let expected = 10_000i128;
    let drift = (total_interest - expected).abs();
    assert!(drift <= 20, "Drift too large: {drift}");
}

#[test]
fn test_long_horizon_100_months_drift_tracking() {
    let borrowed = 50_000i128;
    let monthly_seconds = SECONDS_PER_YEAR / 12;
    let mut total_interest = 0i128;
    for _ in 0..100 {
        let result =
            calculate_interest_with_rounding(borrowed, monthly_seconds, 500, RoundingMode::Bankers)
                .expect("should not overflow");
        total_interest += result.interest;
    }
    let expected_approx = 20_825i128;
    let drift = (total_interest - expected_approx).abs();
    assert!(drift <= 50, "Long-horizon drift too large: {drift}");
}

#[test]
fn test_interest_monotonic_over_long_horizon() {
    let borrowed = 1_000_000i128;
    let mut previous_total = 0i128;
    for seconds_elapsed in [0, 100, 1000, 10000, 100000, 1000000, 10000000, 100000000] {
        let result =
            calculate_interest_with_rounding(borrowed, seconds_elapsed, 500, RoundingMode::Bankers)
                .expect("should not overflow");
        assert!(result.interest >= previous_total, "Interest decreased at {seconds_elapsed} seconds");
        previous_total = result.interest;
    }
}

#[test]
fn test_rounding_modes_drift_comparison() {
    let borrowed = 1000i128;
    let one_month = SECONDS_PER_YEAR / 12;
    for mode in [RoundingMode::Floor, RoundingMode::Ceil, RoundingMode::Bankers] {
        let mut total = 0i128;
        for _ in 0..12 {
            let result = calculate_interest_with_rounding(borrowed, one_month, 500, mode).unwrap();
            total += result.interest;
        }
        let drift = (total - 50).abs();
        assert!(drift <= 10, "Excessive drift for {mode:?}: {drift}");
    }
}

#[test]
fn test_debt_reconciliation_within_tolerance() {
    let result = reconcile_debt_with_drift_correction(100, 100, 0, 100)
        .expect("reconciliation should succeed");
    assert_eq!(result, (100, 0));
}

#[test]
fn test_debt_reconciliation_rejects_excessive_drift() {
    let result = reconcile_debt_with_drift_correction(100, 200, 0, 100);
    assert_eq!(result, Err(RoundingError::InvalidParameters));
}

#[test]
fn test_extreme_horizon_overflow_protection() {
    let result =
        calculate_interest_with_rounding(i128::MAX / 2, u64::MAX, 500, RoundingMode::Bankers);
    assert!(result.is_err());
}

#[test]
fn test_small_amounts_precision() {
    let result = calculate_interest_with_rounding(1, SECONDS_PER_YEAR, 500, RoundingMode::Bankers)
        .expect("should not overflow");
    assert_eq!(result.interest, 0);
}

#[test]
fn test_high_rate_long_horizon() {
    let borrowed = 100_000i128;
    let one_month = SECONDS_PER_YEAR / 12;
    let mut total = 0i128;
    for _ in 0..12 {
        let result =
            calculate_interest_with_rounding(borrowed, one_month, 10000, RoundingMode::Bankers)
                .expect("should not overflow");
        total += result.interest;
    }
    assert!(total >= 95_000 && total <= 105_000, "total: {total}");
}

// exact values of the interest formula

#[test]
fn monthly_interest_exact_values_per_mode() {
    let month = SECONDS_PER_YEAR / 12;
    let floor = calculate_interest_with_rounding(1000, month, 500, RoundingMode::Floor).unwrap();
    assert_eq!(floor, InterestCalcResult::new(4, 166_666, RoundingMode::Floor));
    let ceil = calculate_interest_with_rounding(1000, month, 500, RoundingMode::Ceil).unwrap();
    assert_eq!(ceil, InterestCalcResult::new(4, 166_667, RoundingMode::Ceil));
    let bankers = calculate_interest_with_rounding(1000, month, 500, RoundingMode::Bankers).unwrap();
    assert_eq!(bankers, InterestCalcResult::new(4, 166_667, RoundingMode::Bankers));
    let truncate = calculate_interest_with_rounding(1000, month, 500, RoundingMode::Truncate).unwrap();
    assert_eq!(truncate.interest, 4);
    assert_eq!(truncate.remainder, 166_666);
}

#[test]
fn negative_inputs_are_invalid() {
    assert_eq!(
        calculate_interest_with_rounding(-1, 10, 500, RoundingMode::Floor),
        Err(RoundingError::InvalidParameters)
    );
    assert_eq!(
        calculate_interest_with_rounding(1, 10, -5, RoundingMode::Floor),
        Err(RoundingError::InvalidParameters)
    );
}

#[test]
fn overflow_is_reported_as_overflow() {
    assert_eq!(
        calculate_interest_with_rounding(i128::MAX / 2, u64::MAX, 500, RoundingMode::Bankers),
        Err(RoundingError::Overflow)
    );
}

#[test]
fn no_interest_without_time_or_rate() {
    assert_eq!(calculate_interest_with_rounding(1_000_000, 0, 500, RoundingMode::Ceil).unwrap().interest, 0);
    assert_eq!(
        calculate_interest_with_rounding(1_000_000, SECONDS_PER_YEAR, 0, RoundingMode::Ceil)
            .unwrap()
            .interest,
        0
    );
}

#[test]
fn ceil_never_below_floor_on_many_inputs() {
    for amount in [1i128, 7, 999, 123_456] {
        for secs in [1u64, 59, 3_600, SECONDS_PER_YEAR / 7] {
            let f = calculate_interest_with_rounding(amount, secs, 750, RoundingMode::Floor).unwrap();
            let b = calculate_interest_with_rounding(amount, secs, 750, RoundingMode::Bankers).unwrap();
            let c = calculate_interest_with_rounding(amount, secs, 750, RoundingMode::Ceil).unwrap();
            assert!(f.interest <= b.interest && b.interest <= c.interest);
            assert!(c.interest - f.interest <= 1);
        }
    }
}

#[test]
fn reconciliation_accumulates_drift() {
    assert_eq!(reconcile_debt_with_drift_correction(1000, 1005, 3, 100), Ok((1005, 8)));
    assert_eq!(reconcile_debt_with_drift_correction(0, 50, 0, 0), Ok((50, 50)));
    assert_eq!(
        reconcile_debt_with_drift_correction(1, i128::MAX / 2, 0, 100),
        Err(RoundingError::Overflow)
    );
}

// debt positions

#[test]
fn elapsed_seconds_saturates() {
    assert_eq!(elapsed_seconds(100, 40), 60);
    assert_eq!(elapsed_seconds(40, 100), 0);
}

#[test]
fn accrue_interest_exact_values() {
    assert_eq!(accrue_interest(0, 1000, 500), Ok(0));
    assert_eq!(accrue_interest(1000, 0, 500), Ok(0));
    assert_eq!(accrue_interest(100, SECONDS_PER_YEAR, 500), Ok(5));
    assert_eq!(accrue_interest(-5, 10, 500), Err(DebtError::Overflow));
}

#[test]
fn settle_and_effective_debt_agree() {
    let position = DebtPosition { principal: 100_000, last_update: 0 };
    let settled = settle_accrual(&position, SECONDS_PER_YEAR, DEFAULT_APR_BPS).unwrap();
    assert_eq!(settled, DebtPosition { principal: 105_000, last_update: SECONDS_PER_YEAR });
    assert_eq!(effective_debt(&position, SECONDS_PER_YEAR, DEFAULT_APR_BPS), Ok(105_000));
    assert_eq!(effective_debt(&position, 0, DEFAULT_APR_BPS), Ok(100_000));
}

#[test]
fn borrow_settles_then_adds() {
    let position = DebtPosition { principal: 100_000, last_update: 0 };
    let after = borrow_amount(position.clone(), SECONDS_PER_YEAR, 1_000, DEFAULT_APR_BPS).unwrap();
    assert_eq!(after, DebtPosition { principal: 106_000, last_update: SECONDS_PER_YEAR });
    assert_eq!(borrow_amount(position.clone(), 0, 0, DEFAULT_APR_BPS), Err(DebtError::InvalidAmount));
    let full = DebtPosition { principal: i128::MAX, last_update: 0 };
    assert_eq!(borrow_amount(full, 0, 1, DEFAULT_APR_BPS), Err(DebtError::Overflow));
}

#[test]
fn repay_settles_then_subtracts_and_clears() {
    let position = DebtPosition { principal: 100_000, last_update: 0 };
    let after = repay_amount(position.clone(), SECONDS_PER_YEAR, 5_000, DEFAULT_APR_BPS).unwrap();
    assert_eq!(after, DebtPosition { principal: 100_000, last_update: SECONDS_PER_YEAR });
    let cleared = repay_amount(position.clone(), 0, 1_000_000, DEFAULT_APR_BPS).unwrap();
    assert_eq!(cleared.principal, 0);
    assert_eq!(repay_amount(position, 0, -1, DEFAULT_APR_BPS), Err(DebtError::InvalidAmount));
}

#[test]
fn borrow_then_repay_same_instant_restores_principal() {
    let position = DebtPosition { principal: 42_000, last_update: 500 };
    let borrowed = borrow_amount(position, 500, 8_000, DEFAULT_APR_BPS).unwrap();
    let repaid = repay_amount(borrowed, 500, 8_000, DEFAULT_APR_BPS).unwrap();
    assert_eq!(repaid, DebtPosition { principal: 42_000, last_update: 500 });
}
