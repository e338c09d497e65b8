//! Share ledger and interest accrual behavior on concrete values.

use lending::accrual::{accrue, calculate_collateral_interest, elapsed_seconds};
use lending::constants::{INTEREST_RATE_PER_SECOND, RATE_SCALE, SECONDS_PER_YEAR};
use lending::error::ErrorCode;
use lending::shares::{amount_for_shares, shares_for_deposit};

#[test]
fn first_depositor_gets_shares_one_to_one() {
    assert_eq!(shares_for_deposit(5, 0, 0), Ok(5));
    assert_eq!(shares_for_deposit(1_000_000, 0, 0), Ok(1_000_000));
}

#[test]
fn later_depositor_gets_proportional_shares() {
    // 7 into a bucket of 10 backed by 3 shares: 7 * 3 / 10 = 2, truncating.
    assert_eq!(shares_for_deposit(7, 10, 3), Ok(2));
    assert_eq!(shares_for_deposit(10, 10, 3), Ok(3));
}

#[test]
fn share_round_trip_never_favors_depositor() {
    let minted = shares_for_deposit(7, 10, 3).unwrap();
    let back = amount_for_shares(minted, 10, 3).unwrap();
    assert_eq!(back, 6);
    assert!(back <= 7);
}

#[test]
fn redeeming_from_empty_bucket_is_division_by_zero() {
    assert_eq!(amount_for_shares(5, 10, 0), Err(ErrorCode::DivisionByZero));
}

#[test]
fn share_mint_overflow_is_reported() {
    // u64::MAX * u64::MAX / 1 does not fit a u64.
    assert_eq!(
        shares_for_deposit(u64::MAX, 1, u64::MAX),
        Err(ErrorCode::ArithmeticOverflow)
    );
}

#[test]
fn accrue_zero_elapsed_is_identity() {
    assert_eq!(accrue(123_456_789, RATE_SCALE, 0), Ok(123_456_789));
    assert_eq!(accrue(0, RATE_SCALE, 1_000_000), Ok(0));
}

#[test]
fn accrue_one_unit_exponent_matches_fixed_point_e() {
    // A rate of RATE_SCALE per second over one second compounds by the
    // fixed-point e: 2.718281823 in billionths.
    assert_eq!(accrue(1_000_000_000, RATE_SCALE, 1), Ok(2_718_281_823));
}

#[test]
fn accrue_one_year_at_configured_rate() {
    // 5% annual continuous compounding: e^0.05 = 1.0512711...
    assert_eq!(
        accrue(1_000_000, INTEREST_RATE_PER_SECOND, SECONDS_PER_YEAR),
        Ok(1_051_271)
    );
}

#[test]
fn accrue_is_monotone_in_elapsed_time() {
    let one = accrue(1_000_000_000, RATE_SCALE, 1).unwrap();
    let two = accrue(1_000_000_000, RATE_SCALE, 2).unwrap();
    assert_eq!(two, 7_389_056_090);
    assert!(two >= one);
}

#[test]
fn accrue_past_admitted_exponent_is_overflow() {
    assert_eq!(accrue(1, RATE_SCALE, 16), Ok(8_886_110));
    assert_eq!(accrue(1, RATE_SCALE, 17), Err(ErrorCode::ArithmeticOverflow));
}

#[test]
fn elapsed_seconds_rejects_backward_clock() {
    assert_eq!(elapsed_seconds(100, 50), Ok(50));
    assert_eq!(elapsed_seconds(49, 50), Err(ErrorCode::InvalidTimestamp));
}

#[test]
fn collateral_interest_rejects_backward_clock() {
    assert_eq!(
        calculate_collateral_interest(1_000, INTEREST_RATE_PER_SECOND, 50, 49),
        Err(ErrorCode::InvalidTimestamp)
    );
    assert_eq!(
        calculate_collateral_interest(1_000, INTEREST_RATE_PER_SECOND, 50, 50),
        Ok(1_000)
    );
}
