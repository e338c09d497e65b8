//! Liquidation gating, close-factor bounds, and failure atomicity on
//! concrete positions.

use lending::admin::{process_init_bank, process_init_user};
use lending::error::ErrorCode;
use lending::liquidate::process_liquidate;
use lending::state::{Bank, PriceData, User};

const SOL: u64 = 1;
const USDC: u64 = 2;

fn empty_bank(asset_id: u64) -> Bank {
    // 80% liquidation threshold, 50% close factor, 50% max LTV, 10% bonus.
    process_init_bank(asset_id, 8_000, 5_000, 5_000, 1_000, 0)
}

fn fresh(price: u64) -> PriceData {
    PriceData { price, age: 0 }
}

/// Collateral worth 100 in the primary asset and a debt in the reference
/// asset, both backed one-to-one by pool totals.
fn unhealthy_setup(debt: u64) -> (Bank, Bank, User) {
    let mut collateral_bank = empty_bank(SOL);
    collateral_bank.total_deposits = 100;
    collateral_bank.total_deposit_shares = 100;
    let mut borrowed_bank = empty_bank(USDC);
    borrowed_bank.total_borrowed = debt;
    borrowed_bank.total_borrowed_shares = debt;
    let mut user = process_init_user(77, USDC);
    user.primary.deposited_amount = 100;
    user.primary.deposited_shares = 100;
    user.reference.borrowed_amount = debt;
    user.reference.borrowed_shares = debt;
    (collateral_bank, borrowed_bank, user)
}

#[test]
fn under_collateralized_position_is_liquidated() {
    // Collateral value 100 at an 80% threshold covers 80; a debt of 90 is
    // above it, so the position is liquidatable.
    let (mut cb, mut bb, mut user) = unhealthy_setup(90);
    let outcome =
        process_liquidate(&mut cb, &mut bb, &mut user, fresh(1), fresh(1), 0).unwrap();
    // Close factor 50% of the debt of 90, converted one-to-one, plus a 10%
    // bonus on the converted amount.
    assert_eq!(outcome.close_amount, 45);
    assert_eq!(outcome.collateral_payout, 49);
    assert_eq!(bb.total_borrowed, 45);
    assert_eq!(bb.total_borrowed_shares, 45);
    assert_eq!(cb.total_deposits, 51);
    assert_eq!(cb.total_deposit_shares, 51);
    assert_eq!(user.reference.borrowed_amount, 45);
    assert_eq!(user.reference.borrowed_shares, 45);
    assert_eq!(user.primary.deposited_amount, 51);
    assert_eq!(user.primary.deposited_shares, 51);
}

#[test]
fn healthy_position_is_not_liquidated() {
    // The same position with a debt of 70: the threshold-adjusted
    // collateral of 80 covers it, so liquidation is rejected.
    let (mut cb, mut bb, mut user) = unhealthy_setup(70);
    let before = (cb, bb, user);
    assert_eq!(
        process_liquidate(&mut cb, &mut bb, &mut user, fresh(1), fresh(1), 0),
        Err(ErrorCode::NotUnderCollateralized)
    );
    assert_eq!((cb, bb, user), before);
}

#[test]
fn debt_free_position_is_not_liquidated() {
    let (mut cb, mut bb, mut user) = unhealthy_setup(0);
    assert_eq!(
        process_liquidate(&mut cb, &mut bb, &mut user, fresh(1), fresh(1), 0),
        Err(ErrorCode::NotUnderCollateralized)
    );
}

#[test]
fn one_call_never_clears_more_than_the_close_factor_share() {
    // However deep under water, a single call closes at most the close
    // factor's share of the debt.
    let (mut cb, mut bb, mut user) = unhealthy_setup(200);
    cb.total_deposits = 200;
    cb.total_deposit_shares = 200;
    user.primary.deposited_amount = 200;
    user.primary.deposited_shares = 200;
    let debt_before = bb.total_borrowed;
    let outcome =
        process_liquidate(&mut cb, &mut bb, &mut user, fresh(1), fresh(1), 0).unwrap();
    let cleared = debt_before - bb.total_borrowed;
    assert_eq!(cleared, outcome.close_amount);
    assert!(cleared <= debt_before * 5_000 / 10_000);
}

#[test]
fn stale_price_blocks_liquidation() {
    let (mut cb, mut bb, mut user) = unhealthy_setup(90);
    let stale = PriceData { price: 1, age: 101 };
    assert_eq!(
        process_liquidate(&mut cb, &mut bb, &mut user, stale, fresh(1), 0),
        Err(ErrorCode::StalePrice)
    );
}

#[test]
fn zero_collateral_price_is_division_by_zero() {
    // A zero collateral price makes the position unhealthy but the debt
    // cannot be converted into collateral units.
    let (mut cb, mut bb, mut user) = unhealthy_setup(90);
    assert_eq!(
        process_liquidate(&mut cb, &mut bb, &mut user, fresh(0), fresh(1), 0),
        Err(ErrorCode::DivisionByZero)
    );
}

#[test]
fn pool_short_of_the_debt_underflows_and_changes_nothing() {
    // The position's booked debt exceeds what the pool has outstanding:
    // the debt burn would drive the pool total below zero.
    let (mut cb, mut bb, mut user) = unhealthy_setup(90);
    bb.liquidation_close_factor = 10_000;
    bb.total_borrowed = 50;
    bb.total_borrowed_shares = 50;
    user.primary.deposited_amount = 10;
    user.primary.deposited_shares = 10;
    cb.total_deposits = 10;
    cb.total_deposit_shares = 10;
    let before = (cb, bb, user);
    assert_eq!(
        process_liquidate(&mut cb, &mut bb, &mut user, fresh(1), fresh(1), 0),
        Err(ErrorCode::ArithmeticUnderflow)
    );
    assert_eq!((cb, bb, user), before);
}

#[test]
fn backward_clock_blocks_liquidation() {
    let (mut cb, mut bb, mut user) = unhealthy_setup(90);
    user.last_deposit_update = 10;
    assert_eq!(
        process_liquidate(&mut cb, &mut bb, &mut user, fresh(1), fresh(1), 5),
        Err(ErrorCode::InvalidTimestamp)
    );
}
