//! Deposit, withdraw, borrow and repay on concrete pools and positions.

use lending::admin::{process_init_bank, process_init_user};
use lending::borrow::process_borrow;
use lending::constants::INTEREST_RATE_PER_SECOND;
use lending::deposit::process_deposit;
use lending::error::ErrorCode;
use lending::repay::process_repay;
use lending::state::{AssetHolding, Bank, PriceData, User};
use lending::withdraw::process_withdraw;

const SOL: u64 = 1;
const USDC: u64 = 2;

fn empty_bank(asset_id: u64) -> Bank {
    process_init_bank(asset_id, 8_000, 5_000, 5_000, 1_000, 0)
}

fn empty_user() -> User {
    process_init_user(77, USDC)
}

fn fresh(price: u64) -> PriceData {
    PriceData { price, age: 0 }
}

#[test]
fn init_bank_sets_parameters_and_rate() {
    let bank = empty_bank(SOL);
    assert_eq!(bank.asset_id, SOL);
    assert_eq!(bank.total_deposits, 0);
    assert_eq!(bank.total_deposit_shares, 0);
    assert_eq!(bank.total_borrowed, 0);
    assert_eq!(bank.total_borrowed_shares, 0);
    assert_eq!(bank.liquidation_threshold, 8_000);
    assert_eq!(bank.liquidation_close_factor, 5_000);
    assert_eq!(bank.max_ltv, 5_000);
    assert_eq!(bank.liquidation_bonus, 1_000);
    assert_eq!(bank.interest_rate, INTEREST_RATE_PER_SECOND);
    assert_eq!(bank.interest_rate, 1_585_489_599);
}

#[test]
fn init_user_starts_empty() {
    let user = empty_user();
    assert_eq!(user.owner, 77);
    assert_eq!(user.reference_asset, USDC);
    assert_eq!(user.primary.deposited_amount, 0);
    assert_eq!(user.reference.borrowed_shares, 0);
}

#[test]
fn first_deposit_bootstraps_shares_one_to_one() {
    let mut bank = empty_bank(SOL);
    let mut user = empty_user();
    assert_eq!(process_deposit(&mut bank, &mut user, 500, 10), Ok(()));
    assert_eq!(bank.total_deposits, 500);
    assert_eq!(bank.total_deposit_shares, 500);
    assert_eq!(user.primary.deposited_amount, 500);
    assert_eq!(user.primary.deposited_shares, 500);
    assert_eq!(user.last_deposit_update, 10);
}

#[test]
fn deposit_mints_proportional_shares() {
    let mut bank = empty_bank(SOL);
    bank.total_deposits = 10;
    bank.total_deposit_shares = 3;
    let mut user = empty_user();
    assert_eq!(process_deposit(&mut bank, &mut user, 7, 10), Ok(()));
    assert_eq!(bank.total_deposits, 17);
    assert_eq!(bank.total_deposit_shares, 5);
    assert_eq!(user.primary.deposited_amount, 7);
    assert_eq!(user.primary.deposited_shares, 2);
}

#[test]
fn deposit_overflow_changes_nothing() {
    let mut bank = empty_bank(SOL);
    bank.total_deposits = 1;
    bank.total_deposit_shares = 1;
    let mut user = empty_user();
    let before_bank = bank;
    let before_user = user;
    assert_eq!(
        process_deposit(&mut bank, &mut user, u64::MAX, 10),
        Err(ErrorCode::ArithmeticOverflow)
    );
    assert_eq!(bank, before_bank);
    assert_eq!(user, before_user);
}

#[test]
fn deposit_then_withdraw_restores_totals() {
    let mut bank = empty_bank(SOL);
    bank.total_deposits = 10;
    bank.total_deposit_shares = 3;
    let mut user = empty_user();
    user.primary = AssetHolding {
        deposited_amount: 100,
        deposited_shares: 30,
        borrowed_amount: 0,
        borrowed_shares: 0,
    };
    assert_eq!(process_deposit(&mut bank, &mut user, 7, 10), Ok(()));
    assert_eq!(process_withdraw(&mut bank, &mut user, 7), Ok(()));
    assert_eq!(bank.total_deposits, 10);
    assert_eq!(bank.total_deposit_shares, 3);
    assert_eq!(user.primary.deposited_amount, 100);
    assert_eq!(user.primary.deposited_shares, 30);
}

#[test]
fn withdraw_more_than_deposited_is_insufficient_funds() {
    let mut bank = empty_bank(SOL);
    bank.total_deposits = 100;
    bank.total_deposit_shares = 100;
    let mut user = empty_user();
    user.primary.deposited_amount = 5;
    user.primary.deposited_shares = 5;
    let before_bank = bank;
    assert_eq!(
        process_withdraw(&mut bank, &mut user, 10),
        Err(ErrorCode::InsufficientFunds)
    );
    assert_eq!(bank, before_bank);
    assert_eq!(user.primary.deposited_amount, 5);
}

#[test]
fn withdraw_everything_empties_the_bucket() {
    let mut bank = empty_bank(SOL);
    let mut user = empty_user();
    assert_eq!(process_deposit(&mut bank, &mut user, 250, 0), Ok(()));
    assert_eq!(process_withdraw(&mut bank, &mut user, 250), Ok(()));
    assert_eq!(bank.total_deposits, 0);
    assert_eq!(bank.total_deposit_shares, 0);
    assert_eq!(user.primary.deposited_amount, 0);
    assert_eq!(user.primary.deposited_shares, 0);
}

#[test]
fn borrow_over_ltv_fails_within_ltv_succeeds() {
    // Collateral worth $1000 at 50% max loan-to-value: a $600 request is
    // rejected, a $400 request goes through.
    let collateral_bank = empty_bank(SOL);
    let mut borrow_bank = empty_bank(USDC);
    let mut user = empty_user();
    user.primary.deposited_amount = 1_000;
    user.primary.deposited_shares = 1_000;
    let before_bank = borrow_bank;
    let before_user = user;
    assert_eq!(
        process_borrow(
            &mut borrow_bank,
            &collateral_bank,
            &mut user,
            600,
            fresh(1),
            fresh(1),
            0,
        ),
        Err(ErrorCode::OverBorrowableAmount)
    );
    assert_eq!(borrow_bank, before_bank);
    assert_eq!(user, before_user);

    assert_eq!(
        process_borrow(
            &mut borrow_bank,
            &collateral_bank,
            &mut user,
            400,
            fresh(1),
            fresh(1),
            0,
        ),
        Ok(())
    );
    assert_eq!(borrow_bank.total_borrowed, 400);
    assert_eq!(borrow_bank.total_borrowed_shares, 400);
    assert_eq!(user.reference.borrowed_amount, 400);
    assert_eq!(user.reference.borrowed_shares, 400);
    assert_eq!(user.last_borrow_update, 0);
}

#[test]
fn borrow_values_collateral_with_accrued_interest() {
    // After one year at the configured 5% rate, 1,000,000 of collateral
    // values as 1,051,271; half of that is borrowable.
    let mut collateral_bank = empty_bank(SOL);
    let mut borrow_bank = empty_bank(USDC);
    let mut user = empty_user();
    assert_eq!(process_deposit(&mut collateral_bank, &mut user, 1_000_000, 0), Ok(()));
    let year: i64 = 31_536_000;
    assert_eq!(
        process_borrow(
            &mut borrow_bank,
            &collateral_bank,
            &mut user,
            525_636,
            fresh(1),
            fresh(1),
            year,
        ),
        Err(ErrorCode::OverBorrowableAmount)
    );
    assert_eq!(
        process_borrow(
            &mut borrow_bank,
            &collateral_bank,
            &mut user,
            525_635,
            fresh(1),
            fresh(1),
            year,
        ),
        Ok(())
    );
    assert_eq!(borrow_bank.total_borrowed, 525_635);
}

#[test]
fn withdraw_underflows_when_pool_holds_less_than_position() {
    // The position's booked deposit exceeds the pool total: the pool
    // decrement would go below zero.
    let mut bank = empty_bank(SOL);
    bank.total_deposits = 50;
    bank.total_deposit_shares = 50;
    let mut user = empty_user();
    user.primary.deposited_amount = 100;
    user.primary.deposited_shares = 100;
    let before_bank = bank;
    let before_user = user;
    assert_eq!(
        process_withdraw(&mut bank, &mut user, 80),
        Err(ErrorCode::ArithmeticUnderflow)
    );
    assert_eq!(bank, before_bank);
    assert_eq!(user, before_user);
}

#[test]
fn borrow_with_stale_price_fails() {
    let collateral_bank = empty_bank(SOL);
    let mut borrow_bank = empty_bank(USDC);
    let mut user = empty_user();
    user.primary.deposited_amount = 1_000;
    user.primary.deposited_shares = 1_000;
    let stale = PriceData { price: 1, age: 101 };
    assert_eq!(
        process_borrow(&mut borrow_bank, &collateral_bank, &mut user, 100, stale, fresh(1), 0),
        Err(ErrorCode::StalePrice)
    );
}

#[test]
fn repay_reduces_debt_and_burns_shares() {
    let mut bank = empty_bank(USDC);
    bank.total_borrowed = 100;
    bank.total_borrowed_shares = 100;
    bank.last_updated = 5;
    let mut user = empty_user();
    user.reference.borrowed_amount = 100;
    user.reference.borrowed_shares = 100;
    assert_eq!(process_repay(&mut bank, &mut user, 40, 5), Ok(()));
    assert_eq!(bank.total_borrowed, 60);
    assert_eq!(bank.total_borrowed_shares, 60);
    assert_eq!(bank.last_updated, 5);
    assert_eq!(user.reference.borrowed_amount, 60);
    assert_eq!(user.reference.borrowed_shares, 60);
}

#[test]
fn repay_more_than_owed_is_over_repay() {
    let mut bank = empty_bank(USDC);
    bank.total_borrowed = 100;
    bank.total_borrowed_shares = 100;
    bank.last_updated = 5;
    let mut user = empty_user();
    user.reference.borrowed_amount = 100;
    user.reference.borrowed_shares = 100;
    let before_bank = bank;
    assert_eq!(
        process_repay(&mut bank, &mut user, 150, 5),
        Err(ErrorCode::OverRepay)
    );
    assert_eq!(bank, before_bank);
    assert_eq!(user.reference.borrowed_amount, 100);
}

#[test]
fn repay_with_backward_clock_is_invalid_timestamp() {
    let mut bank = empty_bank(USDC);
    bank.total_borrowed = 100;
    bank.total_borrowed_shares = 100;
    bank.last_updated = 5;
    let mut user = empty_user();
    user.reference.borrowed_amount = 100;
    user.reference.borrowed_shares = 100;
    assert_eq!(
        process_repay(&mut bank, &mut user, 10, 4),
        Err(ErrorCode::InvalidTimestamp)
    );
}

#[test]
fn repay_into_pool_without_shares_is_division_by_zero() {
    let mut bank = empty_bank(USDC);
    let mut user = empty_user();
    user.reference.borrowed_amount = 10;
    assert_eq!(
        process_repay(&mut bank, &mut user, 10, 0),
        Err(ErrorCode::DivisionByZero)
    );
}
