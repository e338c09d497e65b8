//! Withdraw: burns deposit shares proportionally for an amount leaving a
//! pool and debits the position. The caller moves the asset out of pool
//! custody only after the call succeeds.

use crate::deposit::{spec_deposit_bank, spec_deposit_minted, spec_deposit_ok, spec_deposit_user};
use crate::error::ErrorCode;
use crate::math::{mul_div_u64, sub_u64};
use crate::shares::{lemma_burn_keeps_invariant, lemma_mint_then_burn_restores, spec_shares_to_burn};
use crate::state::{AssetHolding, Bank, User};
use vstd::prelude::*;

verus! {

/// Shares a withdrawal of `amount` burns from the pool's deposit bucket:
/// the proportional count, truncating.
pub open spec fn spec_withdraw_burned(bank: Bank, amount: int) -> int {
    spec_shares_to_burn(amount, bank.total_deposits as int, bank.total_deposit_shares as int)
}

/// Exactly when a withdrawal succeeds: the position holds the amount, the
/// pool is not empty, the burned share count fits a `u64`, and no decrement
/// goes below zero.
pub open spec fn spec_withdraw_ok(bank: Bank, user: User, amount: int) -> bool {
    let h = user.spec_holding(bank.asset_id);
    let b = spec_withdraw_burned(bank, amount);
    &&& amount <= h.deposited_amount
    &&& bank.total_deposits > 0
    &&& b <= u64::MAX
    &&& amount <= bank.total_deposits
    &&& b <= bank.total_deposit_shares
    &&& b <= h.deposited_shares
}

/// The error a failing withdrawal reports, by the first check that fails:
/// more than the position holds, an empty pool, a burned share count past
/// `u64`, or a decrement below zero.
pub open spec fn spec_withdraw_err(bank: Bank, user: User, amount: int) -> ErrorCode {
    let h = user.spec_holding(bank.asset_id);
    if amount > h.deposited_amount {
        ErrorCode::InsufficientFunds
    } else if bank.total_deposits == 0 {
        ErrorCode::DivisionByZero
    } else if spec_withdraw_burned(bank, amount) > u64::MAX {
        ErrorCode::ArithmeticOverflow
    } else {
        ErrorCode::ArithmeticUnderflow
    }
}

/// The pool after a successful withdrawal: both deposit totals reduced,
/// nothing else touched.
pub open spec fn spec_withdraw_bank(bank: Bank, amount: int) -> Bank {
    Bank {
        total_deposits: (bank.total_deposits - amount) as u64,
        total_deposit_shares: (bank.total_deposit_shares - spec_withdraw_burned(
            bank,
            amount,
        )) as u64,
        ..bank
    }
}

/// The position after a successful withdrawal: its slot for the pool's
/// asset reduced by the amount and the burned shares. Timestamps stay.
pub open spec fn spec_withdraw_user(bank: Bank, user: User, amount: int) -> User {
    let h = user.spec_holding(bank.asset_id);
    let shrunk = AssetHolding {
        deposited_amount: (h.deposited_amount - amount) as u64,
        deposited_shares: (h.deposited_shares - spec_withdraw_burned(bank, amount)) as u64,
        borrowed_amount: h.borrowed_amount,
        borrowed_shares: h.borrowed_shares,
    };
    user.spec_with_holding(bank.asset_id, shrunk)
}

/// Withdraws `amount` from the pool: burns the proportional share count and
/// reduces the pool's deposit totals and the position's slot symmetrically.
/// Every decrement is guarded, and a failure changes nothing.
pub fn process_withdraw(bank: &mut Bank, user: &mut User, amount: u64) -> (r: Result<
    (),
    ErrorCode,
>)
    requires
        old(bank).wf(),
        amount > 0,
    ensures
        r is Ok <==> spec_withdraw_ok(*old(bank), *old(user), amount as int),
        r is Ok ==> *final(bank) == spec_withdraw_bank(*old(bank), amount as int),
        r is Ok ==> *final(user) == spec_withdraw_user(*old(bank), *old(user), amount as int),
        r is Ok ==> final(bank).wf(),
        r is Err ==> r->Err_0 == spec_withdraw_err(*old(bank), *old(user), amount as int),
        r is Err ==> *final(bank) == *old(bank) && *final(user) == *old(user),
{
    let h: AssetHolding = user.holding(bank.asset_id);
    if amount > h.deposited_amount {
        return Err(ErrorCode::InsufficientFunds);
    }
    if bank.total_deposits == 0 {
        return Err(ErrorCode::DivisionByZero);
    }
    let burned: u64 = match mul_div_u64(amount, bank.total_deposit_shares, bank.total_deposits) {
        Ok(v) => v,
        Err(code) => {
            return Err(code);
        },
    };
    let new_total: u64 = match sub_u64(bank.total_deposits, amount) {
        Ok(v) => v,
        Err(code) => {
            return Err(code);
        },
    };
    let new_shares: u64 = match sub_u64(bank.total_deposit_shares, burned) {
        Ok(v) => v,
        Err(code) => {
            return Err(code);
        },
    };
    let new_deposited_shares: u64 = match sub_u64(h.deposited_shares, burned) {
        Ok(v) => v,
        Err(code) => {
            return Err(code);
        },
    };
    proof {
        lemma_burn_keeps_invariant(
            amount as int,
            old(bank).total_deposits as int,
            old(bank).total_deposit_shares as int,
        );
    }
    let asset: u64 = bank.asset_id;
    bank.total_deposits = new_total;
    bank.total_deposit_shares = new_shares;
    user.set_holding(
        asset,
        AssetHolding {
            deposited_amount: h.deposited_amount - amount,
            deposited_shares: new_deposited_shares,
            borrowed_amount: h.borrowed_amount,
            borrowed_shares: h.borrowed_shares,
        },
    );
    Ok(())
}

/// Conservation: depositing an amount and immediately withdrawing the same
/// amount, with no other activity in between, succeeds and returns the pool
/// and the position's holdings to their pre-deposit values; only the
/// position's deposit accrual baseline has moved to the deposit's time.
pub proof fn lemma_deposit_withdraw_conservation(bank: Bank, user: User, amount: u64, now: i64)
    requires
        bank.wf(),
        amount > 0,
        spec_deposit_ok(bank, user, amount as int),
    ensures
        spec_withdraw_ok(
            spec_deposit_bank(bank, amount as int),
            spec_deposit_user(bank, user, amount as int, now as int),
            amount as int,
        ),
        spec_withdraw_bank(spec_deposit_bank(bank, amount as int), amount as int) == bank,
        spec_withdraw_user(
            spec_deposit_bank(bank, amount as int),
            spec_deposit_user(bank, user, amount as int, now as int),
            amount as int,
        ) == (User { last_deposit_update: now, ..user }),
{
    let m = spec_deposit_minted(bank, amount as int);
    lemma_mint_then_burn_restores(
        amount as int,
        bank.total_deposits as int,
        bank.total_deposit_shares as int,
    );
    assert(spec_withdraw_burned(spec_deposit_bank(bank, amount as int), amount as int) == m);
}

} // verus!
