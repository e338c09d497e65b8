//! Repay: folds pool-wide borrow interest into the pool's borrowed
//! principal, bounds the repayment by the position's owed debt, and burns
//! borrow shares proportionally. All borrowers of a pool share one interest
//! curve, so the accrual is pool-wide, not per-position. The caller moves
//! the repaid amount into pool custody only after the call succeeds.

use crate::accrual::{accrue, elapsed_seconds, spec_accrue, spec_accrue_ok};
use crate::error::ErrorCode;
use crate::math::{mul_div_u64, mul_u64, sub_u64};
use crate::shares::{lemma_burn_keeps_invariant, spec_shares_to_burn};
use crate::state::{AssetHolding, Bank, User};
use vstd::prelude::*;

verus! {

/// The pool's borrowed principal with interest folded in up to `now`.
pub open spec fn spec_repay_pool_debt(bank: Bank, now: int) -> int {
    spec_accrue(bank.total_borrowed as int, bank.interest_rate as int, now - bank.last_updated)
}

/// Post-accrual value of one borrow share, truncating.
pub open spec fn spec_value_per_share(bank: Bank, now: int) -> int {
    spec_repay_pool_debt(bank, now) / (bank.total_borrowed_shares as int)
}

/// The position's owed debt for the pool's asset: its borrowed amount at
/// the post-accrual value per share.
pub open spec fn spec_position_debt(bank: Bank, user: User, now: int) -> int {
    (user.spec_holding(bank.asset_id).borrowed_amount as int) * spec_value_per_share(bank, now)
}

/// Borrow shares a repayment of `amount` burns, proportional against the
/// post-accrual pool debt.
pub open spec fn spec_repay_burned(bank: Bank, amount: int, now: int) -> int {
    spec_shares_to_burn(amount, spec_repay_pool_debt(bank, now), bank.total_borrowed_shares as int)
}

/// Exactly when a repayment succeeds: the clock has not moved backward, the
/// pool-wide accrual and the debt valuation fit, shares are outstanding,
/// the amount is within the owed debt, and no decrement goes below zero.
pub open spec fn spec_repay_ok(bank: Bank, user: User, amount: int, now: int) -> bool {
    let h = user.spec_holding(bank.asset_id);
    &&& now >= bank.last_updated
    &&& spec_accrue_ok(bank.total_borrowed as int, bank.interest_rate as int, now - bank.last_updated)
    &&& bank.total_borrowed_shares > 0
    &&& spec_position_debt(bank, user, now) <= u64::MAX
    &&& amount <= spec_position_debt(bank, user, now)
    &&& spec_repay_burned(bank, amount, now) <= u64::MAX
    &&& amount <= spec_repay_pool_debt(bank, now)
    &&& spec_repay_burned(bank, amount, now) <= bank.total_borrowed_shares
    &&& amount <= h.borrowed_amount
    &&& spec_repay_burned(bank, amount, now) <= h.borrowed_shares
}

/// The error a failing repayment reports, by the first step that fails:
/// the pool-wide accrual, the value per share, the debt valuation, the
/// over-repay gate, the burned share count, then the decrements.
pub open spec fn spec_repay_err(bank: Bank, user: User, amount: int, now: int) -> ErrorCode {
    if now < bank.last_updated {
        ErrorCode::InvalidTimestamp
    } else if !spec_accrue_ok(
        bank.total_borrowed as int,
        bank.interest_rate as int,
        now - bank.last_updated,
    ) {
        ErrorCode::ArithmeticOverflow
    } else if bank.total_borrowed_shares == 0 {
        ErrorCode::DivisionByZero
    } else if spec_position_debt(bank, user, now) > u64::MAX {
        ErrorCode::ArithmeticOverflow
    } else if amount > spec_position_debt(bank, user, now) {
        ErrorCode::OverRepay
    } else if spec_repay_burned(bank, amount, now) > u64::MAX {
        ErrorCode::ArithmeticOverflow
    } else {
        ErrorCode::ArithmeticUnderflow
    }
}

/// The pool after a successful repayment: interest folded in, then both
/// borrow totals reduced, and the accrual timestamp moved to `now`.
pub open spec fn spec_repay_bank(bank: Bank, amount: int, now: int) -> Bank {
    Bank {
        total_borrowed: (spec_repay_pool_debt(bank, now) - amount) as u64,
        total_borrowed_shares: (bank.total_borrowed_shares - spec_repay_burned(
            bank,
            amount,
            now,
        )) as u64,
        last_updated: now as i64,
        ..bank
    }
}

/// The position after a successful repayment: its slot for the pool's asset
/// reduced by the amount and the burned shares. Timestamps stay.
pub open spec fn spec_repay_user(bank: Bank, user: User, amount: int, now: int) -> User {
    let h = user.spec_holding(bank.asset_id);
    let shrunk = AssetHolding {
        deposited_amount: h.deposited_amount,
        deposited_shares: h.deposited_shares,
        borrowed_amount: (h.borrowed_amount - amount) as u64,
        borrowed_shares: (h.borrowed_shares - spec_repay_burned(bank, amount, now)) as u64,
    };
    user.spec_with_holding(bank.asset_id, shrunk)
}

/// Repays `amount` of the position's debt in the pool's asset: accrues
/// pool-wide borrow interest, rejects amounts past the owed debt, burns the
/// proportional share count, and reduces pool and position symmetrically.
/// A failure changes nothing.
pub fn process_repay(bank: &mut Bank, user: &mut User, amount: u64, now: i64) -> (r: Result<
    (),
    ErrorCode,
>)
    requires
        old(bank).wf(),
        amount > 0,
    ensures
        r is Ok <==> spec_repay_ok(*old(bank), *old(user), amount as int, now as int),
        r is Ok ==> *final(bank) == spec_repay_bank(*old(bank), amount as int, now as int),
        r is Ok ==> *final(user) == spec_repay_user(*old(bank), *old(user), amount as int, now as int),
        r is Ok ==> final(bank).wf(),
        r is Err ==> r->Err_0 == spec_repay_err(*old(bank), *old(user), amount as int, now as int),
        r is Err ==> *final(bank) == *old(bank) && *final(user) == *old(user),
{
    let elapsed: u64 = match elapsed_seconds(now, bank.last_updated) {
        Ok(v) => v,
        Err(code) => {
            return Err(code);
        },
    };
    let pool_debt: u64 = match accrue(bank.total_borrowed, bank.interest_rate, elapsed) {
        Ok(v) => v,
        Err(code) => {
            return Err(code);
        },
    };
    if bank.total_borrowed_shares == 0 {
        return Err(ErrorCode::DivisionByZero);
    }
    let value_per_share: u64 = pool_debt / bank.total_borrowed_shares;
    let h: AssetHolding = user.holding(bank.asset_id);
    let position_debt: u64 = match mul_u64(h.borrowed_amount, value_per_share) {
        Ok(v) => v,
        Err(code) => {
            return Err(code);
        },
    };
    if amount > position_debt {
        return Err(ErrorCode::OverRepay);
    }
    proof {
        // Shares outstanding mean principal outstanding, and accrual never
        // shrinks it, so the post-accrual debt is a valid divisor.
        assert(pool_debt > 0);
    }
    let burned: u64 = match mul_div_u64(amount, bank.total_borrowed_shares, pool_debt) {
        Ok(v) => v,
        Err(code) => {
            return Err(code);
        },
    };
    let new_total: u64 = match sub_u64(pool_debt, amount) {
        Ok(v) => v,
        Err(code) => {
            return Err(code);
        },
    };
    let new_shares: u64 = match sub_u64(bank.total_borrowed_shares, burned) {
        Ok(v) => v,
        Err(code) => {
            return Err(code);
        },
    };
    let new_borrowed: u64 = match sub_u64(h.borrowed_amount, amount) {
        Ok(v) => v,
        Err(code) => {
            return Err(code);
        },
    };
    let new_borrowed_shares: u64 = match sub_u64(h.borrowed_shares, burned) {
        Ok(v) => v,
        Err(code) => {
            return Err(code);
        },
    };
    proof {
        lemma_burn_keeps_invariant(
            amount as int,
            pool_debt as int,
            old(bank).total_borrowed_shares as int,
        );
    }
    let asset: u64 = bank.asset_id;
    bank.total_borrowed = new_total;
    bank.total_borrowed_shares = new_shares;
    bank.last_updated = now;
    user.set_holding(
        asset,
        AssetHolding {
            deposited_amount: h.deposited_amount,
            deposited_shares: h.deposited_shares,
            borrowed_amount: new_borrowed,
            borrowed_shares: new_borrowed_shares,
        },
    );
    Ok(())
}

} // verus!
