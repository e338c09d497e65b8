//! Borrow: values the position's interest-adjusted collateral and the
//! requested amount in USD at fresh oracle prices, rejects requests past the
//! pool's loan-to-value limit, and mints borrow shares for the rest. The
//! caller pays the amount out of pool custody only after the call succeeds.

use crate::accrual::{calculate_collateral_interest, spec_accrue, spec_accrue_ok};
use crate::constants::BPS_DENOMINATOR;
use crate::error::ErrorCode;
use crate::math::{add_u64, bps_mul, mul_u64};
use crate::shares::{shares_for_deposit, spec_shares_for_deposit};
use crate::state::{AssetHolding, Bank, PriceData, User};
use vstd::prelude::*;

verus! {

/// The position's collateral in the collateral pool's asset, advanced by
/// that pool's rate from the deposit baseline to `now`.
pub open spec fn spec_adjusted_collateral(collateral_bank: Bank, user: User, now: int) -> int {
    spec_accrue(
        user.spec_holding(collateral_bank.asset_id).deposited_amount as int,
        collateral_bank.interest_rate as int,
        now - user.last_deposit_update,
    )
}

/// USD value of the interest-adjusted collateral at the oracle price.
pub open spec fn spec_collateral_value(
    collateral_bank: Bank,
    user: User,
    collateral_price: PriceData,
    now: int,
) -> int {
    spec_adjusted_collateral(collateral_bank, user, now) * collateral_price.price
}

/// USD value of the requested borrow amount at the oracle price.
pub open spec fn spec_requested_value(amount: int, borrow_price: PriceData) -> int {
    amount * borrow_price.price
}

/// Largest USD value the position may borrow: the collateral value under
/// the borrow pool's loan-to-value fraction.
pub open spec fn spec_borrowable_value(
    borrow_bank: Bank,
    collateral_bank: Bank,
    user: User,
    collateral_price: PriceData,
    now: int,
) -> int {
    spec_collateral_value(collateral_bank, user, collateral_price, now) * borrow_bank.max_ltv
        / (BPS_DENOMINATOR as int)
}

/// Borrow shares minted against the borrow pool's borrow bucket.
pub open spec fn spec_borrow_minted(borrow_bank: Bank, amount: int) -> int {
    spec_shares_for_deposit(
        amount,
        borrow_bank.total_borrowed as int,
        borrow_bank.total_borrowed_shares as int,
    )
}

/// Exactly when a borrow succeeds: the clock has not moved backward, the
/// collateral accrual and both USD valuations fit, both prices are fresh,
/// the request is within the loan-to-value limit, and the minted shares and
/// every incremented total fit a `u64`.
pub open spec fn spec_borrow_ok(
    borrow_bank: Bank,
    collateral_bank: Bank,
    user: User,
    amount: int,
    collateral_price: PriceData,
    borrow_price: PriceData,
    now: int,
) -> bool {
    let h = user.spec_holding(borrow_bank.asset_id);
    let m = spec_borrow_minted(borrow_bank, amount);
    &&& now >= user.last_deposit_update
    &&& spec_accrue_ok(
        user.spec_holding(collateral_bank.asset_id).deposited_amount as int,
        collateral_bank.interest_rate as int,
        now - user.last_deposit_update,
    )
    &&& collateral_price.spec_fresh()
    &&& borrow_price.spec_fresh()
    &&& spec_collateral_value(collateral_bank, user, collateral_price, now) <= u64::MAX
    &&& spec_requested_value(amount, borrow_price) <= u64::MAX
    &&& spec_requested_value(amount, borrow_price) <= spec_borrowable_value(
        borrow_bank,
        collateral_bank,
        user,
        collateral_price,
        now,
    )
    &&& m <= u64::MAX
    &&& borrow_bank.total_borrowed + amount <= u64::MAX
    &&& borrow_bank.total_borrowed_shares + m <= u64::MAX
    &&& h.borrowed_amount + amount <= u64::MAX
    &&& h.borrowed_shares + m <= u64::MAX
}

/// The error a failing borrow reports, by the first step that fails:
/// accrual, price freshness, valuation, the loan-to-value gate, then share
/// minting and the increments.
pub open spec fn spec_borrow_err(
    borrow_bank: Bank,
    collateral_bank: Bank,
    user: User,
    amount: int,
    collateral_price: PriceData,
    borrow_price: PriceData,
    now: int,
) -> ErrorCode {
    if now < user.last_deposit_update {
        ErrorCode::InvalidTimestamp
    } else if !spec_accrue_ok(
        user.spec_holding(collateral_bank.asset_id).deposited_amount as int,
        collateral_bank.interest_rate as int,
        now - user.last_deposit_update,
    ) {
        ErrorCode::ArithmeticOverflow
    } else if !collateral_price.spec_fresh() || !borrow_price.spec_fresh() {
        ErrorCode::StalePrice
    } else if spec_collateral_value(collateral_bank, user, collateral_price, now) > u64::MAX {
        ErrorCode::ArithmeticOverflow
    } else if spec_requested_value(amount, borrow_price) > u64::MAX {
        ErrorCode::ArithmeticOverflow
    } else if spec_requested_value(amount, borrow_price) > spec_borrowable_value(
        borrow_bank,
        collateral_bank,
        user,
        collateral_price,
        now,
    ) {
        ErrorCode::OverBorrowableAmount
    } else {
        ErrorCode::ArithmeticOverflow
    }
}

/// The borrow pool after a successful borrow: both borrow totals grown,
/// nothing else touched.
pub open spec fn spec_borrow_bank(borrow_bank: Bank, amount: int) -> Bank {
    Bank {
        total_borrowed: (borrow_bank.total_borrowed + amount) as u64,
        total_borrowed_shares: (borrow_bank.total_borrowed_shares + spec_borrow_minted(
            borrow_bank,
            amount,
        )) as u64,
        ..borrow_bank
    }
}

/// The position after a successful borrow: its slot for the borrow asset
/// grown by the amount and the minted shares, and the borrow accrual
/// baseline moved to `now`.
pub open spec fn spec_borrow_user(borrow_bank: Bank, user: User, amount: int, now: int) -> User {
    let h = user.spec_holding(borrow_bank.asset_id);
    let grown = AssetHolding {
        deposited_amount: h.deposited_amount,
        deposited_shares: h.deposited_shares,
        borrowed_amount: (h.borrowed_amount + amount) as u64,
        borrowed_shares: (h.borrowed_shares + spec_borrow_minted(borrow_bank, amount)) as u64,
    };
    User { last_borrow_update: now as i64, ..user.spec_with_holding(borrow_bank.asset_id, grown) }
}

/// Authorizes and books a borrow of `amount` of the borrow pool's asset
/// against the position's collateral in the other asset. The request's USD
/// value may not exceed the interest-adjusted collateral value under the
/// borrow pool's loan-to-value fraction; within it, borrow shares are
/// minted (one-to-one for the first borrower) and both records grow. A
/// failure changes nothing.
pub fn process_borrow(
    borrow_bank: &mut Bank,
    collateral_bank: &Bank,
    user: &mut User,
    amount: u64,
    collateral_price: PriceData,
    borrow_price: PriceData,
    now: i64,
) -> (r: Result<(), ErrorCode>)
    requires
        old(borrow_bank).wf(),
        collateral_bank.wf(),
        amount > 0,
        (old(borrow_bank).asset_id == old(user).reference_asset) <==> (collateral_bank.asset_id
            != old(user).reference_asset),
    ensures
        r is Ok <==> spec_borrow_ok(
            *old(borrow_bank),
            *collateral_bank,
            *old(user),
            amount as int,
            collateral_price,
            borrow_price,
            now as int,
        ),
        r is Ok ==> *final(borrow_bank) == spec_borrow_bank(*old(borrow_bank), amount as int),
        r is Ok ==> *final(user) == spec_borrow_user(
            *old(borrow_bank),
            *old(user),
            amount as int,
            now as int,
        ),
        r is Ok ==> final(borrow_bank).wf(),
        r is Err ==> r->Err_0 == spec_borrow_err(
            *old(borrow_bank),
            *collateral_bank,
            *old(user),
            amount as int,
            collateral_price,
            borrow_price,
            now as int,
        ),
        r is Err ==> *final(borrow_bank) == *old(borrow_bank) && *final(user) == *old(user),
        r is Ok && old(borrow_bank).total_borrowed == 0 ==> final(borrow_bank).total_borrowed_shares
            == old(borrow_bank).total_borrowed_shares + amount,
{
    let coll_holding: AssetHolding = user.holding(collateral_bank.asset_id);
    let adjusted: u64 = match calculate_collateral_interest(
        coll_holding.deposited_amount,
        collateral_bank.interest_rate,
        user.last_deposit_update,
        now,
    ) {
        Ok(v) => v,
        Err(code) => {
            return Err(code);
        },
    };
    if !collateral_price.is_fresh() || !borrow_price.is_fresh() {
        return Err(ErrorCode::StalePrice);
    }
    let collateral_value: u64 = match mul_u64(adjusted, collateral_price.price) {
        Ok(v) => v,
        Err(code) => {
            return Err(code);
        },
    };
    let requested_value: u64 = match mul_u64(amount, borrow_price.price) {
        Ok(v) => v,
        Err(code) => {
            return Err(code);
        },
    };
    let borrowable_value: u64 = bps_mul(collateral_value, borrow_bank.max_ltv);
    if requested_value > borrowable_value {
        return Err(ErrorCode::OverBorrowableAmount);
    }
    let minted: u64 = match shares_for_deposit(
        amount,
        borrow_bank.total_borrowed,
        borrow_bank.total_borrowed_shares,
    ) {
        Ok(v) => v,
        Err(code) => {
            return Err(code);
        },
    };
    let new_total: u64 = match add_u64(borrow_bank.total_borrowed, amount) {
        Ok(v) => v,
        Err(code) => {
            return Err(code);
        },
    };
    let new_shares: u64 = match add_u64(borrow_bank.total_borrowed_shares, minted) {
        Ok(v) => v,
        Err(code) => {
            return Err(code);
        },
    };
    let h: AssetHolding = user.holding(borrow_bank.asset_id);
    let new_borrowed: u64 = match add_u64(h.borrowed_amount, amount) {
        Ok(v) => v,
        Err(code) => {
            return Err(code);
        },
    };
    let new_borrowed_shares: u64 = match add_u64(h.borrowed_shares, minted) {
        Ok(v) => v,
        Err(code) => {
            return Err(code);
        },
    };
    let asset: u64 = borrow_bank.asset_id;
    borrow_bank.total_borrowed = new_total;
    borrow_bank.total_borrowed_shares = new_shares;
    user.set_holding(
        asset,
        AssetHolding {
            deposited_amount: h.deposited_amount,
            deposited_shares: h.deposited_shares,
            borrowed_amount: new_borrowed,
            borrowed_shares: new_borrowed_shares,
        },
    );
    user.last_borrow_update = now;
    Ok(())
}

} // verus!
