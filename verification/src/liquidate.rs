//! Liquidation: values a position's interest-adjusted collateral and debt at
//! fresh oracle prices, computes its health factor, and — if it is
//! under-collateralized — closes a close-factor-bounded part of the debt,
//! converts it to collateral at the price ratio, adds the liquidation bonus,
//! and pays that collateral out. The caller performs the two transfers (debt
//! in, collateral out) only after the call succeeds; a failure changes
//! nothing.

use crate::accrual::{calculate_collateral_interest, spec_accrue, spec_accrue_ok};
use crate::borrow::spec_collateral_value;
use crate::constants::BPS_DENOMINATOR;
use crate::error::ErrorCode;
use crate::math::{add_u64, bps_mul, mul_div_u64, mul_u64, sub_u64};
use crate::shares::{lemma_burn_keeps_invariant, lemma_zero_burns_nothing, spec_shares_to_burn};
use crate::state::{AssetHolding, Bank, PriceData, User};
use vstd::prelude::*;

verus! {

/// What a successful liquidation moves: the debt the liquidator repays into
/// the borrow pool and the collateral paid out to them in return.
#[derive(Clone, Copy, Debug, PartialEq, Eq, Structural)]
pub struct LiquidationOutcome {
    /// Borrow-asset amount of debt closed by this call.
    pub close_amount: u64,
    /// Collateral-asset amount transferred to the liquidator, bonus included.
    pub collateral_payout: u64,
}

/// The position's debt in the borrow pool's asset, advanced by that pool's
/// rate from the borrow baseline to `now`.
pub open spec fn spec_adjusted_debt(borrowed_bank: Bank, user: User, now: int) -> int {
    spec_accrue(
        user.spec_holding(borrowed_bank.asset_id).borrowed_amount as int,
        borrowed_bank.interest_rate as int,
        now - user.last_borrow_update,
    )
}

/// USD value of the interest-adjusted debt at the oracle price.
pub open spec fn spec_borrowed_value(
    borrowed_bank: Bank,
    user: User,
    borrow_price: PriceData,
    now: int,
) -> int {
    spec_adjusted_debt(borrowed_bank, user, now) * borrow_price.price
}

/// The collateral value under the collateral pool's liquidation threshold:
/// the numerator of the health factor.
pub open spec fn spec_risk_adjusted_collateral(
    collateral_bank: Bank,
    user: User,
    collateral_price: PriceData,
    now: int,
) -> int {
    spec_collateral_value(collateral_bank, user, collateral_price, now)
        * collateral_bank.liquidation_threshold / (BPS_DENOMINATOR as int)
}

/// A healthy position: no debt at all, or risk-adjusted collateral covering
/// the borrowed value (health factor at least one). Only unhealthy
/// positions may be liquidated.
pub open spec fn spec_healthy(
    collateral_bank: Bank,
    borrowed_bank: Bank,
    user: User,
    collateral_price: PriceData,
    borrow_price: PriceData,
    now: int,
) -> bool {
    ||| spec_borrowed_value(borrowed_bank, user, borrow_price, now) == 0
    ||| spec_risk_adjusted_collateral(collateral_bank, user, collateral_price, now)
        >= spec_borrowed_value(borrowed_bank, user, borrow_price, now)
}

/// The debt one call may close: the interest-adjusted debt under the borrow
/// pool's close factor, in borrow-asset units.
pub open spec fn spec_close_amount(borrowed_bank: Bank, user: User, now: int) -> int {
    spec_adjusted_debt(borrowed_bank, user, now) * borrowed_bank.liquidation_close_factor
        / (BPS_DENOMINATOR as int)
}

/// Borrow shares burned for the closed debt.
pub open spec fn spec_debt_shares(borrowed_bank: Bank, user: User, now: int) -> int {
    spec_shares_to_burn(
        spec_close_amount(borrowed_bank, user, now),
        borrowed_bank.total_borrowed as int,
        borrowed_bank.total_borrowed_shares as int,
    )
}

/// The closed debt converted to collateral-asset units at the two oracle
/// prices.
pub open spec fn spec_collateral_equiv(
    borrowed_bank: Bank,
    user: User,
    collateral_price: PriceData,
    borrow_price: PriceData,
    now: int,
) -> int {
    spec_close_amount(borrowed_bank, user, now) * borrow_price.price / (collateral_price.price as int)
}

/// The collateral paid out: the converted amount plus the liquidation
/// bonus on it.
pub open spec fn spec_payout(
    collateral_bank: Bank,
    borrowed_bank: Bank,
    user: User,
    collateral_price: PriceData,
    borrow_price: PriceData,
    now: int,
) -> int {
    let equiv = spec_collateral_equiv(borrowed_bank, user, collateral_price, borrow_price, now);
    equiv + equiv * collateral_bank.liquidation_bonus / (BPS_DENOMINATOR as int)
}

/// Deposit shares burned for the paid-out collateral.
pub open spec fn spec_payout_shares(
    collateral_bank: Bank,
    borrowed_bank: Bank,
    user: User,
    collateral_price: PriceData,
    borrow_price: PriceData,
    now: int,
) -> int {
    spec_shares_to_burn(
        spec_payout(collateral_bank, borrowed_bank, user, collateral_price, borrow_price, now),
        collateral_bank.total_deposits as int,
        collateral_bank.total_deposit_shares as int,
    )
}

/// Exactly when a liquidation succeeds: fresh prices, valid clocks, both
/// accruals and valuations in range, an unhealthy position, and every
/// quotient, sum and decrement of the two burns in range.
pub open spec fn spec_liquidate_ok(
    collateral_bank: Bank,
    borrowed_bank: Bank,
    user: User,
    collateral_price: PriceData,
    borrow_price: PriceData,
    now: int,
) -> bool {
    let hc = user.spec_holding(collateral_bank.asset_id);
    let hb = user.spec_holding(borrowed_bank.asset_id);
    let close = spec_close_amount(borrowed_bank, user, now);
    let dshares = spec_debt_shares(borrowed_bank, user, now);
    let payout = spec_payout(collateral_bank, borrowed_bank, user, collateral_price, borrow_price, now);
    let pshares = spec_payout_shares(
        collateral_bank,
        borrowed_bank,
        user,
        collateral_price,
        borrow_price,
        now,
    );
    &&& collateral_price.spec_fresh()
    &&& borrow_price.spec_fresh()
    &&& now >= user.last_deposit_update
    &&& spec_accrue_ok(
        hc.deposited_amount as int,
        collateral_bank.interest_rate as int,
        now - user.last_deposit_update,
    )
    &&& now >= user.last_borrow_update
    &&& spec_accrue_ok(
        hb.borrowed_amount as int,
        borrowed_bank.interest_rate as int,
        now - user.last_borrow_update,
    )
    &&& spec_collateral_value(collateral_bank, user, collateral_price, now) <= u64::MAX
    &&& spec_borrowed_value(borrowed_bank, user, borrow_price, now) <= u64::MAX
    &&& !spec_healthy(collateral_bank, borrowed_bank, user, collateral_price, borrow_price, now)
    &&& borrowed_bank.total_borrowed > 0
    &&& dshares <= u64::MAX
    &&& close <= borrowed_bank.total_borrowed
    &&& dshares <= borrowed_bank.total_borrowed_shares
    &&& close <= hb.borrowed_amount
    &&& dshares <= hb.borrowed_shares
    &&& collateral_price.price > 0
    &&& spec_collateral_equiv(borrowed_bank, user, collateral_price, borrow_price, now) <= u64::MAX
    &&& payout <= u64::MAX
    &&& collateral_bank.total_deposits > 0
    &&& pshares <= u64::MAX
    &&& payout <= collateral_bank.total_deposits
    &&& pshares <= collateral_bank.total_deposit_shares
    &&& payout <= hc.deposited_amount
    &&& pshares <= hc.deposited_shares
}

/// The error a failing liquidation reports, by the first step that fails:
/// price freshness, the two accruals, the two valuations, the health gate,
/// the debt burn, the price conversion, the bonus, then the collateral burn.
pub open spec fn spec_liquidate_err(
    collateral_bank: Bank,
    borrowed_bank: Bank,
    user: User,
    collateral_price: PriceData,
    borrow_price: PriceData,
    now: int,
) -> ErrorCode {
    let hc = user.spec_holding(collateral_bank.asset_id);
    let hb = user.spec_holding(borrowed_bank.asset_id);
    if !collateral_price.spec_fresh() || !borrow_price.spec_fresh() {
        ErrorCode::StalePrice
    } else if now < user.last_deposit_update {
        ErrorCode::InvalidTimestamp
    } else if !spec_accrue_ok(
        hc.deposited_amount as int,
        collateral_bank.interest_rate as int,
        now - user.last_deposit_update,
    ) {
        ErrorCode::ArithmeticOverflow
    } else if now < user.last_borrow_update {
        ErrorCode::InvalidTimestamp
    } else if !spec_accrue_ok(
        hb.borrowed_amount as int,
        borrowed_bank.interest_rate as int,
        now - user.last_borrow_update,
    ) {
        ErrorCode::ArithmeticOverflow
    } else if spec_collateral_value(collateral_bank, user, collateral_price, now) > u64::MAX {
        ErrorCode::ArithmeticOverflow
    } else if spec_borrowed_value(borrowed_bank, user, borrow_price, now) > u64::MAX {
        ErrorCode::ArithmeticOverflow
    } else if spec_healthy(collateral_bank, borrowed_bank, user, collateral_price, borrow_price, now) {
        ErrorCode::NotUnderCollateralized
    } else if borrowed_bank.total_borrowed == 0 {
        ErrorCode::DivisionByZero
    } else if spec_debt_shares(borrowed_bank, user, now) > u64::MAX {
        ErrorCode::ArithmeticOverflow
    } else if spec_close_amount(borrowed_bank, user, now) > borrowed_bank.total_borrowed
        || spec_debt_shares(borrowed_bank, user, now) > borrowed_bank.total_borrowed_shares
        || spec_close_amount(borrowed_bank, user, now) > hb.borrowed_amount
        || spec_debt_shares(borrowed_bank, user, now) > hb.borrowed_shares {
        ErrorCode::ArithmeticUnderflow
    } else if collateral_price.price == 0 {
        ErrorCode::DivisionByZero
    } else if spec_collateral_equiv(borrowed_bank, user, collateral_price, borrow_price, now)
        > u64::MAX {
        ErrorCode::ArithmeticOverflow
    } else if spec_payout(collateral_bank, borrowed_bank, user, collateral_price, borrow_price, now)
        > u64::MAX {
        ErrorCode::ArithmeticOverflow
    } else if collateral_bank.total_deposits == 0 {
        ErrorCode::DivisionByZero
    } else if spec_payout_shares(
        collateral_bank,
        borrowed_bank,
        user,
        collateral_price,
        borrow_price,
        now,
    ) > u64::MAX {
        ErrorCode::ArithmeticOverflow
    } else {
        ErrorCode::ArithmeticUnderflow
    }
}

/// The collateral pool after a successful liquidation: its deposit totals
/// reduced by the payout and the shares burned for it.
pub open spec fn spec_liquidate_collateral_bank(
    collateral_bank: Bank,
    borrowed_bank: Bank,
    user: User,
    collateral_price: PriceData,
    borrow_price: PriceData,
    now: int,
) -> Bank {
    Bank {
        total_deposits: (collateral_bank.total_deposits - spec_payout(
            collateral_bank,
            borrowed_bank,
            user,
            collateral_price,
            borrow_price,
            now,
        )) as u64,
        total_deposit_shares: (collateral_bank.total_deposit_shares - spec_payout_shares(
            collateral_bank,
            borrowed_bank,
            user,
            collateral_price,
            borrow_price,
            now,
        )) as u64,
        ..collateral_bank
    }
}

/// The borrow pool after a successful liquidation: its borrow totals
/// reduced by the closed debt and the shares burned for it.
pub open spec fn spec_liquidate_borrowed_bank(borrowed_bank: Bank, user: User, now: int) -> Bank {
    Bank {
        total_borrowed: (borrowed_bank.total_borrowed - spec_close_amount(
            borrowed_bank,
            user,
            now,
        )) as u64,
        total_borrowed_shares: (borrowed_bank.total_borrowed_shares - spec_debt_shares(
            borrowed_bank,
            user,
            now,
        )) as u64,
        ..borrowed_bank
    }
}

/// The position after a successful liquidation: its borrow slot reduced by
/// the closed debt, its collateral slot by the payout. Timestamps stay.
pub open spec fn spec_liquidate_user(
    collateral_bank: Bank,
    borrowed_bank: Bank,
    user: User,
    collateral_price: PriceData,
    borrow_price: PriceData,
    now: int,
) -> User {
    let hc = user.spec_holding(collateral_bank.asset_id);
    let hb = user.spec_holding(borrowed_bank.asset_id);
    let shrunk_debt = AssetHolding {
        deposited_amount: hb.deposited_amount,
        deposited_shares: hb.deposited_shares,
        borrowed_amount: (hb.borrowed_amount - spec_close_amount(borrowed_bank, user, now)) as u64,
        borrowed_shares: (hb.borrowed_shares - spec_debt_shares(borrowed_bank, user, now)) as u64,
    };
    let shrunk_coll = AssetHolding {
        deposited_amount: (hc.deposited_amount - spec_payout(
            collateral_bank,
            borrowed_bank,
            user,
            collateral_price,
            borrow_price,
            now,
        )) as u64,
        deposited_shares: (hc.deposited_shares - spec_payout_shares(
            collateral_bank,
            borrowed_bank,
            user,
            collateral_price,
            borrow_price,
            now,
        )) as u64,
        borrowed_amount: hc.borrowed_amount,
        borrowed_shares: hc.borrowed_shares,
    };
    user.spec_with_holding(borrowed_bank.asset_id, shrunk_debt).spec_with_holding(
        collateral_bank.asset_id,
        shrunk_coll,
    )
}

/// Liquidates an under-collateralized position across a collateral/borrow
/// asset pair. The health factor is the risk-adjusted collateral value over
/// the borrowed value; at one or above the call is rejected. Below it, the
/// call closes the close-factor share of the interest-adjusted debt, burns
/// both pools' shares proportionally, and reports the debt to collect and
/// the collateral to pay out, bonus included. Either every record commits
/// or none does.
pub fn process_liquidate(
    collateral_bank: &mut Bank,
    borrowed_bank: &mut Bank,
    user: &mut User,
    collateral_price: PriceData,
    borrow_price: PriceData,
    now: i64,
) -> (r: Result<LiquidationOutcome, ErrorCode>)
    requires
        old(collateral_bank).wf(),
        old(borrowed_bank).wf(),
        (old(collateral_bank).asset_id == old(user).reference_asset) <==> (old(
            borrowed_bank,
        ).asset_id != old(user).reference_asset),
    ensures
        r is Ok <==> spec_liquidate_ok(
            *old(collateral_bank),
            *old(borrowed_bank),
            *old(user),
            collateral_price,
            borrow_price,
            now as int,
        ),
        r is Ok ==> r->Ok_0.close_amount == spec_close_amount(
            *old(borrowed_bank),
            *old(user),
            now as int,
        ),
        r is Ok ==> r->Ok_0.collateral_payout == spec_payout(
            *old(collateral_bank),
            *old(borrowed_bank),
            *old(user),
            collateral_price,
            borrow_price,
            now as int,
        ),
        r is Ok ==> *final(collateral_bank) == spec_liquidate_collateral_bank(
            *old(collateral_bank),
            *old(borrowed_bank),
            *old(user),
            collateral_price,
            borrow_price,
            now as int,
        ),
        r is Ok ==> *final(borrowed_bank) == spec_liquidate_borrowed_bank(
            *old(borrowed_bank),
            *old(user),
            now as int,
        ),
        r is Ok ==> *final(user) == spec_liquidate_user(
            *old(collateral_bank),
            *old(borrowed_bank),
            *old(user),
            collateral_price,
            borrow_price,
            now as int,
        ),
        r is Ok ==> final(collateral_bank).wf() && final(borrowed_bank).wf(),
        // One call never clears more than the close factor's share of the
        // interest-adjusted debt, however unhealthy the position.
        r is Ok ==> old(borrowed_bank).total_borrowed - final(borrowed_bank).total_borrowed
            <= spec_adjusted_debt(*old(borrowed_bank), *old(user), now as int) * old(
            borrowed_bank,
        ).liquidation_close_factor / (BPS_DENOMINATOR as int),
        r is Err ==> r->Err_0 == spec_liquidate_err(
            *old(collateral_bank),
            *old(borrowed_bank),
            *old(user),
            collateral_price,
            borrow_price,
            now as int,
        ),
        r is Err ==> *final(collateral_bank) == *old(collateral_bank) && *final(borrowed_bank)
            == *old(borrowed_bank) && *final(user) == *old(user),
{
    if !collateral_price.is_fresh() || !borrow_price.is_fresh() {
        return Err(ErrorCode::StalePrice);
    }
    let hc: AssetHolding = user.holding(collateral_bank.asset_id);
    let hb: AssetHolding = user.holding(borrowed_bank.asset_id);
    let adjusted_collateral: u64 = match calculate_collateral_interest(
        hc.deposited_amount,
        collateral_bank.interest_rate,
        user.last_deposit_update,
        now,
    ) {
        Ok(v) => v,
        Err(code) => {
            return Err(code);
        },
    };
    let adjusted_debt: u64 = match calculate_collateral_interest(
        hb.borrowed_amount,
        borrowed_bank.interest_rate,
        user.last_borrow_update,
        now,
    ) {
        Ok(v) => v,
        Err(code) => {
            return Err(code);
        },
    };
    let collateral_value: u64 = match mul_u64(adjusted_collateral, collateral_price.price) {
        Ok(v) => v,
        Err(code) => {
            return Err(code);
        },
    };
    let borrowed_value: u64 = match mul_u64(adjusted_debt, borrow_price.price) {
        Ok(v) => v,
        Err(code) => {
            return Err(code);
        },
    };
    let risk_adjusted: u64 = bps_mul(collateral_value, collateral_bank.liquidation_threshold);
    if borrowed_value == 0 || risk_adjusted >= borrowed_value {
        return Err(ErrorCode::NotUnderCollateralized);
    }
    let close_amount: u64 = bps_mul(adjusted_debt, borrowed_bank.liquidation_close_factor);
    if borrowed_bank.total_borrowed == 0 {
        return Err(ErrorCode::DivisionByZero);
    }
    let debt_shares: u64 = match mul_div_u64(
        close_amount,
        borrowed_bank.total_borrowed_shares,
        borrowed_bank.total_borrowed,
    ) {
        Ok(v) => v,
        Err(code) => {
            return Err(code);
        },
    };
    let new_total_borrowed: u64 = match sub_u64(borrowed_bank.total_borrowed, close_amount) {
        Ok(v) => v,
        Err(code) => {
            return Err(code);
        },
    };
    let new_borrowed_shares: u64 = match sub_u64(borrowed_bank.total_borrowed_shares, debt_shares) {
        Ok(v) => v,
        Err(code) => {
            return Err(code);
        },
    };
    let new_user_borrowed: u64 = match sub_u64(hb.borrowed_amount, close_amount) {
        Ok(v) => v,
        Err(code) => {
            return Err(code);
        },
    };
    let new_user_borrowed_shares: u64 = match sub_u64(hb.borrowed_shares, debt_shares) {
        Ok(v) => v,
        Err(code) => {
            return Err(code);
        },
    };
    if collateral_price.price == 0 {
        return Err(ErrorCode::DivisionByZero);
    }
    let collateral_equiv: u64 = match mul_div_u64(
        close_amount,
        borrow_price.price,
        collateral_price.price,
    ) {
        Ok(v) => v,
        Err(code) => {
            return Err(code);
        },
    };
    let bonus: u64 = bps_mul(collateral_equiv, collateral_bank.liquidation_bonus);
    let payout: u64 = match add_u64(collateral_equiv, bonus) {
        Ok(v) => v,
        Err(code) => {
            return Err(code);
        },
    };
    if collateral_bank.total_deposits == 0 {
        return Err(ErrorCode::DivisionByZero);
    }
    let payout_shares: u64 = match mul_div_u64(
        payout,
        collateral_bank.total_deposit_shares,
        collateral_bank.total_deposits,
    ) {
        Ok(v) => v,
        Err(code) => {
            return Err(code);
        },
    };
    let new_total_deposits: u64 = match sub_u64(collateral_bank.total_deposits, payout) {
        Ok(v) => v,
        Err(code) => {
            return Err(code);
        },
    };
    let new_deposit_shares: u64 = match sub_u64(collateral_bank.total_deposit_shares, payout_shares)
        {
        Ok(v) => v,
        Err(code) => {
            return Err(code);
        },
    };
    let new_user_deposited: u64 = match sub_u64(hc.deposited_amount, payout) {
        Ok(v) => v,
        Err(code) => {
            return Err(code);
        },
    };
    let new_user_deposit_shares: u64 = match sub_u64(hc.deposited_shares, payout_shares) {
        Ok(v) => v,
        Err(code) => {
            return Err(code);
        },
    };
    proof {
        if close_amount > 0 {
            lemma_burn_keeps_invariant(
                close_amount as int,
                old(borrowed_bank).total_borrowed as int,
                old(borrowed_bank).total_borrowed_shares as int,
            );
        } else {
            // A zero close amount burns zero shares: the bucket stands.
            lemma_zero_burns_nothing(
                old(borrowed_bank).total_borrowed as int,
                old(borrowed_bank).total_borrowed_shares as int,
            );
        }
        if payout > 0 {
            lemma_burn_keeps_invariant(
                payout as int,
                old(collateral_bank).total_deposits as int,
                old(collateral_bank).total_deposit_shares as int,
            );
        } else {
            lemma_zero_burns_nothing(
                old(collateral_bank).total_deposits as int,
                old(collateral_bank).total_deposit_shares as int,
            );
        }
    }
    let borrow_asset: u64 = borrowed_bank.asset_id;
    let collateral_asset: u64 = collateral_bank.asset_id;
    borrowed_bank.total_borrowed = new_total_borrowed;
    borrowed_bank.total_borrowed_shares = new_borrowed_shares;
    collateral_bank.total_deposits = new_total_deposits;
    collateral_bank.total_deposit_shares = new_deposit_shares;
    user.set_holding(
        borrow_asset,
        AssetHolding {
            deposited_amount: hb.deposited_amount,
            deposited_shares: hb.deposited_shares,
            borrowed_amount: new_user_borrowed,
            borrowed_shares: new_user_borrowed_shares,
        },
    );
    user.set_holding(
        collateral_asset,
        AssetHolding {
            deposited_amount: new_user_deposited,
            deposited_shares: new_user_deposit_shares,
            borrowed_amount: hc.borrowed_amount,
            borrowed_shares: hc.borrowed_shares,
        },
    );
    Ok(LiquidationOutcome { close_amount, collateral_payout: payout })
}

} // verus!
