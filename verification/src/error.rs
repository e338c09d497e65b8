use vstd::prelude::*;

verus! {

/// Failure modes of the lending operations. Every operation is all-or-nothing:
/// when one of these comes back, no record was changed.
#[derive(Clone, Copy, Debug, PartialEq, Eq, Structural)]
pub enum ErrorCode {
    /// A withdrawal asked for more than the position holds.
    InsufficientFunds,
    /// A borrow request's value exceeds the loan-to-value limit.
    OverBorrowableAmount,
    /// A repayment exceeds the position's owed debt.
    OverRepay,
    /// Liquidation was attempted on a healthy position.
    NotUnderCollateralized,
    /// Price data is older than the configured maximum age.
    StalePrice,
    /// A product or sum does not fit the integer range.
    ArithmeticOverflow,
    /// A decrement would go below zero.
    ArithmeticUnderflow,
    /// A division's divisor is zero.
    DivisionByZero,
    /// The clock moved backward relative to a stored timestamp.
    InvalidTimestamp,
}

} // verus!
