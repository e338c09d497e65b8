//! Checked `u64` arithmetic with exact contracts. Products and quotients are
//! computed through `u128` intermediates, so the only failure is a result that
//! does not fit a `u64` (or a zero divisor); no intermediate is lost early.

use crate::constants::BPS_DENOMINATOR;
use crate::error::ErrorCode;
use vstd::prelude::*;

verus! {

/// `a + b`, or `ArithmeticOverflow` when the sum does not fit a `u64`.
pub fn add_u64(a: u64, b: u64) -> (r: Result<u64, ErrorCode>)
    ensures
        r is Ok <==> a + b <= u64::MAX,
        r is Ok ==> r->Ok_0 == a + b,
        r is Err ==> r->Err_0 == ErrorCode::ArithmeticOverflow,
{
    if a <= u64::MAX - b {
        Ok(a + b)
    } else {
        Err(ErrorCode::ArithmeticOverflow)
    }
}

/// `a - b`, or `ArithmeticUnderflow` when the difference would go below zero.
pub fn sub_u64(a: u64, b: u64) -> (r: Result<u64, ErrorCode>)
    ensures
        r is Ok <==> b <= a,
        r is Ok ==> r->Ok_0 == a - b,
        r is Err ==> r->Err_0 == ErrorCode::ArithmeticUnderflow,
{
    if b <= a {
        Ok(a - b)
    } else {
        Err(ErrorCode::ArithmeticUnderflow)
    }
}

/// `a * b`, or `ArithmeticOverflow` when the product does not fit a `u64`.
pub fn mul_u64(a: u64, b: u64) -> (r: Result<u64, ErrorCode>)
    ensures
        r is Ok <==> a * b <= u64::MAX,
        r is Ok ==> r->Ok_0 == a * b,
        r is Err ==> r->Err_0 == ErrorCode::ArithmeticOverflow,
{
    proof {
        assert(0 <= a * b <= u64::MAX * u64::MAX) by (nonlinear_arith)
            requires
                a <= u64::MAX,
                b <= u64::MAX,
        ;
    }
    let p: u128 = (a as u128) * (b as u128);
    if p <= u64::MAX as u128 {
        Ok(p as u64)
    } else {
        Err(ErrorCode::ArithmeticOverflow)
    }
}

/// `a * b / c` with a truncating division, or `ArithmeticOverflow` when the
/// quotient does not fit a `u64`. The product itself cannot be lost: it is
/// carried in full width.
pub fn mul_div_u64(a: u64, b: u64, c: u64) -> (r: Result<u64, ErrorCode>)
    requires
        c > 0,
    ensures
        r is Ok <==> a * b / (c as int) <= u64::MAX,
        r is Ok ==> r->Ok_0 == a * b / (c as int),
        r is Err ==> r->Err_0 == ErrorCode::ArithmeticOverflow,
{
    proof {
        assert(0 <= a * b <= u64::MAX * u64::MAX) by (nonlinear_arith)
            requires
                a <= u64::MAX,
                b <= u64::MAX,
        ;
        vstd::arithmetic::div_mod::lemma_div_is_ordered(0, a * b, c as int);
    }
    let p: u128 = (a as u128) * (b as u128);
    let q: u128 = p / (c as u128);
    if q <= u64::MAX as u128 {
        Ok(q as u64)
    } else {
        Err(ErrorCode::ArithmeticOverflow)
    }
}

/// `value * numerator / BPS_DENOMINATOR`: applies a basis-point fraction.
/// With the numerator at most the denominator the result never exceeds
/// `value`, so this cannot fail.
pub fn bps_mul(value: u64, numerator: u64) -> (r: u64)
    requires
        numerator <= BPS_DENOMINATOR,
    ensures
        r == value * numerator / (BPS_DENOMINATOR as int),
        r <= value,
{
    proof {
        assert(0 <= value * numerator / (BPS_DENOMINATOR as int) <= value) by (nonlinear_arith)
            requires
                numerator <= BPS_DENOMINATOR,
                value >= 0,
                BPS_DENOMINATOR > 0,
        ;
    }
    let p: u128 = (value as u128) * (numerator as u128);
    let q: u128 = p / (BPS_DENOMINATOR as u128);
    q as u64
}

} // verus!
