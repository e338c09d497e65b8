//! Interest accrual engine: advances a principal forward in time by
//! continuous compounding, `principal * e^(rate * elapsed)`, rounded down.
//!
//! The exponential is a deterministic fixed-point routine: a truncating
//! Taylor sum of `EXP_TERMS` terms in `EXP_SCALE` units. Exponents beyond
//! `EXP_INPUT_MAX` (a growth factor of `e^16`) are reported as overflow, as
//! is any principal the admitted factor would push past `u64::MAX`.

use crate::constants::{EXP_INPUT_MAX, EXP_SCALE, EXP_TERMS, RATE_SCALE};
use crate::error::ErrorCode;
use vstd::arithmetic::div_mod::{
    lemma_div_by_multiple, lemma_div_is_ordered, lemma_fundamental_div_mod,
    lemma_mod_division_less_than_divisor,
};
use vstd::arithmetic::mul::{lemma_mul_inequality, lemma_mul_upper_bound};
use vstd::prelude::*;

verus! {

/// Taylor term `k` of the fixed-point exponential of `x`: term zero is
/// `EXP_SCALE` (one), and each term multiplies the one before it by
/// `x / (EXP_SCALE * k)`, truncating.
pub open spec fn spec_exp_term(x: int, k: nat) -> int
    decreases k,
{
    if k == 0 {
        EXP_SCALE as int
    } else {
        spec_exp_term(x, (k - 1) as nat) * x / (EXP_SCALE as int * k as int)
    }
}

/// Sum of the Taylor terms up to and including term `k`.
pub open spec fn spec_exp_partial(x: int, k: nat) -> int
    decreases k,
{
    if k == 0 {
        EXP_SCALE as int
    } else {
        spec_exp_partial(x, (k - 1) as nat) + spec_exp_term(x, k)
    }
}

/// The fixed-point exponential: `e^(x / EXP_SCALE)` in `EXP_SCALE` units,
/// as the truncating Taylor sum of `EXP_TERMS` terms.
pub open spec fn spec_exp(x: int) -> int {
    spec_exp_partial(x, EXP_TERMS as nat)
}

/// The exponent fed to the exponential: `rate * elapsed`, brought from
/// `RATE_SCALE` down to `EXP_SCALE` units by a truncating division.
pub open spec fn spec_exp_input(rate: int, elapsed: int) -> int {
    rate * elapsed / (RATE_SCALE as int / EXP_SCALE as int)
}

/// The accrued principal: `principal * e^(rate * elapsed)` rounded down.
pub open spec fn spec_accrue(principal: int, rate: int, elapsed: int) -> int {
    principal * spec_exp(spec_exp_input(rate, elapsed)) / (EXP_SCALE as int)
}

/// Exactly when accrual succeeds: a zero principal always does; a positive
/// one requires the exponent within the admitted range and the accrued value
/// within `u64`.
pub open spec fn spec_accrue_ok(principal: int, rate: int, elapsed: int) -> bool {
    principal == 0 || (spec_exp_input(rate, elapsed) <= EXP_INPUT_MAX
        && principal * spec_exp(spec_exp_input(rate, elapsed)) <= u64::MAX * (EXP_SCALE as int))
}

/// Every Taylor term of a non-negative exponent is non-negative.
proof fn lemma_exp_term_nonneg(x: int, k: nat)
    requires
        x >= 0,
    ensures
        spec_exp_term(x, k) >= 0,
    decreases k,
{
    if k > 0 {
        lemma_exp_term_nonneg(x, (k - 1) as nat);
        let t = spec_exp_term(x, (k - 1) as nat);
        lemma_mul_inequality(0, t, x);
        lemma_div_is_ordered(0, t * x, EXP_SCALE as int * k as int);
    }
}

/// Every partial sum of a non-negative exponent is at least `EXP_SCALE`.
proof fn lemma_exp_partial_lower_bound(x: int, k: nat)
    requires
        x >= 0,
    ensures
        spec_exp_partial(x, k) >= EXP_SCALE,
    decreases k,
{
    if k > 0 {
        lemma_exp_partial_lower_bound(x, (k - 1) as nat);
        lemma_exp_term_nonneg(x, k);
    }
}

/// The partial sums grow with the number of terms taken.
proof fn lemma_exp_partial_grows(x: int, j: nat, k: nat)
    requires
        x >= 0,
        j <= k,
    ensures
        spec_exp_partial(x, j) <= spec_exp_partial(x, k),
    decreases k,
{
    if j < k {
        lemma_exp_partial_grows(x, j, (k - 1) as nat);
        lemma_exp_term_nonneg(x, k);
    }
}

/// With a zero exponent every term after the first vanishes: the
/// exponential of zero is exactly one.
pub proof fn lemma_exp_at_zero(k: nat)
    ensures
        spec_exp_partial(0, k) == EXP_SCALE,
        k > 0 ==> spec_exp_term(0, k) == 0,
    decreases k,
{
    if k > 0 {
        lemma_exp_at_zero((k - 1) as nat);
        let t = spec_exp_term(0, (k - 1) as nat);
        assert(t * 0 == 0);
        assert(spec_exp_term(0, k) == 0int / (EXP_SCALE as int * k as int));
    }
}

/// Term by term, a larger exponent never yields a smaller term.
proof fn lemma_exp_term_monotone(x1: int, x2: int, k: nat)
    requires
        0 <= x1 <= x2,
    ensures
        spec_exp_term(x1, k) <= spec_exp_term(x2, k),
    decreases k,
{
    if k > 0 {
        lemma_exp_term_monotone(x1, x2, (k - 1) as nat);
        let t1 = spec_exp_term(x1, (k - 1) as nat);
        let t2 = spec_exp_term(x2, (k - 1) as nat);
        lemma_exp_term_nonneg(x1, (k - 1) as nat);
        lemma_mul_upper_bound(t1, t2, x1, x2);
        lemma_div_is_ordered(t1 * x1, t2 * x2, EXP_SCALE as int * k as int);
    }
}

/// The fixed-point exponential is monotone in its exponent.
pub proof fn lemma_exp_monotone(x1: int, x2: int)
    requires
        0 <= x1 <= x2,
    ensures
        spec_exp(x1) <= spec_exp(x2),
{
    lemma_exp_partial_monotone(x1, x2, EXP_TERMS as nat);
}

proof fn lemma_exp_partial_monotone(x1: int, x2: int, k: nat)
    requires
        0 <= x1 <= x2,
    ensures
        spec_exp_partial(x1, k) <= spec_exp_partial(x2, k),
    decreases k,
{
    if k > 0 {
        lemma_exp_partial_monotone(x1, x2, (k - 1) as nat);
        lemma_exp_term_monotone(x1, x2, k);
    }
}

/// Accrual monotonicity: with the principal and rate fixed, more elapsed
/// time never accrues to less. Truncation happens at the same places on both
/// sides, so the order of the exact values survives it.
pub proof fn lemma_accrue_monotonic(principal: int, rate: int, t1: int, t2: int)
    requires
        principal >= 0,
        rate >= 0,
        0 <= t1 <= t2,
    ensures
        spec_accrue(principal, rate, t1) <= spec_accrue(principal, rate, t2),
{
    let d = RATE_SCALE as int / EXP_SCALE as int;
    lemma_mul_inequality(t1, t2, rate);
    assert(rate * t1 <= rate * t2) by {
        vstd::arithmetic::mul::lemma_mul_is_commutative(rate, t1);
        vstd::arithmetic::mul::lemma_mul_is_commutative(rate, t2);
    }
    lemma_div_is_ordered(rate * t1, rate * t2, d);
    let x1 = spec_exp_input(rate, t1);
    let x2 = spec_exp_input(rate, t2);
    assert(x1 >= 0) by {
        lemma_mul_inequality(0, t1, rate);
        vstd::arithmetic::mul::lemma_mul_is_commutative(rate, t1);
        lemma_div_is_ordered(0, rate * t1, d);
    }
    lemma_exp_monotone(x1, x2);
    lemma_mul_left_bound(principal, spec_exp(x1), spec_exp(x2));
    lemma_div_is_ordered(
        principal * spec_exp(x1),
        principal * spec_exp(x2),
        EXP_SCALE as int,
    );
}

/// With no time elapsed, accrual is the identity: the exponent is zero and
/// the exponential is one. Accruing again at the same instant therefore
/// changes nothing.
pub proof fn lemma_accrue_zero_elapsed(principal: int, rate: int)
    requires
        0 <= principal <= u64::MAX,
        rate >= 0,
    ensures
        spec_accrue_ok(principal, rate, 0),
        spec_accrue(principal, rate, 0) == principal,
{
    lemma_accrue_bounds(principal, rate, 0);
    lemma_mul_inequality(principal, u64::MAX as int, EXP_SCALE as int);
    lemma_div_by_multiple(principal, EXP_SCALE as int);
}

/// The fixed-point exponential of an admitted exponent, or
/// `ArithmeticOverflow` as soon as the running sum shows the result past
/// `u64::MAX` in `EXP_SCALE` units.
fn exp_scaled(x: u64) -> (r: Result<u128, ErrorCode>)
    requires
        x <= EXP_INPUT_MAX,
    ensures
        r is Ok <==> spec_exp(x as int) <= u64::MAX * (EXP_SCALE as int),
        r is Ok ==> r->Ok_0 == spec_exp(x as int),
        r is Err ==> r->Err_0 == ErrorCode::ArithmeticOverflow,
{
    let sum_cap: u128 = (u64::MAX as u128) * (EXP_SCALE as u128);
    let mut term: u128 = EXP_SCALE as u128;
    let mut sum: u128 = EXP_SCALE as u128;
    let mut k: u64 = 1;
    while k <= EXP_TERMS
        invariant
            1 <= k <= EXP_TERMS + 1,
            x <= EXP_INPUT_MAX,
            sum_cap == u64::MAX * (EXP_SCALE as int),
            term == spec_exp_term(x as int, (k - 1) as nat),
            sum == spec_exp_partial(x as int, (k - 1) as nat),
            term <= sum,
            sum <= sum_cap,
        decreases EXP_TERMS + 1 - k,
    {
        proof {
            lemma_exp_term_nonneg(x as int, (k - 1) as nat);
            assert(sum_cap * (EXP_INPUT_MAX as int) <= u128::MAX);
            lemma_mul_upper_bound(term as int, sum_cap as int, x as int, EXP_INPUT_MAX as int);
        }
        let num: u128 = term * (x as u128);
        let den: u128 = (EXP_SCALE as u128) * (k as u128);
        term = num / den;
        proof {
            assert(term == spec_exp_term(x as int, k as nat));
            lemma_exp_term_nonneg(x as int, k as nat);
        }
        if term > sum_cap {
            // The sum takes this term in, so the final result is already
            // past the cap.
            proof {
                lemma_exp_partial_grows(x as int, k as nat, EXP_TERMS as nat);
            }
            return Err(ErrorCode::ArithmeticOverflow);
        }
        sum = sum + term;
        proof {
            assert(sum == spec_exp_partial(x as int, k as nat));
        }
        if sum > sum_cap {
            proof {
                lemma_exp_partial_grows(x as int, k as nat, EXP_TERMS as nat);
            }
            return Err(ErrorCode::ArithmeticOverflow);
        }
        k = k + 1;
    }
    Ok(sum)
}

/// Elapsed seconds from a stored timestamp to the current time. The clock
/// moving backward is a fatal input error, never silently clamped.
pub fn elapsed_seconds(now: i64, last_updated: i64) -> (r: Result<u64, ErrorCode>)
    ensures
        now >= last_updated ==> r == Ok::<u64, ErrorCode>((now - last_updated) as u64),
        now < last_updated ==> r == Err::<u64, ErrorCode>(ErrorCode::InvalidTimestamp),
{
    if now < last_updated {
        Err(ErrorCode::InvalidTimestamp)
    } else {
        let d: i128 = (now as i128) - (last_updated as i128);
        Ok(d as u64)
    }
}

/// Advances `principal` by `elapsed` seconds of continuous compounding at
/// `rate` (in `RATE_SCALE` units per second), rounding down. Zero elapsed
/// time is a no-op, so accruing twice at one instant accrues once.
pub fn accrue(principal: u64, rate: u64, elapsed: u64) -> (r: Result<u64, ErrorCode>)
    ensures
        spec_accrue_ok(principal as int, rate as int, elapsed as int) <==> r is Ok,
        r is Ok ==> r->Ok_0 == spec_accrue(principal as int, rate as int, elapsed as int),
        r is Err ==> r == Err::<u64, ErrorCode>(ErrorCode::ArithmeticOverflow),
        r is Ok ==> r->Ok_0 >= principal,
        elapsed == 0 ==> r == Ok::<u64, ErrorCode>(principal),
{
    proof {
        lemma_accrue_bounds(principal as int, rate as int, elapsed as int);
    }
    if principal == 0 {
        return Ok(0);
    }
    proof {
        lemma_mul_upper_bound(rate as int, u64::MAX as int, elapsed as int, u64::MAX as int);
        assert((u64::MAX as int) * (u64::MAX as int) <= u128::MAX);
    }
    let x_raw: u128 = (rate as u128) * (elapsed as u128);
    let x_wide: u128 = x_raw / ((RATE_SCALE / EXP_SCALE) as u128);
    if x_wide > EXP_INPUT_MAX as u128 {
        return Err(ErrorCode::ArithmeticOverflow);
    }
    let x: u64 = x_wide as u64;
    let e: u128 = match exp_scaled(x) {
        Ok(v) => v,
        Err(code) => {
            proof {
                lemma_mul_inequality(1, principal as int, spec_exp(x as int));
            }
            return Err(code);
        },
    };
    if e > u128::MAX / (principal as u128) {
        proof {
            lemma_fundamental_div_mod(u128::MAX as int, principal as int);
            lemma_mod_division_less_than_divisor(u128::MAX as int, principal as int);
            assert((principal as int) * (e as int) > u128::MAX) by (nonlinear_arith)
                requires
                    (e as int) > u128::MAX as int / (principal as int),
                    u128::MAX as int == (principal as int) * (u128::MAX as int / (principal as int))
                        + (u128::MAX as int) % (principal as int),
                    0 <= (u128::MAX as int) % (principal as int) < principal as int,
                    principal > 0,
            ;
            assert(u64::MAX * (EXP_SCALE as int) < u128::MAX);
        }
        return Err(ErrorCode::ArithmeticOverflow);
    }
    proof {
        lemma_fundamental_div_mod(u128::MAX as int, principal as int);
        lemma_mod_division_less_than_divisor(u128::MAX as int, principal as int);
        assert((principal as int) * (e as int) <= u128::MAX) by (nonlinear_arith)
            requires
                (e as int) <= u128::MAX as int / (principal as int),
                u128::MAX as int == (principal as int) * (u128::MAX as int / (principal as int)) + (
                u128::MAX as int) % (principal as int),
                0 <= (u128::MAX as int) % (principal as int) < principal as int,
                principal > 0,
        ;
    }
    let prod: u128 = (principal as u128) * e;
    if prod > (u64::MAX as u128) * (EXP_SCALE as u128) {
        return Err(ErrorCode::ArithmeticOverflow);
    }
    let out: u128 = prod / (EXP_SCALE as u128);
    proof {
        lemma_div_is_ordered(prod as int, u64::MAX * (EXP_SCALE as int), EXP_SCALE as int);
        lemma_div_by_multiple(u64::MAX as int, EXP_SCALE as int);
        lemma_exp_partial_lower_bound(x as int, EXP_TERMS as nat);
        lemma_mul_left_bound(principal as int, EXP_SCALE as int, e as int);
        lemma_div_is_ordered((principal as int) * (EXP_SCALE as int), prod as int, EXP_SCALE as int);
        lemma_div_by_multiple(principal as int, EXP_SCALE as int);
    }
    Ok(out as u64)
}

/// `a * b <= a * c` for `a >= 0`, `b <= c`.
proof fn lemma_mul_left_bound(a: int, b: int, c: int)
    requires
        a >= 0,
        b <= c,
    ensures
        a * b <= a * c,
{
    lemma_mul_inequality(b, c, a);
    vstd::arithmetic::mul::lemma_mul_is_commutative(a, b);
    vstd::arithmetic::mul::lemma_mul_is_commutative(a, c);
}

/// Facts every run of `accrue` leans on: the exponent of a zero elapsed time
/// is zero, and the exponential of zero is one.
proof fn lemma_accrue_bounds(principal: int, rate: int, elapsed: int)
    requires
        principal >= 0,
        rate >= 0,
        elapsed >= 0,
    ensures
        elapsed == 0 ==> spec_exp_input(rate, elapsed) == 0,
        spec_exp(0) == EXP_SCALE,
        spec_exp_input(rate, elapsed) >= 0,
{
    let d = RATE_SCALE as int / EXP_SCALE as int;
    if elapsed == 0 {
        assert(rate * 0 == 0);
        assert(spec_exp_input(rate, elapsed) == 0int / d);
    }
    lemma_exp_at_zero(EXP_TERMS as nat);
    lemma_mul_inequality(0, elapsed, rate);
    vstd::arithmetic::mul::lemma_mul_is_commutative(rate, elapsed);
    lemma_div_is_ordered(0, rate * elapsed, d);
}

/// Accrues interest on a deposited collateral amount from its last update to
/// `now`. A clock behind the stored timestamp is rejected; otherwise this is
/// `accrue` over the elapsed seconds.
pub fn calculate_collateral_interest(deposited: u64, interest_rate: u64, last_updated: i64, now: i64) -> (r:
    Result<u64, ErrorCode>)
    ensures
        r is Ok <==> now >= last_updated && spec_accrue_ok(
            deposited as int,
            interest_rate as int,
            now - last_updated,
        ),
        r is Ok ==> r->Ok_0 == spec_accrue(deposited as int, interest_rate as int, now - last_updated),
        now < last_updated ==> r == Err::<u64, ErrorCode>(ErrorCode::InvalidTimestamp),
        now >= last_updated && !spec_accrue_ok(
            deposited as int,
            interest_rate as int,
            now - last_updated,
        ) ==> r == Err::<u64, ErrorCode>(ErrorCode::ArithmeticOverflow),
{
    let elapsed: u64 = match elapsed_seconds(now, last_updated) {
        Ok(v) => v,
        Err(code) => {
            return Err(code);
        },
    };
    accrue(deposited, interest_rate, elapsed)
}

} // verus!
