//! Share ledger: converts between absolute asset amounts and proportional
//! shares of a pool bucket. The same mechanics serve the deposit bucket and
//! the borrow bucket of every pool. Division truncates toward zero, so
//! rounding always favors the pool, never the account holder.

use crate::error::ErrorCode;
use crate::math::mul_div_u64;
use vstd::arithmetic::div_mod::{
    lemma_div_by_multiple, lemma_div_is_ordered, lemma_fundamental_div_mod,
    lemma_mod_division_less_than_divisor, lemma_remainder_lower,
};
use vstd::arithmetic::mul::{lemma_mul_inequality, lemma_mul_is_commutative};
use vstd::prelude::*;

verus! {

/// Shares minted for depositing `amount` into a bucket holding
/// `total_amount` backed by `total_shares`: one-to-one for the first
/// depositor, proportional (truncating) afterwards.
pub open spec fn spec_shares_for_deposit(amount: int, total_amount: int, total_shares: int) -> int {
    if total_amount == 0 {
        amount
    } else {
        amount * total_shares / total_amount
    }
}

/// Amount redeemed by `shares` of a bucket holding `total_amount` backed by
/// `total_shares` (truncating).
pub open spec fn spec_amount_for_shares(shares: int, total_amount: int, total_shares: int) -> int {
    shares * total_amount / total_shares
}

/// Shares a bucket gives up when `amount` leaves it: the proportional count,
/// truncating. Withdrawals, repayments and liquidations all burn by this rule.
pub open spec fn spec_shares_to_burn(amount: int, total_amount: int, total_shares: int) -> int {
    amount * total_shares / total_amount
}

/// Converts a deposit amount to newly minted shares. The first depositor
/// (empty bucket) is bootstrapped one-to-one; afterwards the count is
/// `amount * total_shares / total_amount`, truncating toward zero.
pub fn shares_for_deposit(amount: u64, pool_total_amount: u64, pool_total_shares: u64) -> (r:
    Result<u64, ErrorCode>)
    ensures
        pool_total_amount == 0 ==> r == Ok::<u64, ErrorCode>(amount),
        r is Ok <==> spec_shares_for_deposit(
            amount as int,
            pool_total_amount as int,
            pool_total_shares as int,
        ) <= u64::MAX,
        r is Ok ==> r->Ok_0 == spec_shares_for_deposit(
            amount as int,
            pool_total_amount as int,
            pool_total_shares as int,
        ),
        r is Err ==> r->Err_0 == ErrorCode::ArithmeticOverflow,
{
    if pool_total_amount == 0 {
        Ok(amount)
    } else {
        mul_div_u64(amount, pool_total_shares, pool_total_amount)
    }
}

/// Converts a share count back to the amount it redeems,
/// `shares * total_amount / total_shares`, truncating toward zero. An empty
/// bucket (no shares outstanding) cannot be redeemed from.
pub fn amount_for_shares(shares: u64, pool_total_amount: u64, pool_total_shares: u64) -> (r: Result<
    u64,
    ErrorCode,
>)
    ensures
        r is Ok <==> pool_total_shares > 0 && spec_amount_for_shares(
            shares as int,
            pool_total_amount as int,
            pool_total_shares as int,
        ) <= u64::MAX,
        r is Ok ==> r->Ok_0 == spec_amount_for_shares(
            shares as int,
            pool_total_amount as int,
            pool_total_shares as int,
        ),
        pool_total_shares == 0 ==> r == Err::<u64, ErrorCode>(ErrorCode::DivisionByZero),
        pool_total_shares > 0 && r is Err ==> r->Err_0 == ErrorCode::ArithmeticOverflow,
{
    if pool_total_shares == 0 {
        Err(ErrorCode::DivisionByZero)
    } else {
        mul_div_u64(shares, pool_total_amount, pool_total_shares)
    }
}

/// Round trip: for every non-degenerate bucket, redeeming the shares minted
/// for a deposit never yields more than the amount deposited. Truncation can
/// only favor the pool.
pub proof fn lemma_share_round_trip(amount: int, total_amount: int, total_shares: int)
    requires
        amount >= 0,
        total_amount > 0,
        total_shares > 0,
    ensures
        spec_amount_for_shares(
            spec_shares_for_deposit(amount, total_amount, total_shares),
            total_amount,
            total_shares,
        ) <= amount,
{
    let m = amount * total_shares / total_amount;
    lemma_mul_nonneg(amount, total_shares);
    lemma_remainder_lower(amount * total_shares, total_amount);
    assert(m * total_amount <= amount * total_shares) by {
        lemma_mul_is_commutative(m, total_amount);
    }
    lemma_div_is_ordered(m * total_amount, amount * total_shares, total_shares);
    lemma_div_by_multiple(amount, total_shares);
}

/// Products of non-negative factors are non-negative.
proof fn lemma_mul_nonneg(a: int, b: int)
    requires
        a >= 0,
        b >= 0,
    ensures
        a * b >= 0,
{
    lemma_mul_inequality(0, a, b);
}

/// Burning by the proportional rule keeps a bucket's bookkeeping exact at the
/// edges: removing everything removes every share, removing strictly less
/// leaves at least one share behind. In particular the invariant
/// `amount == 0 <==> shares == 0` survives the burn.
pub proof fn lemma_burn_keeps_invariant(amount: int, total_amount: int, total_shares: int)
    requires
        0 < amount <= total_amount,
        total_shares > 0,
    ensures
        spec_shares_to_burn(amount, total_amount, total_shares) >= 0,
        spec_shares_to_burn(amount, total_amount, total_shares) <= total_shares,
        amount == total_amount ==> spec_shares_to_burn(amount, total_amount, total_shares)
            == total_shares,
        amount < total_amount ==> spec_shares_to_burn(amount, total_amount, total_shares)
            < total_shares,
{
    let b = spec_shares_to_burn(amount, total_amount, total_shares);
    lemma_mul_nonneg(amount, total_shares);
    assert(b >= 0) by {
        lemma_div_is_ordered(0, amount * total_shares, total_amount);
    }
    if amount == total_amount {
        assert(amount * total_shares == total_shares * total_amount) by {
            lemma_mul_is_commutative(amount, total_shares);
        }
        lemma_div_by_multiple(total_shares, total_amount);
    } else {
        assert(amount * total_shares < total_amount * total_shares) by (nonlinear_arith)
            requires
                0 < amount < total_amount,
                total_shares > 0,
        ;
        assert(b < total_shares) by {
            vstd::arithmetic::div_mod::lemma_multiply_divide_lt(
                amount * total_shares,
                total_amount,
                total_shares,
            );
        }
    }
}

/// Burning nothing removes no shares: the proportional count for a zero
/// amount is zero.
pub proof fn lemma_zero_burns_nothing(total_amount: int, total_shares: int)
    requires
        total_amount > 0,
    ensures
        spec_shares_to_burn(0, total_amount, total_shares) == 0,
{
    assert(0int * total_shares == 0) by (nonlinear_arith);
    assert(0int / total_amount == 0) by {
        vstd::arithmetic::div_mod::lemma_div_of0(total_amount);
    }
}

/// Minting for a deposit and then burning for a withdrawal of the same
/// amount, with no activity in between, burns exactly the shares minted.
pub proof fn lemma_mint_then_burn_restores(amount: int, total_amount: int, total_shares: int)
    requires
        amount > 0,
        total_amount >= 0,
        total_shares >= 0,
        (total_amount == 0) <==> (total_shares == 0),
    ensures
        spec_shares_for_deposit(amount, total_amount, total_shares) >= 0,
        spec_shares_to_burn(
            amount,
            total_amount + amount,
            total_shares + spec_shares_for_deposit(amount, total_amount, total_shares),
        ) == spec_shares_for_deposit(amount, total_amount, total_shares),
{
    let m = spec_shares_for_deposit(amount, total_amount, total_shares);
    let t2 = total_amount + amount;
    let s2 = total_shares + m;
    if total_amount == 0 {
        // Bootstrap: the bucket becomes (amount, amount) and a full burn
        // removes amount * amount / amount == amount shares.
        lemma_div_by_multiple(amount, amount);
    } else {
        // m == floor(amount * total_shares / total_amount), so
        // m * total_amount <= amount * total_shares < (m + 1) * total_amount.
        lemma_mul_nonneg(amount, total_shares);
        lemma_fundamental_div_mod(amount * total_shares, total_amount);
        lemma_mod_division_less_than_divisor(amount * total_shares, total_amount);
        assert(m * total_amount <= amount * total_shares < (m + 1) * total_amount)
            by (nonlinear_arith)
            requires
                amount * total_shares == total_amount * m + (amount * total_shares) % total_amount,
                0 <= (amount * total_shares) % total_amount < total_amount,
                total_amount > 0,
        ;
        assert(m >= 0) by {
            lemma_div_is_ordered(0, amount * total_shares, total_amount);
        }
        // Those bounds move over to the grown bucket:
        // m * t2 <= amount * s2 < (m + 1) * t2.
        assert(m * t2 <= amount * s2) by (nonlinear_arith)
            requires
                m * total_amount <= amount * total_shares,
                s2 == total_shares + m,
                t2 == total_amount + amount,
                amount > 0,
                m >= 0,
        ;
        assert(amount * s2 < (m + 1) * t2) by (nonlinear_arith)
            requires
                amount * total_shares < (m + 1) * total_amount,
                s2 == total_shares + m,
                t2 == total_amount + amount,
                amount > 0,
                m >= 0,
        ;
        assert(amount * s2 / t2 >= m) by {
            lemma_div_is_ordered(m * t2, amount * s2, t2);
            lemma_mul_is_commutative(m, t2);
            lemma_div_by_multiple(m, t2);
        }
        assert(amount * s2 / t2 < m + 1) by {
            vstd::arithmetic::div_mod::lemma_multiply_divide_lt(amount * s2, t2, m + 1);
        }
    }
}

} // verus!
