use vstd::prelude::*;

verus! {

/// Denominator of every configured fraction (liquidation threshold, maximum
/// loan-to-value, close factor, bonus): values are basis points.
pub const BPS_DENOMINATOR: u64 = 10_000;

/// Oldest price data an operation accepts, in seconds.
pub const MAX_PRICE_AGE: u64 = 100;

/// Fixed-point denominator of the per-second interest rate: a rate of
/// `RATE_SCALE` compounds by a factor of `e` every second.
pub const RATE_SCALE: u64 = 1_000_000_000_000_000_000;

/// Fixed-point denominator of the exponential routine's argument and result.
pub const EXP_SCALE: u64 = 1_000_000_000;

/// Largest admitted exponent, in `EXP_SCALE` units: a growth factor of
/// `e^16`, about 8.9 million. Larger exponents are reported as overflow;
/// the cap keeps every intermediate of the exponential's evaluation within
/// the width it is carried in.
pub const EXP_INPUT_MAX: u64 = 16 * EXP_SCALE;

/// Number of Taylor terms the exponential routine sums. Over the admitted
/// exponent range the first omitted term is below one part in `EXP_SCALE`.
pub const EXP_TERMS: u64 = 64;

pub const SECONDS_PER_YEAR: u64 = 31_536_000;

/// Per-second rate every new pool is created with: a fixed 5% annual rate
/// converted to `RATE_SCALE` units.
pub const INTEREST_RATE_PER_SECOND: u64 = RATE_SCALE / 20 / SECONDS_PER_YEAR;

} // verus!
