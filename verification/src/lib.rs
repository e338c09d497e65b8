//! Accounting core of a collateralized lending pool.
//!
//! Pools (`Bank`) hold per-asset deposit and borrow buckets denominated in
//! proportional shares; positions (`User`) hold one principal's per-asset
//! amounts and shares. Interest compounds continuously through a fixed-point
//! exponential. Borrows are authorized against a loan-to-value limit and
//! under-collateralized positions can be partially liquidated with a bonus.
//!
//! Price data and the clock are plain values handed in by the caller; moving
//! asset balances between accounts is the caller's business. Every operation
//! either commits completely or returns an error and leaves all records
//! unchanged.

pub mod accrual;
pub mod admin;
pub mod borrow;
pub mod constants;
pub mod deposit;
pub mod error;
pub mod liquidate;
pub mod math;
pub mod repay;
pub mod shares;
pub mod state;
pub mod withdraw;
