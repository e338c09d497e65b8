//! Deposit: mints deposit shares for an amount entering a pool and credits
//! the position. The caller moves the asset itself into pool custody only
//! after the call succeeds.

use crate::error::ErrorCode;
use crate::math::add_u64;
use crate::shares::{shares_for_deposit, spec_shares_for_deposit};
use crate::state::{AssetHolding, Bank, User};
use vstd::prelude::*;

verus! {

/// Shares a deposit of `amount` mints against the pool's deposit bucket.
pub open spec fn spec_deposit_minted(bank: Bank, amount: int) -> int {
    spec_shares_for_deposit(amount, bank.total_deposits as int, bank.total_deposit_shares as int)
}

/// Exactly when a deposit succeeds: the minted share count and every
/// incremented total still fit a `u64`.
pub open spec fn spec_deposit_ok(bank: Bank, user: User, amount: int) -> bool {
    let m = spec_deposit_minted(bank, amount);
    let h = user.spec_holding(bank.asset_id);
    &&& m <= u64::MAX
    &&& bank.total_deposits + amount <= u64::MAX
    &&& bank.total_deposit_shares + m <= u64::MAX
    &&& h.deposited_amount + amount <= u64::MAX
    &&& h.deposited_shares + m <= u64::MAX
}

/// The pool after a successful deposit: both deposit totals grown, nothing
/// else touched.
pub open spec fn spec_deposit_bank(bank: Bank, amount: int) -> Bank {
    Bank {
        total_deposits: (bank.total_deposits + amount) as u64,
        total_deposit_shares: (bank.total_deposit_shares + spec_deposit_minted(
            bank,
            amount,
        )) as u64,
        ..bank
    }
}

/// The position after a successful deposit: its slot for the pool's asset
/// grown by the amount and the minted shares, and the deposit accrual
/// baseline moved to `now`.
pub open spec fn spec_deposit_user(bank: Bank, user: User, amount: int, now: int) -> User {
    let h = user.spec_holding(bank.asset_id);
    let grown = AssetHolding {
        deposited_amount: (h.deposited_amount + amount) as u64,
        deposited_shares: (h.deposited_shares + spec_deposit_minted(bank, amount)) as u64,
        borrowed_amount: h.borrowed_amount,
        borrowed_shares: h.borrowed_shares,
    };
    User { last_deposit_update: now as i64, ..user.spec_with_holding(bank.asset_id, grown) }
}

/// Deposits `amount` into the pool: mints shares by the share ledger's rule
/// (one-to-one for the first depositor), grows the pool's deposit totals and
/// the position's slot, and moves the position's deposit accrual baseline to
/// `now`. Fails only on overflow, and then changes nothing.
pub fn process_deposit(bank: &mut Bank, user: &mut User, amount: u64, now: i64) -> (r: Result<
    (),
    ErrorCode,
>)
    requires
        old(bank).wf(),
        amount > 0,
    ensures
        r is Ok <==> spec_deposit_ok(*old(bank), *old(user), amount as int),
        r is Ok ==> *final(bank) == spec_deposit_bank(*old(bank), amount as int),
        r is Ok ==> *final(user) == spec_deposit_user(
            *old(bank),
            *old(user),
            amount as int,
            now as int,
        ),
        r is Ok ==> final(bank).wf(),
        r is Err ==> r->Err_0 == ErrorCode::ArithmeticOverflow,
        r is Err ==> *final(bank) == *old(bank) && *final(user) == *old(user),
        r is Ok && old(bank).total_deposits == 0 ==> final(bank).total_deposit_shares == old(
            bank,
        ).total_deposit_shares + amount,
{
    let minted: u64 = match shares_for_deposit(
        amount,
        bank.total_deposits,
        bank.total_deposit_shares,
    ) {
        Ok(v) => v,
        Err(code) => {
            return Err(code);
        },
    };
    let new_total: u64 = match add_u64(bank.total_deposits, amount) {
        Ok(v) => v,
        Err(code) => {
            return Err(code);
        },
    };
    let new_shares: u64 = match add_u64(bank.total_deposit_shares, minted) {
        Ok(v) => v,
        Err(code) => {
            return Err(code);
        },
    };
    let h: AssetHolding = user.holding(bank.asset_id);
    let new_deposited: u64 = match add_u64(h.deposited_amount, amount) {
        Ok(v) => v,
        Err(code) => {
            return Err(code);
        },
    };
    let new_deposited_shares: u64 = match add_u64(h.deposited_shares, minted) {
        Ok(v) => v,
        Err(code) => {
            return Err(code);
        },
    };
    let asset: u64 = bank.asset_id;
    bank.total_deposits = new_total;
    bank.total_deposit_shares = new_shares;
    user.set_holding(
        asset,
        AssetHolding {
            deposited_amount: new_deposited,
            deposited_shares: new_deposited_shares,
            borrowed_amount: h.borrowed_amount,
            borrowed_shares: h.borrowed_shares,
        },
    );
    user.last_deposit_update = now;
    Ok(())
}

} // verus!
