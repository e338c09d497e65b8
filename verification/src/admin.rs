//! One-time provisioning: creating a pool for an asset and a position for a
//! principal. Both start empty; the pool's rate is the fixed configured
//! annual rate converted to per-second units.

use crate::constants::{BPS_DENOMINATOR, INTEREST_RATE_PER_SECOND};
use crate::state::{AssetHolding, Bank, User};
use vstd::prelude::*;

verus! {

/// Creates the pool for `asset_id` with the given risk parameters, empty
/// buckets, and the fixed per-second interest rate.
pub fn process_init_bank(
    asset_id: u64,
    liquidation_threshold: u64,
    liquidation_close_factor: u64,
    max_ltv: u64,
    liquidation_bonus: u64,
    now: i64,
) -> (bank: Bank)
    requires
        liquidation_threshold <= BPS_DENOMINATOR,
        liquidation_close_factor <= BPS_DENOMINATOR,
        max_ltv <= BPS_DENOMINATOR,
        liquidation_bonus <= BPS_DENOMINATOR,
    ensures
        bank.wf(),
        bank.asset_id == asset_id,
        bank.total_deposits == 0,
        bank.total_deposit_shares == 0,
        bank.total_borrowed == 0,
        bank.total_borrowed_shares == 0,
        bank.liquidation_threshold == liquidation_threshold,
        bank.liquidation_close_factor == liquidation_close_factor,
        bank.max_ltv == max_ltv,
        bank.liquidation_bonus == liquidation_bonus,
        bank.interest_rate == INTEREST_RATE_PER_SECOND,
        bank.last_updated == now,
{
    Bank {
        asset_id,
        total_deposits: 0,
        total_deposit_shares: 0,
        total_borrowed: 0,
        total_borrowed_shares: 0,
        liquidation_threshold,
        max_ltv,
        liquidation_close_factor,
        liquidation_bonus,
        interest_rate: INTEREST_RATE_PER_SECOND,
        last_updated: now,
    }
}

/// Creates the empty position of `owner`, with operations on
/// `reference_asset` going to its reference slot.
pub fn process_init_user(owner: u64, reference_asset: u64) -> (user: User)
    ensures
        user.owner == owner,
        user.reference_asset == reference_asset,
        user.primary == (AssetHolding {
            deposited_amount: 0,
            deposited_shares: 0,
            borrowed_amount: 0,
            borrowed_shares: 0,
        }),
        user.reference == user.primary,
        user.last_deposit_update == 0,
        user.last_borrow_update == 0,
{
    let empty = AssetHolding {
        deposited_amount: 0,
        deposited_shares: 0,
        borrowed_amount: 0,
        borrowed_shares: 0,
    };
    User {
        owner,
        reference_asset,
        primary: empty,
        reference: empty,
        last_deposit_update: 0,
        last_borrow_update: 0,
    }
}

} // verus!
