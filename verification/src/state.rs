//! Records the operations work on: per-asset pools (`Bank`), per-principal
//! positions (`User`), and the price readings handed in by the caller.

use crate::constants::{BPS_DENOMINATOR, MAX_PRICE_AGE};
use vstd::prelude::*;

verus! {

/// One pool: the per-asset aggregate of deposited and borrowed principal
/// with the shares outstanding against each, plus the pool's risk
/// parameters. Fractions are basis points over `BPS_DENOMINATOR`.
#[derive(Clone, Copy, Debug, PartialEq, Eq, Structural)]
pub struct Bank {
    /// Identifier of the underlying asset; one pool exists per asset.
    pub asset_id: u64,
    pub total_deposits: u64,
    pub total_deposit_shares: u64,
    pub total_borrowed: u64,
    pub total_borrowed_shares: u64,
    /// A position stays healthy while collateral value times this fraction
    /// covers its borrowed value.
    pub liquidation_threshold: u64,
    /// Maximum borrowable value as a fraction of collateral value.
    pub max_ltv: u64,
    /// Largest portion of an unhealthy debt one liquidation call may close.
    pub liquidation_close_factor: u64,
    /// Extra collateral awarded to a liquidator on top of the value repaid.
    pub liquidation_bonus: u64,
    /// Per-second continuously compounded rate, in `RATE_SCALE` units.
    pub interest_rate: u64,
    /// When pool-wide borrow interest was last folded into `total_borrowed`.
    pub last_updated: i64,
}

impl Bank {
    /// Well-formed pool: each bucket's amount and shares are zero together,
    /// and every configured fraction is at most one.
    pub open spec fn wf(self) -> bool {
        &&& (self.total_deposits == 0 <==> self.total_deposit_shares == 0)
        &&& (self.total_borrowed == 0 <==> self.total_borrowed_shares == 0)
        &&& self.liquidation_threshold <= BPS_DENOMINATOR
        &&& self.max_ltv <= BPS_DENOMINATOR
        &&& self.liquidation_close_factor <= BPS_DENOMINATOR
        &&& self.liquidation_bonus <= BPS_DENOMINATOR
    }
}

/// One position's stake in a single asset: its deposit and borrow bucket
/// amounts with the share counts backing them.
#[derive(Clone, Copy, Debug, PartialEq, Eq, Structural)]
pub struct AssetHolding {
    pub deposited_amount: u64,
    pub deposited_shares: u64,
    pub borrowed_amount: u64,
    pub borrowed_shares: u64,
}

/// One principal's position. It spans two asset slots: an operation on the
/// asset named by `reference_asset` touches the reference slot, one on any
/// other asset the primary slot.
#[derive(Clone, Copy, Debug, PartialEq, Eq, Structural)]
pub struct User {
    /// Identifier of the owning principal.
    pub owner: u64,
    /// The asset whose operations go to the reference slot.
    pub reference_asset: u64,
    pub primary: AssetHolding,
    pub reference: AssetHolding,
    /// Accrual baseline for the position's collateral valuation.
    pub last_deposit_update: i64,
    /// Accrual baseline for the position's debt valuation.
    pub last_borrow_update: i64,
}

impl User {
    /// The slot an operation on `asset` reads and writes.
    pub open spec fn spec_holding(self, asset: u64) -> AssetHolding {
        if asset == self.reference_asset {
            self.reference
        } else {
            self.primary
        }
    }

    /// This position with the slot for `asset` replaced by `h`.
    pub open spec fn spec_with_holding(self, asset: u64, h: AssetHolding) -> User {
        if asset == self.reference_asset {
            User {
                owner: self.owner,
                reference_asset: self.reference_asset,
                primary: self.primary,
                reference: h,
                last_deposit_update: self.last_deposit_update,
                last_borrow_update: self.last_borrow_update,
            }
        } else {
            User {
                owner: self.owner,
                reference_asset: self.reference_asset,
                primary: h,
                reference: self.reference,
                last_deposit_update: self.last_deposit_update,
                last_borrow_update: self.last_borrow_update,
            }
        }
    }

    /// Reads the slot an operation on `asset` works with.
    pub fn holding(&self, asset: u64) -> (h: AssetHolding)
        ensures
            h == self.spec_holding(asset),
    {
        if asset == self.reference_asset {
            self.reference
        } else {
            self.primary
        }
    }

    /// Replaces the slot an operation on `asset` works with.
    pub fn set_holding(&mut self, asset: u64, h: AssetHolding)
        ensures
            *final(self) == old(self).spec_with_holding(asset, h),
    {
        if asset == self.reference_asset {
            self.reference = h;
        } else {
            self.primary = h;
        }
    }
}

/// One oracle reading: the asset's price and the reading's age in seconds at
/// the moment the operation runs.
#[derive(Clone, Copy, Debug, PartialEq, Eq, Structural)]
pub struct PriceData {
    pub price: u64,
    pub age: u64,
}

impl PriceData {
    /// A reading an operation may rely on: not older than `MAX_PRICE_AGE`.
    pub open spec fn spec_fresh(self) -> bool {
        self.age <= MAX_PRICE_AGE
    }

    /// Checks the reading against the configured maximum age.
    pub fn is_fresh(&self) -> (r: bool)
        ensures
            r == self.spec_fresh(),
    {
        self.age <= MAX_PRICE_AGE
    }
}

} // verus!
