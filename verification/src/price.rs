//! The price ledger: current and previous attested price, their timestamps,
//! and the grace-period deadline under which the previous price may still
//! settle.

use vstd::prelude::*;

verus! {

/// Longest age, in seconds, at which the current price still counts as
/// fresh for settlement, and past which an update grants no grace window.
pub const MAX_ACCEPTABLE_UPDATE_INTERVAL: i64 = 60 * 60 * 72;

/// Seconds after an update during which the superseded price remains
/// acceptable for settlement, provided the update chain was not stale.
pub const GRACE_PERIOD: i64 = 60 * 10;

/// The price ledger. Prices are micro-units of the stable token per whole
/// base coin; timestamps are non-negative seconds.
#[derive(Clone, Copy, Debug, PartialEq, Eq, Structural)]
pub struct PriceInfo {
    /// Latest accepted price.
    pub current_usdc_per_sol_price: u64,
    /// When the latest price was recorded.
    pub current_usdc_per_sol_price_updated: i64,
    /// The price that the latest update superseded.
    pub old_usdc_per_sol_price: u64,
    /// Deadline until which the superseded price settles; zero means no
    /// grace window.
    pub old_usdc_per_sol_price_grace_period: i64,
}

impl PriceInfo {
    /// Timestamps never run backwards past the epoch.
    pub open spec fn wf(self) -> bool {
        0 <= self.current_usdc_per_sol_price_updated
            && 0 <= self.old_usdc_per_sol_price_grace_period
    }

    /// A claimed settlement price is acceptable at `now` when it equals the
    /// current price and the current price is still fresh, or when it equals
    /// the superseded price and its grace deadline has not passed.
    pub open spec fn spec_price_valid(self, claimed: u64, now: int) -> bool {
        (now <= self.current_usdc_per_sol_price_updated + MAX_ACCEPTABLE_UPDATE_INTERVAL
            && claimed == self.current_usdc_per_sol_price) || (
        now <= self.old_usdc_per_sol_price_grace_period
            && claimed == self.old_usdc_per_sol_price)
    }

    /// The ledger as it stands after recording `new_price` at time `now`:
    /// the superseded price keeps a grace window only when the update it
    /// came from was itself recent enough to be trusted.
    pub open spec fn spec_updated(self, new_price: u64, now: i64) -> PriceInfo
        recommends
            0 <= now <= i64::MAX - GRACE_PERIOD,
    {
        PriceInfo {
            current_usdc_per_sol_price: new_price,
            current_usdc_per_sol_price_updated: now,
            old_usdc_per_sol_price: self.current_usdc_per_sol_price,
            old_usdc_per_sol_price_grace_period: if now - self.current_usdc_per_sol_price_updated
                <= MAX_ACCEPTABLE_UPDATE_INTERVAL {
                (now + GRACE_PERIOD) as i64
            } else {
                0
            },
        }
    }

    /// The ledger before any update has been recorded.
    pub fn zeroed() -> (r: PriceInfo)
        ensures
            r == (PriceInfo {
                current_usdc_per_sol_price: 0,
                current_usdc_per_sol_price_updated: 0,
                old_usdc_per_sol_price: 0,
                old_usdc_per_sol_price_grace_period: 0,
            }),
            r.wf(),
    {
        PriceInfo {
            current_usdc_per_sol_price: 0,
            current_usdc_per_sol_price_updated: 0,
            old_usdc_per_sol_price: 0,
            old_usdc_per_sol_price_grace_period: 0,
        }
    }

    /// Records a newly accepted price at time `now`: the previous current
    /// price becomes the old price, and it keeps a grace window only when
    /// the previous update was itself recent enough to be trusted.
    pub fn apply_update(&mut self, new_price: u64, now: i64)
        requires
            old(self).wf(),
            0 <= now <= i64::MAX - GRACE_PERIOD,
        ensures
            *final(self) == old(self).spec_updated(new_price, now),
            final(self).wf(),
    {
        let previous_updated = self.current_usdc_per_sol_price_updated;
        self.old_usdc_per_sol_price = self.current_usdc_per_sol_price;
        self.old_usdc_per_sol_price_grace_period = if (now as i128) - (previous_updated as i128)
            <= MAX_ACCEPTABLE_UPDATE_INTERVAL as i128 {
            now + GRACE_PERIOD
        } else {
            0
        };
        self.current_usdc_per_sol_price = new_price;
        self.current_usdc_per_sol_price_updated = now;
    }

    /// Decides the settlement-price check of the ledger, exactly as
    /// `spec_price_valid` states it.
    pub fn is_valid_price(&self, claimed: u64, now: i64) -> (r: bool)
        ensures
            r == self.spec_price_valid(claimed, now as int),
    {
        ((now as i128) <= (self.current_usdc_per_sol_price_updated as i128)
            + (MAX_ACCEPTABLE_UPDATE_INTERVAL as i128)
            && claimed == self.current_usdc_per_sol_price) || (
        now <= self.old_usdc_per_sol_price_grace_period
            && claimed == self.old_usdc_per_sol_price)
    }
}

} // verus!
