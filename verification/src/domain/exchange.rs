//! What an exchange adapter can do, and what it reports of its orders.

use vstd::prelude::*;

verus! {

/// Optional capabilities of an exchange adapter.
#[derive(Clone, Copy, Debug, PartialEq, Eq, Hash, Structural)]
#[non_exhaustive]
pub enum Capability {
    /// Orders may carry stops.
    StopOrders,
    /// Post-only orders that would take are rejected.
    PostOnly,
    /// Reduce-only orders are honoured.
    ReduceOnly,
    /// Immediate-or-cancel orders.
    Ioc,
    /// Fill-or-kill orders.
    Fok,
    /// A public market-data feed.
    PublicFeed,
    /// A private feed of fills and order updates.
    PrivateFeed,
    /// Resting orders can be listed and cancelled.
    OrderTracking,
}

/// Status of an order as the exchange reports it.
#[derive(Clone, Copy, Debug, PartialEq, Eq, Structural)]
pub enum OrderStatus {
    /// Submitted, not yet on the book.
    Pending,
    /// Resting on the book.
    Open,
    /// Partly filled, resting for the remainder.
    PartiallyFilled,
    /// Fully filled.
    Filled,
    /// Cancelled before it was fully filled.
    Cancelled,
    /// Rejected.
    Rejected,
}

impl OrderStatus {
    /// Whether the order may still rest on the book: it is neither filled nor
    /// cancelled nor rejected.
    pub open spec fn spec_is_live(self) -> bool {
        self != OrderStatus::Filled && self != OrderStatus::Cancelled && self
            != OrderStatus::Rejected
    }

    /// Whether the order may still rest on the book and consume margin.
    pub fn is_live(self) -> (r: bool)
        ensures
            r == self.spec_is_live(),
    {
        match self {
            OrderStatus::Pending | OrderStatus::Open | OrderStatus::PartiallyFilled => true,
            _ => false,
        }
    }
}

/// An order is live until it is filled, cancelled or rejected.
pub proof fn live_orders_may_still_rest(status: OrderStatus)
    ensures
        status.spec_is_live() <==> status == OrderStatus::Pending || status == OrderStatus::Open
            || status == OrderStatus::PartiallyFilled,
{
}

} // verus!
