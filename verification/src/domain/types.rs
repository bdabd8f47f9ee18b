//! Quantities, orders, fills and positions.
//!
//! Every quantity that has units gets a wrapper type of its own.

use vstd::prelude::*;

use crate::domain::market::{Side, Symbol};
use crate::num::Binary64;

verus! {

/// Price in the quote currency.
#[derive(Clone, Copy, Debug, PartialEq, Eq, Structural)]
pub struct Price(pub Binary64);

impl Default for Price {
    fn default() -> (r: Self)
        ensures
            r == Price(Binary64::spec_zero()),
    {
        Price(Binary64::zero())
    }
}

impl Price {
    /// Wrap a value.
    pub fn new(v: Binary64) -> (r: Self)
        ensures
            r == Price(v),
    {
        Price(v)
    }

    /// The wrapped value.
    pub fn value(self) -> (r: Binary64)
        ensures
            r == self.0,
    {
        self.0
    }
}

/// Volume or quantity, in base-asset units or in contracts.
#[derive(Clone, Copy, Debug, PartialEq, Eq, Structural)]
pub struct Volume(pub Binary64);

impl Default for Volume {
    fn default() -> (r: Self)
        ensures
            r == Volume(Binary64::spec_zero()),
    {
        Volume(Binary64::zero())
    }
}

impl Volume {
    /// Wrap a value.
    pub fn new(v: Binary64) -> (r: Self)
        ensures
            r == Volume(v),
    {
        Volume(v)
    }

    /// The wrapped value.
    pub fn value(self) -> (r: Binary64)
        ensures
            r == self.0,
    {
        self.0
    }
}

/// A best-bid/best-ask snapshot or a single trade tick.
#[derive(Clone, Debug)]
pub struct Tick {
    /// Instrument the tick is for.
    pub symbol: Symbol,
    /// Milliseconds since the UNIX epoch.
    pub timestamp: i64,
    /// Best bid.
    pub bid: Price,
    /// Best ask.
    pub ask: Price,
    /// Size at the bid.
    pub bid_size: Volume,
    /// Size at the ask.
    pub ask_size: Volume,
    /// Price of the last trade, if known.
    pub last_price: Option<Price>,
    /// Size of the last trade, if known.
    pub last_size: Option<Volume>,
}

/// An open/high/low/close/volume candle.
#[derive(Clone, Copy, Debug, PartialEq, Eq, Structural)]
pub struct Candle {
    /// Open time of the candle, in milliseconds since the UNIX epoch.
    pub time: i64,
    /// First price.
    pub open: Binary64,
    /// Highest price.
    pub high: Binary64,
    /// Lowest price.
    pub low: Binary64,
    /// Last price.
    pub close: Binary64,
    /// Traded volume.
    pub volume: Binary64,
}

/// Order kind: market or limit, and the time-in-force variants.
#[derive(Clone, Copy, Debug, PartialEq, Eq, Structural)]
pub enum OrderKind {
    /// Take whatever the book offers.
    Market,
    /// Rest at the limit price, or take what is at it or better.
    Limit,
    /// A limit that is rejected where it would take.
    PostOnly,
    /// Immediate-or-cancel: fill what is there now, cancel the rest.
    Ioc,
    /// Fill-or-kill: fill completely now or not at all.
    Fok,
}

/// What kind of stop an order carries.
#[derive(Clone, Copy, Debug, PartialEq, Eq, Structural)]
pub enum StopKind {
    /// Trigger a market order at the trigger price.
    StopMarket,
    /// Trigger a limit order at the trigger price, posted at `limit_price`.
    StopLimit {
        /// Price that the triggered order is posted at.
        limit_price: Price,
    },
    /// Take-profit market order at the trigger price.
    TakeProfit,
    /// Trailing stop.
    TrailingStop {
        /// Trail distance in quote currency.
        trail_distance: Price,
    },
}

/// Stop-order attachment on an order.
#[derive(Clone, Copy, Debug, PartialEq, Eq, Structural)]
pub struct StopAttachment {
    /// Price at which the exchange triggers the stop.
    pub trigger_price: Price,
    /// What kind of stop fires on trigger.
    pub kind: StopKind,
}

impl StopAttachment {
    /// Stop-market at `trigger_price`.
    pub fn stop_market(trigger_price: Price) -> (r: Self)
        ensures
            r == (StopAttachment { trigger_price, kind: StopKind::StopMarket }),
    {
        StopAttachment { trigger_price, kind: StopKind::StopMarket }
    }

    /// Stop-limit triggered at `trigger_price`, posted at `limit_price`.
    pub fn stop_limit(trigger_price: Price, limit_price: Price) -> (r: Self)
        ensures
            r == (StopAttachment { trigger_price, kind: StopKind::StopLimit { limit_price } }),
    {
        StopAttachment { trigger_price, kind: StopKind::StopLimit { limit_price } }
    }

    /// Take-profit market order at `trigger_price`.
    pub fn take_profit(trigger_price: Price) -> (r: Self)
        ensures
            r == (StopAttachment { trigger_price, kind: StopKind::TakeProfit }),
    {
        StopAttachment { trigger_price, kind: StopKind::TakeProfit }
    }

    /// Trailing stop with the given trail distance.
    pub fn trailing(trigger_price: Price, trail_distance: Price) -> (r: Self)
        ensures
            r == (StopAttachment { trigger_price, kind: StopKind::TrailingStop { trail_distance } }),
    {
        StopAttachment { trigger_price, kind: StopKind::TrailingStop { trail_distance } }
    }
}

/// A request to enter, exit, or reduce a position.
#[derive(Clone, Debug)]
pub struct Order {
    /// Instrument to trade.
    pub symbol: Symbol,
    /// Side of the order.
    pub side: Side,
    /// Kind of the order.
    pub kind: OrderKind,
    /// Quantity.
    pub size: Volume,
    /// Limit price for non-market orders.
    pub limit_price: Option<Price>,
    /// Set for exit orders that must never increase the position.
    pub reduce_only: bool,
    /// Client-supplied id, echoed back on fills by exchanges that support it.
    pub client_id: Option<String>,
    /// Stop-order attachment.
    pub stop: Option<StopAttachment>,
}

impl Order {
    /// A market order with nothing attached.
    pub fn market<S: Into<Symbol>>(symbol: S, side: Side, size: Volume) -> (r: Self)
        ensures
            call_ensures(<S as Into<Symbol>>::into, (symbol,), r.symbol),
            r.side == side,
            r.kind == OrderKind::Market,
            r.size == size,
            r.limit_price == None::<Price>,
            !r.reduce_only,
            r.client_id == None::<String>,
            r.stop == None::<StopAttachment>,
    {
        Order {
            symbol: symbol.into(),
            side,
            kind: OrderKind::Market,
            size,
            limit_price: None,
            reduce_only: false,
            client_id: None,
            stop: None,
        }
    }

    /// A limit order at `price` with nothing attached.
    pub fn limit<S: Into<Symbol>>(symbol: S, side: Side, size: Volume, price: Price) -> (r: Self)
        ensures
            call_ensures(<S as Into<Symbol>>::into, (symbol,), r.symbol),
            r.side == side,
            r.kind == OrderKind::Limit,
            r.size == size,
            r.limit_price == Some(price),
            !r.reduce_only,
            r.client_id == None::<String>,
            r.stop == None::<StopAttachment>,
    {
        Order {
            symbol: symbol.into(),
            side,
            kind: OrderKind::Limit,
            size,
            limit_price: Some(price),
            reduce_only: false,
            client_id: None,
            stop: None,
        }
    }

    /// The order with its reduce-only flag set as given.
    pub fn with_reduce_only(self, reduce_only: bool) -> (r: Self)
        ensures
            r == (Order { reduce_only, ..self }),
    {
        Order { reduce_only, ..self }
    }

    /// The order under a client-supplied id.
    pub fn with_client_id<S: Into<String>>(self, id: S) -> (r: Self)
        ensures
            r.client_id is Some,
            call_ensures(<S as Into<String>>::into, (id,), r.client_id->0),
            r == (Order { client_id: r.client_id, ..self }),
    {
        Order { client_id: Some(id.into()), ..self }
    }

    /// The order with a stop attached.
    pub fn with_stop(self, stop: StopAttachment) -> (r: Self)
        ensures
            r == (Order { stop: Some(stop), ..self }),
    {
        Order { stop: Some(stop), ..self }
    }
}

/// Position for a single symbol, as an exchange reports it.
///
/// `qty` is signed: positive is long, negative is short, zero is flat.
#[derive(Clone, Copy, Debug, PartialEq, Eq, Structural)]
pub struct Position {
    /// Signed quantity.
    pub qty: Binary64,
    /// Average entry price, if any.
    pub entry_price: Option<Binary64>,
    /// Unrealised profit or loss.
    pub unrealised_pnl: Binary64,
}

impl Default for Position {
    /// No position at all.
    fn default() -> (r: Self)
        ensures
            r == (Position {
                qty: Binary64::spec_zero(),
                entry_price: None,
                unrealised_pnl: Binary64::spec_zero(),
            }),
    {
        Self::flat()
    }
}

impl Position {
    /// No position at all.
    pub fn flat() -> (r: Self)
        ensures
            r == (Position {
                qty: Binary64::spec_zero(),
                entry_price: None,
                unrealised_pnl: Binary64::spec_zero(),
            }),
            r.qty.spec_is_zero(),
    {
        Position { qty: Binary64::zero(), entry_price: None, unrealised_pnl: Binary64::zero() }
    }

    /// Whether nothing is held.
    pub fn is_flat(&self) -> (r: bool)
        ensures
            r == self.qty.spec_is_zero(),
    {
        self.qty.is_zero()
    }

    /// Whether the position is long.
    pub fn is_long(&self) -> (r: bool)
        ensures
            r == self.qty.spec_is_positive(),
    {
        self.qty.is_positive()
    }

    /// Whether the position is short.
    pub fn is_short(&self) -> (r: bool)
        ensures
            r == self.qty.spec_is_negative(),
    {
        self.qty.is_negative()
    }

    /// Side needed to close a position of the given signed quantity.
    pub open spec fn spec_close_side(self) -> Option<Side> {
        if self.qty.spec_is_positive() {
            Some(Side::Sell)
        } else if self.qty.spec_is_negative() {
            Some(Side::Buy)
        } else {
            None
        }
    }

    /// Side needed to fully close this position; `None` if there is nothing
    /// to close.
    pub fn close_side(&self) -> (r: Option<Side>)
        ensures
            r == self.spec_close_side(),
    {
        if self.qty.is_positive() {
            Some(Side::Sell)
        } else if self.qty.is_negative() {
            Some(Side::Buy)
        } else {
            None
        }
    }
}

/// A position with a real quantity is exactly one of flat, long and short, and
/// only a flat one has no closing side.
pub proof fn position_is_one_of_three(p: Position)
    requires
        !p.qty.spec_is_nan(),
    ensures
        p.qty.spec_is_zero() <==> !p.qty.spec_is_positive() && !p.qty.spec_is_negative(),
        !(p.qty.spec_is_positive() && p.qty.spec_is_negative()),
        p.spec_close_side() is None <==> p.qty.spec_is_zero(),
{
}

/// A position is closed by selling while it is long and by buying while it is
/// short.
pub proof fn positions_are_closed_from_the_other_side(p: Position)
    ensures
        p.spec_close_side() == Some(Side::Sell) <==> Binary64::spec_zero().spec_lt(p.qty),
        p.spec_close_side() == Some(Side::Buy) <==> p.qty.spec_lt(Binary64::spec_zero()),
{
}

} // verus!
