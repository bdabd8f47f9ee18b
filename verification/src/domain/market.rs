//! Exchange-agnostic market data.

use vstd::prelude::*;

use crate::domain::types::{Candle, Tick};
use crate::num::Binary64;

verus! {

/// Side of a trade or order.
#[derive(Clone, Copy, Debug, PartialEq, Eq, Structural)]
pub enum Side {
    /// Buying side: long entries and short exits.
    Buy,
    /// Selling side: short entries and long exits.
    Sell,
}

impl Side {
    /// The other side.
    pub open spec fn spec_opposite(self) -> Self {
        match self {
            Side::Buy => Side::Sell,
            Side::Sell => Side::Buy,
        }
    }

    /// The opposite side, used to construct closing orders.
    pub fn opposite(self) -> (r: Self)
        ensures
            r == self.spec_opposite(),
    {
        match self {
            Side::Buy => Side::Sell,
            Side::Sell => Side::Buy,
        }
    }
}

/// Taking the opposite twice gives the side back, and never the side itself.
pub proof fn opposite_is_involutive(side: Side)
    ensures
        side.spec_opposite().spec_opposite() == side,
        side.spec_opposite() != side,
{
}

/// Identifies an instrument on an exchange.
///
/// Symbols are exchange-specific text; the wrapper keeps them apart from other
/// free-form strings. Two symbols are the same when their text is.
#[derive(Debug, Hash)]
pub struct Symbol(pub String);

impl Clone for Symbol {
    fn clone(&self) -> (r: Self)
        ensures
            r == *self,
    {
        Symbol(self.0.clone())
    }
}

impl View for Symbol {
    type V = Seq<char>;

    open spec fn view(&self) -> Seq<char> {
        self.0@
    }
}

impl Symbol {
    /// Wrap any text.
    pub fn new<S: Into<String>>(s: S) -> (r: Self)
        ensures
            call_ensures(<S as Into<String>>::into, (s,), r.0),
    {
        Symbol(s.into())
    }

    /// The text of the symbol.
    pub fn as_str(&self) -> (r: &str)
        ensures
            r@ == self@,
    {
        self.0.as_str()
    }

    /// The symbol as text for people to read: its text as it stands.
    pub fn render(&self) -> (r: String)
        ensures
            r@ == self@,
    {
        self.0.clone()
    }

    /// Whether the symbol has exactly the given text.
    pub fn is(&self, text: &str) -> (r: bool)
        ensures
            r == (self@ == text@),
    {
        self.0 == text.to_string()
    }
}

impl PartialEq for Symbol {
    fn eq(&self, other: &Self) -> (r: bool) {
        self.0 == other.0
    }
}

impl Eq for Symbol {

}

impl vstd::std_specs::cmp::PartialEqSpecImpl for Symbol {
    open spec fn obeys_eq_spec() -> bool {
        true
    }

    open spec fn eq_spec(&self, other: &Self) -> bool {
        self@ == other@
    }
}

impl PartialEq<str> for Symbol {
    fn eq(&self, other: &str) -> (r: bool) {
        self.is(other)
    }
}

impl vstd::std_specs::cmp::PartialEqSpecImpl<str> for Symbol {
    open spec fn obeys_eq_spec() -> bool {
        true
    }

    open spec fn eq_spec(&self, other: &str) -> bool {
        self@ == other@
    }
}

impl PartialEq<&str> for Symbol {
    fn eq(&self, other: &&str) -> (r: bool) {
        self.is(other)
    }
}

impl vstd::std_specs::cmp::PartialEqSpecImpl<&str> for Symbol {
    open spec fn obeys_eq_spec() -> bool {
        true
    }

    open spec fn eq_spec(&self, other: &&str) -> bool {
        self@ == other@
    }
}

impl From<&str> for Symbol {
    fn from(s: &str) -> (r: Self)
        ensures
            r@ == s@,
    {
        Symbol(s.to_string())
    }
}

impl vstd::std_specs::convert::FromSpecImpl<&str> for Symbol {
    open spec fn obeys_from_spec() -> bool {
        false
    }

    open spec fn from_spec(s: &str) -> Self {
        arbitrary()
    }
}

impl From<String> for Symbol {
    fn from(s: String) -> (r: Self) {
        Symbol(s)
    }
}

impl vstd::std_specs::convert::FromSpecImpl<String> for Symbol {
    open spec fn obeys_from_spec() -> bool {
        true
    }

    open spec fn from_spec(s: String) -> Self {
        Symbol(s)
    }
}

impl AsRef<str> for Symbol {
    fn as_ref(&self) -> (r: &str)
        ensures
            r@ == self.0@,
    {
        self.0.as_str()
    }
}

impl core::borrow::Borrow<str> for Symbol {
    fn borrow(&self) -> (r: &str)
        ensures
            str::view(r) == self.0@,
    {
        self.0.as_str()
    }
}

/// Opaque identifier for which exchange produced some data.
#[derive(Debug, Hash)]
pub struct Exchange(pub String);

impl Clone for Exchange {
    fn clone(&self) -> (r: Self)
        ensures
            r == *self,
    {
        Exchange(self.0.clone())
    }
}

impl View for Exchange {
    type V = Seq<char>;

    open spec fn view(&self) -> Seq<char> {
        self.0@
    }
}

impl PartialEq for Exchange {
    fn eq(&self, other: &Self) -> (r: bool) {
        self.0 == other.0
    }
}

impl Eq for Exchange {

}

impl vstd::std_specs::cmp::PartialEqSpecImpl for Exchange {
    open spec fn obeys_eq_spec() -> bool {
        true
    }

    open spec fn eq_spec(&self, other: &Self) -> bool {
        self@ == other@
    }
}

impl From<&str> for Exchange {
    fn from(s: &str) -> (r: Self)
        ensures
            r@ == s@,
    {
        Exchange(s.to_string())
    }
}

impl vstd::std_specs::convert::FromSpecImpl<&str> for Exchange {
    open spec fn obeys_from_spec() -> bool {
        false
    }

    open spec fn from_spec(s: &str) -> Self {
        arbitrary()
    }
}

/// A normalized market-data event that can come from any exchange.
#[derive(Clone, Debug)]
pub enum MarketDataEvent {
    /// Best-bid/best-ask update.
    Ticker {
        /// Exchange this ticker came from.
        exchange: Exchange,
        /// Symbol the ticker is for.
        symbol: Symbol,
        /// The tick itself.
        tick: Tick,
    },
    /// A completed candle.
    Candle {
        /// Exchange this candle came from.
        exchange: Exchange,
        /// Symbol the candle is for.
        symbol: Symbol,
        /// The candle.
        candle: Candle,
    },
    /// An individual trade print.
    Trade {
        /// Exchange this trade was reported by.
        exchange: Exchange,
        /// Symbol the trade was for.
        symbol: Symbol,
        /// Aggressor side of the trade.
        side: Side,
        /// Trade price in quote currency.
        price: Binary64,
        /// Trade size in base-asset units or contracts.
        size: Binary64,
        /// Milliseconds since the UNIX epoch.
        timestamp: i64,
    },
}

impl MarketDataEvent {
    /// The symbol that the event is about.
    pub open spec fn spec_symbol(self) -> Symbol {
        match self {
            MarketDataEvent::Ticker { symbol, .. } => symbol,
            MarketDataEvent::Candle { symbol, .. } => symbol,
            MarketDataEvent::Trade { symbol, .. } => symbol,
        }
    }

    /// The exchange that the event came from.
    pub open spec fn spec_exchange(self) -> Exchange {
        match self {
            MarketDataEvent::Ticker { exchange, .. } => exchange,
            MarketDataEvent::Candle { exchange, .. } => exchange,
            MarketDataEvent::Trade { exchange, .. } => exchange,
        }
    }

    /// Borrow the event's symbol whatever its variant.
    pub fn symbol(&self) -> (r: &Symbol)
        ensures
            *r == self.spec_symbol(),
    {
        match self {
            MarketDataEvent::Ticker { symbol, .. } => symbol,
            MarketDataEvent::Candle { symbol, .. } => symbol,
            MarketDataEvent::Trade { symbol, .. } => symbol,
        }
    }

    /// Borrow the event's source exchange whatever its variant.
    pub fn exchange(&self) -> (r: &Exchange)
        ensures
            *r == self.spec_exchange(),
    {
        match self {
            MarketDataEvent::Ticker { exchange, .. } => exchange,
            MarketDataEvent::Candle { exchange, .. } => exchange,
            MarketDataEvent::Trade { exchange, .. } => exchange,
        }
    }
}

/// An event is about the symbol, and from the exchange, that it was made with,
/// whatever kind of event it is.
pub proof fn events_keep_their_source(
    exchange: Exchange,
    symbol: Symbol,
    tick: Tick,
    candle: Candle,
    side: Side,
    price: Binary64,
    size: Binary64,
    timestamp: i64,
)
    ensures
        ({
            let a = MarketDataEvent::Ticker { exchange, symbol, tick };
            let b = MarketDataEvent::Candle { exchange, symbol, candle };
            let c = MarketDataEvent::Trade { exchange, symbol, side, price, size, timestamp };
            &&& a.spec_symbol() == symbol && a.spec_exchange() == exchange
            &&& b.spec_symbol() == symbol && b.spec_exchange() == exchange
            &&& c.spec_symbol() == symbol && c.spec_exchange() == exchange
        }),
{
}

} // verus!
