//! What a strategy hands to the execution and risk layers.

use vstd::prelude::*;

use crate::domain::signal::SignalType;
use crate::domain::types::{OrderKind, Price, Volume};
use crate::num::Binary64;

verus! {

/// Bit pattern of the number one.
pub const ONE_BITS: u64 = 0x3ff0_0000_0000_0000;

/// How large a strategy wants the next order to be. The risk layer can
/// honour, scale down, or reject the hint.
#[derive(Clone, Copy, Debug, PartialEq, Eq, Structural)]
pub enum SizeHint {
    /// Use a fraction of available margin, between zero and one.
    MarginFraction(Binary64),
    /// Target a specific notional in quote currency.
    NotionalUsd(Binary64),
    /// Target a specific number of contracts or base units.
    Quantity(Volume),
    /// Defer to the risk layer's default sizing.
    Default,
}

impl Default for SizeHint {
    fn default() -> (r: Self)
        ensures
            r == SizeHint::Default,
    {
        SizeHint::Default
    }
}

/// A strategy's decision on a single market event.
///
/// `signal` says what to do; the other fields are hints and metadata that the
/// execution and risk layers may or may not use.
#[derive(Clone, Debug)]
pub struct Decision {
    /// What to do.
    pub signal: SignalType,
    /// Confidence between zero and one.
    pub confidence: Binary64,
    /// Suggested size.
    pub size_hint: SizeHint,
    /// Suggested stop-loss price.
    pub stop_price: Option<Price>,
    /// Suggested take-profit price.
    pub take_profit_price: Option<Price>,
    /// How an entry should reach the market.
    pub order_kind: OrderKind,
    /// Limit price for entries that are not market orders.
    pub limit_price: Option<Price>,
    /// Free-form metadata as JSON text, for logging and later analysis.
    pub metadata: String,
}

impl Decision {
    /// A bare decision: the given signal and confidence, a market order, no
    /// hints, and the JSON null as metadata.
    pub open spec fn is_bare(self, signal: SignalType, confidence: Binary64) -> bool {
        &&& self.signal == signal
        &&& self.confidence == confidence
        &&& self.size_hint == SizeHint::Default
        &&& self.stop_price is None
        &&& self.take_profit_price is None
        &&& self.order_kind == OrderKind::Market
        &&& self.limit_price is None
        &&& self.metadata@ == "null"@
    }

    fn bare(signal: SignalType, confidence: Binary64) -> (r: Self)
        ensures
            r.is_bare(signal, confidence),
    {
        Decision {
            signal,
            confidence,
            size_hint: SizeHint::Default,
            stop_price: None,
            take_profit_price: None,
            order_kind: OrderKind::Market,
            limit_price: None,
            metadata: "null".to_string(),
        }
    }

    /// No action, with no confidence.
    pub fn hold() -> (r: Self)
        ensures
            r.is_bare(SignalType::Hold, Binary64::spec_zero()),
    {
        Self::bare(SignalType::Hold, Binary64::zero())
    }

    /// Open or flip to a long with the given confidence.
    pub fn buy(confidence: Binary64) -> (r: Self)
        ensures
            r.is_bare(SignalType::Buy, confidence),
    {
        Self::bare(SignalType::Buy, confidence)
    }

    /// Open or flip to a short with the given confidence.
    pub fn sell(confidence: Binary64) -> (r: Self)
        ensures
            r.is_bare(SignalType::Sell, confidence),
    {
        Self::bare(SignalType::Sell, confidence)
    }

    /// Close the current position without reversing, with full confidence.
    pub fn close() -> (r: Self)
        ensures
            r.is_bare(SignalType::Close, (Binary64 { bits: ONE_BITS })),
    {
        Self::bare(SignalType::Close, Binary64::from_bits(ONE_BITS))
    }

    /// Suggest a stop-loss price.
    pub fn with_stop(self, price: Price) -> (r: Self)
        ensures
            r == (Decision { stop_price: Some(price), ..self }),
    {
        Decision { stop_price: Some(price), ..self }
    }

    /// Suggest a take-profit price.
    pub fn with_take_profit(self, price: Price) -> (r: Self)
        ensures
            r == (Decision { take_profit_price: Some(price), ..self }),
    {
        Decision { take_profit_price: Some(price), ..self }
    }

    /// Override the size hint.
    pub fn with_size_hint(self, hint: SizeHint) -> (r: Self)
        ensures
            r == (Decision { size_hint: hint, ..self }),
    {
        Decision { size_hint: hint, ..self }
    }

    /// Choose the order kind.
    pub fn with_order_kind(self, kind: OrderKind) -> (r: Self)
        ensures
            r == (Decision { order_kind: kind, ..self }),
    {
        Decision { order_kind: kind, ..self }
    }

    /// Set a limit price. A market order becomes a limit order by it; any
    /// other kind stays what it is.
    pub fn with_limit_price(self, price: Price) -> (r: Self)
        ensures
            r == (Decision {
                limit_price: Some(price),
                order_kind: if self.order_kind == OrderKind::Market {
                    OrderKind::Limit
                } else {
                    self.order_kind
                },
                ..self
            }),
    {
        let order_kind = match self.order_kind {
            OrderKind::Market => OrderKind::Limit,
            other => other,
        };
        Decision { limit_price: Some(price), order_kind, ..self }
    }

    /// Attach free-form metadata, as JSON text.
    pub fn with_metadata(self, metadata: String) -> (r: Self)
        ensures
            r == (Decision { metadata, ..self }),
    {
        Decision { metadata, ..self }
    }
}

/// A hexadecimal digit, in lower case.
pub open spec fn hex_digit(n: int) -> char {
    if n < 10 {
        ('0' as int + n) as char
    } else {
        ('a' as int + n - 10) as char
    }
}

/// A character inside a JSON string: quotes, backslashes and control
/// characters are escaped, by a letter where there is one for them, and all
/// others stand for themselves.
pub open spec fn json_char(c: char) -> Seq<char> {
    match c {
        '"' => seq!['\\', '"'],
        '\\' => seq!['\\', '\\'],
        '\u{8}' => seq!['\\', 'b'],
        '\t' => seq!['\\', 't'],
        '\n' => seq!['\\', 'n'],
        '\u{c}' => seq!['\\', 'f'],
        '\r' => seq!['\\', 'r'],
        _ => if (c as int) < 0x20 {
            seq!['\\', 'u', '0', '0', hex_digit(c as int / 16), hex_digit(c as int % 16)]
        } else {
            seq![c]
        },
    }
}

/// The characters of a text as they stand inside a JSON string.
pub open spec fn json_escaped(text: Seq<char>) -> Seq<char>
    decreases text.len(),
{
    if text.len() == 0 {
        Seq::empty()
    } else {
        json_escaped(text.drop_last()) + json_char(text.last())
    }
}

/// A text as a JSON string.
pub open spec fn json_string(text: Seq<char>) -> Seq<char> {
    seq!['"'] + json_escaped(text) + seq!['"']
}

/// Compact JSON text of an object whose only field is `key`, holding the
/// string `value`.
pub open spec fn json_object_text(key: Seq<char>, value: Seq<char>) -> Seq<char> {
    seq!['{'] + json_string(key) + seq![':'] + json_string(value) + seq!['}']
}

/// Prints a `serde_json::Value` that is an object with one string field, with
/// `serde_json`'s own `Display` for `Value`.
///
/// Trusted: the text is compact JSON, with the escapes that `serde_json` writes
/// into strings.
#[verifier::external_body]
fn json_object(key: &str, value: &str) -> (r: String)
    ensures
        r@ == json_object_text(key@, value@),
{
    let mut fields = serde_json::Map::new();
    fields.insert(key.to_string(), serde_json::Value::String(value.to_string()));
    serde_json::Value::Object(fields).to_string()
}

/// Reported health of a strategy.
#[derive(Clone, Debug)]
pub struct BrainHealth {
    /// Whether the strategy is healthy enough to continue trading.
    pub healthy: bool,
    /// Events processed since startup.
    pub events_processed: u64,
    /// Decisions emitted that were not holds.
    pub non_hold_decisions: u64,
    /// Free-form status fields as JSON text.
    pub details: String,
}

impl BrainHealth {
    /// Healthy, with zero counters and no details.
    pub fn ok() -> (r: Self)
        ensures
            r.healthy,
            r.events_processed == 0,
            r.non_hold_decisions == 0,
            r.details@ == "null"@,
    {
        BrainHealth {
            healthy: true,
            events_processed: 0,
            non_hold_decisions: 0,
            details: "null".to_string(),
        }
    }

    /// Unhealthy, with zero counters and a single `reason` field in the
    /// details.
    pub fn unhealthy(reason: &str) -> (r: Self)
        ensures
            !r.healthy,
            r.events_processed == 0,
            r.non_hold_decisions == 0,
            r.details@ == json_object_text("reason"@, reason@),
    {
        BrainHealth {
            healthy: false,
            events_processed: 0,
            non_hold_decisions: 0,
            details: json_object("reason", reason),
        }
    }
}

impl Default for BrainHealth {
    fn default() -> (r: Self)
        ensures
            !r.healthy,
            r.events_processed == 0,
            r.non_hold_decisions == 0,
            r.details@ == "null"@,
    {
        BrainHealth {
            healthy: false,
            events_processed: 0,
            non_hold_decisions: 0,
            details: "null".to_string(),
        }
    }
}

/// A bare decision asks for nothing but its signal: a market order of the
/// default size, without levels.
pub proof fn bare_decisions_are_market_orders(d: Decision, signal: SignalType, confidence: Binary64)
    requires
        d.is_bare(signal, confidence),
    ensures
        d.signal == signal,
        d.confidence == confidence,
        d.size_hint is Default,
        d.order_kind == OrderKind::Market,
        d.limit_price is None && d.stop_price is None && d.take_profit_price is None,
{
}

} // verus!
