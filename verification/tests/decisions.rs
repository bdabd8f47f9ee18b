//! Signals, decisions, health reports and errors.

use rustrade::domain::brain::{BrainHealth, Decision, SizeHint};
use rustrade::domain::error::Error;
use rustrade::domain::signal::SignalType;
use rustrade::domain::types::{OrderKind, Price};
use rustrade::num::Binary64;

fn b(x: f64) -> Binary64 {
    Binary64::from_bits(x.to_bits())
}

fn f(x: Binary64) -> f64 {
    f64::from_bits(x.to_bits())
}

/// The string in a field of a JSON object.
fn field(text: &str, key: &str) -> String {
    let v: serde_json::Value = serde_json::from_str(text).unwrap();
    v[key].as_str().unwrap().to_string()
}

#[test]
fn signal_type_display() {
    assert_eq!(SignalType::Buy.render(), "BUY");
    assert_eq!(SignalType::Sell.render(), "SELL");
    assert_eq!(SignalType::Hold.render(), "HOLD");
    assert_eq!(SignalType::Close.render(), "CLOSE");
}

#[test]
fn decision_hold() {
    let d = Decision::hold();
    assert!(matches!(d.signal, SignalType::Hold));
    assert_eq!(f(d.confidence), 0.0);
    assert!(d.stop_price.is_none());
    assert!(d.take_profit_price.is_none());
    assert!(matches!(d.size_hint, SizeHint::Default));
    assert_eq!(d.metadata, "null");
}

#[test]
fn decision_buy_sell_close() {
    let buy = Decision::buy(b(0.75));
    assert!(matches!(buy.signal, SignalType::Buy));
    assert_eq!(f(buy.confidence), 0.75);

    let s = Decision::sell(b(0.5));
    assert!(matches!(s.signal, SignalType::Sell));

    let c = Decision::close();
    assert!(matches!(c.signal, SignalType::Close));
    assert_eq!(f(c.confidence), 1.0);
}

#[test]
fn decision_builders_compose() {
    let mut reason = serde_json::Map::new();
    reason.insert("reason".into(), serde_json::Value::from("ema-cross"));
    let d = Decision::buy(b(0.9))
        .with_stop(Price(b(95.0)))
        .with_take_profit(Price(b(110.0)))
        .with_size_hint(SizeHint::MarginFraction(b(0.25)))
        .with_metadata(serde_json::Value::Object(reason).to_string());

    assert_eq!(d.stop_price, Some(Price(b(95.0))));
    assert_eq!(d.take_profit_price, Some(Price(b(110.0))));
    assert!(matches!(d.size_hint, SizeHint::MarginFraction(x) if (f(x) - 0.25).abs() < 1e-9));
    assert_eq!(field(&d.metadata, "reason"), "ema-cross");
}

#[test]
fn limit_price_makes_a_market_order_a_limit_order() {
    let d = Decision::buy(b(1.0)).with_limit_price(Price(b(99.0)));
    assert_eq!(d.order_kind, OrderKind::Limit);
    assert_eq!(d.limit_price, Some(Price(b(99.0))));
    let p = Decision::buy(b(1.0))
        .with_order_kind(OrderKind::PostOnly)
        .with_limit_price(Price(b(99.0)));
    assert_eq!(p.order_kind, OrderKind::PostOnly);
    assert_eq!(p.limit_price, Some(Price(b(99.0))));
}

#[test]
fn brain_health_ok_is_healthy() {
    let h = BrainHealth::ok();
    assert!(h.healthy);
    assert_eq!(h.events_processed, 0);
    assert_eq!(h.non_hold_decisions, 0);
}

#[test]
fn brain_health_unhealthy_captures_reason() {
    let h = BrainHealth::unhealthy("warm-up incomplete");
    assert!(!h.healthy);
    assert_eq!(field(&h.details, "reason"), "warm-up incomplete");
}

#[test]
fn health_details_are_escaped_json() {
    let h = BrainHealth::unhealthy("say \"no\"");
    assert_eq!(h.details, "{\"reason\":\"say \\\"no\\\"\"}");
    let h = BrainHealth::unhealthy("a\\b\n\r\t\u{8}\u{c}\u{0}\u{1f}\u{7f}/é😀");
    assert_eq!(
        h.details,
        "{\"reason\":\"a\\\\b\\n\\r\\t\\b\\f\\u0000\\u001f\u{7f}/é😀\"}"
    );
    assert!(!BrainHealth::default().healthy);
    assert_eq!(BrainHealth::default().details, "null");
}

#[test]
fn errors_render_with_their_kind() {
    assert_eq!(Error::exchange("x").render(), "exchange error: x");
    assert_eq!(Error::brain("x").render(), "brain error: x");
    assert_eq!(Error::risk("x").render(), "risk check blocked: x");
    assert_eq!(Error::config("x").render(), "configuration error: x");
    assert_eq!(Error::internal("x").render(), "internal error: x");
}
