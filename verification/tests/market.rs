//! Sides, symbols and market-data events.

use rustrade::domain::market::{Exchange, MarketDataEvent, Side, Symbol};
use rustrade::domain::types::{Candle, Price, Tick, Volume};
use rustrade::num::Binary64;
use std::collections::HashMap;

fn b(x: f64) -> Binary64 {
    Binary64::from_bits(x.to_bits())
}

#[test]
fn side_opposite_is_involutive() {
    assert_eq!(Side::Buy.opposite(), Side::Sell);
    assert_eq!(Side::Sell.opposite(), Side::Buy);
    assert_eq!(Side::Buy.opposite().opposite(), Side::Buy);
    assert_eq!(Side::Sell.opposite().opposite(), Side::Sell);
}

#[test]
fn symbol_as_str_borrow_and_display() {
    let s = Symbol::new("BTCUSDT");
    assert_eq!(s.as_str(), "BTCUSDT");
    assert_eq!(s.as_ref(), "BTCUSDT");
    assert_eq!(s.render(), "BTCUSDT");

    // PartialEq<&str> for ergonomic comparison.
    assert_eq!(s, "BTCUSDT");
    assert_ne!(s, "ETHUSDT");

    // Borrow<str> so HashMap<Symbol, _> can be looked up by &str.
    let mut m: HashMap<Symbol, i32> = HashMap::new();
    m.insert(Symbol::new("BTCUSDT"), 1);
    assert_eq!(m.get("BTCUSDT").copied(), Some(1));
}

#[test]
fn symbols_of_equal_text_are_equal() {
    let s = Symbol::from(String::from("ETHUSDT"));
    assert_eq!(s, Symbol::from("ETHUSDT"));
    assert_eq!(s.clone(), s);
    assert!(s.is("ETHUSDT"));
    assert!(!s.is("ETHUSD"));
    assert_ne!(Exchange::from("kucoin"), Exchange::from("bybit"));
    assert_eq!(Exchange::from("kucoin").clone(), Exchange::from("kucoin"));
}

fn ev_ticker() -> MarketDataEvent {
    MarketDataEvent::Ticker {
        exchange: Exchange::from("kucoin"),
        symbol: Symbol::new("XBTUSDTM"),
        tick: Tick {
            symbol: Symbol::new("XBTUSDTM"),
            timestamp: 0,
            bid: Price(b(1.0)),
            ask: Price(b(1.0)),
            bid_size: Volume(b(1.0)),
            ask_size: Volume(b(1.0)),
            last_price: None,
            last_size: None,
        },
    }
}

fn ev_candle() -> MarketDataEvent {
    MarketDataEvent::Candle {
        exchange: Exchange::from("binance"),
        symbol: Symbol::new("BTCUSDT"),
        candle: Candle {
            time: 0,
            open: b(1.0),
            high: b(1.0),
            low: b(1.0),
            close: b(1.0),
            volume: b(1.0),
        },
    }
}

fn ev_trade() -> MarketDataEvent {
    MarketDataEvent::Trade {
        exchange: Exchange::from("bybit"),
        symbol: Symbol::new("ETHUSDT"),
        side: Side::Buy,
        price: b(1.0),
        size: b(1.0),
        timestamp: 0,
    }
}

#[test]
fn market_data_event_accessors_cover_all_variants() {
    let t = ev_ticker();
    assert_eq!(t.symbol(), &Symbol::new("XBTUSDTM"));
    assert_eq!(t.exchange(), &Exchange::from("kucoin"));

    let c = ev_candle();
    assert_eq!(c.symbol(), &Symbol::new("BTCUSDT"));
    assert_eq!(c.exchange(), &Exchange::from("binance"));

    let tr = ev_trade();
    assert_eq!(tr.symbol(), &Symbol::new("ETHUSDT"));
    assert_eq!(tr.exchange(), &Exchange::from("bybit"));
}
