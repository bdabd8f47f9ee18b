//! Positions, order routing, protective legs and books.

use rustrade::backtest::book::{Book, Cause, CloseSums, FillRequest};
use rustrade::backtest::error::Error;
use rustrade::backtest::fills::{
    bracket_exit, cap_price, resolve_fill, resolve_order, resting_fill, route_order,
    update_bracket, Bracket, FillModel, Leg, ResolvedOrder, RestingOrder, Routing,
};
use rustrade::backtest::holding::Holding;
use rustrade::domain::brain::Decision;
use rustrade::domain::market::{Side, Symbol};
use rustrade::domain::types::{Candle, OrderKind, Price};
use rustrade::num::Binary64;
use rustrade::risk::circuit_breaker::CircuitBreakerConfig;
use rustrade::risk::session_pnl::SessionClose;

fn b(x: f64) -> Binary64 {
    Binary64::from_bits(x.to_bits())
}

fn bar(open: f64, high: f64, low: f64, close: f64) -> Candle {
    Candle {
        time: 0,
        open: b(open),
        high: b(high),
        low: b(low),
        close: b(close),
        volume: b(1.0),
    }
}

fn held(qty: i128, entry: f64) -> Holding {
    Holding { qty, entry: Some(b(entry)) }
}

fn legs(stop: Option<f64>, take_profit: Option<f64>) -> Bracket {
    Bracket { stop: stop.map(b), take_profit: take_profit.map(b) }
}

fn order(side: Side, kind: OrderKind, limit: Option<f64>) -> ResolvedOrder {
    ResolvedOrder {
        side,
        qty: 10,
        is_close: false,
        kind,
        limit: limit.map(b),
        legs: Bracket::none(),
    }
}

#[test]
fn fills_open_grow_reduce_flatten_and_flip() {
    let opened = Holding::flat().apply_fill(Side::Buy, 10, b(100.0), b(0.0));
    assert_eq!((opened.closing, opened.opening), (0, 10));
    assert_eq!(opened.holding, held(10, 100.0));

    let long = opened.holding;
    assert!(long.needs_average(Side::Buy, 10));
    assert_eq!(long.apply_fill(Side::Buy, 10, b(110.0), b(105.0)).holding, held(20, 105.0));

    let reduced = long.apply_fill(Side::Sell, 4, b(90.0), b(0.0));
    assert_eq!((reduced.closing, reduced.opening), (4, 0));
    assert_eq!(reduced.closed_entry, Some(b(100.0)));
    assert_eq!(reduced.holding, held(6, 100.0));

    let closed = long.apply_fill(Side::Sell, 10, b(90.0), b(0.0));
    assert_eq!(closed.holding, Holding::flat());
    assert!(closed.holding.is_flat());

    let flipped = long.apply_fill(Side::Sell, 13, b(90.0), b(0.0));
    assert_eq!((flipped.closing, flipped.opening), (10, 3));
    assert_eq!(flipped.holding, held(-3, 90.0));
    assert_eq!(flipped.holding.close_side(), Some(Side::Buy));
    assert_eq!(flipped.holding.size(), 3);
}

#[test]
fn decisions_resolve_to_orders() {
    let long = held(7, 100.0);
    assert_eq!(resolve_order(&Decision::hold(), &long, 5), None);
    assert_eq!(resolve_order(&Decision::close(), &Holding::flat(), 5), None);
    assert_eq!(resolve_order(&Decision::buy(b(1.0)), &long, 0), None);
    let close = resolve_order(&Decision::close(), &long, 5).unwrap();
    assert_eq!((close.side, close.qty, close.is_close), (Side::Sell, 7, true));
    let d = Decision::sell(b(1.0)).with_limit_price(Price(b(105.0))).with_stop(Price(b(110.0)));
    let entry = resolve_order(&d, &long, 5).unwrap();
    assert_eq!((entry.side, entry.qty, entry.is_close), (Side::Sell, 5, false));
    assert_eq!(entry.kind, OrderKind::Limit);
    assert_eq!(entry.limit, Some(b(105.0)));
    assert_eq!(entry.legs, legs(Some(110.0), None));
}

#[test]
fn single_candle_fills() {
    let c = bar(100.0, 106.0, 94.0, 103.0);
    let fill = |side: Side, kind: OrderKind, limit: Option<f64>| {
        resolve_fill(&order(side, kind, limit), &c)
    };
    assert_eq!(fill(Side::Buy, OrderKind::Market, None), Some((b(103.0), true)));
    assert_eq!(fill(Side::Buy, OrderKind::Ioc, Some(90.0)), Some((b(103.0), true)));
    assert_eq!(fill(Side::Buy, OrderKind::Limit, Some(95.0)), Some((b(95.0), false)));
    assert_eq!(fill(Side::Buy, OrderKind::Limit, Some(105.0)), Some((b(100.0), true)));
    assert_eq!(fill(Side::Buy, OrderKind::Limit, Some(93.0)), None);
    assert_eq!(fill(Side::Buy, OrderKind::PostOnly, Some(105.0)), None);
    assert_eq!(fill(Side::Buy, OrderKind::PostOnly, Some(95.0)), Some((b(95.0), false)));
    assert_eq!(fill(Side::Sell, OrderKind::Limit, Some(105.0)), Some((b(105.0), false)));
    assert_eq!(fill(Side::Sell, OrderKind::Limit, Some(99.0)), Some((b(100.0), true)));
    assert_eq!(fill(Side::Sell, OrderKind::Limit, None), Some((b(103.0), false)));
}

#[test]
fn orders_are_routed_by_the_close() {
    let c = bar(100.0, 106.0, 94.0, 103.0);
    let take = |cap: Option<f64>| Routing::Fill {
        reference: b(103.0),
        taker: true,
        cap: cap.map(b),
    };
    let route = |side: Side, kind: OrderKind, limit: Option<f64>| {
        route_order(FillModel::Resting, &order(side, kind, limit), &c)
    };
    assert_eq!(route(Side::Buy, OrderKind::Market, None), take(None));
    assert_eq!(route(Side::Buy, OrderKind::Limit, Some(95.0)), Routing::Rest { limit: b(95.0) });
    assert_eq!(route(Side::Buy, OrderKind::Limit, Some(105.0)), take(Some(105.0)));
    assert_eq!(route(Side::Buy, OrderKind::PostOnly, Some(105.0)), Routing::Drop);
    assert_eq!(route(Side::Sell, OrderKind::PostOnly, Some(105.0)), Routing::Rest { limit: b(105.0) });
    assert_eq!(route(Side::Sell, OrderKind::Fok, Some(105.0)), Routing::Drop);
    assert_eq!(route(Side::Sell, OrderKind::Fok, Some(101.0)), take(Some(101.0)));
    assert_eq!(route(Side::Sell, OrderKind::Ioc, None), take(None));
    let close = ResolvedOrder { is_close: true, ..order(Side::Sell, OrderKind::Limit, Some(999.0)) };
    assert_eq!(route_order(FillModel::Resting, &close, &c), take(None));
    assert_eq!(
        route_order(FillModel::TakerAtClose, &order(Side::Buy, OrderKind::Limit, Some(93.0)), &c),
        Routing::Drop
    );
}

#[test]
fn caps_stop_slippage_at_the_limit() {
    assert_eq!(cap_price(Side::Buy, b(106.0), Some(b(105.0))), b(105.0));
    assert_eq!(cap_price(Side::Buy, b(104.0), Some(b(105.0))), b(104.0));
    assert_eq!(cap_price(Side::Sell, b(94.0), Some(b(95.0))), b(95.0));
    assert_eq!(cap_price(Side::Sell, b(96.0), Some(b(95.0))), b(96.0));
    assert_eq!(cap_price(Side::Sell, b(94.0), None), b(94.0));
}

#[test]
fn resting_entries_fill_at_the_limit_or_the_open() {
    let buy = RestingOrder {
        side: Side::Buy,
        qty: 10,
        limit: b(95.0),
        legs: Bracket::none(),
        placed: 0,
    };
    assert_eq!(resting_fill(&buy, &bar(100.0, 101.0, 94.0, 98.0)), Some(b(95.0)));
    assert_eq!(resting_fill(&buy, &bar(90.0, 92.0, 89.0, 91.0)), Some(b(90.0)));
    assert_eq!(resting_fill(&buy, &bar(100.0, 101.0, 95.5, 98.0)), None);
    let sell = RestingOrder { side: Side::Sell, limit: b(105.0), ..buy };
    assert_eq!(resting_fill(&sell, &bar(110.0, 112.0, 108.0, 109.0)), Some(b(110.0)));
}

#[test]
fn legs_fire_stop_first() {
    let long = held(10, 100.0);
    let both = legs(Some(98.0), Some(103.0));
    let exit = |model: FillModel, legs: &Bracket, c: Candle| bracket_exit(model, &long, legs, &c);
    assert_eq!(
        exit(FillModel::TakerAtClose, &both, bar(100.0, 105.0, 96.0, 100.0)),
        Some((Leg::Stop, b(98.0)))
    );
    assert_eq!(
        exit(FillModel::TakerAtClose, &both, bar(100.0, 104.0, 99.0, 100.0)),
        Some((Leg::TakeProfit, b(103.0)))
    );
    assert_eq!(
        exit(FillModel::Resting, &both, bar(90.0, 92.0, 89.0, 91.0)),
        Some((Leg::Stop, b(90.0)))
    );
    assert_eq!(
        exit(FillModel::Resting, &both, bar(110.0, 112.0, 108.0, 109.0)),
        Some((Leg::TakeProfit, b(110.0)))
    );
    assert_eq!(exit(FillModel::Resting, &both, bar(100.0, 102.0, 99.0, 100.0)), None);
    assert_eq!(
        bracket_exit(FillModel::Resting, &Holding::flat(), &both, &bar(90.0, 92.0, 89.0, 91.0)),
        None
    );
    let short = held(-10, 100.0);
    assert_eq!(
        bracket_exit(FillModel::Resting, &short, &legs(Some(102.0), None), &bar(105.0, 106.0, 104.0, 105.0)),
        Some((Leg::Stop, b(105.0)))
    );
}

#[test]
fn brackets_follow_the_position() {
    let old = legs(Some(90.0), Some(120.0));
    let none = Bracket::none();
    let fill = b(100.0);
    for model in [FillModel::TakerAtClose, FillModel::Resting] {
        assert_eq!(update_bracket(model, old, 10, 0, fill, none), none);
        assert_eq!(update_bracket(model, old, 10, 20, fill, none), old);
        assert_eq!(update_bracket(model, old, 10, 4, fill, none), old);
        assert_eq!(update_bracket(model, old, 10, -5, fill, none), none);
        let fresh = legs(Some(95.0), Some(105.0));
        assert_eq!(update_bracket(model, old, 10, 20, fill, fresh), fresh);
    }
    let stop_only = legs(Some(95.0), None);
    assert_eq!(update_bracket(FillModel::TakerAtClose, none, 0, 10, fill, stop_only), none);
    assert_eq!(update_bracket(FillModel::Resting, none, 0, 10, fill, stop_only), stop_only);
    // A stop above a long's fill price protects nothing.
    let wrong = legs(Some(101.0), Some(110.0));
    assert_eq!(
        update_bracket(FillModel::Resting, none, 0, 10, fill, wrong),
        legs(None, Some(110.0))
    );
}

fn request(side: Side, qty: u128) -> FillRequest {
    FillRequest {
        side,
        qty,
        reference: b(100.0),
        taker: true,
        cap: None,
        legs: Bracket::none(),
        cause: Cause::Decision,
    }
}

fn sums(net: f64, realised: f64) -> CloseSums {
    CloseSums {
        trade_net: b(net),
        session: SessionClose {
            net: b(net),
            realised: b(realised),
            fees: b(0.0),
            session_net: b(realised),
        },
    }
}

fn lose(book: &mut Book, now: u64, realised: f64) -> Result<(), Error> {
    let model = FillModel::TakerAtClose;
    book.fill(model, b(-25.0), now, &request(Side::Buy, 1), b(100.0), b(0.0), sums(0.0, 0.0))?;
    book.fill(model, b(-25.0), now, &request(Side::Sell, 1), b(90.0), b(0.0), sums(-10.0, realised))
}

#[test]
fn books_gate_on_session_and_breaker() {
    let breaker = CircuitBreakerConfig { loss_limit: 2, window_secs: 1_000, cooldown_secs: 60 };
    let mut book = Book::new(Symbol::from("X"), true, Some(breaker));
    book.tick(10);
    lose(&mut book, 10, -10.0).unwrap();
    assert!(!book.gated(10));
    lose(&mut book, 20, -20.0).unwrap();
    assert!(book.gated(20), "the breaker has tripped");
    book.tick(79);
    assert!(book.gated(79));
    book.tick(80);
    assert!(!book.gated(80), "the cooldown is over");
    lose(&mut book, 90, -30.0).unwrap();
    assert!(book.gated(90), "the session is halted");
    book.tick(86_399);
    assert!(book.gated(86_399));
    book.tick(86_400);
    assert!(!book.gated(86_400), "a new day begins");
    assert_eq!(book.session.unwrap().trades, 0);
}

#[test]
fn full_sessions_refuse_another_trade() {
    let mut book = Book::new(Symbol::from("X"), true, None);
    lose(&mut book, 0, -1.0).unwrap();
    let mut session = book.session.unwrap();
    session.trades = u32::MAX;
    session.losses = u32::MAX;
    book.session = Some(session);
    let err = lose(&mut book, 0, -2.0).unwrap_err();
    assert_eq!(err, Error::SessionFull);
    assert_eq!(book.holding.qty, 1, "the refused fill changes nothing");
}
