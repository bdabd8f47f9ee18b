//! Whole replays, with a floating-point account around the library.

use rustrade::backtest::book::{CloseSums, FillRequest};
use rustrade::backtest::candles::{attach_series, load_rows};
use rustrade::backtest::config::{self, BacktestConfigBuilder as Settings};
use rustrade::backtest::costs;
use rustrade::backtest::error::Error;
use rustrade::backtest::fills::FillModel;
use rustrade::backtest::funding::{self, Settlement, EIGHT_HOURS_MS};
use rustrade::backtest::machine::Step;
use rustrade::backtest::replay::{Opening, Replay};
use rustrade::backtest::result::{symbol_label, zip_points, EquityTracker};
use rustrade::domain::brain;
use rustrade::domain::market;
use rustrade::domain::signal::SignalType;
use rustrade::domain::types::{self, OrderKind};
use rustrade::num::Binary64;
use rustrade::risk::circuit_breaker::CircuitBreakerConfig;
use rustrade::risk::session_pnl::{self, SessionClose};
use rustrade::risk::sizing::{self, PositionSizer, SizeRule};
use std::collections::HashSet;
use std::sync::atomic::{AtomicUsize, Ordering};
use std::sync::{Arc, Mutex};

// ── Floats around the library ───────────────────────────────────────────────

fn b(x: f64) -> Binary64 {
    Binary64::from_bits(x.to_bits())
}

fn f(x: Binary64) -> f64 {
    f64::from_bits(x.to_bits())
}

#[derive(Debug, Clone, Copy)]
struct Candle {
    time: i64,
    open: f64,
    high: f64,
    low: f64,
    close: f64,
    volume: f64,
}

fn to_library(c: &Candle) -> types::Candle {
    types::Candle {
        time: c.time,
        open: b(c.open),
        high: b(c.high),
        low: b(c.low),
        close: b(c.close),
        volume: b(c.volume),
    }
}

fn from_library(c: &types::Candle) -> Candle {
    Candle {
        time: c.time,
        open: f(c.open),
        high: f(c.high),
        low: f(c.low),
        close: f(c.close),
        volume: f(c.volume),
    }
}

fn load_csv_str(text: &str) -> Result<Vec<Candle>, Error> {
    let rows: Vec<Option<types::Candle>> = csv::ReaderBuilder::new()
        .comment(Some(b'#'))
        .from_reader(text.as_bytes())
        .deserialize::<(i64, f64, f64, f64, f64, f64)>()
        .map(|row| {
            row.ok().map(|r| {
                to_library(&Candle {
                    time: r.0,
                    open: r.1,
                    high: r.2,
                    low: r.3,
                    close: r.4,
                    volume: r.5,
                })
            })
        })
        .collect();
    Ok(load_rows(&rows)?.iter().map(from_library).collect())
}

fn sort_chronological(series: Vec<Candle>) -> Vec<Candle> {
    let series = series.iter().map(to_library).collect();
    rustrade::backtest::candles::sort_chronological(series)
        .iter()
        .map(from_library)
        .collect()
}

struct Price(f64);

struct Volume(f64);

enum SizeHint {
    Quantity(Volume),
}

/// What the strategy is shown of its position.
struct Position {
    qty: f64,
}

impl Position {
    fn is_flat(&self) -> bool {
        self.qty == 0.0
    }
}

#[derive(Debug)]
struct Decision {
    inner: brain::Decision,
}

impl Clone for Decision {
    fn clone(&self) -> Self {
        let d = &self.inner;
        Self {
            inner: brain::Decision {
                signal: d.signal,
                confidence: d.confidence,
                size_hint: d.size_hint,
                stop_price: d.stop_price,
                take_profit_price: d.take_profit_price,
                order_kind: d.order_kind,
                limit_price: d.limit_price,
                metadata: d.metadata.clone(),
            },
        }
    }
}

impl Decision {
    fn hold() -> Self {
        Self { inner: brain::Decision::hold() }
    }
    fn buy(confidence: f64) -> Self {
        Self { inner: brain::Decision::buy(b(confidence)) }
    }
    fn sell(confidence: f64) -> Self {
        Self { inner: brain::Decision::sell(b(confidence)) }
    }
    fn close() -> Self {
        Self { inner: brain::Decision::close() }
    }
    fn with_stop(self, p: Price) -> Self {
        Self { inner: self.inner.with_stop(types::Price(b(p.0))) }
    }
    fn with_take_profit(self, p: Price) -> Self {
        Self { inner: self.inner.with_take_profit(types::Price(b(p.0))) }
    }
    fn with_limit_price(self, p: Price) -> Self {
        Self { inner: self.inner.with_limit_price(types::Price(b(p.0))) }
    }
    fn with_order_kind(self, kind: OrderKind) -> Self {
        Self { inner: self.inner.with_order_kind(kind) }
    }
    fn with_size_hint(self, hint: SizeHint) -> Self {
        let SizeHint::Quantity(v) = hint;
        let hint = brain::SizeHint::Quantity(types::Volume(b(v.0)));
        Self { inner: self.inner.with_size_hint(hint) }
    }
}

type CoreResult<T> = Result<T, Error>;

/// What the strategy is shown of the market.
#[allow(dead_code)]
enum MarketDataEvent {
    Candle { symbol: String, candle: Candle },
    Quiet { symbol: String },
}

impl MarketDataEvent {
    fn symbol(&self) -> &String {
        match self {
            Self::Candle { symbol, .. } | Self::Quiet { symbol } => symbol,
        }
    }
}

trait Brain {
    fn on_event(&self, event: &MarketDataEvent, position: &Position) -> CoreResult<Decision>;
}

// ── Configuration ───────────────────────────────────────────────────────────

struct SizingConfig {
    margin_per_trade: f64,
    leverage: u32,
    max_contracts: u32,
}

struct SessionPnlConfig {
    loss_limit: f64,
}

#[derive(Clone, Copy)]
enum FeeModel {
    Zero,
    Flat(f64),
    MakerTaker { maker: f64, taker: f64 },
}

#[derive(Clone, Copy)]
enum SlippageModel {
    Zero,
    FixedBps(f64),
}

enum FundingModel {
    Off,
    Constant { rate: f64, interval_ms: i64 },
    Series(Vec<(i64, f64)>),
}

fn schedule(m: FundingModel) -> funding::FundingModel {
    match m {
        FundingModel::Off => funding::FundingModel::Off,
        FundingModel::Constant { rate, interval_ms } => {
            funding::FundingModel::Constant { rate: b(rate), interval_ms }
        }
        FundingModel::Series(points) => funding::FundingModel::Series(
            points
                .into_iter()
                .map(|(time, rate)| Settlement { time, rate: b(rate) })
                .collect(),
        ),
    }
}

struct BacktestConfig {
    settings: config::BacktestConfig,
}

impl BacktestConfig {
    fn builder() -> BacktestConfigBuilder {
        BacktestConfigBuilder { inner: config::BacktestConfig::builder() }
    }
}

struct BacktestConfigBuilder {
    inner: Settings,
}

impl BacktestConfigBuilder {
    fn symbol(self, s: &str) -> Self {
        Self { inner: self.inner.symbol(s) }
    }
    fn symbols<const N: usize>(self, names: [&str; N]) -> Self {
        let symbols = names.iter().map(|s| market::Symbol::from(*s)).collect();
        Self { inner: self.inner.symbols(symbols) }
    }
    fn initial_cash(self, cash: f64) -> Self {
        Self { inner: self.inner.initial_cash(b(cash)) }
    }
    fn sizing(self, c: SizingConfig) -> Self {
        Self {
            inner: self.inner.sizing(sizing::SizingConfig {
                margin_per_trade: b(c.margin_per_trade),
                leverage: c.leverage,
                max_contracts: c.max_contracts,
            }),
        }
    }
    fn fees(self, m: FeeModel) -> Self {
        Self {
            inner: self.inner.fees(match m {
                FeeModel::Zero => costs::FeeModel::Zero,
                FeeModel::Flat(rate) => costs::FeeModel::Flat(b(rate)),
                FeeModel::MakerTaker { maker, taker } => {
                    costs::FeeModel::MakerTaker { maker: b(maker), taker: b(taker) }
                }
            }),
        }
    }
    fn slippage(self, m: SlippageModel) -> Self {
        Self {
            inner: self.inner.slippage(match m {
                SlippageModel::Zero => costs::SlippageModel::Zero,
                SlippageModel::FixedBps(bps) => costs::SlippageModel::FixedBps(b(bps)),
            }),
        }
    }
    fn fill_model(self, m: FillModel) -> Self {
        Self { inner: self.inner.fill_model(m) }
    }
    fn funding(self, m: FundingModel) -> Self {
        Self { inner: self.inner.funding(schedule(m)) }
    }
    fn periods_per_year(self, n: u32) -> Self {
        Self { inner: self.inner.periods_per_year(n) }
    }
    fn session_pnl(self, c: SessionPnlConfig) -> Self {
        let config = session_pnl::SessionPnlConfig { loss_limit: b(c.loss_limit) };
        Self { inner: self.inner.session_pnl(config) }
    }
    fn circuit_breaker(self, c: CircuitBreakerConfig) -> Self {
        Self { inner: self.inner.circuit_breaker(c) }
    }
    fn build(self) -> Result<BacktestConfig, Error> {
        Ok(BacktestConfig { settings: self.inner.build()? })
    }
}

// ── The account ─────────────────────────────────────────────────────────────

#[derive(Debug, PartialEq)]
struct TradeOutcome {
    qty: f64,
    entry_price: f64,
    exit_price: f64,
    gross_pnl: f64,
    fee: f64,
    funding: f64,
    closed_at: i64,
}

impl TradeOutcome {
    fn net_pnl(&self) -> f64 {
        self.gross_pnl - self.fee + self.funding
    }
}

struct Point {
    time: i64,
    equity: f64,
}

#[derive(Debug)]
struct BacktestResult {
    symbol: String,
    initial_cash: f64,
    final_cash: f64,
    net_pnl: f64,
    total_fees: f64,
    funding_received: f64,
    funding_paid: f64,
    candles_processed: usize,
    signals_emitted: usize,
    orders_filled: u128,
    orders_blocked: usize,
    trades: Vec<TradeOutcome>,
    max_drawdown: f64,
    equity_curve: Vec<f64>,
    equity_times: Vec<i64>,
    period_returns: Vec<f64>,
    periods_per_year: u32,
}

impl BacktestResult {
    fn net_funding(&self) -> f64 {
        self.funding_received - self.funding_paid
    }

    fn equity_points(&self) -> Vec<Point> {
        let curve = self.equity_curve.iter().map(|&x| b(x)).collect();
        zip_points(&self.equity_times, &curve)
            .iter()
            .map(|p| Point { time: p.time, equity: f(p.equity) })
            .collect()
    }

    fn ratio(&self, square: impl Fn(f64, f64) -> f64, lost: f64) -> Option<f64> {
        let n = self.period_returns.len() as f64;
        let mean = self.period_returns.iter().sum::<f64>() / n;
        let squares: f64 = self.period_returns.iter().map(|&x| square(x, mean)).sum();
        let deviation = (squares / (n - lost)).sqrt();
        if n < 2.0 || deviation == 0.0 || !deviation.is_finite() {
            return None;
        }
        Some(f64::from(self.periods_per_year).sqrt() * mean / deviation)
    }

    fn sharpe_ratio(&self) -> Option<f64> {
        self.ratio(|x, mean| (x - mean).powi(2), 1.0)
    }

    fn sortino_ratio(&self) -> Option<f64> {
        self.ratio(|x, _| if x < 0.0 { x.powi(2) } else { 0.0 }, 0.0)
    }
}

struct Account<'a> {
    config: &'a config::BacktestConfig,
    contract_value: f64,
    cash: f64,
    accrued: Vec<f64>,
    funding_received: f64,
    funding_paid: f64,
    trades: Vec<TradeOutcome>,
    equity: EquityTracker,
    by_symbol: Vec<usize>,
}

impl<'a> Account<'a> {
    fn new(config: &'a config::BacktestConfig, replay: &Replay) -> Self {
        let books = replay.book_count();
        let mut by_symbol: Vec<usize> = (0..books).collect();
        by_symbol.sort_by_key(|&i| replay.book(i).symbol.render());
        Self {
            config,
            contract_value: f(config.contract_value),
            cash: f(config.initial_cash),
            accrued: vec![0.0; books],
            funding_received: 0.0,
            funding_paid: 0.0,
            trades: Vec::new(),
            equity: EquityTracker::new(config.initial_cash),
            by_symbol,
        }
    }

    fn settle(&mut self, opening: &Opening) {
        let (Some(book), Some(mark)) = (opening.book, opening.mark) else {
            return;
        };
        for s in &opening.settlements {
            let notional = opening.holding.qty as f64 * f(mark) * self.contract_value;
            let flow = -notional * f(s.rate);
            self.cash += flow;
            self.accrued[book] += flow;
            if flow > 0.0 {
                self.funding_received += flow;
            } else {
                self.funding_paid -= flow;
            }
        }
    }

    /// Prices a fill, reports it and books it.
    fn fill(
        &mut self,
        replay: &mut Replay,
        book: usize,
        request: &FillRequest,
        time: i64,
    ) -> Result<Step, Error> {
        let reference = f(request.reference);
        let slipped = match self.config.slippage.shift_for(request.side, request.taker) {
            None => reference,
            Some(s) => {
                let sign = if s.upward { 1.0 } else { -1.0 };
                reference * (1.0 + f(s.bps) / 10_000.0 * sign)
            }
        };
        let plan = replay.plan(b(slipped));
        let price = f(plan.price);
        let qty = request.qty as f64;
        let notional = price * qty * self.contract_value;
        let fee = self.config.fees.rate_for(request.taker).map_or(0.0, |rate| notional * f(rate));
        let (closing, opening) = (plan.closing as f64, plan.opening as f64);
        let held = plan.holding.qty as f64;
        let entry = plan.holding.entry.map_or(price, f);
        let averaged = (entry * held.abs() + price * opening) / (held.abs() + opening);
        let trade = TradeOutcome {
            qty: closing,
            entry_price: entry,
            exit_price: price,
            gross_pnl: (price - entry) * held.signum() * closing * self.contract_value,
            fee: fee * (closing / qty),
            funding: if plan.closing > 0 { self.accrued[book] * (closing / held.abs()) } else { 0.0 },
            closed_at: time,
        };
        let (realised, fees) = match &replay.book(book).session {
            Some(s) => (f(s.realised) + trade.gross_pnl, f(s.fees) + trade.fee),
            None => (0.0, 0.0),
        };
        let sums = CloseSums {
            trade_net: b(trade.net_pnl()),
            session: SessionClose {
                net: b(trade.gross_pnl - trade.fee),
                realised: b(realised),
                fees: b(fees),
                session_net: b(realised - fees),
            },
        };
        let next = replay.filled(b(slipped), b(averaged), sums)?;
        if plan.closing > 0 {
            self.cash += trade.gross_pnl - trade.fee;
            self.accrued[book] -= trade.funding;
            if plan.closing == plan.holding.qty.unsigned_abs() {
                self.accrued[book] = 0.0;
            }
            self.trades.push(trade);
        }
        if plan.opening > 0 {
            self.cash -= fee * (opening / qty);
        }
        Ok(next)
    }

    fn sample(&mut self, replay: &Replay) {
        let mut equity = self.cash;
        for &i in &self.by_symbol {
            let book = replay.book(i);
            if let (Some(entry), Some(mark)) = (book.holding.entry, book.last_mark) {
                let qty = book.holding.qty as f64;
                equity += (f(mark) - f(entry)) * qty.signum() * qty.abs() * self.contract_value;
            }
        }
        let drop = equity - f(self.equity.high_with(b(equity)));
        let last = f(self.equity.last());
        let change = if last > 0.0 { (equity - last) / last } else { 0.0 };
        self.equity.sample_step(b(equity), b(drop), b(change));
    }

    fn into_result(self, replay: &Replay) -> BacktestResult {
        let realised: f64 = self.trades.iter().map(TradeOutcome::net_pnl).sum();
        let net_pnl = realised + self.accrued.iter().sum::<f64>();
        let initial_cash = f(self.config.initial_cash);
        let max_drawdown = f(self.equity.max_drawdown());
        let (curve, returns) = self.equity.into_returns();
        BacktestResult {
            symbol: symbol_label(&self.config.symbols),
            initial_cash,
            final_cash: initial_cash + net_pnl,
            net_pnl,
            total_fees: self.trades.iter().map(|t| t.fee).sum(),
            funding_received: self.funding_received,
            funding_paid: self.funding_paid,
            candles_processed: replay.candles(),
            signals_emitted: replay.signals_emitted(),
            orders_filled: replay.orders_filled(),
            orders_blocked: replay.orders_blocked(),
            trades: self.trades,
            max_drawdown,
            equity_curve: curve.iter().map(|&x| f(x)).collect(),
            equity_times: replay.equity_times().clone(),
            period_returns: returns.iter().map(|&x| f(x)).collect(),
            periods_per_year: self.config.periods_per_year,
        }
    }
}

/// Contracts that a decision asks for.
fn contracts(sizer: &PositionSizer, d: &brain::Decision, close: f64, contract_value: f64) -> u32 {
    let c = sizer.config();
    let (margin, whole) = match sizer.size_rule(d.size_hint) {
        SizeRule::Margin(m) => (f(m), None),
        SizeRule::MarginTimes(x) => (f(c.margin_per_trade) * f(x), None),
        SizeRule::NotionalOver { notional, leverage } => (f(notional) / f64::from(leverage), None),
        SizeRule::WholePartOf(q) => (0.0, Some(f(q).floor() as u32)),
    };
    let quotient = margin * f64::from(c.leverage) / (close * contract_value);
    let raw = whole.unwrap_or(quotient.floor() as u32);
    sizer.size_from_hint(d.size_hint, b(margin), b(close), b(contract_value), raw)
}

struct Backtest {
    config: BacktestConfig,
    brain: Arc<dyn Brain>,
    series: Vec<(market::Symbol, Vec<types::Candle>)>,
}

impl Backtest {
    fn new(config: BacktestConfig, brain: Arc<dyn Brain>) -> Self {
        Self { config, brain, series: Vec::new() }
    }

    fn with_candles(self, candles: Vec<Candle>) -> Self {
        let symbol = self.config.settings.symbol().render();
        self.with_symbol_candles(&symbol, candles)
    }

    fn with_symbol_candles(mut self, symbol: &str, candles: Vec<Candle>) -> Self {
        let candles = candles.iter().map(to_library).collect();
        attach_series(&mut self.series, market::Symbol::from(symbol), candles);
        self
    }

    fn run(self) -> Result<BacktestResult, Error> {
        let config = &self.config.settings;
        let sizer = PositionSizer::new(config.sizing);
        let mut replay = Replay::new(config, &self.series)?;
        let mut account = Account::new(config, &replay);
        while let Some(opening) = replay.begin() {
            let candle = from_library(&opening.candle);
            account.settle(&opening);
            let mut step = replay.settled();
            loop {
                step = match step {
                    Step::Settle | Step::Sample => break,
                    Step::Fill(request) => {
                        account.fill(&mut replay, opening.book.unwrap(), &request, candle.time)?
                    }
                    Step::Decide => {
                        let qty = match opening.book {
                            Some(book) => replay.book(book).holding.qty as f64,
                            None => 0.0,
                        };
                        let event = MarketDataEvent::Candle {
                            symbol: self.series[opening.series].0.render(),
                            candle,
                        };
                        let decision = self.brain.on_event(&event, &Position { qty })?.inner;
                        let n = contracts(&sizer, &decision, candle.close, account.contract_value);
                        replay.decided(&decision, n)
                    }
                };
            }
            account.sample(&replay);
        }
        Ok(account.into_result(&replay))
    }
}

// ── Bracket exits ─────────────────────────────────────────────────────────────

// ── Brain: enter once with a fixed bracket, then hold ───────────────────────

struct BracketBrain {
    stop: f64,
    take_profit: f64,
    entered: Mutex<bool>,
}
impl BracketBrain {
    fn new(stop: f64, take_profit: f64) -> Arc<Self> {
        Arc::new(Self { stop, take_profit, entered: Mutex::new(false) })
    }
}
impl Brain for BracketBrain {
    fn on_event(&self, event: &MarketDataEvent, position: &Position) -> CoreResult<Decision> {
        if !matches!(event, MarketDataEvent::Candle { .. }) || !position.is_flat() {
            return Ok(Decision::hold());
        }
        let mut entered = self.entered.lock().unwrap();
        if *entered {
            return Ok(Decision::hold()); // never re-enter after the first exit
        }
        *entered = true;
        Ok(Decision::buy(0.9)
            .with_stop(Price(self.stop))
            .with_take_profit(Price(self.take_profit)))
    }
}

// ── Helpers ─────────────────────────────────────────────────────────────────

fn bar(i: i64, open: f64, high: f64, low: f64, close: f64) -> Candle {
    Candle { time: i * 60_000, open, high, low, close, volume: 1.0 }
}

/// Build the backtest: price ~100 with margin 1000 / 1× / cv 1.0 → 10 contracts
/// per entry, zero fees + zero slippage so exit prices land exactly on the legs.
fn run_bracket(stop: f64, tp: f64, candles: Vec<Candle>) -> BacktestResult {
    Backtest::new(
        BacktestConfig::builder()
            .symbol("BTCUSDT")
            .initial_cash(10_000.0)
            .sizing(SizingConfig { margin_per_trade: 1_000.0, leverage: 1, max_contracts: 100 })
            .fees(FeeModel::Zero)
            .slippage(SlippageModel::Zero)
            .build()
            .unwrap(),
        BracketBrain::new(stop, tp),
    )
    .with_candles(candles)
    .run()
    .unwrap()
}

// ── Tests ───────────────────────────────────────────────────────────────────

#[test]
fn take_profit_leg_fills_when_high_crosses() {
    // Enter at 100 (c0 close); c1 high 104 crosses the 103 take-profit.
    let r = run_bracket(98.0, 103.0, vec![
        bar(0, 100.0, 100.0, 100.0, 100.0),
        bar(1, 100.0, 104.0, 100.0, 102.0),
        bar(2, 102.0, 102.0, 101.0, 101.0),
    ]);

    assert_eq!(r.trades.len(), 1, "exactly one closed trade");
    assert_eq!(r.orders_filled, 2, "one entry + one bracket exit");
    let t = &r.trades[0];
    assert!((t.entry_price - 100.0).abs() < 1e-9);
    assert!((t.exit_price - 103.0).abs() < 1e-9, "TP fill at the leg price");
    assert!(t.gross_pnl > 0.0, "take-profit is a win, got {}", t.gross_pnl);
    // 10 contracts × (103 - 100) = +30, zero fees.
    assert!((r.net_pnl - 30.0).abs() < 1e-9, "net_pnl={}", r.net_pnl);
}

#[test]
fn stop_leg_fills_when_low_crosses() {
    // Enter at 100; c1 low 97 crosses the 98 stop.
    let r = run_bracket(98.0, 103.0, vec![
        bar(0, 100.0, 100.0, 100.0, 100.0),
        bar(1, 100.0, 100.0, 97.0, 98.0),
    ]);

    assert_eq!(r.trades.len(), 1);
    assert_eq!(r.orders_filled, 2);
    let t = &r.trades[0];
    assert!((t.exit_price - 98.0).abs() < 1e-9, "stop fill at the leg price");
    assert!(t.gross_pnl < 0.0, "stop-loss is a loss, got {}", t.gross_pnl);
    assert!((r.net_pnl + 20.0).abs() < 1e-9, "net_pnl={}", r.net_pnl); // 10 × (98-100)
}

#[test]
fn stop_fills_first_when_one_bar_spans_both_legs() {
    // c1 low 96 crosses the stop AND high 105 crosses the TP — pessimistic:
    // the stop fills first, so this is booked as a loss at 98.
    let r = run_bracket(98.0, 103.0, vec![
        bar(0, 100.0, 100.0, 100.0, 100.0),
        bar(1, 100.0, 105.0, 96.0, 100.0),
    ]);

    assert_eq!(r.trades.len(), 1);
    let t = &r.trades[0];
    assert!((t.exit_price - 98.0).abs() < 1e-9, "spanning bar resolves to the STOP");
    assert!(t.gross_pnl < 0.0);
}

#[test]
fn position_stays_open_when_neither_leg_is_touched() {
    // Range stays strictly between stop (98) and TP (103) → no bracket fill.
    let r = run_bracket(98.0, 103.0, vec![
        bar(0, 100.0, 100.0, 100.0, 100.0),
        bar(1, 100.0, 102.0, 99.0, 101.0),
        bar(2, 101.0, 102.5, 99.5, 100.0),
    ]);

    assert!(r.trades.is_empty(), "no exit → no closed trade");
    assert_eq!(r.orders_filled, 1, "only the entry filled");
}


// ── Order intents ─────────────────────────────────────────────────────────────

/// Emits a fixed entry decision on the first event, a `Close` at
/// `close_at`, and holds otherwise.
struct EntryBrain {
    entry: Decision,
    close_at: Option<usize>,
    seen: AtomicUsize,
}

impl EntryBrain {
    fn new(entry: Decision, close_at: Option<usize>) -> Self {
        Self {
            entry,
            close_at,
            seen: AtomicUsize::new(0),
        }
    }
}

impl Brain for EntryBrain {
    fn on_event(&self, _e: &MarketDataEvent, _p: &Position) -> CoreResult<Decision> {
        let i = self.seen.fetch_add(1, Ordering::Relaxed);
        if i == 0 {
            Ok(self.entry.clone())
        } else if Some(i) == self.close_at {
            Ok(Decision::close())
        } else {
            Ok(Decision::hold())
        }
    }
}

fn ohlc_at(t: i64, open: f64, high: f64, low: f64, close: f64) -> Candle {
    Candle {
        time: t,
        open,
        high,
        low,
        close,
        volume: 1.0,
    }
}

fn cfg_intents() -> BacktestConfig {
    BacktestConfig::builder()
        .symbol("BTCUSDT")
        .initial_cash(100_000.0)
        .slippage(SlippageModel::Zero)
        .fees(FeeModel::Zero)
        .sizing(SizingConfig {
            margin_per_trade: 1_000.0,
            leverage: 1,
            max_contracts: 1_000,
        })
        .build()
        .unwrap()
}

fn run_entry(
    entry: Decision,
    close_at: Option<usize>,
    candles: Vec<Candle>,
) -> BacktestResult {
    Backtest::new(cfg_intents(), Arc::new(EntryBrain::new(entry, close_at)))
        .with_candles(candles)
        .run()
        .unwrap()
}

#[test]
fn resting_limit_buy_fills_at_limit_price() {
    // c0 dips to 94 (< limit 95) so the resting buy fills at 95; close on
    // c2 at 100. The trade's entry price must be the limit, not the close.
    let candles = vec![
        ohlc_at(0, 100.0, 101.0, 94.0, 100.0),
        ohlc_at(60_000, 100.0, 100.0, 100.0, 100.0),
        ohlc_at(120_000, 100.0, 100.0, 100.0, 100.0),
    ];
    let entry = Decision::buy(1.0).with_limit_price(Price(95.0));
    let r = run_entry(entry, Some(2), candles);

    assert_eq!(r.orders_filled, 2, "open + close should both fill");
    assert_eq!(r.trades.len(), 1);
    let t = &r.trades[0];
    assert!(
        (t.entry_price - 95.0).abs() < 1e-9,
        "entry at limit: {}",
        t.entry_price
    );
    assert!(
        (t.exit_price - 100.0).abs() < 1e-9,
        "exit at close: {}",
        t.exit_price
    );
}

#[test]
fn market_buy_fills_at_close_not_limit() {
    // Same candles, but a market entry fills at the candle close (100).
    let candles = vec![
        ohlc_at(0, 100.0, 101.0, 94.0, 100.0),
        ohlc_at(60_000, 100.0, 100.0, 100.0, 100.0),
        ohlc_at(120_000, 100.0, 100.0, 100.0, 100.0),
    ];
    let r = run_entry(Decision::buy(1.0), Some(2), candles);
    assert_eq!(r.trades.len(), 1);
    assert!((r.trades[0].entry_price - 100.0).abs() < 1e-9);
}

#[test]
fn limit_buy_does_not_fill_when_price_never_reaches_it() {
    // Price stays at/above 99 the whole time; a buy limit at 95 never fills.
    let candles = vec![
        ohlc_at(0, 100.0, 101.0, 99.0, 100.0),
        ohlc_at(60_000, 100.0, 101.0, 99.5, 100.0),
    ];
    let entry = Decision::buy(1.0).with_limit_price(Price(95.0));
    let r = run_entry(entry, None, candles);

    assert_eq!(r.signals_emitted, 1, "the buy intent was emitted");
    assert_eq!(r.orders_filled, 0, "but never filled");
    assert_eq!(r.trades.len(), 0);
    assert_eq!(r.net_pnl, 0.0);
}

#[test]
fn marketable_limit_buy_fills_at_open_as_taker() {
    // A buy limit above the market (105 >= open 100) is immediately
    // marketable: it fills at the open, not at the (higher) limit.
    let candles = vec![
        ohlc_at(0, 100.0, 106.0, 100.0, 103.0),
        ohlc_at(60_000, 103.0, 103.0, 103.0, 103.0),
    ];
    let entry = Decision::buy(1.0).with_limit_price(Price(105.0));
    let r = run_entry(entry, Some(1), candles);
    assert_eq!(r.trades.len(), 1);
    assert!(
        (r.trades[0].entry_price - 100.0).abs() < 1e-9,
        "marketable limit fills at open: {}",
        r.trades[0].entry_price
    );
}

#[test]
fn post_only_is_rejected_when_marketable() {
    // A post-only that would cross as taker (limit 105 >= open 100) must be
    // rejected — never filled.
    let candles = vec![
        ohlc_at(0, 100.0, 106.0, 100.0, 103.0),
        ohlc_at(60_000, 103.0, 103.0, 103.0, 103.0),
    ];
    let entry = Decision::buy(1.0)
        .with_limit_price(Price(105.0))
        .with_order_kind(OrderKind::PostOnly);
    let r = run_entry(entry, None, candles);
    assert_eq!(r.signals_emitted, 1);
    assert_eq!(r.orders_filled, 0, "marketable post-only is rejected");
}

#[test]
fn resting_limit_pays_maker_fee_via_makertaker() {
    // A resting limit open (maker) then market close (taker) under a
    // MakerTaker schedule charges maker on the open and taker on the close.
    // We observe the closing (taker) fee on the trade ledger; the maker
    // open fee is reflected in cash. Here we assert the closing fill used
    // the taker rate by comparing to a Zero-fee baseline.
    let candles = vec![
        ohlc_at(0, 100.0, 101.0, 94.0, 100.0),
        ohlc_at(60_000, 100.0, 100.0, 100.0, 100.0),
    ];
    let entry = Decision::buy(1.0).with_limit_price(Price(95.0));

    let with_fees = Backtest::new(
        BacktestConfig::builder()
            .symbol("BTCUSDT")
            .initial_cash(100_000.0)
            .slippage(SlippageModel::Zero)
            .fees(FeeModel::MakerTaker {
                maker: 0.0001,
                taker: 0.0010,
            })
            .sizing(SizingConfig {
                margin_per_trade: 1_000.0,
                leverage: 1,
                max_contracts: 1_000,
            })
            .build()
            .unwrap(),
        Arc::new(EntryBrain::new(entry, Some(1))),
    )
    .with_candles(candles)
    .run()
    .unwrap();

    // Closing fill is a market (taker): 10 contracts × 100 × 10bps = 1.0.
    assert_eq!(with_fees.trades.len(), 1);
    let close_fee = with_fees.trades[0].fee;
    assert!(
        (close_fee - 1.0).abs() < 1e-9,
        "closing taker fee should be 1.0, got {close_fee}"
    );
}


// ── Resting fills ─────────────────────────────────────────────────────────────

// ── Scripted brain ──────────────────────────────────────────────────────────

/// Emits one scripted decision per candle index; `Hold` for anything
/// beyond the script.
struct ScriptBrain {
    script: Vec<Decision>,
    seen: AtomicUsize,
}

impl ScriptBrain {
    fn new(script: Vec<Decision>) -> Arc<Self> {
        Arc::new(Self {
            script,
            seen: AtomicUsize::new(0),
        })
    }
}

impl Brain for ScriptBrain {
    fn on_event(&self, _e: &MarketDataEvent, _p: &Position) -> CoreResult<Decision> {
        let i = self.seen.fetch_add(1, Ordering::Relaxed);
        Ok(self.script.get(i).cloned().unwrap_or_else(Decision::hold))
    }
}

// ── Helpers ─────────────────────────────────────────────────────────────────

fn ohlc(i: i64, open: f64, high: f64, low: f64, close: f64) -> Candle {
    Candle {
        time: i * 60_000,
        open,
        high,
        low,
        close,
        volume: 1.0,
    }
}

/// margin 1000 / 1× / cv 1.0 at price ~100 → 10 contracts per entry;
/// zero fees + zero slippage so fills land exactly on the conventions.
fn cfg_resting(fill_model: FillModel) -> BacktestConfig {
    BacktestConfig::builder()
        .symbol("BTCUSDT")
        .initial_cash(10_000.0)
        .sizing(SizingConfig {
            margin_per_trade: 1_000.0,
            leverage: 1,
            max_contracts: 1_000,
        })
        .fees(FeeModel::Zero)
        .slippage(SlippageModel::Zero)
        .fill_model(fill_model)
        .build()
        .unwrap()
}

fn run_script(
    fill_model: FillModel,
    script: Vec<Decision>,
    candles: Vec<Candle>,
) -> BacktestResult {
    Backtest::new(cfg_resting(fill_model), ScriptBrain::new(script))
        .with_candles(candles)
        .run()
        .unwrap()
}

fn buy_limit(price: f64) -> Decision {
    Decision::buy(1.0).with_limit_price(Price(price))
}

fn sell_limit(price: f64) -> Decision {
    Decision::sell(1.0).with_limit_price(Price(price))
}

// ── Resting limit entries ───────────────────────────────────────────────────

#[test]
fn resting_buy_limit_fills_when_later_candle_crosses_from_above() {
    // Buy limit 95 placed at c0's close (100). c1 trades down through 95
    // → fill at the limit. Close at c2's close (100).
    let r = run_script(
        FillModel::Resting,
        vec![buy_limit(95.0), Decision::hold(), Decision::close()],
        vec![
            ohlc(0, 100.0, 101.0, 99.0, 100.0),
            ohlc(1, 100.0, 100.0, 94.0, 98.0),
            ohlc(2, 98.0, 100.0, 98.0, 100.0),
        ],
    );
    assert_eq!(r.orders_filled, 2, "resting entry + market close");
    assert_eq!(r.trades.len(), 1);
    let t = &r.trades[0];
    assert!((t.entry_price - 95.0).abs() < 1e-9, "entry at the limit");
    assert!((t.exit_price - 100.0).abs() < 1e-9);
    // 10 contracts × (100 − 95) = +50.
    assert!((r.net_pnl - 50.0).abs() < 1e-9, "net_pnl={}", r.net_pnl);
}

#[test]
fn resting_sell_limit_fills_when_later_candle_crosses_from_below() {
    // Sell limit 105 placed at c0's close (100). c1 trades up through 105
    // → short entry at the limit. Close at c2's close (100).
    let r = run_script(
        FillModel::Resting,
        vec![sell_limit(105.0), Decision::hold(), Decision::close()],
        vec![
            ohlc(0, 100.0, 101.0, 99.0, 100.0),
            ohlc(1, 100.0, 106.0, 100.0, 102.0),
            ohlc(2, 102.0, 102.0, 99.0, 100.0),
        ],
    );
    assert_eq!(r.trades.len(), 1);
    let t = &r.trades[0];
    assert!((t.entry_price - 105.0).abs() < 1e-9, "entry at the limit");
    assert!((t.exit_price - 100.0).abs() < 1e-9);
    // Short 10 × (105 − 100) = +50.
    assert!((r.net_pnl - 50.0).abs() < 1e-9, "net_pnl={}", r.net_pnl);
}

#[test]
fn no_lookahead_decision_candle_range_cannot_fill_resting_limit() {
    // The DECISION candle's low (94) is below the 95 limit, but that range
    // printed before the order existed — the order reaches the book at the
    // close. No later candle crosses → never fills. (The default model fills this.)
    let candles = vec![
        ohlc(0, 100.0, 101.0, 94.0, 100.0),
        ohlc(1, 100.0, 101.0, 99.0, 100.0),
    ];
    let honest = run_script(FillModel::Resting, vec![buy_limit(95.0)], candles.clone());
    assert_eq!(honest.signals_emitted, 1);
    assert_eq!(honest.orders_filled, 0, "no fill without a later cross");

    // Contrast: the default same-candle lookahead fill.
    let at_close = run_script(FillModel::TakerAtClose, vec![buy_limit(95.0)], candles);
    assert_eq!(
        at_close.orders_filled, 1,
        "the default fills on the decision candle"
    );
}

#[test]
fn resting_buy_limit_gap_through_fills_at_open() {
    // Buy limit 95; c1 gaps down and OPENS at 90 — the 95 level never
    // traded, so the fill is the open (the first price the market offered).
    let r = run_script(
        FillModel::Resting,
        vec![buy_limit(95.0), Decision::hold(), Decision::close()],
        vec![
            ohlc(0, 100.0, 101.0, 99.0, 100.0),
            ohlc(1, 90.0, 92.0, 89.0, 91.0),
            ohlc(2, 91.0, 91.0, 90.0, 91.0),
        ],
    );
    assert_eq!(r.trades.len(), 1);
    assert!(
        (r.trades[0].entry_price - 90.0).abs() < 1e-9,
        "gap-through fills at the open, not the level: {}",
        r.trades[0].entry_price
    );
}

#[test]
fn resting_sell_limit_gap_through_fills_at_open() {
    // Sell limit 105; c1 gaps up and opens at 110 → fill at the open.
    let r = run_script(
        FillModel::Resting,
        vec![sell_limit(105.0), Decision::hold(), Decision::close()],
        vec![
            ohlc(0, 100.0, 101.0, 99.0, 100.0),
            ohlc(1, 110.0, 112.0, 108.0, 110.0),
            ohlc(2, 110.0, 110.0, 109.0, 110.0),
        ],
    );
    assert_eq!(r.trades.len(), 1);
    assert!(
        (r.trades[0].entry_price - 110.0).abs() < 1e-9,
        "gap-through fills at the open: {}",
        r.trades[0].entry_price
    );
}

#[test]
fn untouched_resting_limit_never_fills() {
    // Buy limit 95 with every later candle staying above 96 → GTC order
    // rests to the end of the run without filling.
    let r = run_script(
        FillModel::Resting,
        vec![buy_limit(95.0)],
        vec![
            ohlc(0, 100.0, 101.0, 99.0, 100.0),
            ohlc(1, 100.0, 101.0, 96.5, 100.0),
            ohlc(2, 100.0, 102.0, 97.0, 101.0),
            ohlc(3, 101.0, 103.0, 96.1, 102.0),
        ],
    );
    assert_eq!(r.signals_emitted, 1);
    assert_eq!(r.orders_filled, 0);
    assert!(r.trades.is_empty());
    assert_eq!(r.net_pnl, 0.0);
}

#[test]
fn marketable_limit_fills_immediately_at_close_as_taker() {
    // Buy limit 105 ≥ close 103 → crosses immediately at the decision
    // close (103), NOT at the limit and NOT at the open (100).
    let r = run_script(
        FillModel::Resting,
        vec![buy_limit(105.0), Decision::close()],
        vec![
            ohlc(0, 100.0, 106.0, 100.0, 103.0),
            ohlc(1, 103.0, 103.0, 103.0, 103.0),
        ],
    );
    assert_eq!(r.trades.len(), 1);
    assert!(
        (r.trades[0].entry_price - 103.0).abs() < 1e-9,
        "marketable limit crosses at the decision close: {}",
        r.trades[0].entry_price
    );
}

#[test]
fn new_decision_cancels_resting_entry() {
    // Buy limit 95 placed at c0; c1's Close (flat position) cancels the
    // working order; c2 dips through 95 — nothing may fill.
    let r = run_script(
        FillModel::Resting,
        vec![buy_limit(95.0), Decision::close(), Decision::hold()],
        vec![
            ohlc(0, 100.0, 101.0, 99.0, 100.0),
            ohlc(1, 100.0, 101.0, 99.0, 100.0),
            ohlc(2, 100.0, 100.0, 90.0, 95.0),
        ],
    );
    assert_eq!(r.orders_filled, 0, "cancelled order must not fill");
    assert!(r.trades.is_empty());
}

// ── Post-only / IOC / FOK under the resting model ───────────────────────────

#[test]
fn post_only_rests_and_fills_as_maker() {
    // Non-marketable post-only (95 < close 100) rests and fills on c1's
    // cross at the limit.
    let entry = Decision::buy(1.0)
        .with_limit_price(Price(95.0))
        .with_order_kind(OrderKind::PostOnly);
    let r = run_script(
        FillModel::Resting,
        vec![entry, Decision::close()],
        vec![
            ohlc(0, 100.0, 101.0, 99.0, 100.0),
            ohlc(1, 100.0, 100.0, 94.0, 98.0),
        ],
    );
    assert_eq!(r.trades.len(), 1);
    assert!((r.trades[0].entry_price - 95.0).abs() < 1e-9);
}

#[test]
fn marketable_post_only_is_rejected() {
    // Post-only at 105 ≥ close 103 would cross as taker → rejected, never
    // rests, never fills.
    let entry = Decision::buy(1.0)
        .with_limit_price(Price(105.0))
        .with_order_kind(OrderKind::PostOnly);
    let r = run_script(
        FillModel::Resting,
        vec![entry],
        vec![
            ohlc(0, 100.0, 106.0, 100.0, 103.0),
            ohlc(1, 103.0, 108.0, 100.0, 104.0),
        ],
    );
    assert_eq!(r.orders_filled, 0);
}

#[test]
fn non_marketable_ioc_is_cancelled_not_rested() {
    // IOC buy limit 95 < close 100: nothing to fill now → cancelled. The
    // later dip through 95 must not fill it.
    let entry = Decision::buy(1.0)
        .with_limit_price(Price(95.0))
        .with_order_kind(OrderKind::Ioc);
    let r = run_script(
        FillModel::Resting,
        vec![entry],
        vec![
            ohlc(0, 100.0, 101.0, 99.0, 100.0),
            ohlc(1, 100.0, 100.0, 90.0, 95.0),
        ],
    );
    assert_eq!(r.orders_filled, 0, "IOC never rests");
}

// ── Standalone stops (long and short) ───────────────────────────────────────

#[test]
fn standalone_stop_triggers_on_long() {
    // Market long at 100 with ONLY a stop (no TP) — honoured in resting
    // mode. c1 trades down through 95 → stop-out at the level.
    let entry = Decision::buy(1.0).with_stop(Price(95.0));
    let r = run_script(
        FillModel::Resting,
        vec![entry],
        vec![
            ohlc(0, 100.0, 101.0, 99.0, 100.0),
            ohlc(1, 100.0, 100.0, 94.0, 96.0),
        ],
    );
    assert_eq!(r.trades.len(), 1, "stop-only protection must fire");
    let t = &r.trades[0];
    assert!((t.entry_price - 100.0).abs() < 1e-9);
    assert!((t.exit_price - 95.0).abs() < 1e-9, "stop fill at the level");
    assert!(t.gross_pnl < 0.0);
    // 10 × (95 − 100) = −50.
    assert!((r.net_pnl + 50.0).abs() < 1e-9, "net_pnl={}", r.net_pnl);
}

#[test]
fn standalone_stop_triggers_on_short() {
    // Market short at 100 with only a stop above. c1 trades up through
    // 105 → buy-stop closes the short at the level.
    let entry = Decision::sell(1.0).with_stop(Price(105.0));
    let r = run_script(
        FillModel::Resting,
        vec![entry],
        vec![
            ohlc(0, 100.0, 101.0, 99.0, 100.0),
            ohlc(1, 100.0, 106.0, 100.0, 104.0),
        ],
    );
    assert_eq!(r.trades.len(), 1);
    let t = &r.trades[0];
    assert!(
        (t.exit_price - 105.0).abs() < 1e-9,
        "stop fill at the level"
    );
    assert!(t.gross_pnl < 0.0);
    assert!((r.net_pnl + 50.0).abs() < 1e-9, "net_pnl={}", r.net_pnl);
}

#[test]
fn stop_gap_through_fills_at_open_worse_than_level() {
    // Long with stop 95; c1 gaps down and opens at 90 — the stop-market
    // triggers into a market that never traded 95, so the fill is the
    // open: WORSE than the level. No optimistic level fills.
    let entry = Decision::buy(1.0).with_stop(Price(95.0));
    let r = run_script(
        FillModel::Resting,
        vec![entry],
        vec![
            ohlc(0, 100.0, 101.0, 99.0, 100.0),
            ohlc(1, 90.0, 92.0, 89.0, 91.0),
        ],
    );
    assert_eq!(r.trades.len(), 1);
    assert!(
        (r.trades[0].exit_price - 90.0).abs() < 1e-9,
        "gapped stop fills at the open: {}",
        r.trades[0].exit_price
    );
    // 10 × (90 − 100) = −100 — the honest loss, not the −50 a fixed-level
    // fill would report.
    assert!((r.net_pnl + 100.0).abs() < 1e-9, "net_pnl={}", r.net_pnl);
}

#[test]
fn standalone_take_profit_fills_and_gaps_at_open_in_strategy_favour() {
    // Long at 100 with only a TP at 105 (a resting sell limit). c1 gaps
    // UP and opens at 110 → the resting limit fills at the open — price
    // improvement, mirroring a real book.
    let entry = Decision::buy(1.0).with_take_profit(Price(105.0));
    let r = run_script(
        FillModel::Resting,
        vec![entry],
        vec![
            ohlc(0, 100.0, 101.0, 99.0, 100.0),
            ohlc(1, 110.0, 112.0, 108.0, 111.0),
        ],
    );
    assert_eq!(r.trades.len(), 1, "TP-only protection must fire");
    assert!(
        (r.trades[0].exit_price - 110.0).abs() < 1e-9,
        "gapped TP fills at the open: {}",
        r.trades[0].exit_price
    );
    assert!((r.net_pnl - 100.0).abs() < 1e-9, "net_pnl={}", r.net_pnl);
}

// ── Conservative same-candle resolution ─────────────────────────────────────

#[test]
fn same_candle_entry_and_stop_resolve_to_immediate_stop_out() {
    // Resting buy limit 100 with stop 95. c1's range [94, 104] touches
    // BOTH levels; the OHLC path is unknown, so the engine assumes the
    // worse outcome: entry at 100, stopped out at 95 on the same candle.
    let entry = buy_limit(100.0).with_stop(Price(95.0));
    let r = run_script(
        FillModel::Resting,
        vec![entry],
        vec![
            ohlc(0, 103.0, 104.0, 102.0, 103.0),
            ohlc(1, 103.0, 104.0, 94.0, 103.0),
        ],
    );
    assert_eq!(r.orders_filled, 2, "entry fill + same-candle stop-out");
    assert_eq!(r.trades.len(), 1);
    let t = &r.trades[0];
    assert!((t.entry_price - 100.0).abs() < 1e-9);
    assert!((t.exit_price - 95.0).abs() < 1e-9);
    assert!(t.gross_pnl < 0.0, "conservative: booked as a loss");
}

#[test]
fn same_candle_entry_and_take_profit_waits_for_next_candle() {
    // Resting buy limit 100 with TP 105. c1's range [99, 106] touches
    // both — but the TP gets no benefit of the doubt (its level may have
    // printed before the entry): the position stays open through c1 and
    // the TP fills on c2's cross instead.
    let entry = buy_limit(100.0).with_take_profit(Price(105.0));
    let r = run_script(
        FillModel::Resting,
        vec![entry],
        vec![
            ohlc(0, 103.0, 104.0, 102.0, 103.0),
            ohlc(1, 103.0, 106.0, 99.0, 103.0),
            ohlc(2, 103.0, 106.0, 103.0, 104.0),
        ],
    );
    assert_eq!(r.trades.len(), 1);
    let t = &r.trades[0];
    assert!((t.entry_price - 100.0).abs() < 1e-9);
    assert!(
        (t.exit_price - 105.0).abs() < 1e-9,
        "TP fills on c2, at the level"
    );
    // Fill count: 1 entry + 1 TP = 2; had the TP (wrongly) filled on c1
    // the numbers would be identical — so also pin the exit timestamp.
    assert_eq!(r.orders_filled, 2);
    assert_eq!(
        t.closed_at,
        2 * 60_000,
        "exit must land on c2, not the entry candle"
    );
}

#[test]
fn stop_still_fills_before_tp_when_one_bar_spans_both() {
    // Full bracket on an open long: one bar spans stop AND TP → the stop
    // fills first (pessimistic), same convention as at_close.
    let entry = Decision::buy(1.0)
        .with_stop(Price(95.0))
        .with_take_profit(Price(105.0));
    let r = run_script(
        FillModel::Resting,
        vec![entry],
        vec![
            ohlc(0, 100.0, 101.0, 99.0, 100.0),
            ohlc(1, 100.0, 106.0, 94.0, 100.0),
        ],
    );
    assert_eq!(r.trades.len(), 1);
    assert!(
        (r.trades[0].exit_price - 95.0).abs() < 1e-9,
        "spanning bar resolves to the STOP"
    );
    assert!(r.trades[0].gross_pnl < 0.0);
}

// ── Maker vs taker fees on resting fills ────────────────────────────────────

#[test]
fn resting_entry_fill_charges_the_maker_rate() {
    // MakerTaker with a deliberately huge taker rate: if the resting fill
    // were (wrongly) charged as taker the equity impact would be 50×
    // larger. Entry: 10 contracts at 95 → maker fee = 950 × 0.001 = 0.95.
    // Final candle closes at 100 → unrealised +50.
    let entry = buy_limit(95.0);
    let r = Backtest::new(
        BacktestConfig::builder()
            .symbol("BTCUSDT")
            .initial_cash(10_000.0)
            .sizing(SizingConfig {
                margin_per_trade: 1_000.0,
                leverage: 1,
                max_contracts: 1_000,
            })
            .fees(FeeModel::MakerTaker {
                maker: 0.001,
                taker: 0.05,
            })
            .slippage(SlippageModel::Zero)
            .fill_model(FillModel::Resting)
            .build()
            .unwrap(),
        ScriptBrain::new(vec![entry]),
    )
    .with_candles(vec![
        ohlc(0, 100.0, 101.0, 99.0, 100.0),
        ohlc(1, 100.0, 100.0, 94.0, 100.0),
    ])
    .run()
    .unwrap();

    let final_equity = *r.equity_curve.last().unwrap();
    let expected = 10_000.0 - 0.95 + 50.0;
    assert!(
        (final_equity - expected).abs() < 1e-9,
        "expected equity {expected} (maker fee), got {final_equity}"
    );
}

// ── Interaction cases: existing positions, brackets, slippage ───────────────

/// A `FillModel::Resting` config with a caller-chosen slippage model.
fn cfg_slip(slippage: SlippageModel) -> BacktestConfig {
    BacktestConfig::builder()
        .symbol("BTCUSDT")
        .initial_cash(10_000.0)
        .sizing(SizingConfig {
            margin_per_trade: 1_000.0,
            leverage: 1,
            max_contracts: 1_000,
        })
        .fees(FeeModel::Zero)
        .slippage(slippage)
        .fill_model(FillModel::Resting)
        .build()
        .unwrap()
}

fn run_cfg(
    cfg: BacktestConfig,
    script: Vec<Decision>,
    candles: Vec<Candle>,
) -> BacktestResult {
    Backtest::new(cfg, ScriptBrain::new(script))
        .with_candles(candles)
        .run()
        .unwrap()
}

#[test]
fn resting_flatten_clears_stale_bracket_no_phantom_exit() {
    // Regression (HIGH): a resting fill that FLATTENS a bracketed position
    // must clear that position's now-dead bracket, so its legs can never
    // fire against a brand-new same-direction position opened later.
    //
    // c0 Buy market with stop 95 / TP 110 → long 10, bracket A.
    // c1 Sell limit 105 (105 > close 100 → non-marketable) rests.
    // c2 high 106 crosses 105 → the resting sell fills at 105, flattening
    //    the long (realising +50); the SAME candle's Buy market opens a new
    //    long 10 at close 102 with NO protective levels.
    // c3 (Hold) dips to 94: with the stale bracket A still live it would
    //    fire a phantom stop against the new long; cleared, nothing fires.
    // c4 Close exits the surviving long at 96.
    let r = run_script(
        FillModel::Resting,
        vec![
            Decision::buy(1.0)
                .with_stop(Price(95.0))
                .with_take_profit(Price(110.0)),
            sell_limit(105.0),
            Decision::buy(1.0),
            Decision::hold(),
            Decision::close(),
        ],
        vec![
            ohlc(0, 100.0, 101.0, 99.0, 100.0),
            ohlc(1, 100.0, 101.0, 99.0, 100.0),
            ohlc(2, 100.0, 106.0, 100.0, 102.0),
            ohlc(3, 100.0, 101.0, 94.0, 96.0),
            ohlc(4, 96.0, 97.0, 96.0, 96.0),
        ],
    );
    assert_eq!(
        r.trades.len(),
        2,
        "flatten-by-resting-fill, then a fresh close"
    );
    // Trade 1: long 100 → resting-sell flatten at 105 = +50.
    assert!((r.trades[0].entry_price - 100.0).abs() < 1e-9);
    assert!((r.trades[0].exit_price - 105.0).abs() < 1e-9);
    // Trade 2: the NEW long (entry 102) must survive c3 and exit only on
    // c4's Close at 96 — never a phantom stop at the dead bracket's 95.
    assert!((r.trades[1].entry_price - 102.0).abs() < 1e-9);
    assert!(
        (r.trades[1].exit_price - 96.0).abs() < 1e-9,
        "new long exits on the Close, not a stale-bracket phantom stop: {}",
        r.trades[1].exit_price
    );
    assert_eq!(
        r.trades[1].closed_at,
        4 * 60_000,
        "the new long must live until c4's explicit Close"
    );
}

#[test]
fn resting_scale_in_keeps_its_valid_bracket() {
    // Counterpart to the stale-bracket fix: a resting fill that ADDS to a
    // bracketed long in the SAME direction (a scale-in, position stays
    // long) must NOT clear the still-valid bracket.
    //
    // c0 Buy market stop 90 / TP 110 → long 10, bracket A.
    // c1 Buy limit 98 (< close 100 → non-marketable) rests.
    // c2 dips to 98 → resting buy fills → long 20; bracket A still valid.
    // c3 high 110 → bracket A's TP fills, closing the whole long 20.
    let r = run_script(
        FillModel::Resting,
        vec![
            Decision::buy(1.0)
                .with_stop(Price(90.0))
                .with_take_profit(Price(110.0)),
            buy_limit(98.0),
            Decision::hold(),
            Decision::hold(),
        ],
        vec![
            ohlc(0, 100.0, 101.0, 99.0, 100.0),
            ohlc(1, 100.0, 101.0, 99.0, 100.0),
            ohlc(2, 100.0, 101.0, 97.0, 100.0),
            ohlc(3, 100.0, 111.0, 100.0, 108.0),
        ],
    );
    // One realised close (the whole long 20 exits at the TP 110) — the
    // bracket survived the scale-in.
    assert_eq!(r.trades.len(), 1);
    assert!(
        (r.trades[0].exit_price - 110.0).abs() < 1e-9,
        "the scale-in must not drop the live bracket: {}",
        r.trades[0].exit_price
    );
    assert_eq!(r.trades[0].closed_at, 3 * 60_000);
}

#[test]
fn reducing_resting_fill_drops_incoherent_stop() {
    // Regression (LOW): a resting fill that REDUCES a long but leaves it
    // long must reject a stop that sits on the wrong side (above the fill).
    // Such a leg is meant for a different intended position; kept, it would
    // fire almost immediately against the survivor.
    //
    // c0+c1 Buy market → long 20 at 100.
    // c2 Sell limit 105 carrying stop 108 (above market — a short's stop)
    //    rests (105 > close 100).
    // c3 high 106 crosses 105 → the resting sell reduces long 20 → long 10
    //    at 105; stop 108 is above 105 → incoherent for a long → dropped,
    //    so no phantom stop-out on c3.
    // c4 Close exits the surviving long 10 at 96.
    let r = run_script(
        FillModel::Resting,
        vec![
            Decision::buy(1.0),
            Decision::buy(1.0),
            sell_limit(105.0).with_stop(Price(108.0)),
            Decision::hold(),
            Decision::close(),
        ],
        vec![
            ohlc(0, 100.0, 101.0, 99.0, 100.0),
            ohlc(1, 100.0, 101.0, 99.0, 100.0),
            ohlc(2, 100.0, 101.0, 99.0, 100.0),
            ohlc(3, 100.0, 106.0, 100.0, 104.0),
            ohlc(4, 96.0, 97.0, 96.0, 96.0),
        ],
    );
    assert_eq!(r.trades.len(), 2, "partial reduce, then a fresh close");
    // Trade 1: 10 of the long 20 exit at the reducing sell's 105 = +50.
    assert!((r.trades[0].exit_price - 105.0).abs() < 1e-9);
    // Trade 2: the surviving long 10 exits only on c4's Close at 96 — the
    // incoherent above-market stop must never have fired.
    assert!(
        (r.trades[1].exit_price - 96.0).abs() < 1e-9,
        "incoherent stop must be dropped, not fired: {}",
        r.trades[1].exit_price
    );
    assert_eq!(r.trades[1].closed_at, 4 * 60_000);
}

#[test]
fn marketable_buy_limit_capped_at_limit_under_slippage() {
    // Regression (MEDIUM): a marketable buy limit fills as a taker at the
    // close, but slippage may never push the fill THROUGH its own limit.
    // Buy limit 103.2 on close 103.0 with FixedBps(50): raw slipped fill
    // 103.0 × 1.005 = 103.515 (above the limit) → capped to 103.2.
    let r = run_cfg(
        cfg_slip(SlippageModel::FixedBps(50.0)),
        vec![buy_limit(103.2), Decision::close()],
        vec![
            ohlc(0, 100.0, 106.0, 100.0, 103.0),
            ohlc(1, 103.2, 103.2, 103.2, 103.2),
        ],
    );
    assert_eq!(r.trades.len(), 1);
    assert!(
        (r.trades[0].entry_price - 103.2).abs() < 1e-9,
        "buy fill capped at the limit, not slipped to 103.515: {}",
        r.trades[0].entry_price
    );
}

#[test]
fn marketable_sell_limit_capped_at_limit_under_slippage() {
    // Sell mirror: a marketable sell limit's fill is floored at its limit.
    // Sell limit 99.8 on close 100.0 with FixedBps(50): raw slipped fill
    // 100.0 × 0.995 = 99.5 (below the limit) → floored to 99.8.
    let r = run_cfg(
        cfg_slip(SlippageModel::FixedBps(50.0)),
        vec![sell_limit(99.8), Decision::close()],
        vec![
            ohlc(0, 100.0, 100.0, 94.0, 100.0),
            ohlc(1, 100.0, 100.0, 100.0, 100.0),
        ],
    );
    assert_eq!(r.trades.len(), 1);
    assert!(
        (r.trades[0].entry_price - 99.8).abs() < 1e-9,
        "sell fill floored at the limit, not slipped to 99.5: {}",
        r.trades[0].entry_price
    );
}

#[test]
fn marketable_ioc_capped_at_limit_under_slippage() {
    // A marketable IOC is a taker like a marketable limit — its limit caps
    // the slipped fill too. IOC buy limit 103.2 on close 103.0, FixedBps(50)
    // → capped to 103.2 (not 103.515).
    let entry = Decision::buy(1.0)
        .with_limit_price(Price(103.2))
        .with_order_kind(OrderKind::Ioc);
    let r = run_cfg(
        cfg_slip(SlippageModel::FixedBps(50.0)),
        vec![entry, Decision::close()],
        vec![
            ohlc(0, 100.0, 106.0, 100.0, 103.0),
            ohlc(1, 103.2, 103.2, 103.2, 103.2),
        ],
    );
    assert_eq!(r.trades.len(), 1);
    assert!(
        (r.trades[0].entry_price - 103.2).abs() < 1e-9,
        "marketable IOC capped at the limit: {}",
        r.trades[0].entry_price
    );
}

#[test]
fn market_order_still_slips_uncapped() {
    // Guard the cap's scope: a plain market order has no limit, so slippage
    // still applies in full. Buy market on close 100 with FixedBps(50) →
    // 100 × 1.005 = 100.5.
    let r = run_cfg(
        cfg_slip(SlippageModel::FixedBps(50.0)),
        vec![Decision::buy(1.0), Decision::close()],
        vec![
            ohlc(0, 100.0, 101.0, 99.0, 100.0),
            ohlc(1, 100.0, 101.0, 99.0, 100.0),
        ],
    );
    assert_eq!(r.trades.len(), 1);
    assert!(
        (r.trades[0].entry_price - 100.5).abs() < 1e-9,
        "market entry slips uncapped: {}",
        r.trades[0].entry_price
    );
}

// ── The default model ──────────────────────────────────────────────────────

/// A scenario touching every path the resting model changes:
/// a same-candle lookahead limit fill, a full OCO bracket whose stop is
/// gapped through (the default fills at the fixed level), a standalone stop
/// that the default silently drops, and a market close.
fn default_scenario() -> (Vec<Decision>, Vec<Candle>) {
    let script = vec![
        // c0: lookahead limit — the default fills at 95 on the decision candle.
        buy_limit(95.0),
        // c1: close it at the candle close.
        Decision::close(),
        // c2: bracketed long entry at the close.
        Decision::buy(1.0)
            .with_stop(Price(95.0))
            .with_take_profit(Price(110.0)),
        // c3: (bracket candle — gap through the stop, the default fills at 95)
        Decision::hold(),
        // c4: stop-only long — the default registers NO protection.
        Decision::buy(1.0).with_stop(Price(98.0)),
        // c5: crosses 98, but the default has no standalone stop → still open.
        Decision::hold(),
    ];
    let candles = vec![
        ohlc(0, 100.0, 101.0, 94.0, 100.0),
        ohlc(1, 100.0, 101.0, 99.0, 100.0),
        ohlc(2, 100.0, 101.0, 99.0, 100.0),
        ohlc(3, 90.0, 92.0, 89.0, 91.0),
        ohlc(4, 100.0, 101.0, 99.0, 100.0),
        ohlc(5, 100.0, 100.0, 97.0, 99.0),
    ];
    (script, candles)
}

#[test]
fn legacy_default_behaviour_is_bit_identical() {
    // Run the scenario with the DEFAULT config (no .fill_model call) and
    // with an explicit TakerAtClose — every observable must be bit-equal,
    // and the absolute numbers pin the default conventions so any change
    // to the default path fails loudly here.
    let (script, candles) = default_scenario();

    let default_cfg = BacktestConfig::builder()
        .symbol("BTCUSDT")
        .initial_cash(10_000.0)
        .sizing(SizingConfig {
            margin_per_trade: 1_000.0,
            leverage: 1,
            max_contracts: 1_000,
        })
        .fees(FeeModel::Zero)
        .slippage(SlippageModel::Zero)
        .build()
        .unwrap();
    let r_default = Backtest::new(default_cfg, ScriptBrain::new(script.clone()))
        .with_candles(candles.clone())
        .run()
        .unwrap();
    let r_explicit = run_script(FillModel::TakerAtClose, script, candles);

    // Bit-identical across the two spellings of the default.
    assert_eq!(r_default.equity_curve, r_explicit.equity_curve);
    assert_eq!(r_default.net_pnl.to_bits(), r_explicit.net_pnl.to_bits());
    assert_eq!(r_default.orders_filled, r_explicit.orders_filled);
    assert_eq!(r_default.trades.len(), r_explicit.trades.len());

    // Pin the default conventions in absolute numbers:
    // c0 lookahead limit entry at 95 (10 contracts), closed c1 at 100 → +50.
    // c2 entry at 100, c3 stop GAPPED through but fills at the LEVEL 95 → −50.
    // c4 stop-only entry at 100 → no protection registered → stays open.
    assert_eq!(r_default.trades.len(), 2);
    assert!((r_default.trades[0].entry_price - 95.0).abs() < 1e-9);
    assert!((r_default.trades[0].exit_price - 100.0).abs() < 1e-9);
    assert!((r_default.trades[1].entry_price - 100.0).abs() < 1e-9);
    assert!(
        (r_default.trades[1].exit_price - 95.0).abs() < 1e-9,
        "default bracket ignores the gap and fills at the level: {}",
        r_default.trades[1].exit_price
    );
    // Fills: c0 limit entry, c1 close, c2 entry, c3 bracket stop, c4 entry.
    assert_eq!(r_default.orders_filled, 5);
    assert!((r_default.net_pnl - 0.0).abs() < 1e-9, "+50 − 50 = 0");
}


// ── Risk gates ────────────────────────────────────────────────────────────────

/// Buys when flat, closes when long — one round trip every two candles.
/// On a falling series every round trip realises a loss.
struct ChurnBrain;
impl Brain for ChurnBrain {
    fn on_event(&self, _e: &MarketDataEvent, p: &Position) -> CoreResult<Decision> {
        if p.qty == 0.0 {
            Ok(Decision::buy(1.0))
        } else {
            Ok(Decision::close())
        }
    }
}

/// A falling series: one candle per `step_ms`, price dropping 1.0 each
/// candle from `start`. Flat OHLC so fills land exactly on the close.
fn down_series(n: usize, start: f64, t0_ms: i64, step_ms: i64) -> Vec<Candle> {
    (0..n)
        .map(|i| {
            let p = start - i as f64;
            Candle {
                time: t0_ms + i as i64 * step_ms,
                open: p,
                high: p,
                low: p,
                close: p,
                volume: 1.0,
            }
        })
        .collect()
}

fn gated_cfg() -> BacktestConfigBuilder {
    BacktestConfig::builder()
        .symbol("BTCUSDT")
        .initial_cash(100_000.0)
        // 10 contracts per entry at price ~100 → each losing round trip
        // realises ≈ -10 (price falls 1.0 between entry and close).
        .sizing(SizingConfig {
            margin_per_trade: 1_000.0,
            leverage: 1,
            max_contracts: 100,
        })
        .fees(FeeModel::Zero)
}

#[test]
fn session_halt_stops_trading_at_the_loss_limit() {
    // Each round trip loses ~10. With loss_limit -25 the third loss
    // (net -30) halts the session; every later decision is blocked.
    let gated = Backtest::new(
        gated_cfg()
            .session_pnl(SessionPnlConfig { loss_limit: -25.0 })
            .build()
            .unwrap(),
        Arc::new(ChurnBrain),
    )
    .with_candles(down_series(20, 100.0, 0, 60_000))
    .run()
    .unwrap();

    assert_eq!(
        gated.trades.len(),
        3,
        "the 3rd loss crosses -25 and halts: {:#?}",
        gated.trades
    );
    assert!(
        gated.orders_blocked > 0,
        "post-halt decisions must be counted as blocked"
    );
    // 3 round trips × ~-10 each; nothing after the halt.
    assert!(
        gated.net_pnl <= -25.0 && gated.net_pnl > -45.0,
        "loss must stop near the cap, got {}",
        gated.net_pnl
    );

    // Without the limit the same brain keeps churning losses all the way.
    let ungated = Backtest::new(gated_cfg().build().unwrap(), Arc::new(ChurnBrain))
        .with_candles(down_series(20, 100.0, 0, 60_000))
        .run()
        .unwrap();
    assert!(ungated.trades.len() > gated.trades.len());
    assert_eq!(
        ungated.orders_blocked, 0,
        "no gates configured → never blocked"
    );
    assert!(
        ungated.net_pnl < gated.net_pnl,
        "the limit must cap the bleed"
    );
}

const DAY_MS: i64 = 86_400_000;

#[test]
fn session_halt_rolls_over_at_utc_midnight_in_replay_time() {
    // Day 1 (just before 00:00 UTC): two losing round trips (-20) halt a
    // -15 session. Day 2 candles must trade again — the rollover happens
    // at the *candle* timestamps, not wall time.
    let mut candles = down_series(6, 100.0, DAY_MS - 6 * 60_000, 60_000); // day 1
    candles.extend(down_series(6, 94.0, DAY_MS + 60_000, 60_000)); // day 2

    let result = Backtest::new(
        gated_cfg()
            .session_pnl(SessionPnlConfig { loss_limit: -15.0 })
            .build()
            .unwrap(),
        Arc::new(ChurnBrain),
    )
    .with_candles(candles)
    .run()
    .unwrap();

    // Day 1: trips 1+2 complete (-20 ≤ -15 halts on the 2nd), the rest of
    // day 1 is blocked. Day 2: a fresh session — trading resumes and at
    // least one more round trip completes.
    assert!(
        result.trades.len() >= 3,
        "day-2 candles must trade after the UTC rollover: {:#?}",
        result.trades
    );
    assert!(
        result.orders_blocked > 0,
        "day-1 tail must have been blocked"
    );
    let last_close = result.trades.last().unwrap().closed_at;
    assert!(
        last_close >= DAY_MS,
        "the last trade must come from day 2 (got t={last_close})"
    );
}

#[test]
fn circuit_breaker_trips_then_resumes_after_cooldown() {
    // Breaker: 2 losses in the window → trip, 1h cooldown. The churn
    // brain loses twice (4 candles), is blocked while tripped, and the
    // gap in the series past the cooldown lets it trade again.
    let mut candles = down_series(8, 100.0, 0, 60_000); // losses + blocked tail
    // Resume 2h later (cooldown expired in replay time).
    candles.extend(down_series(4, 90.0, 2 * 3_600_000, 60_000));

    let result = Backtest::new(
        gated_cfg()
            .circuit_breaker(CircuitBreakerConfig {
                loss_limit: 2,
                window_secs: 86_400,
                cooldown_secs: 3_600,
            })
            .build()
            .unwrap(),
        Arc::new(ChurnBrain),
    )
    .with_candles(candles)
    .run()
    .unwrap();

    assert!(
        result.orders_blocked > 0,
        "decisions while tripped must be blocked"
    );
    assert!(
        result.trades.len() > 2,
        "trading must resume after the cooldown: {:#?}",
        result.trades
    );
    let last_close = result.trades.last().unwrap().closed_at;
    assert!(
        last_close >= 2 * 3_600_000,
        "the last trade must come from the post-cooldown window (got t={last_close})"
    );
}

struct PartialThenClose;
impl Brain for PartialThenClose {
    fn on_event(&self, e: &MarketDataEvent, p: &Position) -> CoreResult<Decision> {
        let MarketDataEvent::Candle { candle, .. } = e else {
            return Ok(Decision::hold());
        };
        match candle.time / 60_000 {
            // Open 10 long at 100.
            0 => Ok(Decision::buy(1.0)),
            // Partially close 5 at 99 → realised -5 ≤ -5 halts, but
            // 5 contracts are still open.
            1 => Ok(
                Decision::sell(1.0).with_size_hint(SizeHint::Quantity(
                    Volume(5.0),
                )),
            ),
            // From here every Close attempt must be blocked.
            _ if p.qty != 0.0 => Ok(Decision::close()),
            _ => Ok(Decision::hold()),
        }
    }
}

#[test]
fn gates_block_close_decisions_too_matching_live() {
    // Live gates run before build_order, so a halted session blocks Close
    // as well. Halt while still holding a position (via a partial close
    // whose realised loss crosses the cap): the remaining position stays
    // open and every later Close decision counts as blocked.
    let result = Backtest::new(
        gated_cfg()
            .session_pnl(SessionPnlConfig { loss_limit: -5.0 })
            .build()
            .unwrap(),
        Arc::new(PartialThenClose),
    )
    .with_candles(down_series(8, 100.0, 0, 60_000))
    .run()
    .unwrap();

    // The partial close is the only realised trade; the halt then blocks
    // every Close attempt on the still-open 5 contracts (candles 2..7).
    assert_eq!(result.trades.len(), 1, "{:#?}", result.trades);
    assert_eq!(result.trades[0].qty, 5.0);
    assert!(
        result.orders_blocked >= 6,
        "every post-halt Close must be blocked, got {}",
        result.orders_blocked
    );
}

#[test]
fn no_gates_configured_is_unchanged_and_never_blocks() {
    let result = Backtest::new(gated_cfg().build().unwrap(), Arc::new(ChurnBrain))
        .with_candles(down_series(10, 100.0, 0, 60_000))
        .run()
        .unwrap();
    assert_eq!(result.orders_blocked, 0);
    assert_eq!(result.trades.len(), 5, "5 uninterrupted round trips");
}


// ── Funding ───────────────────────────────────────────────────────────────────

const HOUR_MS: i64 = 3_600_000;

// ── Brains ──────────────────────────────────────────────────────────────────

/// Opens once (long or short) on the candle at `open_at`, optionally closes
/// on the candle at `close_at`, and holds otherwise. Never re-enters.
struct OpenCloseBrain {
    long: bool,
    open_at: i64,
    close_at: Option<i64>,
}
impl Brain for OpenCloseBrain {
    fn on_event(&self, event: &MarketDataEvent, position: &Position) -> CoreResult<Decision> {
        let MarketDataEvent::Candle { candle, .. } = event else {
            return Ok(Decision::hold());
        };
        if position.is_flat() {
            if candle.time == self.open_at {
                return Ok(if self.long {
                    Decision::buy(1.0)
                } else {
                    Decision::sell(1.0)
                });
            }
        } else if Some(candle.time) == self.close_at {
            return Ok(Decision::close());
        }
        Ok(Decision::hold())
    }
}

/// Opens long at `open_at`, scales out `partial_qty` contracts at
/// `partial_at`, and closes the rest at `close_at`. Drives the pro-rata
/// funding-attribution branch that only partial closes exercise.
struct ScaleOutBrain {
    open_at: i64,
    partial_at: i64,
    partial_qty: f64,
    close_at: i64,
}
impl Brain for ScaleOutBrain {
    fn on_event(&self, event: &MarketDataEvent, position: &Position) -> CoreResult<Decision> {
        let MarketDataEvent::Candle { candle, .. } = event else {
            return Ok(Decision::hold());
        };
        if position.is_flat() {
            if candle.time == self.open_at {
                return Ok(Decision::buy(1.0));
            }
        } else if candle.time == self.partial_at {
            return Ok(
                Decision::sell(1.0).with_size_hint(SizeHint::Quantity(Volume(self.partial_qty)))
            );
        } else if candle.time == self.close_at {
            return Ok(Decision::close());
        }
        Ok(Decision::hold())
    }
}

/// Buys on every candle — the pyramiding brain the engine's determinism
/// test uses; here it drives the no-funding regression comparison.
struct BuyEveryCandle;
impl Brain for BuyEveryCandle {
    fn on_event(&self, _e: &MarketDataEvent, _p: &Position) -> CoreResult<Decision> {
        Ok(Decision::buy(1.0))
    }
}

// ── Helpers ─────────────────────────────────────────────────────────────────

/// `n` hourly candles at a flat price of 100 — margin 1000 / 1× / cv 1.0
/// sizes entries to exactly 10 contracts, so position notional is exactly
/// 1000 and a 1 bp settlement moves exactly 0.1 quote units.
fn hourly_flat(n: usize) -> Vec<Candle> {
    (0..n)
        .map(|i| Candle {
            time: i as i64 * HOUR_MS,
            open: 100.0,
            high: 100.0,
            low: 100.0,
            close: 100.0,
            volume: 1.0,
        })
        .collect()
}

fn minute_ramp(n: usize, start: f64, step: f64) -> Vec<Candle> {
    (0..n)
        .map(|i| {
            let p = start + step * i as f64;
            Candle {
                time: i as i64 * 60_000,
                open: p,
                high: p,
                low: p,
                close: p,
                volume: 1.0,
            }
        })
        .collect()
}

fn funding_config(funding: FundingModel) -> BacktestConfig {
    BacktestConfig::builder()
        .symbol("BTCUSDT")
        .initial_cash(10_000.0)
        .sizing(SizingConfig {
            margin_per_trade: 1_000.0,
            leverage: 1,
            max_contracts: 100,
        })
        .fees(FeeModel::Zero)
        .slippage(SlippageModel::Zero)
        .funding(funding)
        .build()
        .unwrap()
}

/// Open at t=0, hold for 25 hourly candles (0 → 24 h). With an 8 h
/// constant grid the hold crosses exactly three settlements (8 h, 16 h,
/// 24 h — the last exactly on the final candle).
fn run_hold(long: bool, funding: FundingModel) -> BacktestResult {
    Backtest::new(
        funding_config(funding),
        Arc::new(OpenCloseBrain {
            long,
            open_at: 0,
            close_at: None,
        }),
    )
    .with_candles(hourly_flat(25))
    .run()
    .unwrap()
}

fn assert_close(actual: f64, expected: f64, what: &str) {
    assert!(
        (actual - expected).abs() < 1e-9,
        "{what}: expected {expected}, got {actual}"
    );
}

// ── Sign conventions: long/short × positive/negative rate ──────────────────

const ONE_BP: f64 = 0.0001;

#[test]
fn long_pays_positive_funding() {
    let r = run_hold(
        true,
        FundingModel::Constant {
            rate: ONE_BP,
            interval_ms: EIGHT_HOURS_MS,
        },
    );
    // 3 settlements × 1 bp × 1000 notional = 0.3 paid.
    assert_close(r.funding_paid, 0.3, "funding_paid");
    assert_close(r.funding_received, 0.0, "funding_received");
    assert_close(r.net_funding(), -0.3, "net_funding");
    // Flat price + zero fees → the funding IS the whole PnL, and it
    // lands in the equity curve and final cash.
    assert_close(r.net_pnl, -0.3, "net_pnl");
    assert_close(r.final_cash, 9_999.7, "final_cash");
    assert_close(*r.equity_curve.last().unwrap(), 9_999.7, "final equity");
    // First settlement lands in the sample after candle 8 (t = 8 h).
    assert_close(r.equity_curve[9], 9_999.9, "equity after first settlement");
    assert_close(
        r.equity_curve[8],
        10_000.0,
        "equity before first settlement",
    );
}

#[test]
fn short_receives_positive_funding() {
    let r = run_hold(
        false,
        FundingModel::Constant {
            rate: ONE_BP,
            interval_ms: EIGHT_HOURS_MS,
        },
    );
    assert_close(r.funding_received, 0.3, "funding_received");
    assert_close(r.funding_paid, 0.0, "funding_paid");
    assert_close(r.net_pnl, 0.3, "net_pnl");
    assert_close(r.final_cash, 10_000.3, "final_cash");
}

#[test]
fn long_receives_negative_funding() {
    let r = run_hold(
        true,
        FundingModel::Constant {
            rate: -ONE_BP,
            interval_ms: EIGHT_HOURS_MS,
        },
    );
    assert_close(r.funding_received, 0.3, "funding_received");
    assert_close(r.funding_paid, 0.0, "funding_paid");
    assert_close(r.net_pnl, 0.3, "net_pnl");
}

#[test]
fn short_pays_negative_funding() {
    let r = run_hold(
        false,
        FundingModel::Constant {
            rate: -ONE_BP,
            interval_ms: EIGHT_HOURS_MS,
        },
    );
    assert_close(r.funding_paid, 0.3, "funding_paid");
    assert_close(r.funding_received, 0.0, "funding_received");
    assert_close(r.net_pnl, -0.3, "net_pnl");
}

// ── Settlement-window boundaries ────────────────────────────────────────────

#[test]
fn position_opened_mid_interval_closed_on_settlement_pays_it() {
    // Open at t = 1 h (mid-way through the 0→8 h funding interval), close
    // at t = 8 h — exactly a settlement timestamp. The `(entry, exit]`
    // window charges that settlement: it fires against the position as it
    // stood entering the close candle, before the close fill.
    let r = Backtest::new(
        funding_config(FundingModel::Constant {
            rate: ONE_BP,
            interval_ms: EIGHT_HOURS_MS,
        }),
        Arc::new(OpenCloseBrain {
            long: true,
            open_at: HOUR_MS,
            close_at: Some(8 * HOUR_MS),
        }),
    )
    .with_candles(hourly_flat(12))
    .run()
    .unwrap();

    // Exactly one settlement — not zero (exit-inclusive) and not two.
    assert_close(r.funding_paid, 0.1, "funding_paid");
    assert_eq!(r.trades.len(), 1);
    // The close attributes the accrual to the trade: flat price + zero
    // fees → trade net is pure funding.
    assert_close(r.trades[0].funding, -0.1, "trade funding");
    assert_close(r.trades[0].net_pnl(), -0.1, "trade net");
    assert_close(r.net_pnl, -0.1, "net_pnl");
    // Nothing accrues after the close (candles run on to t = 11 h).
    assert_close(r.funding_received, 0.0, "funding_received");
}

#[test]
fn position_opened_exactly_on_settlement_does_not_pay_it() {
    // Open at t = 8 h — exactly a settlement timestamp. The window is
    // entry-exclusive: that settlement fires against a still-flat book,
    // and the hold ends (t = 15 h) before the next one at 16 h.
    let r = Backtest::new(
        funding_config(FundingModel::Constant {
            rate: ONE_BP,
            interval_ms: EIGHT_HOURS_MS,
        }),
        Arc::new(OpenCloseBrain {
            long: true,
            open_at: 8 * HOUR_MS,
            close_at: None,
        }),
    )
    .with_candles(hourly_flat(16))
    .run()
    .unwrap();

    assert_eq!(r.orders_filled, 1, "the entry must actually fill");
    assert_close(r.funding_paid, 0.0, "funding_paid");
    assert_close(r.funding_received, 0.0, "funding_received");
    assert_close(r.net_pnl, 0.0, "net_pnl");
}

#[test]
fn accrual_attribution_stops_at_close() {
    // Hold from t = 0 across the 8 h and 16 h settlements, close at 16 h,
    // then let the series run to 24 h — the third grid point must NOT
    // charge the closed book, and the trade carries exactly two
    // settlements' worth of funding.
    let r = Backtest::new(
        funding_config(FundingModel::Constant {
            rate: ONE_BP,
            interval_ms: EIGHT_HOURS_MS,
        }),
        Arc::new(OpenCloseBrain {
            long: true,
            open_at: 0,
            close_at: Some(16 * HOUR_MS),
        }),
    )
    .with_candles(hourly_flat(25))
    .run()
    .unwrap();

    assert_close(r.funding_paid, 0.2, "funding_paid");
    assert_eq!(r.trades.len(), 1);
    assert_close(r.trades[0].funding, -0.2, "trade funding");
    // Everything funding-related is attributed — headline PnL equals the
    // single trade's net.
    assert_close(r.net_pnl, r.trades[0].net_pnl(), "net_pnl == trade net");
}

// ── Partial-close pro-rata funding attribution ──────────────────────────────

#[test]
fn partial_close_splits_accrued_funding_pro_rata() {
    // Long 10 at t=0. First settlement (8 h) charges the full book:
    //   1 bp × 10 × 100 = 0.1 accrued.
    // Scale out 4 at t=9 h: the close takes 4/10 of the accrual (0.04)
    // and leaves 0.06 on the still-open 6.
    // Second settlement (16 h) charges the 6 remaining:
    //   1 bp × 6 × 100 = 0.06 → accrual is now 0.12.
    // Close the last 6 at t=17 h: it takes the whole 0.12.
    let r = Backtest::new(
        funding_config(FundingModel::Constant {
            rate: ONE_BP,
            interval_ms: EIGHT_HOURS_MS,
        }),
        Arc::new(ScaleOutBrain {
            open_at: 0,
            partial_at: 9 * HOUR_MS,
            partial_qty: 4.0,
            close_at: 17 * HOUR_MS,
        }),
    )
    .with_candles(hourly_flat(18))
    .run()
    .unwrap();

    assert_eq!(r.trades.len(), 2, "one partial close + one final close");
    // Partial close: 4 contracts, pro-rata 4/10 of the 0.1 accrued so far.
    assert_close(r.trades[0].qty, 4.0, "partial qty");
    assert_close(r.trades[0].funding, -0.04, "partial-close funding share");
    // Final close: the remaining 6 contracts carry the leftover 0.06 from
    // the first settlement plus the whole 0.06 from the second.
    assert_close(r.trades[1].qty, 6.0, "final qty");
    assert_close(r.trades[1].funding, -0.12, "final-close funding share");
    // Every quote unit of funding is attributed exactly once: the two
    // trades' shares sum to the total paid, no dust and no double-count.
    assert_close(r.funding_paid, 0.16, "total funding_paid");
    assert_close(
        r.trades[0].funding + r.trades[1].funding,
        -r.funding_paid,
        "attributed funding == booked funding",
    );
    // Flat price + zero fees → headline PnL is pure funding.
    assert_close(r.net_pnl, -0.16, "net_pnl");
}

// ── Mark sourcing: funding uses the last mark, not the entry price ──────────

#[test]
fn funding_notional_uses_last_mark_not_entry_price() {
    // 1-minute candles ramping 100, 101, 102, … so the mark diverges from
    // the entry price. Settlement every 8 minutes; a single settlement at
    // t=8 min books against the *previous* candle's close (t=7 min → 107),
    // not the entry (100). Entry-price sourcing would yield 0.1; last-mark
    // sourcing yields 0.107, and only the latter is correct.
    let r = Backtest::new(
        funding_config(FundingModel::Constant {
            rate: ONE_BP,
            interval_ms: 8 * 60_000,
        }),
        Arc::new(OpenCloseBrain {
            long: true,
            open_at: 0,
            close_at: None,
        }),
    )
    .with_candles(minute_ramp(10, 100.0, 1.0))
    .run()
    .unwrap();

    // 1 bp × 10 contracts × 107 (mark at the candle before settlement).
    assert_close(r.funding_paid, 0.107, "funding_paid at last mark");
    assert_close(r.funding_received, 0.0, "funding_received");
}

// ── Post-build struct-literal assignment can't smuggle an unsorted series ────

#[test]
fn unsorted_series_assigned_after_build_is_sorted_at_run_time() {
    // `BacktestConfig::funding` is a pub field, so a series can be assigned
    // after the builder's validation. An unsorted series would make
    // `settlements_between`'s binary search drop or double-book
    // settlements; `run()` re-validates so the result matches the sorted
    // equivalent (three 1 bp settlements = 0.3 paid).
    let mut cfg = funding_config(FundingModel::Off);
    cfg.settings.funding = schedule(FundingModel::Series(vec![
        (3 * EIGHT_HOURS_MS, ONE_BP),
        (EIGHT_HOURS_MS, ONE_BP),
        (2 * EIGHT_HOURS_MS, ONE_BP),
    ]));
    let r = Backtest::new(
        cfg,
        Arc::new(OpenCloseBrain {
            long: true,
            open_at: 0,
            close_at: None,
        }),
    )
    .with_candles(hourly_flat(25))
    .run()
    .unwrap();
    assert_close(r.funding_paid, 0.3, "unsorted series booked all three");
}

#[test]
fn duplicate_series_timestamps_assigned_after_build_fail_loud() {
    // A post-build series with a duplicate settlement timestamp would
    // double-book; `run()`'s re-validation rejects it as a config error
    // rather than producing plausible-but-wrong funding PnL.
    let mut cfg = funding_config(FundingModel::Off);
    cfg.settings.funding = schedule(FundingModel::Series(vec![(EIGHT_HOURS_MS, ONE_BP), (EIGHT_HOURS_MS, ONE_BP)]));
    let err = Backtest::new(
        cfg,
        Arc::new(OpenCloseBrain {
            long: true,
            open_at: 0,
            close_at: None,
        }),
    )
    .with_candles(hourly_flat(25))
    .run()
    .unwrap_err();
    assert!(matches!(err, Error::Config(_)), "got {err:?}");
}

// ── Series vs constant fallback ─────────────────────────────────────────────

#[test]
fn series_matching_the_grid_reproduces_constant_model() {
    let constant = run_hold(
        true,
        FundingModel::Constant {
            rate: ONE_BP,
            interval_ms: EIGHT_HOURS_MS,
        },
    );
    let series = run_hold(
        true,
        FundingModel::Series(vec![
            (EIGHT_HOURS_MS, ONE_BP),
            (2 * EIGHT_HOURS_MS, ONE_BP),
            (3 * EIGHT_HOURS_MS, ONE_BP),
        ]),
    );
    assert_eq!(constant.equity_curve, series.equity_curve);
    assert_eq!(
        constant.funding_paid.to_bits(),
        series.funding_paid.to_bits()
    );
    assert_eq!(constant.net_pnl.to_bits(), series.net_pnl.to_bits());
}

#[test]
fn series_with_mixed_rates_sums_signed_cashflows() {
    // Long through +1 bp (pays 0.1), −2 bp (collects 0.2), +0.5 bp
    // (pays 0.05): received 0.2, paid 0.15, net +0.05.
    let r = run_hold(
        true,
        FundingModel::Series(vec![
            (EIGHT_HOURS_MS, ONE_BP),
            (2 * EIGHT_HOURS_MS, -2.0 * ONE_BP),
            (3 * EIGHT_HOURS_MS, 0.5 * ONE_BP),
        ]),
    );
    assert_close(r.funding_received, 0.2, "funding_received");
    assert_close(r.funding_paid, 0.15, "funding_paid");
    assert_close(r.net_funding(), 0.05, "net_funding");
    assert_close(r.net_pnl, 0.05, "net_pnl");
}

// ── Default-off regression ──────────────────────────────────────────────────

#[test]
fn funding_off_is_bit_identical_to_a_config_that_never_mentions_it() {
    let base_cfg = || {
        BacktestConfig::builder()
            .symbol("BTCUSDT")
            .initial_cash(10_000.0)
            .sizing(SizingConfig {
                margin_per_trade: 1_000.0,
                leverage: 1,
                max_contracts: 100,
            })
    };
    // (a) never mentions funding — every pre-existing consumer's config.
    let untouched = Backtest::new(base_cfg().build().unwrap(), Arc::new(BuyEveryCandle))
        .with_candles(minute_ramp(30, 100.13, 0.37))
        .run()
        .unwrap();
    // (b) explicitly off.
    let explicit_off = Backtest::new(
        base_cfg().funding(FundingModel::Off).build().unwrap(),
        Arc::new(BuyEveryCandle),
    )
    .with_candles(minute_ramp(30, 100.13, 0.37))
    .run()
    .unwrap();

    assert_eq!(untouched.equity_curve, explicit_off.equity_curve);
    assert_eq!(untouched.period_returns, explicit_off.period_returns);
    assert_eq!(untouched.net_pnl.to_bits(), explicit_off.net_pnl.to_bits());
    assert_eq!(
        untouched.max_drawdown.to_bits(),
        explicit_off.max_drawdown.to_bits()
    );
    assert_eq!(untouched.trades, explicit_off.trades);
    // Funding metrics report exact zeros when the model is off.
    assert_eq!(untouched.funding_received.to_bits(), 0.0_f64.to_bits());
    assert_eq!(untouched.funding_paid.to_bits(), 0.0_f64.to_bits());
    assert!(untouched.trades.iter().all(|t| t.funding == 0.0));

    // Sanity that this regression test has teeth: the same run with a
    // funding model ON must differ.
    let on = Backtest::new(
        base_cfg()
            .funding(FundingModel::Constant {
                rate: ONE_BP,
                interval_ms: 8 * 60_000, // every 8 minutes on 1 m candles
            })
            .build()
            .unwrap(),
        Arc::new(BuyEveryCandle),
    )
    .with_candles(minute_ramp(30, 100.13, 0.37))
    .run()
    .unwrap();
    assert!(on.funding_paid > 0.0);
    assert_ne!(untouched.equity_curve, on.equity_curve);
}

// ── Timestamped equity export ───────────────────────────────────────────────

#[test]
fn equity_curve_export_is_timestamped_per_candle() {
    let r = run_hold(true, FundingModel::Off);
    assert_eq!(r.equity_times.len(), r.equity_curve.len());
    // Seed sample borrows the first candle's timestamp; then one sample
    // per candle at that candle's time.
    assert_eq!(r.equity_times[0], 0);
    assert_eq!(r.equity_times[1], 0);
    assert_eq!(r.equity_times[2], HOUR_MS);
    assert_eq!(*r.equity_times.last().unwrap(), 24 * HOUR_MS);

    let points = r.equity_points();
    assert_eq!(points.len(), r.equity_curve.len());
    assert_eq!(points[2].time, HOUR_MS);
    assert_eq!(points[2].equity, r.equity_curve[2]);
}


// ── Several symbols ───────────────────────────────────────────────────────────

// ── Helpers ────────────────────────────────────────────────────────────

/// Brain that goes long when price is rising and short when falling.
/// Decision is per-candle and doesn't pyramid — only flips when the
/// direction reverses.
struct DirectionalBrain {
    state: Mutex<Option<f64>>,
}
impl DirectionalBrain {
    fn new() -> Arc<Self> {
        Arc::new(Self {
            state: Mutex::new(None),
        })
    }
}
impl Brain for DirectionalBrain {
    fn on_event(&self, event: &MarketDataEvent, p: &Position) -> CoreResult<Decision> {
        let close = match event {
            MarketDataEvent::Candle { candle, .. } => candle.close,
            _ => return Ok(Decision::hold()),
        };
        let mut st = self.state.lock().unwrap();
        let prev = *st;
        *st = Some(close);
        let Some(prev) = prev else {
            return Ok(Decision::hold());
        };
        if close > prev && p.qty <= 0.0 {
            Ok(Decision::buy(1.0))
        } else if close < prev && p.qty >= 0.0 {
            Ok(Decision::sell(1.0))
        } else {
            Ok(Decision::hold())
        }
    }
}

/// Brain that buys on AAA and sells on BBB once, then holds forever.
/// Used to exercise the multi-symbol routing without flipping.
struct OneShotBrain {
    fired: Mutex<HashSet<String>>,
}
impl OneShotBrain {
    fn new() -> Arc<Self> {
        Arc::new(Self {
            fired: Mutex::new(HashSet::new()),
        })
    }
}
impl Brain for OneShotBrain {
    fn on_event(&self, event: &MarketDataEvent, _p: &Position) -> CoreResult<Decision> {
        let sym = event.symbol().as_str().to_string();
        let mut fired = self.fired.lock().unwrap();
        if fired.contains(&sym) {
            return Ok(Decision::hold());
        }
        fired.insert(sym.clone());
        Ok(match sym.as_str() {
            "AAA" => Decision::buy(1.0),
            "BBB" => Decision::sell(1.0),
            _ => Decision::hold(),
        })
    }
}

fn ramp_from(start: f64, step: f64, n: usize, t0: i64) -> Vec<Candle> {
    (0..n)
        .map(|i| {
            let p = start + step * i as f64;
            Candle {
                time: t0 + i as i64 * 60_000,
                open: p,
                high: p,
                low: p,
                close: p,
                volume: 1.0,
            }
        })
        .collect()
}

// ── Tests ──────────────────────────────────────────────────────────────

#[test]
fn csv_loader_feeds_backtest_engine_end_to_end() {
    let csv = "\
time,open,high,low,close,volume
60000,100.0,100.0,100.0,100.0,1.0
120000,101.0,101.0,101.0,101.0,1.0
180000,102.0,102.0,102.0,102.0,1.0
240000,103.0,103.0,103.0,103.0,1.0
300000,104.0,104.0,104.0,104.0,1.0
";
    let candles = load_csv_str(csv).unwrap();
    assert_eq!(candles.len(), 5);

    let result = Backtest::new(
        BacktestConfig::builder()
            .symbol("BTCUSDT")
            .initial_cash(10_000.0)
            .sizing(SizingConfig {
                margin_per_trade: 1_000.0,
                leverage: 1,
                max_contracts: 100,
            })
            .fees(FeeModel::Zero)
            .slippage(SlippageModel::Zero)
            .build()
            .unwrap(),
        DirectionalBrain::new(),
    )
    .with_candles(candles)
    .run()
    .unwrap();

    assert_eq!(result.candles_processed, 5);
    // Monotone uptrend → at least one buy signal once a prev exists.
    assert!(result.signals_emitted >= 1);
    assert!(result.equity_curve.len() == 6);
}

#[test]
fn sort_chronological_then_run_is_deterministic() {
    let mut candles = ramp_from(100.0, 1.0, 10, 0);
    candles.reverse(); // newest first → engine needs chronological order
    let candles = sort_chronological(candles);
    assert_eq!(candles[0].time, 0);
    assert_eq!(candles[9].time, 9 * 60_000);

    let result = Backtest::new(
        BacktestConfig::builder().symbol("X").build().unwrap(),
        DirectionalBrain::new(),
    )
    .with_candles(candles)
    .run()
    .unwrap();
    assert_eq!(result.candles_processed, 10);
}

#[test]
fn multi_symbol_backtest_keeps_per_symbol_state() {
    // Buy AAA once, sell BBB once. After the run we should have two open
    // (opposite-direction) positions on the two symbols — neither closed.
    let result = Backtest::new(
        BacktestConfig::builder()
            .symbols(["AAA", "BBB"])
            .initial_cash(100_000.0)
            .sizing(SizingConfig {
                margin_per_trade: 5_000.0,
                leverage: 1,
                max_contracts: 100,
            })
            .fees(FeeModel::Zero)
            .slippage(SlippageModel::Zero)
            .build()
            .unwrap(),
        OneShotBrain::new(),
    )
    .with_symbol_candles("AAA", ramp_from(100.0, 0.5, 20, 0))
    .with_symbol_candles("BBB", ramp_from(200.0, -1.0, 20, 0))
    .run()
    .unwrap();

    assert_eq!(result.candles_processed, 40);
    assert_eq!(result.orders_filled, 2); // one per symbol
    assert_eq!(result.trades.len(), 0); // never closed
    assert_eq!(result.symbol, "AAA,BBB");
    // Equity curve always seeds initial + one sample per candle.
    assert_eq!(result.equity_curve.len(), 41);
}

struct RecordBrain {
    seen: Arc<Mutex<Vec<(i64, String)>>>,
}
impl Brain for RecordBrain {
    fn on_event(&self, event: &MarketDataEvent, _p: &Position) -> CoreResult<Decision> {
        if let MarketDataEvent::Candle { candle, symbol, .. } = event {
            self.seen
                .lock()
                .unwrap()
                .push((candle.time, symbol.as_str().to_string()));
        }
        Ok(Decision::hold())
    }
}

#[test]
fn merged_stream_is_chronological_across_symbols() {
    // AAA candles at t = 0, 60s, 120s ... ; BBB at t = 30s, 90s, 150s ...
    // Brain just records every event's (time, symbol) pair so we can
    // assert chronological merging.
    let seen = Arc::new(Mutex::new(Vec::<(i64, String)>::new()));
    let brain = Arc::new(RecordBrain {
        seen: Arc::clone(&seen),
    });

    let aaa: Vec<Candle> = (0..4)
        .map(|i| Candle {
            time: i as i64 * 60_000,
            open: 100.0,
            high: 100.0,
            low: 100.0,
            close: 100.0,
            volume: 0.0,
        })
        .collect();
    let bbb: Vec<Candle> = (0..4)
        .map(|i| Candle {
            time: 30_000 + i as i64 * 60_000,
            open: 200.0,
            high: 200.0,
            low: 200.0,
            close: 200.0,
            volume: 0.0,
        })
        .collect();

    let _ = Backtest::new(
        BacktestConfig::builder()
            .symbols(["AAA", "BBB"])
            .build()
            .unwrap(),
        brain,
    )
    .with_symbol_candles("AAA", aaa)
    .with_symbol_candles("BBB", bbb)
    .run()
    .unwrap();

    let seen = seen.lock().unwrap();
    let times: Vec<i64> = seen.iter().map(|(t, _)| *t).collect();
    // Must be sorted ascending.
    for w in times.windows(2) {
        assert!(w[0] <= w[1], "out of order: {} > {}", w[0], w[1]);
    }
    // Should be 8 total events alternating AAA / BBB by 30s offset.
    assert_eq!(seen.len(), 8);
    assert_eq!(seen[0].1, "AAA");
    assert_eq!(seen[1].1, "BBB");
    assert_eq!(seen[2].1, "AAA");
}

#[test]
fn sharpe_and_sortino_finite_on_real_replay() {
    // Synthetic noisy uptrend so the directional brain produces a mix of
    // wins and losses — gives Sharpe and Sortino a real distribution to
    // chew on.
    let mut candles = Vec::new();
    let mut price = 100.0;
    for i in 0..200 {
        let drift = 0.05;
        let shock = ((i as f64 * 0.37).sin() * 1.5) + ((i as f64 * 0.11).cos() * 0.8);
        price += drift + shock;
        candles.push(Candle {
            time: i as i64 * 60_000,
            open: price,
            high: price,
            low: price,
            close: price,
            volume: 1.0,
        });
    }

    let result = Backtest::new(
        BacktestConfig::builder()
            .symbol("X")
            .initial_cash(10_000.0)
            .sizing(SizingConfig {
                margin_per_trade: 500.0,
                leverage: 1,
                max_contracts: 50,
            })
            .fees(FeeModel::Zero)
            .slippage(SlippageModel::Zero)
            .periods_per_year(252 * 24 * 60) // per-minute
            .build()
            .unwrap(),
        DirectionalBrain::new(),
    )
    .with_candles(candles)
    .run()
    .unwrap();

    let sharpe = result.sharpe_ratio().expect("sharpe should be defined");
    let sortino = result.sortino_ratio().expect("sortino should be defined");
    assert!(sharpe.is_finite(), "sharpe NaN/inf: {sharpe}");
    assert!(sortino.is_finite(), "sortino NaN/inf: {sortino}");
    // Equity curve has 1 + N samples; period returns has N.
    assert_eq!(result.equity_curve.len(), 201);
    assert_eq!(result.period_returns.len(), 200);
}


// ── Moving averages ───────────────────────────────────────────────────────────

// ── Brain ──────────────────────────────────────────────────────────────

const FAST: usize = 5;
const SLOW: usize = 20;

struct SmaCrossBrain {
    state: Mutex<SmaState>,
}
#[derive(Default)]
struct SmaState {
    closes: Vec<f64>,
    last_fast_above: Option<bool>,
}
impl SmaCrossBrain {
    fn new() -> Arc<Self> {
        Arc::new(Self {
            state: Mutex::new(SmaState::default()),
        })
    }
}

fn sma(window: &[f64], n: usize) -> Option<f64> {
    if window.len() < n {
        return None;
    }
    Some(window[window.len() - n..].iter().sum::<f64>() / n as f64)
}

impl Brain for SmaCrossBrain {
    fn on_event(&self, event: &MarketDataEvent, _p: &Position) -> CoreResult<Decision> {
        let close = match event {
            MarketDataEvent::Candle { candle, .. } => candle.close,
            _ => return Ok(Decision::hold()),
        };
        let mut st = self.state.lock().unwrap();
        st.closes.push(close);
        if st.closes.len() > SLOW * 2 {
            let drop = st.closes.len() - SLOW * 2;
            st.closes.drain(0..drop);
        }
        let (Some(fast), Some(slow)) = (sma(&st.closes, FAST), sma(&st.closes, SLOW)) else {
            return Ok(Decision::hold());
        };
        let fast_above = fast > slow;
        let decision = match st.last_fast_above {
            Some(prev) if prev != fast_above => {
                if fast_above {
                    Decision::buy(0.9)
                } else {
                    Decision::sell(0.9)
                }
            }
            _ => Decision::hold(),
        };
        st.last_fast_above = Some(fast_above);
        Ok(decision)
    }
}

// ── Series ─────────────────────────────────────────────────────────────

fn sinusoidal_candles(n: usize) -> Vec<Candle> {
    (0..n)
        .map(|i| {
            let close = 100.0 + 10.0 * (i as f64 * 0.15).sin();
            Candle {
                time: i as i64 * 60_000,
                open: close,
                high: close,
                low: close,
                close,
                volume: 1.0,
            }
        })
        .collect()
}

// ── Tests ───────────────────────────────────────────────────────────────

#[test]
fn sma_cross_replay_produces_trades_on_sinusoid() {
    let result = Backtest::new(
        BacktestConfig::builder()
            .symbol("BTCUSDT")
            .initial_cash(10_000.0)
            .sizing(SizingConfig {
                margin_per_trade: 1_000.0,
                leverage: 1,
                max_contracts: 100,
            })
            .slippage(SlippageModel::Zero)
            .fees(FeeModel::Zero)
            .build()
            .unwrap(),
        SmaCrossBrain::new(),
    )
    .with_candles(sinusoidal_candles(200))
    .run()
    .unwrap();

    // Brain emits buy on every up-cross, sell on every down-cross. The
    // 200-candle sinusoid produces several full cycles → at least one
    // closed round-trip.
    assert!(
        result.signals_emitted >= 4,
        "expected >= 4 brain signals, got {}",
        result.signals_emitted
    );
    assert!(
        !result.trades.is_empty(),
        "expected at least one closed trade"
    );
    // With zero fees and zero slippage, total_fees must be 0.
    assert!((result.total_fees - 0.0).abs() < 1e-12);
    // Equity high-water mark logic: max_drawdown is never positive.
    assert!(result.max_drawdown <= 0.0);
}

#[test]
fn deterministic_replay_same_brain_same_series() {
    let candles = sinusoidal_candles(200);
    let make_cfg = || {
        BacktestConfig::builder()
            .symbol("BTCUSDT")
            .initial_cash(10_000.0)
            .sizing(SizingConfig {
                margin_per_trade: 1_000.0,
                leverage: 1,
                max_contracts: 100,
            })
            .fees(FeeModel::Flat(0.0005))
            .slippage(SlippageModel::FixedBps(2.0))
            .build()
            .unwrap()
    };

    let r1 = Backtest::new(make_cfg(), SmaCrossBrain::new())
        .with_candles(candles.clone())
        .run()
        .unwrap();
    let r2 = Backtest::new(make_cfg(), SmaCrossBrain::new())
        .with_candles(candles)
        .run()
        .unwrap();

    assert_eq!(r1.signals_emitted, r2.signals_emitted);
    assert_eq!(r1.orders_filled, r2.orders_filled);
    assert_eq!(r1.trades.len(), r2.trades.len());
    assert!((r1.net_pnl - r2.net_pnl).abs() < 1e-9);
    assert!((r1.total_fees - r2.total_fees).abs() < 1e-9);
    assert!((r1.max_drawdown - r2.max_drawdown).abs() < 1e-9);
}

#[test]
fn slippage_reduces_pnl_vs_zero_baseline() {
    let candles = sinusoidal_candles(200);
    let base_cfg = |slip: SlippageModel| {
        BacktestConfig::builder()
            .symbol("BTCUSDT")
            .initial_cash(10_000.0)
            .sizing(SizingConfig {
                margin_per_trade: 1_000.0,
                leverage: 1,
                max_contracts: 100,
            })
            .slippage(slip)
            .fees(FeeModel::Zero)
            .build()
            .unwrap()
    };

    let baseline = Backtest::new(base_cfg(SlippageModel::Zero), SmaCrossBrain::new())
        .with_candles(candles.clone())
        .run()
        .unwrap();
    let with_slip = Backtest::new(
        base_cfg(SlippageModel::FixedBps(10.0)),
        SmaCrossBrain::new(),
    )
    .with_candles(candles)
    .run()
    .unwrap();

    // Same brain, same series, same fees (zero), only slippage differs.
    // Slippage is symmetric adverse → with-slippage PnL ≤ baseline PnL.
    assert!(
        with_slip.net_pnl <= baseline.net_pnl + 1e-9,
        "slippage should not improve realised PnL: baseline={}, with_slip={}",
        baseline.net_pnl,
        with_slip.net_pnl
    );
    assert_eq!(with_slip.trades.len(), baseline.trades.len());
}


// ── Engine ────────────────────────────────────────────────────────────────────

/// Brain that always emits the configured signal.
struct FixedBrain {
    signal: SignalType,
}
impl Brain for FixedBrain {
    fn on_event(&self, _e: &MarketDataEvent, _p: &Position) -> CoreResult<Decision> {
        Ok(match self.signal {
            SignalType::Hold => Decision::hold(),
            SignalType::Buy => Decision::buy(1.0),
            SignalType::Sell => Decision::sell(1.0),
            SignalType::Close => Decision::close(),
        })
    }
}

fn flat_series(n: usize, price: f64) -> Vec<Candle> {
    (0..n)
        .map(|i| Candle {
            time: i as i64 * 60_000,
            open: price,
            high: price,
            low: price,
            close: price,
            volume: 1.0,
        })
        .collect()
}

fn ramp_series(n: usize, start: f64, step: f64) -> Vec<Candle> {
    (0..n)
        .map(|i| {
            let p = start + step * i as f64;
            Candle {
                time: i as i64 * 60_000,
                open: p,
                high: p,
                low: p,
                close: p,
                volume: 1.0,
            }
        })
        .collect()
}

fn engine_cfg() -> BacktestConfig {
    BacktestConfig::builder()
        .symbol("BTCUSDT")
        .initial_cash(10_000.0)
        .sizing(SizingConfig {
            margin_per_trade: 1_000.0,
            leverage: 1,
            max_contracts: 100,
        })
        .build()
        .unwrap()
}

#[test]
fn hold_brain_produces_no_trades() {
    let result = Backtest::new(
        engine_cfg(),
        Arc::new(FixedBrain {
            signal: SignalType::Hold,
        }),
    )
    .with_candles(flat_series(50, 100.0))
    .run()
    .unwrap();
    assert_eq!(result.signals_emitted, 0);
    assert_eq!(result.orders_filled, 0);
    assert_eq!(result.trades.len(), 0);
    assert_eq!(result.net_pnl, 0.0);
    assert_eq!(result.candles_processed, 50);
    // Equity curve always seeds the initial cash, then one sample
    // per candle.
    assert_eq!(result.equity_curve.len(), 51);
    assert_eq!(result.period_returns.len(), 50);
}

#[test]
fn buy_then_close_realises_pnl_on_uptrend() {
    // Buy on every candle. Position opens once; subsequent buys add
    // to it (pyramiding). Test just runs to completion and asserts
    // we accumulated *some* position and saw no trade close yet.
    let result = Backtest::new(
        engine_cfg(),
        Arc::new(FixedBrain {
            signal: SignalType::Buy,
        }),
    )
    .with_candles(ramp_series(20, 100.0, 1.0))
    .run()
    .unwrap();
    // Every candle emits Buy → orders_filled equals candle count
    // (sizer always returns ≥ 1 contract here).
    assert_eq!(result.orders_filled, 20);
    // No reducing fills yet → no completed trades.
    assert_eq!(result.trades.len(), 0);
    assert_eq!(result.net_pnl, 0.0);
}

#[test]
fn determinism_two_runs_same_inputs() {
    let series = ramp_series(30, 100.0, 0.5);
    let r1 = Backtest::new(
        engine_cfg(),
        Arc::new(FixedBrain {
            signal: SignalType::Buy,
        }),
    )
    .with_candles(series.clone())
    .run()
    .unwrap();
    let r2 = Backtest::new(
        engine_cfg(),
        Arc::new(FixedBrain {
            signal: SignalType::Buy,
        }),
    )
    .with_candles(series)
    .run()
    .unwrap();
    assert_eq!(r1.candles_processed, r2.candles_processed);
    assert_eq!(r1.signals_emitted, r2.signals_emitted);
    assert_eq!(r1.orders_filled, r2.orders_filled);
    assert_eq!(r1.trades.len(), r2.trades.len());
    assert!((r1.net_pnl - r2.net_pnl).abs() < 1e-12);
    assert_eq!(r1.equity_curve, r2.equity_curve);
}

#[test]
fn close_against_flat_is_noop() {
    let result = Backtest::new(
        engine_cfg(),
        Arc::new(FixedBrain {
            signal: SignalType::Close,
        }),
    )
    .with_candles(flat_series(10, 100.0))
    .run()
    .unwrap();
    assert_eq!(result.orders_filled, 0);
    assert_eq!(result.trades.len(), 0);
}

struct SymBrain;
impl Brain for SymBrain {
    fn on_event(&self, e: &MarketDataEvent, _p: &Position) -> CoreResult<Decision> {
        match e.symbol().as_str() {
            "AAA" => Ok(Decision::buy(1.0)),
            "BBB" => Ok(Decision::sell(1.0)),
            _ => Ok(Decision::hold()),
        }
    }
}

#[test]
fn multi_symbol_routes_to_each_symbol_state() {
    // Brain that goes long on AAA and short on BBB; FlipBrain takes
    // both sides simultaneously to verify per-symbol position state.
    let cfg = BacktestConfig::builder()
        .symbols(["AAA", "BBB"])
        .initial_cash(100_000.0)
        .sizing(SizingConfig {
            margin_per_trade: 1_000.0,
            leverage: 1,
            max_contracts: 100,
        })
        .build()
        .unwrap();
    let result = Backtest::new(cfg, Arc::new(SymBrain))
        .with_symbol_candles("AAA", flat_series(5, 100.0))
        .with_symbol_candles("BBB", flat_series(5, 200.0))
        .run()
        .unwrap();
    // 5 AAA + 5 BBB = 10 orders (every candle, both symbols).
    assert_eq!(result.candles_processed, 10);
    assert_eq!(result.orders_filled, 10);
    // No closes — no completed trades yet.
    assert_eq!(result.trades.len(), 0);
    // Symbol label is the concatenated list.
    assert_eq!(result.symbol, "AAA,BBB");
}

#[test]
fn run_rejects_non_finite_candle() {
    // A NaN close passed straight through `with_candles` (bypassing
    // the CSV loader) must still be caught — otherwise it poisons
    // the equity curve and every metric silently.
    let mut series = flat_series(5, 100.0);
    series[2].close = f64::NAN;
    let err = Backtest::new(
        engine_cfg(),
        Arc::new(FixedBrain {
            signal: SignalType::Hold,
        }),
    )
    .with_candles(series)
    .run()
    .unwrap_err();
    assert!(matches!(err, Error::Candle { .. }), "got {err:?}");
}

struct DualLong;
impl Brain for DualLong {
    fn on_event(&self, e: &MarketDataEvent, p: &Position) -> CoreResult<Decision> {
        if p.qty == 0.0 && matches!(e, MarketDataEvent::Candle { .. }) {
            Ok(Decision::buy(1.0))
        } else {
            Ok(Decision::hold())
        }
    }
}

#[test]
fn multi_symbol_equity_curve_deterministic_across_runs() {
    // Regression test for the HashMap-iteration-order determinism
    // bug: with two simultaneously-open positions, `equity_now` sums
    // unrealised PnL across the per-symbol map. Float addition isn't
    // associative, so a randomized map order would make the equity
    // curve differ run-to-run. `BTreeMap` fixes the order. Prices
    // are deliberately awkward so reordering *would* change the ULPs.
    let run = || {
        let cfg = BacktestConfig::builder()
            .symbols(["AAA", "BBB", "CCC"])
            .initial_cash(1_000_000.0)
            .sizing(SizingConfig {
                margin_per_trade: 1_000.0,
                leverage: 1,
                max_contracts: 100,
            })
            .build()
            .unwrap();
        Backtest::new(cfg, Arc::new(DualLong))
            .with_symbol_candles("AAA", ramp_series(40, 100.13, 0.37))
            .with_symbol_candles("BBB", ramp_series(40, 250.07, -0.19))
            .with_symbol_candles("CCC", ramp_series(40, 33.31, 0.53))
            .run()
            .unwrap()
    };

    let r1 = run();
    let r2 = run();
    // Bit-exact across runs — not just approximately equal.
    assert_eq!(r1.equity_curve, r2.equity_curve);
    assert_eq!(r1.period_returns, r2.period_returns);
    assert_eq!(r1.net_pnl.to_bits(), r2.net_pnl.to_bits());
    assert_eq!(r1.max_drawdown.to_bits(), r2.max_drawdown.to_bits());
}

// ── Random runs ─────────────────────────────────────────────────────────────

/// Replays a stream of operations: hold, buy, sell, close.
struct OpcodeBrain {
    opcodes: Vec<u8>,
    seen: AtomicUsize,
}

impl Brain for OpcodeBrain {
    fn on_event(&self, _e: &MarketDataEvent, _p: &Position) -> CoreResult<Decision> {
        let i = self.seen.fetch_add(1, Ordering::Relaxed);
        Ok(match self.opcodes[i % self.opcodes.len()] {
            1 => Decision::buy(1.0),
            2 => Decision::sell(1.0),
            3 => Decision::close(),
            _ => Decision::hold(),
        })
    }
}

fn run_opcodes(prices: &[f64], opcodes: &[u8]) -> BacktestResult {
    let candles = prices
        .iter()
        .enumerate()
        .map(|(i, &p)| Candle {
            time: i as i64 * 60_000,
            open: p,
            high: p,
            low: p,
            close: p,
            volume: 1.0,
        })
        .collect();
    let cfg = BacktestConfig::builder()
        .symbol("BTCUSDT")
        .initial_cash(1_000_000.0)
        .sizing(SizingConfig {
            margin_per_trade: 1_000.0,
            leverage: 1,
            max_contracts: 100,
        })
        .fees(FeeModel::Flat(0.0005))
        .slippage(SlippageModel::FixedBps(2.0))
        .build()
        .unwrap();
    let brain = OpcodeBrain { opcodes: opcodes.to_vec(), seen: AtomicUsize::new(0) };
    Backtest::new(cfg, Arc::new(brain)).with_candles(candles).run().unwrap()
}

#[test]
fn engine_invariants_hold_for_random_runs() {
    let mut state: u64 = 42;
    let mut draw = |n: u64| {
        state = state.wrapping_mul(6_364_136_223_846_793_005).wrapping_add(1);
        (state >> 33) % n
    };
    for _ in 0..64 {
        let n = 1 + draw(59) as usize;
        let prices: Vec<f64> = (0..n).map(|_| 1.0 + draw(999_900) as f64 / 100.0).collect();
        let opcodes: Vec<u8> = (0..n).map(|_| draw(4) as u8).collect();
        let r = run_opcodes(&prices, &opcodes);

        // No NaN or infinity anywhere.
        assert!(r.net_pnl.is_finite() && r.total_fees.is_finite() && r.final_cash.is_finite());
        assert!(r.equity_curve.iter().all(|e| e.is_finite()));
        assert!(r.period_returns.iter().all(|x| x.is_finite()));

        // The totals are those of the trades.
        let sum_net: f64 = r.trades.iter().map(|t| t.net_pnl()).sum();
        let sum_fee: f64 = r.trades.iter().map(|t| t.fee).sum();
        assert!((r.net_pnl - sum_net).abs() < 1e-6);
        assert!((r.total_fees - sum_fee).abs() < 1e-6);
        assert!((r.final_cash - (r.initial_cash + r.net_pnl)).abs() < 1e-6);

        // One equity sample per candle after the first, one return per candle.
        assert_eq!(r.candles_processed, n);
        assert_eq!(r.equity_curve.len(), n + 1);
        assert_eq!(r.equity_times.len(), n + 1);
        assert_eq!(r.period_returns.len(), n);
        assert!(r.max_drawdown <= 0.0);

        // A second run is the same bit for bit.
        let again = run_opcodes(&prices, &opcodes);
        assert_eq!(r.equity_curve, again.equity_curve);
        assert_eq!(r.net_pnl.to_bits(), again.net_pnl.to_bits());
    }
}

#[test]
fn untraded_symbols_change_nothing() {
    // A symbol that is not traded is shown to the strategy and changes nothing.
    let cfg = BacktestConfig::builder().symbol("AAA").build().unwrap();
    let brain = OpcodeBrain { opcodes: vec![1], seen: AtomicUsize::new(0) };
    let r = Backtest::new(cfg, Arc::new(brain))
        .with_symbol_candles("ZZZ", flat_series(3, 10.0))
        .run()
        .unwrap();
    assert_eq!(r.candles_processed, 3);
    assert_eq!(r.signals_emitted, 0);
    assert_eq!(r.orders_filled, 0);
    assert_eq!(r.equity_curve.len(), 4);
}
