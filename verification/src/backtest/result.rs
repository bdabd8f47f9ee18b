//! What a backtest came to.
//!
//! Amounts are added up outside the library; what is decided here is how a
//! trade is classified and counted, how samples of the account are kept, and
//! how times go with them.

use chrono::TimeZone;
use vstd::prelude::*;

use crate::domain::market::{Side, Symbol};
use crate::num::Binary64;
use crate::risk::session_pnl::Outcome;
use crate::text::{decimal, digits};

verus! {

/// A closed trade.
#[derive(Clone, Debug)]
pub struct TradeOutcome {
    /// Text of the symbol.
    pub symbol: String,
    /// Side of the closing fill.
    pub close_side: Side,
    /// Contracts closed.
    pub qty: u128,
    /// Average entry price.
    pub entry_price: Binary64,
    /// Exit price.
    pub exit_price: Binary64,
    /// Result before fees and funding.
    pub gross_pnl: Binary64,
    /// Fee charged to the closed contracts.
    pub fee: Binary64,
    /// Funding accrued on the closed contracts, positive if received.
    pub funding: Binary64,
    /// Net result: `gross_pnl` less `fee` plus `funding`.
    pub net_pnl: Binary64,
    /// Time of the close, in milliseconds since the UNIX epoch.
    pub closed_at: i64,
}

impl TradeOutcome {
    /// How the trade ended.
    pub open spec fn spec_outcome(self) -> Outcome {
        Outcome::spec_of(self.net_pnl)
    }

    /// How the trade ended, by its net result.
    pub fn outcome(&self) -> (r: Outcome)
        ensures
            r == self.spec_outcome(),
    {
        Outcome::of(self.net_pnl)
    }
}

/// One point of the equity curve.
#[derive(Clone, Copy, Debug, PartialEq, Eq, Structural)]
pub struct EquityPoint {
    /// Milliseconds since the UNIX epoch.
    pub time: i64,
    /// Equity.
    pub equity: Binary64,
}

/// The trades that ended in the given way.
pub open spec fn trades_where(trades: Seq<TradeOutcome>, outcome: Outcome) -> Seq<TradeOutcome> {
    trades.filter(|t: TradeOutcome| t.spec_outcome() == outcome)
}

/// The net results of the trades that ended in the given way.
pub open spec fn nets_where(trades: Seq<TradeOutcome>, outcome: Outcome) -> Seq<Binary64> {
    trades_where(trades, outcome).map_values(|t: TradeOutcome| t.net_pnl)
}

/// Net results of the trades that ended in the given way, in order.
pub fn collect_nets(trades: &Vec<TradeOutcome>, outcome: Outcome) -> (r: Vec<Binary64>)
    ensures
        r@ == nets_where(trades@, outcome),
{
    let mut nets: Vec<Binary64> = Vec::new();
    let mut i: usize = 0;
    proof {
        reveal(Seq::filter);
        assert(trades@.take(0) =~= Seq::empty());
        assert(nets@ =~= nets_where(trades@.take(0), outcome));
    }
    while i < trades.len()
        invariant
            i <= trades@.len(),
            nets@ == nets_where(trades@.take(i as int), outcome),
        decreases trades@.len() - i,
    {
        proof {
            reveal(Seq::filter);
            assert(trades@.take(i + 1).drop_last() =~= trades@.take(i as int));
        }
        if trades[i].outcome() == outcome {
            nets.push(trades[i].net_pnl);
        }
        i = i + 1;
        assert(nets@ =~= nets_where(trades@.take(i as int), outcome));
    }
    assert(trades@.take(i as int) =~= trades@);
    nets
}

/// Pair times with equities, as far as both go.
pub fn zip_points(times: &Vec<i64>, curve: &Vec<Binary64>) -> (r: Vec<EquityPoint>)
    ensures
        r@.len() == (if times@.len() < curve@.len() {
            times@.len()
        } else {
            curve@.len()
        }),
        forall|i: int|
            0 <= i < r@.len() ==> #[trigger] r@[i] == (EquityPoint {
                time: times@[i],
                equity: curve@[i],
            }),
{
    let mut points: Vec<EquityPoint> = Vec::new();
    let mut i: usize = 0;
    while i < times.len() && i < curve.len()
        invariant
            i <= times@.len(),
            i <= curve@.len(),
            points@.len() == i,
            forall|k: int|
                0 <= k < i ==> #[trigger] points@[k] == (EquityPoint {
                    time: times@[k],
                    equity: curve@[k],
                }),
        decreases times@.len() - i,
    {
        points.push(EquityPoint { time: times[i], equity: curve[i] });
        i = i + 1;
    }
    points
}

/// What a backtest came to.
#[derive(Clone, Debug)]
pub struct BacktestResult {
    /// Label of the traded symbols.
    pub symbol: String,
    /// Starting balance.
    pub initial_cash: Binary64,
    /// Balance at the end.
    pub final_cash: Binary64,
    /// Net result.
    pub net_pnl: Binary64,
    /// Fees of all trades.
    pub total_fees: Binary64,
    /// Funding received.
    pub funding_received: Binary64,
    /// Funding paid.
    pub funding_paid: Binary64,
    /// Candles replayed.
    pub candles_processed: usize,
    /// Decisions that were not holds.
    pub signals_emitted: usize,
    /// Fills.
    pub orders_filled: u128,
    /// Decisions that a gate blocked.
    pub orders_blocked: usize,
    /// Closed trades.
    pub trades: Vec<TradeOutcome>,
    /// Largest drop of equity below its high, zero or negative.
    pub max_drawdown: Binary64,
    /// Equity before the first candle and after each candle.
    pub equity_curve: Vec<Binary64>,
    /// Time of each equity sample.
    pub equity_times: Vec<i64>,
    /// Relative change of equity per candle.
    pub period_returns: Vec<Binary64>,
    /// Risk-free rate per period.
    pub risk_free_rate: Binary64,
    /// Periods in a year.
    pub periods_per_year: u32,
}

impl BacktestResult {
    /// Equity samples with their times. Empty if no times were kept.
    pub fn equity_points(&self) -> (r: Vec<EquityPoint>)
        ensures
            r@.len() == (if self.equity_times@.len() < self.equity_curve@.len() {
                self.equity_times@.len()
            } else {
                self.equity_curve@.len()
            }),
            forall|i: int|
                0 <= i < r@.len() ==> #[trigger] r@[i] == (EquityPoint {
                    time: self.equity_times@[i],
                    equity: self.equity_curve@[i],
                }),
    {
        zip_points(&self.equity_times, &self.equity_curve)
    }

    fn count(&self, outcome: Outcome) -> (r: usize)
        ensures
            r == trades_where(self.trades@, outcome).len(),
    {
        collect_nets(&self.trades, outcome).len()
    }

    /// Trades with a net result above zero.
    pub fn wins(&self) -> (r: usize)
        ensures
            r == trades_where(self.trades@, Outcome::Win).len(),
    {
        self.count(Outcome::Win)
    }

    /// Trades with a net result below zero.
    pub fn losses(&self) -> (r: usize)
        ensures
            r == trades_where(self.trades@, Outcome::Loss).len(),
    {
        self.count(Outcome::Loss)
    }

    /// The other trades.
    pub fn breakevens(&self) -> (r: usize)
        ensures
            r == trades_where(self.trades@, Outcome::Breakeven).len(),
    {
        self.count(Outcome::Breakeven)
    }
}

/// Figures of a summary that are worked out and put into text elsewhere. An
/// absent figure is one that cannot be worked out.
#[derive(Debug)]
pub struct SummaryFigures {
    /// Win rate in percent.
    pub win_rate: String,
    /// Mean net result of a trade.
    pub expectancy: Option<String>,
    /// Mean net result of a win.
    pub avg_win: Option<String>,
    /// Mean net result of a loss.
    pub avg_loss: Option<String>,
    /// Wins over losses; absent without losses.
    pub profit_factor: Option<String>,
    /// Sharpe ratio.
    pub sharpe: Option<String>,
    /// Sortino ratio.
    pub sortino: Option<String>,
    /// Total return in percent.
    pub total_return: String,
    /// Net result.
    pub net_pnl: String,
    /// Fees.
    pub total_fees: String,
    /// Funding received.
    pub funding_received: String,
    /// Funding paid.
    pub funding_paid: String,
    /// Funding received less funding paid.
    pub net_funding: String,
    /// Largest drop.
    pub max_drawdown: String,
    /// Balance at the end.
    pub final_cash: String,
}

/// A figure, or what stands in for an absent one.
pub open spec fn figure(value: Option<String>, otherwise: Seq<char>) -> Seq<char> {
    match value {
        Some(text) => text@,
        None => otherwise,
    }
}

fn append_figure(text: &mut String, value: &Option<String>, otherwise: &str)
    ensures
        final(text)@ == old(text)@ + figure(*value, otherwise@),
{
    match value {
        Some(figure) => text.append(figure.as_str()),
        None => text.append(otherwise),
    }
}

impl BacktestResult {
    /// The counts of a summary: candles, signals and orders, trades.
    pub open spec fn counts_text(self) -> Seq<char> {
        "Backtest ["@ + self.symbol@ + "]\n├ candles_processed: "@ + digits(
            self.candles_processed as nat,
        ) + "\n├ signals / orders : "@ + digits(self.signals_emitted as nat) + " / "@ + digits(
            self.orders_filled as nat,
        ) + " ("@ + digits(self.orders_blocked as nat) + " risk-blocked)\n├ trades           : "@
            + digits(self.trades@.len()) + " (W "@ + digits(
            trades_where(self.trades@, Outcome::Win).len(),
        ) + " / L "@ + digits(trades_where(self.trades@, Outcome::Loss).len()) + " / BE "@ + digits(
            trades_where(self.trades@, Outcome::Breakeven).len(),
        ) + ")\n"@
    }

    /// The figures of a summary that speak of trades.
    pub open spec fn trade_text(figures: SummaryFigures) -> Seq<char> {
        "├ win_rate         : "@ + figures.win_rate@ + "%\n├ expectancy       : "@ + figure(
            figures.expectancy,
            "n/a"@,
        ) + "\n├ avg win / loss   : "@ + figure(figures.avg_win, "n/a"@) + " / "@ + figure(
            figures.avg_loss,
            "n/a"@,
        ) + "\n├ profit_factor    : "@ + figure(figures.profit_factor, "∞ (no losses)"@)
            + "\n├ sharpe / sortino : "@ + figure(figures.sharpe, "n/a"@) + " / "@ + figure(
            figures.sortino,
            "n/a"@,
        ) + "\n"@
    }

    /// The figures of a summary that speak of the account.
    pub open spec fn account_text(figures: SummaryFigures) -> Seq<char> {
        "├ total_return     : "@ + figures.total_return@ + "%\n├ net_pnl          : "@
            + figures.net_pnl@ + "\n├ total_fees       : "@ + figures.total_fees@
            + "\n├ funding recv/paid: "@ + figures.funding_received@ + " / "@
            + figures.funding_paid@ + " (net "@ + figures.net_funding@
            + ")\n├ max_drawdown     : "@ + figures.max_drawdown@ + "\n└ final_cash       : "@
            + figures.final_cash@
    }

    fn append_counts(&self, text: &mut String)
        ensures
            final(text)@ == old(text)@ + self.counts_text(),
    {
        let ghost before = text@;
        text.append("Backtest [");
        text.append(self.symbol.as_str());
        text.append("]\n├ candles_processed: ");
        text.append(decimal(self.candles_processed as u128).as_str());
        text.append("\n├ signals / orders : ");
        text.append(decimal(self.signals_emitted as u128).as_str());
        text.append(" / ");
        text.append(decimal(self.orders_filled).as_str());
        text.append(" (");
        text.append(decimal(self.orders_blocked as u128).as_str());
        text.append(" risk-blocked)\n├ trades           : ");
        text.append(decimal(self.trades.len() as u128).as_str());
        text.append(" (W ");
        text.append(decimal(self.wins() as u128).as_str());
        text.append(" / L ");
        text.append(decimal(self.losses() as u128).as_str());
        text.append(" / BE ");
        text.append(decimal(self.breakevens() as u128).as_str());
        text.append(")\n");
        assert(text@ =~= before + self.counts_text());
    }

    fn append_trades(text: &mut String, figures: &SummaryFigures)
        ensures
            final(text)@ == old(text)@ + Self::trade_text(*figures),
    {
        let ghost before = text@;
        text.append("├ win_rate         : ");
        text.append(figures.win_rate.as_str());
        text.append("%\n├ expectancy       : ");
        append_figure(text, &figures.expectancy, "n/a");
        text.append("\n├ avg win / loss   : ");
        append_figure(text, &figures.avg_win, "n/a");
        text.append(" / ");
        append_figure(text, &figures.avg_loss, "n/a");
        text.append("\n├ profit_factor    : ");
        append_figure(text, &figures.profit_factor, "∞ (no losses)");
        text.append("\n├ sharpe / sortino : ");
        append_figure(text, &figures.sharpe, "n/a");
        text.append(" / ");
        append_figure(text, &figures.sortino, "n/a");
        text.append("\n");
        assert(text@ =~= before + Self::trade_text(*figures));
    }

    fn append_account(text: &mut String, figures: &SummaryFigures)
        ensures
            final(text)@ == old(text)@ + Self::account_text(*figures),
    {
        let ghost before = text@;
        text.append("├ total_return     : ");
        text.append(figures.total_return.as_str());
        text.append("%\n├ net_pnl          : ");
        text.append(figures.net_pnl.as_str());
        text.append("\n├ total_fees       : ");
        text.append(figures.total_fees.as_str());
        text.append("\n├ funding recv/paid: ");
        text.append(figures.funding_received.as_str());
        text.append(" / ");
        text.append(figures.funding_paid.as_str());
        text.append(" (net ");
        text.append(figures.net_funding.as_str());
        text.append(")\n├ max_drawdown     : ");
        text.append(figures.max_drawdown.as_str());
        text.append("\n└ final_cash       : ");
        text.append(figures.final_cash.as_str());
        assert(text@ =~= before + Self::account_text(*figures));
    }

    /// A summary for people to read.
    pub fn summary(&self, figures: &SummaryFigures) -> (r: String)
        ensures
            r@ == self.counts_text() + Self::trade_text(*figures) + Self::account_text(*figures),
    {
        let mut text = String::new();
        self.append_counts(&mut text);
        Self::append_trades(&mut text, figures);
        Self::append_account(&mut text, figures);
        assert(text@ =~= self.counts_text() + Self::trade_text(*figures) + Self::account_text(
            *figures,
        ));
        text
    }
}

/// Texts joined by commas.
pub open spec fn joined(symbols: Seq<Symbol>) -> Seq<char>
    decreases symbols.len(),
{
    if symbols.len() == 0 {
        Seq::empty()
    } else if symbols.len() == 1 {
        symbols[0]@
    } else {
        joined(symbols.drop_last()) + ","@ + symbols.last()@
    }
}

/// The label of a backtest: its symbols in order, joined by commas.
pub fn symbol_label(symbols: &Vec<Symbol>) -> (r: String)
    ensures
        r@ == joined(symbols@),
{
    if symbols.len() == 0 {
        let label = String::new();
        assert(label@ =~= joined(symbols@));
        return label;
    }
    let mut label = symbols[0].render();
    let mut i: usize = 1;
    assert(symbols@.take(1).len() == 1);
    while i < symbols.len()
        invariant
            1 <= i <= symbols@.len(),
            label@ == joined(symbols@.take(i as int)),
        decreases symbols@.len() - i,
    {
        label.append(",");
        label.append(symbols[i].as_str());
        proof {
            assert(symbols@.take(i + 1).drop_last() =~= symbols@.take(i as int));
            assert(symbols@.take(i + 1).last() == symbols@[i as int]);
        }
        i = i + 1;
    }
    assert(symbols@.take(i as int) =~= symbols@);
    label
}

/// Samples of an account as a value.
#[verifier::ext_equal]
pub struct EquityView {
    /// Highest equity so far.
    pub high: Binary64,
    /// Largest drop below it so far.
    pub max_drawdown: Binary64,
    /// Samples, the starting balance first.
    pub curve: Seq<Binary64>,
    /// Relative changes, one per sample after the first.
    pub returns: Seq<Binary64>,
}

impl EquityView {
    /// Nothing but the starting balance.
    pub open spec fn started(cash: Binary64) -> Self {
        EquityView {
            high: cash,
            max_drawdown: Binary64::spec_zero(),
            curve: seq![cash],
            returns: Seq::empty(),
        }
    }

    /// The high once an equity is counted in.
    pub open spec fn raised(self, equity: Binary64) -> Binary64 {
        if self.high.spec_lt(equity) {
            equity
        } else {
            self.high
        }
    }

    /// The samples after one more. The relative change counts only where there
    /// was equity to change.
    pub open spec fn sampled(self, equity: Binary64, drop: Binary64, change: Binary64) -> Self {
        EquityView {
            high: self.raised(equity),
            max_drawdown: if drop.spec_lt(self.max_drawdown) {
                drop
            } else {
                self.max_drawdown
            },
            curve: self.curve.push(equity),
            returns: self.returns.push(
                if self.curve.last().spec_is_positive() {
                    change
                } else {
                    Binary64::spec_zero()
                },
            ),
        }
    }
}

/// Samples of an account: one before the first candle and one per candle.
#[derive(Debug)]
pub struct EquityTracker {
    high: Binary64,
    max_drawdown: Binary64,
    last: Binary64,
    curve: Vec<Binary64>,
    returns: Vec<Binary64>,
}

impl View for EquityTracker {
    type V = EquityView;

    closed spec fn view(&self) -> EquityView {
        EquityView {
            high: self.high,
            max_drawdown: self.max_drawdown,
            curve: self.curve@,
            returns: self.returns@,
        }
    }
}

impl EquityTracker {
    /// The curve is not empty, and its end is at hand.
    pub closed spec fn is_sound(&self) -> bool {
        self.curve@.len() > 0 && self.last == self.curve@.last()
    }

    /// Nothing but the starting balance.
    pub fn new(cash: Binary64) -> (r: Self)
        ensures
            r@ == EquityView::started(cash),
            r.is_sound(),
    {
        let mut curve: Vec<Binary64> = Vec::new();
        curve.push(cash);
        let tracker = EquityTracker {
            high: cash,
            max_drawdown: Binary64::zero(),
            last: cash,
            curve,
            returns: Vec::new(),
        };
        assert(tracker@ =~= EquityView::started(cash));
        tracker
    }

    /// The high once `equity` is counted in; the drop is measured from it.
    pub fn high_with(&self, equity: Binary64) -> (r: Binary64)
        ensures
            r == self@.raised(equity),
    {
        if self.high.lt(equity) {
            equity
        } else {
            self.high
        }
    }

    /// The last sample; the relative change is measured from it.
    pub fn last(&self) -> (r: Binary64)
        requires
            self.is_sound(),
        ensures
            r == self@.curve.last(),
    {
        self.last
    }

    /// Keep one more sample. `drop` is `equity` less the high, and `change`
    /// its relative change from the last sample.
    pub fn sample_step(&mut self, equity: Binary64, drop: Binary64, change: Binary64)
        requires
            old(self).is_sound(),
        ensures
            final(self)@ == old(self)@.sampled(equity, drop, change),
            final(self).is_sound(),
    {
        self.high = self.high_with(equity);
        if drop.lt(self.max_drawdown) {
            self.max_drawdown = drop;
        }
        self.curve.push(equity);
        if self.last.is_positive() {
            self.returns.push(change);
        } else {
            self.returns.push(Binary64::zero());
        }
        self.last = equity;
        assert(self@ =~= old(self)@.sampled(equity, drop, change));
    }

    /// The largest drop so far.
    pub fn max_drawdown(&self) -> (r: Binary64)
        ensures
            r == self@.max_drawdown,
    {
        self.max_drawdown
    }

    /// The samples and the relative changes.
    pub fn into_returns(self) -> (r: (Vec<Binary64>, Vec<Binary64>))
        ensures
            r.0@ == self@.curve,
            r.1@ == self@.returns,
    {
        (self.curve, self.returns)
    }
}

/// Earliest time, in milliseconds since the UNIX epoch, that the calendar
/// reaches back to.
pub const CALENDAR_MIN_MS: i64 = -8_334_601_228_800_000;

/// Latest time that the calendar reaches.
pub const CALENDAR_MAX_MS: i64 = 8_210_266_876_799_999;

/// Places a time on the calendar with `chrono::TimeZone::timestamp_millis_opt`
/// on `chrono::Utc`, and reads it back in milliseconds.
///
/// Trusted: a time between the first millisecond of the year -262143 and the
/// last of the year 262142 is placed and read back as it is; any other time is
/// out of the calendar's range.
#[verifier::external_body]
fn place_on_calendar(ms: i64) -> (r: Option<i64>)
    ensures
        r == (if CALENDAR_MIN_MS <= ms <= CALENDAR_MAX_MS {
            Some(ms)
        } else {
            None
        }),
{
    chrono::Utc.timestamp_millis_opt(ms).single().map(|t| t.timestamp_millis())
}

/// The calendar time of a candle, if the calendar reaches it.
pub fn candle_time(time: i64) -> (r: Option<i64>)
    ensures
        r is Some <==> CALENDAR_MIN_MS <= time <= CALENDAR_MAX_MS,
        r is Some ==> r->0 == time,
{
    place_on_calendar(time)
}

/// The calendar time nearest to that of a candle: its own where the calendar
/// reaches it, else the end of the calendar that it lies beyond.
pub fn nearest_calendar_time(time: i64) -> (r: i64)
    ensures
        r == (if time < CALENDAR_MIN_MS {
            CALENDAR_MIN_MS
        } else if time > CALENDAR_MAX_MS {
            CALENDAR_MAX_MS
        } else {
            time
        }),
{
    match candle_time(time) {
        Some(t) => t,
        None => {
            if time < 0 {
                CALENDAR_MIN_MS
            } else {
                CALENDAR_MAX_MS
            }
        },
    }
}

/// Every trade is counted once.
pub proof fn outcomes_partition_trades(trades: Seq<TradeOutcome>)
    ensures
        trades_where(trades, Outcome::Win).len() + trades_where(trades, Outcome::Loss).len()
            + trades_where(trades, Outcome::Breakeven).len() == trades.len(),
    decreases trades.len(),
{
    reveal(Seq::filter);
    if trades.len() > 0 {
        outcomes_partition_trades(trades.drop_last());
    }
}

/// Samples and changes go together, the high never falls, and the largest drop
/// never shrinks.
pub proof fn samples_are_monotonic(v: EquityView, equity: Binary64, drop: Binary64, change: Binary64)
    requires
        v.curve.len() == v.returns.len() + 1,
    ensures
        ({
            let after = v.sampled(equity, drop, change);
            &&& after.curve.len() == after.returns.len() + 1
            &&& after.high == v.high || v.high.spec_lt(after.high)
            &&& after.max_drawdown == v.max_drawdown || after.max_drawdown.spec_lt(v.max_drawdown)
        }),
{
}

/// The largest drop is never above zero: it starts there, and a sample only
/// ever lowers it.
pub proof fn drawdown_is_never_positive(
    v: EquityView,
    cash: Binary64,
    equity: Binary64,
    drop: Binary64,
    change: Binary64,
)
    requires
        !v.max_drawdown.spec_is_positive(),
    ensures
        !EquityView::started(cash).max_drawdown.spec_is_positive(),
        !v.sampled(equity, drop, change).max_drawdown.spec_is_positive(),
{
}

/// One more sample of an account, as it is handed in.
pub struct Sample {
    /// Equity.
    pub equity: Binary64,
    /// Equity less the high.
    pub drop: Binary64,
    /// Relative change from the last sample.
    pub change: Binary64,
}

impl EquityView {
    /// The samples after more of them.
    pub open spec fn sampled_all(self, samples: Seq<Sample>) -> Self
        decreases samples.len(),
    {
        if samples.len() == 0 {
            self
        } else {
            let s = samples.last();
            self.sampled_all(samples.drop_last()).sampled(s.equity, s.drop, s.change)
        }
    }
}

/// The largest drop is the lowest of zero and all the drops that were handed
/// in, whatever the equities were.
pub proof fn drawdown_is_the_lowest_drop(cash: Binary64, samples: Seq<Sample>)
    requires
        forall|i: int| 0 <= i < samples.len() ==> !(#[trigger] samples[i]).drop.spec_is_nan(),
    ensures
        ({
            let worst = EquityView::started(cash).sampled_all(samples).max_drawdown;
            &&& worst.spec_le(Binary64::spec_zero())
            &&& forall|i: int| 0 <= i < samples.len() ==> worst.spec_le((#[trigger] samples[i]).drop)
            &&& worst == Binary64::spec_zero() || exists|i: int|
                0 <= i < samples.len() && worst == (#[trigger] samples[i]).drop
        }),
    decreases samples.len(),
{
    if samples.len() > 0 {
        let rest = samples.drop_last();
        assert(forall|i: int| 0 <= i < rest.len() ==> rest[i] == samples[i]);
        assert(samples.last() == samples[samples.len() - 1]);
        drawdown_is_the_lowest_drop(cash, rest);
        let before = EquityView::started(cash).sampled_all(rest).max_drawdown;
        let worst = EquityView::started(cash).sampled_all(samples).max_drawdown;
        assert(worst.spec_le(before));
        assert forall|i: int| 0 <= i < samples.len() implies worst.spec_le(
            (#[trigger] samples[i]).drop,
        ) by {
            if i < rest.len() {
                assert(before.spec_le(rest[i].drop));
            }
        }
        if worst == before && before != Binary64::spec_zero() {
            let i = choose|i: int| 0 <= i < rest.len() && before == (#[trigger] rest[i]).drop;
            assert(samples[i].drop == worst);
        }
    }
}

/// The high is the highest of the starting balance and all the samples.
pub proof fn high_is_the_highest_sample(cash: Binary64, samples: Seq<Sample>)
    requires
        !cash.spec_is_nan(),
        forall|i: int| 0 <= i < samples.len() ==> !(#[trigger] samples[i]).equity.spec_is_nan(),
    ensures
        ({
            let high = EquityView::started(cash).sampled_all(samples).high;
            &&& cash.spec_le(high)
            &&& forall|i: int| 0 <= i < samples.len() ==> (#[trigger] samples[i]).equity.spec_le(high)
            &&& high == cash || exists|i: int|
                0 <= i < samples.len() && high == (#[trigger] samples[i]).equity
        }),
    decreases samples.len(),
{
    if samples.len() > 0 {
        let rest = samples.drop_last();
        assert(forall|i: int| 0 <= i < rest.len() ==> rest[i] == samples[i]);
        assert(samples.last() == samples[samples.len() - 1]);
        high_is_the_highest_sample(cash, rest);
        let before = EquityView::started(cash).sampled_all(rest).high;
        let high = EquityView::started(cash).sampled_all(samples).high;
        assert(before.spec_le(high));
        assert forall|i: int| 0 <= i < samples.len() implies (
        #[trigger] samples[i]).equity.spec_le(high) by {
            if i < rest.len() {
                assert(rest[i].equity.spec_le(before));
            }
        }
        if high == before && before != cash {
            let i = choose|i: int| 0 <= i < rest.len() && before == (#[trigger] rest[i]).equity;
            assert(samples[i].equity == high);
        }
    }
}

/// The high that a drop is measured from is no lower than the high so far and
/// the equity, and is one of them.
pub proof fn drops_are_measured_from_the_high(v: EquityView, equity: Binary64)
    requires
        !v.high.spec_is_nan(),
        !equity.spec_is_nan(),
    ensures
        v.high.spec_le(v.raised(equity)),
        equity.spec_le(v.raised(equity)),
        v.raised(equity) == v.high || v.raised(equity) == equity,
{
}

/// The curve is the starting balance and every sample, in order. Each change is
/// kept as it was handed in where the sample before it was above zero, and is
/// zero where it was not.
pub proof fn curve_keeps_every_sample(cash: Binary64, samples: Seq<Sample>)
    ensures
        ({
            let v = EquityView::started(cash).sampled_all(samples);
            &&& v.curve.len() == samples.len() + 1
            &&& v.returns.len() == samples.len()
            &&& v.curve[0] == cash
            &&& forall|i: int|
                0 <= i < samples.len() ==> v.curve[i + 1] == (#[trigger] samples[i]).equity
            &&& forall|i: int|
                0 <= i < samples.len() && Binary64::spec_zero().spec_lt(v.curve[i]) ==> v.returns[i]
                    == (#[trigger] samples[i]).change
            &&& forall|i: int|
                0 <= i < samples.len() && !Binary64::spec_zero().spec_lt(v.curve[i])
                    ==> #[trigger] v.returns[i] == Binary64::spec_zero()
        }),
    decreases samples.len(),
{
    if samples.len() > 0 {
        let rest = samples.drop_last();
        assert(forall|i: int| 0 <= i < rest.len() ==> rest[i] == samples[i]);
        assert(samples.last() == samples[samples.len() - 1]);
        curve_keeps_every_sample(cash, rest);
        let before = EquityView::started(cash).sampled_all(rest);
        let v = EquityView::started(cash).sampled_all(samples);
        assert forall|i: int| 0 <= i < samples.len() implies v.curve[i + 1] == (
        #[trigger] samples[i]).equity by {
            if i < rest.len() {
                assert(before.curve[i + 1] == rest[i].equity);
            }
        }
        assert forall|i: int|
            0 <= i < samples.len() && Binary64::spec_zero().spec_lt(v.curve[i]) implies v.returns[i]
            == (#[trigger] samples[i]).change by {
            if i < rest.len() {
                assert(before.returns[i] == rest[i].change);
            }
        }
        assert forall|i: int|
            0 <= i < samples.len() && !Binary64::spec_zero().spec_lt(v.curve[i]) implies
            #[trigger] v.returns[i] == Binary64::spec_zero() by {
            if i < rest.len() {
                assert(v.returns[i] == before.returns[i]);
            }
        }
        assert(v.curve[0] == before.curve[0]);
    }
}

/// A trade is a win exactly where its net result is above zero, a loss exactly
/// where it is below, and neither otherwise. One more trade adds its net result
/// to the list of its own kind, at the end, and to no other.
pub proof fn trades_are_classified_by_sign(trades: Seq<TradeOutcome>, trade: TradeOutcome)
    ensures
        ({
            let (zero, net) = (Binary64::spec_zero(), trade.net_pnl);
            let all = trades.push(trade);
            &&& nets_where(all, Outcome::Win) == (if zero.spec_lt(net) {
                nets_where(trades, Outcome::Win).push(net)
            } else {
                nets_where(trades, Outcome::Win)
            })
            &&& nets_where(all, Outcome::Loss) == (if net.spec_lt(zero) {
                nets_where(trades, Outcome::Loss).push(net)
            } else {
                nets_where(trades, Outcome::Loss)
            })
            &&& nets_where(all, Outcome::Breakeven) == (if net.spec_is_zero() || net.spec_is_nan() {
                nets_where(trades, Outcome::Breakeven).push(net)
            } else {
                nets_where(trades, Outcome::Breakeven)
            })
        }),
{
    reveal(Seq::filter);
    let all = trades.push(trade);
    assert(all.drop_last() =~= trades);
    assert(nets_where(all, Outcome::Win) =~= (if Binary64::spec_zero().spec_lt(trade.net_pnl) {
        nets_where(trades, Outcome::Win).push(trade.net_pnl)
    } else {
        nets_where(trades, Outcome::Win)
    }));
    assert(nets_where(all, Outcome::Loss) =~= (if trade.net_pnl.spec_lt(Binary64::spec_zero()) {
        nets_where(trades, Outcome::Loss).push(trade.net_pnl)
    } else {
        nets_where(trades, Outcome::Loss)
    }));
    assert(nets_where(all, Outcome::Breakeven) =~= (if trade.net_pnl.spec_is_zero()
        || trade.net_pnl.spec_is_nan() {
        nets_where(trades, Outcome::Breakeven).push(trade.net_pnl)
    } else {
        nets_where(trades, Outcome::Breakeven)
    }));
}

/// There are as many trades of a kind as net results of it.
pub proof fn counts_go_with_net_results(trades: Seq<TradeOutcome>, outcome: Outcome)
    ensures
        trades_where(trades, outcome).len() == nets_where(trades, outcome).len(),
{
}

/// A label holds its symbols in order with one comma between two of them, and
/// is the symbol itself where there is one.
pub proof fn labels_are_joined_by_commas(symbols: Seq<Symbol>, symbol: Symbol)
    ensures
        symbols.len() == 0 ==> joined(symbols.push(symbol)) == symbol@,
        symbols.len() > 0 ==> joined(symbols.push(symbol)) == joined(symbols) + seq![','] + symbol@,
        symbols.len() == 0 ==> joined(symbols).len() == 0,
{
    reveal_strlit(",");
    assert(symbols.push(symbol).drop_last() =~= symbols);
    assert(","@ =~= seq![',']);
}

/// The counts of a summary end with the number of all trades and, in this
/// order, those of the wins, the losses and the other trades.
pub proof fn summaries_count_trades_by_outcome(r: BacktestResult)
    ensures
        ({
            let trades = "trades           : "@ + digits(r.trades@.len());
            let wins = " (W "@ + digits(nets_where(r.trades@, Outcome::Win).len());
            let losses = " / L "@ + digits(nets_where(r.trades@, Outcome::Loss).len());
            let others = " / BE "@ + digits(nets_where(r.trades@, Outcome::Breakeven).len());
            let tail = trades + wins + losses + others + ")\n"@;
            let text = r.counts_text();
            text.len() >= tail.len() && text.subrange(text.len() - tail.len(), text.len() as int) == tail
        }),
{
    reveal_strlit(" risk-blocked)\n├ trades           : ");
    reveal_strlit("trades           : ");
    let trades = "trades           : "@ + digits(r.trades@.len());
    let wins = " (W "@ + digits(nets_where(r.trades@, Outcome::Win).len());
    let losses = " / L "@ + digits(nets_where(r.trades@, Outcome::Loss).len());
    let others = " / BE "@ + digits(nets_where(r.trades@, Outcome::Breakeven).len());
    let tail = trades + wins + losses + others + ")\n"@;
    let text = r.counts_text();
    let label = " risk-blocked)\n├ trades           : "@;
    let head = "Backtest ["@ + r.symbol@ + "]\n├ candles_processed: "@ + digits(
        r.candles_processed as nat,
    ) + "\n├ signals / orders : "@ + digits(r.signals_emitted as nat) + " / "@ + digits(
        r.orders_filled as nat,
    ) + " ("@ + digits(r.orders_blocked as nat) + label.take(label.len() - 19);
    assert(label =~= label.take(label.len() - 19) + "trades           : "@);
    assert(text =~= head + tail);
    assert(text.subrange(text.len() - tail.len(), text.len() as int) =~= tail);
}

} // verus!
