//! Whole runs of a replay, from its start to its end.

use vstd::prelude::*;

use crate::backtest::book::CloseSums;
use crate::backtest::candles::all_tagged;
use crate::backtest::chronology::{sorting_is_determined, sorts, Tagged};
use crate::backtest::config::BacktestConfig;
use crate::backtest::machine::{ReplayView, Stage};
use crate::backtest::replay::{candle_error, first_bad_candle, is_start, start_is_determined};
use crate::domain::brain::Decision;
use crate::domain::types::Candle;
use crate::num::Binary64;

verus! {

/// What the caller of a replay reports.
pub enum Report {
    /// The next candle begins.
    Begun,
    /// The candle's funding is booked.
    Settled,
    /// A fill was priced.
    Filled {
        /// Reference price after slippage.
        slipped: Binary64,
        /// Average entry price.
        averaged: Binary64,
        /// What a closed trade comes to.
        sums: CloseSums,
    },
    /// The strategy has decided.
    Decided {
        /// What it decided.
        decision: Decision,
        /// Size of an entry.
        contracts: u32,
    },
}

impl ReplayView {
    /// Whether a report is one that the replay waits for and can book.
    pub open spec fn takes(self, report: Report) -> bool {
        match report {
            Report::Begun => self.stage == Stage::Ready && self.cursor != self.stream.len(),
            Report::Settled => self.stage == Stage::Opened,
            Report::Filled { .. } => self.stage is Filling && !self.book().is_full_for(self.request()),
            Report::Decided { .. } => self.stage == Stage::Deciding,
        }
    }

    /// The replay after a report.
    pub open spec fn after_report(self, report: Report) -> Self {
        match report {
            Report::Begun => self.opened(),
            Report::Settled => self.after_open(),
            Report::Filled { slipped, averaged, sums } => self.after_fill(slipped, averaged, sums),
            Report::Decided { decision, contracts } => self.after_decision(decision, contracts),
        }
    }

    /// Whether nothing can follow: every candle is over, or a session has no
    /// room for the trade that a fill closes.
    pub open spec fn is_over(self) -> bool {
        ||| self.stage == Stage::Ready && self.cursor == self.stream.len()
        ||| self.stage is Filling && self.book().is_full_for(self.request())
    }
}

/// Whether a replay went through these states on these reports.
pub open spec fn is_run(states: Seq<ReplayView>, reports: Seq<Report>) -> bool {
    &&& states.len() == reports.len() + 1
    &&& forall|i: int|
        0 <= i < reports.len() ==> states[i].takes(#[trigger] reports[i]) && states[i + 1]
            == states[i].after_report(reports[i])
}

/// Whether each report is what `caller` answers to all that came before it:
/// the states so far, the present one included, and the earlier reports.
pub open spec fn reported_by(
    caller: spec_fn(Seq<ReplayView>, Seq<Report>) -> Report,
    states: Seq<ReplayView>,
    reports: Seq<Report>,
) -> bool {
    forall|i: int|
        0 <= i < reports.len() ==> #[trigger] reports[i] == caller(
            states.take(i + 1),
            reports.take(i),
        )
}

/// Two runs from the same state on the same reports go through the same
/// states.
pub proof fn reports_determine_the_run(a: Seq<ReplayView>, b: Seq<ReplayView>, reports: Seq<Report>)
    requires
        is_run(a, reports),
        is_run(b, reports),
        a[0] == b[0],
    ensures
        a == b,
{
    assert forall|i: int| 0 <= i < a.len() implies a[i] == b[i] by {
        states_agree(a, b, reports, i);
    }
    assert(a =~= b);
}

proof fn states_agree(a: Seq<ReplayView>, b: Seq<ReplayView>, reports: Seq<Report>, i: int)
    requires
        is_run(a, reports),
        is_run(b, reports),
        a[0] == b[0],
        0 <= i < a.len(),
    ensures
        a[i] == b[i],
    decreases i,
{
    if i > 0 {
        states_agree(a, b, reports, i - 1);
        assert(a[i - 1].takes(reports[i - 1]));
    }
}

proof fn histories_agree(
    caller: spec_fn(Seq<ReplayView>, Seq<Report>) -> Report,
    a: Seq<ReplayView>,
    ra: Seq<Report>,
    b: Seq<ReplayView>,
    rb: Seq<Report>,
    n: int,
)
    requires
        is_run(a, ra),
        is_run(b, rb),
        reported_by(caller, a, ra),
        reported_by(caller, b, rb),
        a[0] == b[0],
        0 <= n <= ra.len(),
        n <= rb.len(),
    ensures
        a.take(n + 1) == b.take(n + 1),
        ra.take(n) == rb.take(n),
    decreases n,
{
    if n == 0 {
        assert(a.take(1) =~= b.take(1));
        assert(ra.take(0) =~= rb.take(0));
    } else {
        histories_agree(caller, a, ra, b, rb, n - 1);
        assert(ra[n - 1] == caller(a.take(n), ra.take(n - 1)));
        assert(rb[n - 1] == caller(b.take(n), rb.take(n - 1)));
        assert(a.take(n)[n - 1] == b.take(n)[n - 1]);
        assert(a[n] == a[n - 1].after_report(ra[n - 1]));
        assert(b[n] == b[n - 1].after_report(rb[n - 1]));
        assert forall|i: int| 0 <= i < n + 1 implies a[i] == b[i] by {
            if i < n {
                assert(a.take(n)[i] == b.take(n)[i]);
            }
        }
        assert(a.take(n + 1) =~= b.take(n + 1));
        assert forall|i: int| 0 <= i < n implies ra[i] == rb[i] by {
            if i < n - 1 {
                assert(ra.take(n - 1)[i] == rb.take(n - 1)[i]);
            }
        }
        assert(ra.take(n) =~= rb.take(n));
    }
}

/// A replay is deterministic from beginning to end: two whole runs of the same
/// settings and series, with callers that answer the same history the same way,
/// ask for the same things in the same order, are answered the same, go through
/// the same states and end alike.
pub proof fn whole_runs_are_determined(
    config: BacktestConfig,
    series: Seq<(Seq<char>, Seq<Candle>)>,
    caller: spec_fn(Seq<ReplayView>, Seq<Report>) -> Report,
    a: Seq<ReplayView>,
    ra: Seq<Report>,
    b: Seq<ReplayView>,
    rb: Seq<Report>,
)
    requires
        is_run(a, ra),
        is_run(b, rb),
        is_start(a[0], config, series),
        is_start(b[0], config, series),
        reported_by(caller, a, ra),
        reported_by(caller, b, rb),
        a.last().is_over(),
        b.last().is_over(),
    ensures
        a == b,
        ra == rb,
{
    start_is_determined(a[0], b[0], config, series);
    let n = if ra.len() <= rb.len() {
        ra.len() as int
    } else {
        rb.len() as int
    };
    histories_agree(caller, a, ra, b, rb, n);
    assert(a.take(n + 1)[n] == b.take(n + 1)[n]);
    if ra.len() < rb.len() {
        assert(b[n].takes(rb[n]));
        assert(a.last() == a[n]);
    }
    if rb.len() < ra.len() {
        assert(a[n].takes(ra[n]));
        assert(b.last() == b[n]);
    }
    assert(a.take(n + 1) =~= a);
    assert(b.take(n + 1) =~= b);
    assert(ra.take(n) =~= ra);
    assert(rb.take(n) =~= rb);
}

/// A series that cannot be replayed is refused for one candle only: the first
/// in order of time, whatever way the merging is done.
pub proof fn refused_candle_is_determined(
    series: Seq<(Seq<char>, Seq<Candle>)>,
    a: Seq<Tagged>,
    i: int,
    b: Seq<Tagged>,
    j: int,
)
    requires
        sorts(all_tagged(series), a),
        sorts(all_tagged(series), b),
        first_bad_candle(a, i),
        first_bad_candle(b, j),
    ensures
        candle_error(a[i]) == candle_error(b[j]),
{
    sorting_is_determined(all_tagged(series), a, b);
    if i < j {
        assert(a[i] == b[i]);
    } else if j < i {
        assert(a[j] == b[j]);
    }
}

} // verus!
