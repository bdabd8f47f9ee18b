//! What holds of every replay.

use vstd::prelude::*;

use crate::backtest::book::{Cause, CloseSums};
use crate::backtest::fills::{exit_on, Bracket, FillModel};
use crate::backtest::funding::{settlements_lie_in_the_window, windows_join, Settlement};
use crate::backtest::holding::{size_of, Holding};
use crate::backtest::machine::{ReplayView, Stage, ENTRY_BOUND};
use crate::domain::brain::Decision;
use crate::domain::signal::SignalType;
use crate::num::Binary64;

verus! {

/// No lookahead: an entry that rested fills only on a candle after the one at
/// whose close it reached the book.
pub proof fn resting_entry_fills_on_a_later_candle(v: ReplayView)
    requires
        v.is_sound(),
        v.stage is Filling,
        v.request().cause is Resting,
    ensures
        v.request().cause->placed < v.cursor - 1,
{
}

/// Single-candle fills leave nothing on any book, at any time.
pub proof fn taker_at_close_keeps_books_empty(v: ReplayView, i: int)
    requires
        v.is_sound(),
        v.model == FillModel::TakerAtClose,
        0 <= i < v.books.len(),
    ensures
        v.books[i].resting is None,
{
    assert(v.book_ok(i));
}

/// Only an open position is protected, and only a flat one has no entry price.
pub proof fn only_open_positions_are_protected(v: ReplayView, i: int)
    requires
        v.is_sound(),
        0 <= i < v.books.len(),
    ensures
        v.books[i].holding.qty == 0 ==> v.books[i].bracket == Bracket::spec_none(),
        v.books[i].holding.qty == 0 <==> v.books[i].holding.entry is None,
{
    assert(v.book_ok(i));
}

/// A candle touches no book but its own: whatever happens on it, the other
/// symbols' positions, protections, waiting entries and gates stay as they are.
pub proof fn candles_touch_only_their_own_book(
    v: ReplayView,
    decision: Decision,
    contracts: u32,
    slipped: Binary64,
    averaged: Binary64,
    sums: CloseSums,
    i: int,
)
    requires
        v.is_sound(),
        v.stage != Stage::Ready,
        0 <= i < v.books.len(),
        v.at() is Some ==> v.at()->0 != i,
    ensures
        v.stage == Stage::Opened ==> v.after_open().books[i] == v.books[i],
        v.stage is Filling ==> v.after_fill(slipped, averaged, sums).books[i] == v.books[i],
        v.stage == Stage::Deciding ==> v.after_decision(decision, contracts).books[i] == v.books[i],
{
}

/// A hold asks for nothing: it counts as no signal, and position, protection,
/// waiting entry and gates stay as they are.
pub proof fn hold_changes_nothing(v: ReplayView, decision: Decision, contracts: u32)
    requires
        v.is_sound(),
        v.stage == Stage::Deciding,
        decision.signal == SignalType::Hold,
        v.at() is Some,
    ensures
        ({
            let after = v.after_decision(decision, contracts);
            &&& after.stage == Stage::Ready
            &&& after.signals == v.signals
            &&& after.blocked == v.blocked
            &&& after.filled == v.filled
            &&& after.book() == v.book().after_candle(v.candle().time, v.candle().close)
        }),
{
}

/// A gate blocks every decision that is not a hold, closes included: it is
/// counted as a signal and as blocked, and nothing is traded or cancelled.
pub proof fn gates_block_every_signal(v: ReplayView, decision: Decision, contracts: u32)
    requires
        v.is_sound(),
        v.stage == Stage::Deciding,
        decision.signal != SignalType::Hold,
        v.at() is Some,
        v.book().is_gated(v.now()),
    ensures
        ({
            let after = v.after_decision(decision, contracts);
            &&& after.stage == Stage::Ready
            &&& after.signals == v.signals + 1
            &&& after.blocked == v.blocked + 1
            &&& after.filled == v.filled
            &&& after.book() == v.book().after_candle(v.candle().time, v.candle().close)
        }),
{
}

/// Without gates nothing is ever blocked.
pub proof fn no_gates_block_nothing(v: ReplayView, decision: Decision, contracts: u32)
    requires
        v.is_sound(),
        v.stage == Stage::Deciding,
        v.at() is Some ==> v.book().session is None && v.book().breaker is None,
    ensures
        v.after_decision(decision, contracts).blocked == v.blocked,
{
}

/// At most one entry waits per symbol, and every decision that passes the
/// gates cancels it: what waits afterwards, if anything, was placed by that
/// decision.
pub proof fn decision_replaces_waiting_entry(v: ReplayView, decision: Decision, contracts: u32)
    requires
        v.is_sound(),
        v.stage == Stage::Deciding,
        v.is_signal(decision),
        !v.book().is_gated(v.now()),
        v.cursor <= usize::MAX,
    ensures
        ({
            let after = v.after_decision(decision, contracts);
            after.book().resting is Some ==> after.book().resting->0.placed == v.cursor - 1
        }),
{
}

/// A close while nothing is held trades nothing.
pub proof fn close_against_flat_trades_nothing(v: ReplayView, decision: Decision, contracts: u32)
    requires
        v.is_sound(),
        v.stage == Stage::Deciding,
        decision.signal == SignalType::Close,
        v.at() is Some,
        v.book().holding.qty == 0,
    ensures
        v.after_decision(decision, contracts).stage == Stage::Ready,
        v.after_decision(decision, contracts).filled == v.filled,
        v.after_decision(decision, contracts).book().holding == v.book().holding,
{
}

/// A protective leg closes the whole position and takes the protection off
/// with it.
pub proof fn exits_flatten(v: ReplayView, slipped: Binary64, averaged: Binary64)
    requires
        v.is_sound(),
        v.stage == Stage::Opened,
        v.after_open().stage is Filling,
        v.after_open().request().cause is Exit,
        v.cursor <= usize::MAX,
    ensures
        ({
            let request = v.after_open().request();
            let after = v.book().with_fill(v.model, request, slipped, averaged);
            &&& after.holding == Holding::spec_flat()
            &&& after.bracket == Bracket::spec_none()
            &&& v.book().closes(request) == size_of(v.book().holding.qty as int)
        }),
{
    assert(v.book_ok(v.at()->0 as int));
    assert(v.filled * ENTRY_BOUND <= 4 * 0x1_0000_0000_0000_0000 * ENTRY_BOUND) by (nonlinear_arith)
        requires
            v.filled <= 4 * 0x1_0000_0000_0000_0000,
    ;
}

/// On the candle on which an entry fills, only its stop can fire; its
/// take-profit has to wait for the next candle.
pub proof fn take_profit_waits_for_the_next_candle(v: ReplayView)
    requires
        v.at() is Some,
        v.after_resting().stage is Filling,
    ensures
        v.after_resting().request().cause == Cause::SameCandleStop,
        v.after_resting().request().taker,
{
}

/// A bracket that survived the opening of a candle does not fire on it again
/// after an entry has been added without levels of its own.
pub proof fn surviving_bracket_stays_quiet(v: ReplayView)
    requires
        v.at() is Some,
        exit_on(v.model, v.book().holding, v.book().bracket, v.candle()) is None,
    ensures
        v.after_resting().stage == Stage::Deciding,
{
}

/// The account is sampled once before the first candle, at its time, and once
/// per candle after that.
pub proof fn one_sample_per_candle(v: ReplayView)
    requires
        v.is_sound(),
        v.stage == Stage::Ready,
        v.cursor == v.stream.len(),
        v.stream.len() > 0,
    ensures
        v.times.len() == v.stream.len() + 1,
        v.times[0] == v.stream[0].candle.time,
        forall|i: int| 0 <= i < v.stream.len() ==> v.times[i + 1] == #[trigger] v.stream[i].candle.time,
{
    assert forall|i: int| 0 <= i < v.stream.len() implies v.times[i + 1] == #[trigger] v.stream[i].candle.time by {
        assert(v.times[i + 1] == v.stream[(i + 1) - 1].candle.time);
    }
}

/// Signals and blocked decisions are no more than the candles, and fills no
/// more than four per candle.
pub proof fn counts_are_bounded(v: ReplayView)
    requires
        v.is_sound(),
    ensures
        v.blocked <= v.signals <= v.cursor <= v.stream.len(),
        v.filled <= 4 * v.cursor,
{
}

/// Funding is booked once: what falls due on two candles in a row is what lies
/// between the candle before them and the second of them.
pub proof fn funding_is_booked_once(v: ReplayView, w: ReplayView, t0: i64)
    requires
        v.funding.is_ordered(),
        w.funding == v.funding,
        v.at() is Some,
        w.at() is Some,
        v.book().holding.qty != 0,
        w.book().holding.qty != 0,
        v.book().last_time == Some(t0),
        w.book().last_time == Some(v.candle().time),
        t0 <= v.candle().time <= w.candle().time,
    ensures
        v.due() + w.due() == v.funding.between(t0 as int, w.candle().time as int),
{
    windows_join(v.funding, t0, v.candle().time, w.candle().time);
}

/// A position opened on a candle does not pay a settlement at that candle's
/// time or before it, and nothing is due while no position is held.
pub proof fn funding_starts_after_entry(v: ReplayView, s: Settlement)
    requires
        v.at() is Some,
        v.due().contains(s),
    ensures
        v.book().holding.qty != 0,
        v.book().last_time is Some,
        v.book().last_time->0 < s.time <= v.candle().time,
{
    settlements_lie_in_the_window(v.funding, v.book().last_time->0, v.candle().time, s);
}

} // verus!
