//! What each step of a replay does, in terms of the candle under way and of the
//! book of its symbol.

use vstd::prelude::*;

use crate::backtest::book::{BookView, Cause, CloseSums, FillRequest};
use crate::backtest::fills::{exit_on, order_for, resting_price, routed, Bracket, Leg, Routing};
use crate::backtest::machine::{secs_of, step_of, ReplayView, Stage, Step};
use crate::domain::brain::Decision;
use crate::domain::market::Side;
use crate::domain::signal::SignalType;
use crate::domain::types::Candle;
use crate::num::Binary64;

verus! {

/// Whether the candle under way is `candle`, of a symbol whose book is the one
/// at `i`, and `book` is on it.
pub open spec fn trades_on(v: ReplayView, candle: Candle, i: usize, book: BookView) -> bool {
    &&& 0 < v.cursor <= v.stream.len()
    &&& v.stream[v.cursor - 1].candle == candle
    &&& v.stream[v.cursor - 1].series < v.routes.len()
    &&& v.routes[v.stream[v.cursor - 1].series as int] == Some(i)
    &&& i < v.books.len()
    &&& v.books[i as int] == book
}

/// Whether the candle under way is of a symbol that is not traded.
pub open spec fn trades_nothing(v: ReplayView, candle: Candle) -> bool {
    &&& 0 < v.cursor <= v.stream.len()
    &&& v.stream[v.cursor - 1].candle == candle
    &&& v.stream[v.cursor - 1].series < v.routes.len()
    &&& v.routes[v.stream[v.cursor - 1].series as int] is None
}

/// Whether two states of a replay have the same settings, candles and routes.
pub open spec fn same_setup(v: ReplayView, w: ReplayView) -> bool {
    &&& v.model == w.model
    &&& v.funding == w.funding
    &&& v.limit == w.limit
    &&& v.stream == w.stream
    &&& v.routes == w.routes
}

/// Whether nothing was counted or sampled from one state to the other, and the
/// candle under way is the same.
pub open spec fn same_counts(v: ReplayView, w: ReplayView) -> bool {
    &&& v.cursor == w.cursor
    &&& v.signals == w.signals
    &&& v.blocked == w.blocked
    &&& v.filled == w.filled
    &&& v.times == w.times
}

/// Whether one state's books are the other's but for the one at `i`, on which
/// `book` is.
pub open spec fn only_book(v: ReplayView, w: ReplayView, i: usize, book: BookView) -> bool {
    &&& w.books.len() == v.books.len()
    &&& w.books[i as int] == book
    &&& forall|k: int| 0 <= k < v.books.len() && k != i ==> #[trigger] w.books[k] == v.books[k]
}

/// Whether a candle is over: nothing but its mark is left to put on its book,
/// and one more sample was taken, at its time.
pub open spec fn is_over_with(
    v: ReplayView,
    w: ReplayView,
    candle: Candle,
    i: usize,
    book: BookView,
) -> bool {
    &&& w.stage == Stage::Ready
    &&& w.cursor == v.cursor
    &&& w.times == v.times.push(candle.time)
    &&& only_book(
        v,
        w,
        i,
        (BookView { last_time: Some(candle.time), last_mark: Some(candle.close), ..book }),
    )
}

/// Replay time is the candle's time in whole seconds, and zero before the epoch.
pub proof fn replay_time_is_in_whole_seconds(time: i64)
    ensures
        time >= 0 ==> secs_of(time) * 1000 <= time < (secs_of(time) + 1) * 1000,
        time < 0 ==> secs_of(time) == 0,
{
}

/// Each stage has a step of its own.
pub proof fn steps_go_with_stages(a: Stage, b: Stage)
    ensures
        step_of(a) == step_of(b) <==> a == b,
        step_of(a) == Step::Sample <==> a == Stage::Ready,
        step_of(a) == Step::Settle <==> a == Stage::Opened,
        step_of(a) == Step::Decide <==> a == Stage::Deciding,
        step_of(a) is Fill <==> a is Filling,
        step_of(a) is Fill ==> step_of(a)->Fill_0 == a->Filling_0,
{
}

/// A candle begins with its gates rolled forward to its own time. The first
/// candle of all also lends its time to the starting sample. Nothing else
/// changes.
pub proof fn candles_begin_by_rolling_their_gates(v: ReplayView, candle: Candle, i: usize)
    requires
        v.cursor < v.stream.len(),
        v.stream[v.cursor as int].candle == candle,
        v.stream[v.cursor as int].series < v.routes.len(),
        v.routes[v.stream[v.cursor as int].series as int] == Some(i),
        i < v.books.len(),
    ensures
        ({
            let w = v.opened();
            &&& same_setup(v, w)
            &&& w.stage == Stage::Opened
            &&& w.cursor == v.cursor + 1
            &&& only_book(v, w, i, v.books[i as int].ticked(secs_of(candle.time)))
            &&& v.cursor == 0 ==> w.times == v.times.push(candle.time)
            &&& v.cursor > 0 ==> w.times == v.times
            &&& w.signals == v.signals && w.blocked == v.blocked && w.filled == v.filled
        }),
{
}

/// A candle of a symbol that is not traded begins without touching a book.
pub proof fn other_candles_begin_quietly(v: ReplayView)
    requires
        v.cursor < v.stream.len(),
        v.stream[v.cursor as int].series < v.routes.len(),
        v.routes[v.stream[v.cursor as int].series as int] is None,
    ensures
        ({
            let w = v.opened();
            &&& same_setup(v, w)
            &&& w.stage == Stage::Opened
            &&& w.cursor == v.cursor + 1
            &&& w.books == v.books
            &&& v.cursor == 0 ==> w.times == v.times.push(v.stream[0].candle.time)
            &&& v.cursor > 0 ==> w.times == v.times
            &&& w.signals == v.signals && w.blocked == v.blocked && w.filled == v.filled
        }),
{
}

/// Funding falls due on a position that was held into the candle: what the
/// schedule settles after the symbol's last candle, up to and including this
/// one. A flat symbol, and one that has seen no candle, owes nothing.
pub proof fn funding_falls_due_on_held_positions(v: ReplayView, candle: Candle, i: usize, book: BookView)
    requires
        trades_on(v, candle, i, book),
    ensures
        book.holding.qty == 0 || book.last_time is None ==> v.due().len() == 0,
        book.holding.qty != 0 && book.last_time is Some ==> v.due() == v.funding.between(
            book.last_time->0 as int,
            candle.time as int,
        ),
{
}

/// Nothing falls due on a symbol that is not traded, and the strategy decides
/// on its candle at once, without effect.
pub proof fn other_candles_only_ask(v: ReplayView, candle: Candle, decision: Decision, contracts: u32)
    requires
        trades_nothing(v, candle),
    ensures
        v.due().len() == 0,
        v.after_open() == (ReplayView { stage: Stage::Deciding, ..v }),
        v.after_decision(decision, contracts) == (ReplayView {
            stage: Stage::Ready,
            times: v.times.push(candle.time),
            ..v
        }),
{
}

/// The leg that fires at the opening closes the whole position on the side
/// against it, at the leg's price: a stop takes, a take-profit does not. The
/// fill is neither capped nor protected, and no book changes yet.
pub proof fn firing_legs_close_the_position(v: ReplayView, candle: Candle, i: usize, book: BookView)
    requires
        trades_on(v, candle, i, book),
        book.holding.qty > i128::MIN,
        exit_on(v.model, book.holding, book.bracket, candle) is Some,
    ensures
        ({
            let w = v.after_open();
            let (leg, price) = exit_on(v.model, book.holding, book.bracket, candle)->0;
            &&& same_setup(v, w) && same_counts(v, w)
            &&& w.books == v.books
            &&& w.stage matches Stage::Filling(request) && {
                &&& request.reference == price
                &&& request.taker <==> leg == Leg::Stop
                &&& request.cap is None
                &&& request.legs.stop is None && request.legs.take_profit is None
                &&& request.cause == Cause::Exit(leg)
                &&& book.holding.qty > 0 ==> request.side == Side::Sell && request.qty
                    == book.holding.qty
                &&& book.holding.qty < 0 ==> request.side == Side::Buy && request.qty
                    == -book.holding.qty
            }
        }),
{
}

/// Once no leg fires, the entry that waits on the book fills if the candle
/// trades to it: for its whole size, at its price, as a maker, with its levels.
/// It leaves the book by that. Else the strategy decides.
pub proof fn waiting_entries_fill_after_the_exits(v: ReplayView, candle: Candle, i: usize, book: BookView)
    requires
        trades_on(v, candle, i, book),
    ensures
        ({
            let w = v.after_exits();
            let fills = book.resting is Some && resting_price(book.resting->0, candle) is Some;
            &&& same_setup(v, w) && same_counts(v, w)
            &&& !fills ==> w.stage == Stage::Deciding && w.books == v.books
            &&& fills ==> only_book(v, w, i, (BookView { resting: None, ..book })) && (w.stage
                matches Stage::Filling(request) && {
                &&& request.side == book.resting->0.side
                &&& request.qty == book.resting->0.qty
                &&& request.reference == resting_price(book.resting->0, candle)->0
                &&& !request.taker
                &&& request.cap is None
                &&& request.legs == book.resting->0.legs
                &&& request.cause == (Cause::Resting { placed: book.resting->0.placed })
            })
            &&& exit_on(v.model, book.holding, book.bracket, candle) is None ==> v.after_open() == w
        }),
{
}

/// On the candle on which an entry fills, the stop of its position may fire at
/// once and close it whole; the take-profit plays no part. Else the strategy
/// decides.
pub proof fn filled_entries_may_be_stopped_at_once(
    v: ReplayView,
    candle: Candle,
    i: usize,
    book: BookView,
)
    requires
        trades_on(v, candle, i, book),
        book.holding.qty > i128::MIN,
    ensures
        ({
            let w = v.after_resting();
            let stop = Bracket { stop: book.bracket.stop, take_profit: None };
            let fires = exit_on(v.model, book.holding, stop, candle);
            &&& same_setup(v, w) && same_counts(v, w)
            &&& w.books == v.books
            &&& fires is None ==> w.stage == Stage::Deciding
            &&& fires matches Some((leg, price)) ==> (w.stage matches Stage::Filling(request) && {
                &&& request.reference == price
                &&& request.taker
                &&& request.cap is None
                &&& request.legs.stop is None && request.legs.take_profit is None
                &&& request.cause == Cause::SameCandleStop
                &&& book.holding.qty > 0 ==> request.side == Side::Sell && request.qty
                    == book.holding.qty
                &&& book.holding.qty < 0 ==> request.side == Side::Buy && request.qty
                    == -book.holding.qty
            })
        }),
{
}

/// A fill is counted once and booked on its candle's book alone. What follows
/// it goes by what it came from: after an exit the waiting entry, after a
/// resting entry its stop, after that stop the decision, and after the
/// decision's own fill the end of the candle.
pub proof fn fills_are_booked_and_counted_once(
    v: ReplayView,
    candle: Candle,
    i: usize,
    book: BookView,
    slipped: Binary64,
    averaged: Binary64,
    sums: CloseSums,
)
    requires
        trades_on(v, candle, i, book),
        v.stage is Filling,
    ensures
        ({
            let request = v.stage->Filling_0;
            let booked = book.after_fill(
                v.model,
                v.limit,
                secs_of(candle.time),
                request,
                slipped,
                averaged,
                sums,
            );
            let mid = ReplayView {
                books: v.books.update(i as int, booked),
                filled: v.filled + 1,
                ..v
            };
            let w = v.after_fill(slipped, averaged, sums);
            &&& trades_on(mid, candle, i, booked)
            &&& w.filled == v.filled + 1
            &&& w.signals == v.signals && w.blocked == v.blocked && w.cursor == v.cursor
            &&& same_setup(v, w)
            &&& request.cause is Exit ==> w == mid.after_exits()
            &&& request.cause is Resting ==> w == mid.after_resting()
            &&& request.cause == Cause::SameCandleStop ==> w == (ReplayView {
                stage: Stage::Deciding,
                ..mid
            })
            &&& request.cause == Cause::Decision ==> is_over_with(v, w, candle, i, booked)
        }),
{
}

/// A hold ends the candle and changes nothing else.
pub proof fn holds_end_the_candle(
    v: ReplayView,
    candle: Candle,
    i: usize,
    book: BookView,
    decision: Decision,
    contracts: u32,
)
    requires
        trades_on(v, candle, i, book),
        decision.signal == SignalType::Hold,
    ensures
        ({
            let w = v.after_decision(decision, contracts);
            &&& same_setup(v, w)
            &&& is_over_with(v, w, candle, i, book)
            &&& w.signals == v.signals && w.blocked == v.blocked && w.filled == v.filled
        }),
{
}

/// A decision that a gate blocks is counted as a signal and as blocked, ends
/// the candle and changes nothing else: the waiting entry stays.
pub proof fn blocked_decisions_only_count(
    v: ReplayView,
    candle: Candle,
    i: usize,
    book: BookView,
    decision: Decision,
    contracts: u32,
)
    requires
        trades_on(v, candle, i, book),
        decision.signal != SignalType::Hold,
        book.is_gated(secs_of(candle.time)),
    ensures
        ({
            let w = v.after_decision(decision, contracts);
            &&& same_setup(v, w)
            &&& is_over_with(v, w, candle, i, book)
            &&& w.signals == v.signals + 1
            &&& w.blocked == v.blocked + 1
            &&& w.filled == v.filled
        }),
{
}

/// A decision that passes the gates is counted as a signal and takes the
/// waiting entry off the book. Its order fills, rests or is dropped as the
/// candle has it: a fill is asked for as the order has it, an order that rests
/// waits on the book from this candle on, and without an order, or with one that
/// is dropped, the candle is over.
pub proof fn passing_decisions_are_routed(
    v: ReplayView,
    candle: Candle,
    i: usize,
    book: BookView,
    decision: Decision,
    contracts: u32,
)
    requires
        trades_on(v, candle, i, book),
        decision.signal != SignalType::Hold,
        !book.is_gated(secs_of(candle.time)),
        v.cursor <= usize::MAX,
    ensures
        ({
            let w = v.after_decision(decision, contracts);
            let emptied = BookView { resting: None, ..book };
            &&& same_setup(v, w)
            &&& w.signals == v.signals + 1
            &&& w.blocked == v.blocked
            &&& w.filled == v.filled
            &&& w.cursor == v.cursor
            &&& match order_for(decision, book.holding, contracts) {
                None => is_over_with(v, w, candle, i, emptied),
                Some(order) => match routed(v.model, order, candle) {
                    Routing::Drop => is_over_with(v, w, candle, i, emptied),
                    Routing::Rest { limit } => {
                        let waiting = w.books[i as int].resting;
                        &&& waiting is Some
                        &&& waiting->0.side == order.side
                        &&& waiting->0.qty == order.qty
                        &&& waiting->0.limit == limit
                        &&& waiting->0.legs == order.legs
                        &&& waiting->0.placed == v.cursor - 1
                        &&& is_over_with(v, w, candle, i, (BookView { resting: waiting, ..book }))
                    },
                    Routing::Fill { reference, taker, cap } => {
                        &&& only_book(v, w, i, emptied)
                        &&& w.times == v.times
                        &&& w.stage == Stage::Filling(
                            FillRequest {
                                side: order.side,
                                qty: order.qty,
                                reference,
                                taker,
                                cap,
                                legs: order.legs,
                                cause: Cause::Decision,
                            },
                        )
                    },
                },
            }
        }),
{
}

} // verus!
