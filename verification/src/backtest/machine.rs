//! The stages of a replay, and what each event makes of it.

use vstd::prelude::*;

use crate::backtest::book::{BookView, Cause, CloseSums, FillRequest};
use crate::backtest::chronology::Tagged;
use crate::backtest::fills::{
    exit_on, order_for, resting_price, routed, stop_only, Bracket, FillModel, Leg, ResolvedOrder,
    RestingOrder, Routing,
};
use crate::backtest::funding::{FundingView, Settlement};
use crate::backtest::holding::{size_of, Holding};
use crate::domain::brain::Decision;
use crate::domain::signal::SignalType;
use crate::domain::types::Candle;
use crate::num::Binary64;

verus! {

/// Bound on the size of one entry.
pub const ENTRY_BOUND: u128 = 0x1_0000_0000;

/// Where a replay stands.
#[derive(Clone, Copy, Debug, PartialEq, Eq, Structural)]
pub enum Stage {
    /// Between two candles.
    Ready,
    /// A candle has begun, and its funding is to be booked.
    Opened,
    /// A fill is to be priced.
    Filling(FillRequest),
    /// The strategy is to decide.
    Deciding,
}

/// What the caller is to do next.
#[derive(Clone, Copy, Debug, PartialEq, Eq, Structural)]
pub enum Step {
    /// Book the candle's funding, then go on.
    Settle,
    /// Price this fill and report it.
    Fill(FillRequest),
    /// Ask the strategy and report its decision.
    Decide,
    /// Sample the account; the candle is over.
    Sample,
}

/// What goes with a stage.
pub open spec fn step_of(stage: Stage) -> Step {
    match stage {
        Stage::Ready => Step::Sample,
        Stage::Opened => Step::Settle,
        Stage::Filling(request) => Step::Fill(request),
        Stage::Deciding => Step::Decide,
    }
}

/// A replay as a value.
#[verifier::ext_equal]
pub struct ReplayView {
    /// How orders fill.
    pub model: FillModel,
    /// Funding schedule.
    pub funding: FundingView,
    /// Loss limit of the session gate.
    pub limit: Binary64,
    /// Candles in order.
    pub stream: Seq<Tagged>,
    /// Book of each series, if its symbol is traded.
    pub routes: Seq<Option<usize>>,
    /// Books of the traded symbols.
    pub books: Seq<BookView>,
    /// Candles begun.
    pub cursor: nat,
    /// Where the replay stands.
    pub stage: Stage,
    /// Decisions that were not holds.
    pub signals: nat,
    /// Decisions that a gate blocked.
    pub blocked: nat,
    /// Fills.
    pub filled: nat,
    /// Times of the account's samples.
    pub times: Seq<i64>,
}

/// Replay time of a candle in seconds, for the risk gates.
pub open spec fn secs_of(time: i64) -> u64 {
    if time < 0 {
        0
    } else {
        (time / 1000) as u64
    }
}

/// The fill that closes a position by a protective leg.
pub open spec fn exit_request(holding: Holding, leg: Leg, price: Binary64, cause: Cause) -> FillRequest {
    FillRequest {
        side: holding.spec_close_side()->0,
        qty: size_of(holding.qty as int) as u128,
        reference: price,
        taker: leg == Leg::Stop,
        cap: None,
        legs: Bracket::spec_none(),
        cause,
    }
}

/// The fill of an entry that rested.
pub open spec fn resting_request(order: RestingOrder, price: Binary64) -> FillRequest {
    FillRequest {
        side: order.side,
        qty: order.qty,
        reference: price,
        taker: false,
        cap: None,
        legs: order.legs,
        cause: Cause::Resting { placed: order.placed },
    }
}

/// The fill of a decision's order.
pub open spec fn decision_request(
    order: ResolvedOrder,
    reference: Binary64,
    taker: bool,
    cap: Option<Binary64>,
) -> FillRequest {
    FillRequest {
        side: order.side,
        qty: order.qty,
        reference,
        taker,
        cap,
        legs: order.legs,
        cause: Cause::Decision,
    }
}

impl ReplayView {
    /// The candle under way.
    pub open spec fn candle(self) -> Candle {
        self.stream[self.cursor - 1].candle
    }

    /// Index of the book of the candle under way, if its symbol is traded.
    pub open spec fn at(self) -> Option<usize> {
        self.routes[self.stream[self.cursor - 1].series as int]
    }

    /// The book of the candle under way.
    pub open spec fn book(self) -> BookView {
        self.books[self.at()->0 as int]
    }

    /// The replay with another book for the candle under way.
    pub open spec fn put(self, book: BookView) -> Self {
        ReplayView { books: self.books.update(self.at()->0 as int, book), ..self }
    }

    /// Replay time of the candle under way.
    pub open spec fn now(self) -> u64 {
        secs_of(self.candle().time)
    }

    /// The replay in another stage.
    pub open spec fn to(self, stage: Stage) -> Self {
        ReplayView { stage, ..self }
    }

    /// The next candle begins: its gates are rolled forward. The first candle
    /// also lends its time to the account's starting sample.
    pub open spec fn opened(self) -> Self {
        let begun = ReplayView {
            cursor: self.cursor + 1,
            times: if self.cursor == 0 {
                self.times.push(self.stream[0].candle.time)
            } else {
                self.times
            },
            ..self
        }.to(Stage::Opened);
        if begun.at() is Some {
            begun.put(begun.book().ticked(begun.now()))
        } else {
            begun
        }
    }

    /// The settlements that fall due on the candle under way: those since the
    /// symbol's last candle, up to and including this one, if a position is
    /// held.
    pub open spec fn due(self) -> Seq<Settlement> {
        if self.at() is Some && self.book().holding.qty != 0 && self.book().last_time is Some {
            self.funding.between(self.book().last_time->0 as int, self.candle().time as int)
        } else {
            Seq::empty()
        }
    }

    /// The candle goes on from its opening: a leg of the position fires, or
    /// what follows the exits comes next.
    pub open spec fn after_open(self) -> Self {
        if self.at() is None {
            self.to(Stage::Deciding)
        } else {
            let book = self.book();
            match exit_on(self.model, book.holding, book.bracket, self.candle()) {
                Some((leg, price)) => self.to(
                    Stage::Filling(exit_request(book.holding, leg, price, Cause::Exit(leg))),
                ),
                None => self.after_exits(),
            }
        }
    }

    /// The entry that waits on the book fills, or the strategy decides.
    pub open spec fn after_exits(self) -> Self {
        let book = self.book();
        if book.resting is Some && resting_price(book.resting->0, self.candle()) is Some {
            self.put(BookView { resting: None, ..book }).to(
                Stage::Filling(
                    resting_request(
                        book.resting->0,
                        resting_price(book.resting->0, self.candle())->0,
                    ),
                ),
            )
        } else {
            self.to(Stage::Deciding)
        }
    }

    /// The stop of an entry that has just filled fires at once, or the strategy
    /// decides. The entry's take-profit has to wait for the next candle.
    pub open spec fn after_resting(self) -> Self {
        let book = self.book();
        match exit_on(self.model, book.holding, stop_only(book.bracket), self.candle()) {
            Some((leg, price)) => self.to(
                Stage::Filling(exit_request(book.holding, leg, price, Cause::SameCandleStop)),
            ),
            None => self.to(Stage::Deciding),
        }
    }

    /// The candle is over: its close becomes the symbol's mark, and the account
    /// is sampled at its time.
    pub open spec fn ended(self) -> Self {
        let sampled = ReplayView { times: self.times.push(self.candle().time), ..self }.to(
            Stage::Ready,
        );
        if self.at() is Some {
            sampled.put(self.book().after_candle(self.candle().time, self.candle().close))
        } else {
            sampled
        }
    }

    /// What comes after a fill, by what it came from.
    pub open spec fn after_cause(self, cause: Cause) -> Self {
        match cause {
            Cause::Exit(_) => self.after_exits(),
            Cause::Resting { .. } => self.after_resting(),
            Cause::SameCandleStop => self.to(Stage::Deciding),
            Cause::Decision => self.ended(),
        }
    }

    /// The fill that is to be priced.
    pub open spec fn request(self) -> FillRequest {
        self.stage->Filling_0
    }

    /// A fill is booked, and the candle goes on.
    pub open spec fn after_fill(self, slipped: Binary64, averaged: Binary64, sums: CloseSums) -> Self {
        let request = self.request();
        let book = self.book().after_fill(
            self.model,
            self.limit,
            self.now(),
            request,
            slipped,
            averaged,
            sums,
        );
        ReplayView { filled: self.filled + 1, ..self.put(book) }.after_cause(request.cause)
    }

    /// An order is routed: it fills, waits on the book, or is dropped.
    pub open spec fn after_order(self, order: ResolvedOrder) -> Self {
        match routed(self.model, order, self.candle()) {
            Routing::Fill { reference, taker, cap } => self.to(
                Stage::Filling(decision_request(order, reference, taker, cap)),
            ),
            Routing::Rest { limit } => self.put(
                BookView {
                    resting: Some(
                        RestingOrder {
                            side: order.side,
                            qty: order.qty,
                            limit,
                            legs: order.legs,
                            placed: (self.cursor - 1) as usize,
                        },
                    ),
                    ..self.book()
                },
            ).ended(),
            Routing::Drop => self.ended(),
        }
    }

    /// Whether a decision asks for anything on the candle under way.
    pub open spec fn is_signal(self, decision: Decision) -> bool {
        self.at() is Some && decision.signal != SignalType::Hold
    }

    /// The replay with one more signal.
    pub open spec fn with_signal(self) -> Self {
        ReplayView { signals: self.signals + 1, ..self }
    }

    /// A decision has passed the gates: the entry that waited is cancelled.
    pub open spec fn accepted(self) -> Self {
        self.put(BookView { resting: None, ..self.book() })
    }

    /// A decision is acted on. Holds and decisions on symbols that are not
    /// traded end the candle; a gate blocks every other decision; a decision
    /// that passes cancels the entry that waited, and its order is routed.
    pub open spec fn after_decision(self, decision: Decision, contracts: u32) -> Self {
        if !self.is_signal(decision) {
            self.ended()
        } else if self.book().is_gated(self.now()) {
            ReplayView { blocked: self.blocked + 1, ..self.with_signal() }.ended()
        } else {
            let passed = self.with_signal().accepted();
            match order_for(decision, self.book().holding, contracts) {
                Some(order) => passed.after_order(order),
                None => passed.ended(),
            }
        }
    }

    /// How many more fills the candle under way may bring.
    pub open spec fn slack(self) -> int {
        match self.stage {
            Stage::Ready => 0,
            Stage::Opened => 4,
            Stage::Deciding => 1,
            Stage::Filling(request) => match request.cause {
                Cause::Exit(_) => 4,
                Cause::Resting { .. } => 3,
                Cause::SameCandleStop => 2,
                Cause::Decision => 1,
            },
        }
    }

    /// Whether the decision on the candle under way is still to come.
    pub open spec fn awaits_decision(self) -> bool {
        match self.stage {
            Stage::Ready => false,
            Stage::Filling(request) => request.cause != Cause::Decision,
            _ => true,
        }
    }

    /// A book is sound, its position is no larger than its fills allow, and an
    /// entry that waits is older than the candle under way.
    pub open spec fn book_ok(self, i: int) -> bool {
        let book = self.books[i];
        &&& book.is_sound()
        &&& size_of(book.holding.qty as int) <= self.filled * ENTRY_BOUND
        &&& book.resting is Some ==> {
            &&& self.model == FillModel::Resting
            &&& book.resting->0.placed < (if self.stage == Stage::Ready {
                self.cursor as int
            } else {
                self.cursor - 1
            })
        }
    }

    /// The fill that is to be priced is one that the book can take.
    pub open spec fn request_ok(self) -> bool {
        self.stage is Filling ==> {
            let request = self.request();
            &&& self.at() is Some
            &&& request.qty > 0
            &&& request.qty < ENTRY_BOUND || {
                &&& request.qty == size_of(self.book().holding.qty as int)
                &&& Some(request.side) == self.book().holding.spec_close_side()
            }
            &&& request.cause is Resting ==> request.cause->placed < self.cursor - 1
        }
    }

    /// Whether the replay can be gone on with.
    pub open spec fn is_sound(self) -> bool {
        &&& self.cursor <= self.stream.len()
        &&& self.stage != Stage::Ready ==> self.cursor > 0
        &&& forall|i: int|
            0 <= i < self.stream.len() ==> (#[trigger] self.stream[i]).series < self.routes.len()
        &&& forall|k: int|
            0 <= k < self.routes.len() && (#[trigger] self.routes[k]) is Some ==> self.routes[k]->0
                < self.books.len()
        &&& forall|i: int| 0 <= i < self.books.len() ==> #[trigger] self.book_ok(i)
        &&& self.request_ok()
        &&& self.filled + self.slack() <= 4 * self.cursor
        &&& self.blocked <= self.signals
        &&& self.signals + (if self.awaits_decision() {
            1int
        } else {
            0int
        }) <= self.cursor
        &&& self.sampled()
    }

    /// The account has been sampled once before the first candle, at its time,
    /// and once per finished candle.
    pub open spec fn sampled(self) -> bool {
        &&& self.times.len() == (if self.cursor == 0 {
            0nat
        } else if self.stage == Stage::Ready {
            self.cursor + 1
        } else {
            self.cursor
        })
        &&& self.cursor > 0 ==> self.times[0] == self.stream[0].candle.time
        &&& forall|i: int|
            0 < i < self.times.len() ==> #[trigger] self.times[i] == self.stream[i - 1].candle.time
    }
}

} // verus!
