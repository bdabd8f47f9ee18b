//! The replay of merged candle series, one decision at a time.
//!
//! A [`Replay`] decides what happens on each candle, and in which order. The
//! caller does what lies outside: it prices fills, books funding and cash, and
//! asks the strategy. Each candle goes through the same stages: funding falls
//! due, protective legs fire, a resting entry fills and may be stopped out at
//! once, the strategy decides, its order is routed, and the account is sampled.

use vstd::pervasive::unreached;
use vstd::prelude::*;

use crate::backtest::book::{fill_price, Book, BookView, Cause, CloseSums, FillRequest};
use crate::backtest::candles::{
    all_tagged, fault_in, is_usable, merge_series, series_of, validate_candle,
};
use crate::backtest::chronology::{sorting_is_determined, sorts, Tagged, Timed};
use crate::backtest::config::BacktestConfig;
use crate::backtest::error::{ConfigFault, Error};
use crate::backtest::fills::{
    bracket_exit, cap_price, exit_on, order_for, resolve_order, resting_fill, route_order, routed,
    Bracket, FillModel, Leg, ResolvedOrder, RestingOrder, Routing,
};
use crate::backtest::funding::{
    fault_of, times_are_those_of_settlements, FundingModel, FundingView, Settlement,
};
use crate::backtest::holding::{signed, size_of, Holding};
use crate::backtest::machine::{
    exit_request, secs_of, step_of, ReplayView, Stage, Step, ENTRY_BOUND,
};
use crate::domain::brain::Decision;
use crate::domain::market::Symbol;
use crate::domain::signal::SignalType;
use crate::domain::types::Candle;
use crate::num::Binary64;
use crate::risk::circuit_breaker::CircuitBreakerConfig;

verus! {

/// The replay of a set of series.
#[derive(Debug)]
pub struct Replay {
    model: FillModel,
    funding: FundingModel,
    limit: Binary64,
    stream: Vec<Tagged>,
    routes: Vec<Option<usize>>,
    books: Vec<Book>,
    cursor: usize,
    stage: Stage,
    signals: usize,
    blocked: usize,
    filled: u128,
    times: Vec<i64>,
}

fn secs_at(time: i64) -> (r: u64)
    ensures
        r == secs_of(time),
{
    if time < 0 {
        0
    } else {
        time as u64 / 1000
    }
}

/// Books as values.
pub open spec fn book_views(books: Seq<Book>) -> Seq<BookView> {
    books.map_values(|b: Book| b@)
}

impl View for Replay {
    type V = ReplayView;

    closed spec fn view(&self) -> ReplayView {
        ReplayView {
            model: self.model,
            funding: self.funding@,
            limit: self.limit,
            stream: self.stream@,
            routes: self.routes@,
            books: book_views(self.books@),
            cursor: self.cursor as nat,
            stage: self.stage,
            signals: self.signals as nat,
            blocked: self.blocked as nat,
            filled: self.filled as nat,
            times: self.times@,
        }
    }
}

/// What a candle begins with.
#[derive(Debug)]
pub struct Opening {
    /// Index of the series the candle belongs to.
    pub series: usize,
    /// Index of its book, if its symbol is traded.
    pub book: Option<usize>,
    /// The candle.
    pub candle: Candle,
    /// Settlements that fall due, to be booked against `holding` at `mark`.
    pub settlements: Vec<Settlement>,
    /// Position that enters the candle.
    pub holding: Holding,
    /// Last known price of the symbol.
    pub mark: Option<Binary64>,
}

/// What a fill will do, once it is priced.
#[derive(Clone, Copy, Debug, PartialEq, Eq, Structural)]
pub struct FillPlan {
    /// Price of the fill.
    pub price: Binary64,
    /// Contracts that it closes.
    pub closing: u128,
    /// Contracts that it opens.
    pub opening: u128,
    /// Position before the fill.
    pub holding: Holding,
    /// Whether the entry price becomes an average.
    pub averages: bool,
}

/// The first candle of a stream that cannot be used is the one at `i`.
pub open spec fn first_bad_candle(stream: Seq<Tagged>, i: int) -> bool {
    &&& 0 <= i < stream.len()
    &&& !is_usable(stream[i].candle)
    &&& forall|k: int| 0 <= k < i ==> is_usable((#[trigger] stream[k]).candle)
}

/// Every candle can be used.
pub open spec fn all_usable(stream: Seq<Tagged>) -> bool {
    forall|i: int| 0 <= i < stream.len() ==> is_usable((#[trigger] stream[i]).candle)
}

/// The error for a candle that cannot be used.
pub open spec fn candle_error(tagged: Tagged) -> Error {
    Error::Candle {
        series: tagged.series,
        time: tagged.candle.time,
        fault: fault_in(tagged.candle)->0,
    }
}

/// The texts of symbols, each where it occurs first.
pub open spec fn distinct_texts(symbols: Seq<Symbol>) -> Seq<Seq<char>>
    decreases symbols.len(),
{
    if symbols.len() == 0 {
        Seq::empty()
    } else {
        let before = distinct_texts(symbols.drop_last());
        if before.contains(symbols.last()@) {
            before
        } else {
            before.push(symbols.last()@)
        }
    }
}

/// Books with nothing on them, one per symbol.
pub open spec fn fresh_books(
    texts: Seq<Seq<char>>,
    session: bool,
    breaker: Option<CircuitBreakerConfig>,
) -> Seq<BookView> {
    texts.map_values(|text: Seq<char>| BookView::fresh(text, session, breaker))
}

/// Whether a series is routed to the book of its symbol, if there is one.
pub open spec fn routed_to(texts: Seq<Seq<char>>, symbol: Seq<char>, route: Option<usize>) -> bool {
    match route {
        Some(i) => i < texts.len() && texts[i as int] == symbol,
        None => !texts.contains(symbol),
    }
}

/// Whether a replay stands at the beginning of the given series: every candle
/// in order of time, every book empty, nothing counted yet.
pub open spec fn is_start(
    v: ReplayView,
    config: BacktestConfig,
    series: Seq<(Seq<char>, Seq<Candle>)>,
) -> bool {
    let texts = distinct_texts(config.symbols@);
    &&& v.model == config.fill_model
    &&& v.funding.is_normal()
    &&& !(config.funding@ is Series) ==> v.funding == config.funding@
    &&& config.funding@ is Series ==> v.funding is Series && sorts(
        config.funding@->Series_0,
        v.funding->Series_0,
    )
    &&& v.limit == (match config.session_pnl {
        Some(session) => session.loss_limit,
        None => Binary64::spec_zero(),
    })
    &&& sorts(all_tagged(series), v.stream)
    &&& v.routes.len() == series.len()
    &&& forall|k: int|
        0 <= k < series.len() ==> routed_to(texts, series[k].0, #[trigger] v.routes[k])
    &&& v.books == fresh_books(texts, config.session_pnl is Some, config.circuit_breaker)
    &&& v.cursor == 0
    &&& v.stage == Stage::Ready
    &&& v.signals == 0
    &&& v.blocked == 0
    &&& v.filled == 0
    &&& v.times == Seq::<i64>::empty()
}

fn find_book(books: &Vec<Book>, symbol: &Symbol) -> (r: Option<usize>)
    ensures
        match r {
            Some(i) => i < books@.len() && books@[i as int].symbol@ == symbol@,
            None => forall|i: int| 0 <= i < books@.len() ==> (#[trigger] books@[i]).symbol@ != symbol@,
        },
{
    let mut i: usize = 0;
    while i < books.len()
        invariant
            i <= books@.len(),
            forall|k: int| 0 <= k < i ==> (#[trigger] books@[k]).symbol@ != symbol@,
        decreases books@.len() - i,
    {
        if books[i].symbol == *symbol {
            return Some(i);
        }
        i = i + 1;
    }
    None
}

fn empty_books(symbols: &Vec<Symbol>, session: bool, breaker: Option<CircuitBreakerConfig>) -> (r: Vec<
    Book,
>)
    ensures
        book_views(r@) == fresh_books(distinct_texts(symbols@), session, breaker),
        forall|i: int| 0 <= i < r@.len() ==> (#[trigger] r@[i])@.is_sound(),
{
    let mut books: Vec<Book> = Vec::new();
    let mut k: usize = 0;
    assert(symbols@.take(0) =~= Seq::empty());
    assert(book_views(books@) =~= fresh_books(distinct_texts(symbols@.take(0)), session, breaker));
    while k < symbols.len()
        invariant
            k <= symbols@.len(),
            book_views(books@) == fresh_books(distinct_texts(symbols@.take(k as int)), session, breaker),
            forall|i: int| 0 <= i < books@.len() ==> (#[trigger] books@[i])@.is_sound(),
        decreases symbols@.len() - k,
    {
        let ghost texts = distinct_texts(symbols@.take(k as int));
        let ghost views = book_views(books@);
        proof {
            assert(symbols@.take(k + 1).drop_last() =~= symbols@.take(k as int));
            assert(symbols@.take(k + 1).last() == symbols@[k as int]);
            assert(views.len() == texts.len());
            assert forall|i: int| 0 <= i < books@.len() implies (#[trigger] books@[i]).symbol@ == texts[i] by {
                assert(views[i] == books@[i]@);
                assert(views[i] == BookView::fresh(texts[i], session, breaker));
            }
        }
        match find_book(&books, &symbols[k]) {
            Some(i) => {
                assert(texts.contains(symbols@[k as int]@)) by {
                    assert(texts[i as int] == symbols@[k as int]@);
                }
            },
            None => {
                assert(!texts.contains(symbols@[k as int]@)) by {
                    if texts.contains(symbols@[k as int]@) {
                        let i = choose|i: int| 0 <= i < texts.len() && texts[i] == symbols@[k as int]@;
                        assert(books@[i].symbol@ == texts[i]);
                    }
                }
                let ghost earlier = books@;
                books.push(Book::new(symbols[k].clone(), session, breaker));
                proof {
                    let wanted = fresh_books(texts.push(symbols@[k as int]@), session, breaker);
                    assert forall|i: int| 0 <= i < books@.len() implies book_views(books@)[i] == wanted[i] by {
                        if i < earlier.len() {
                            assert(books@[i] == earlier[i]);
                            assert(views[i] == earlier[i]@);
                        }
                    }
                    assert(book_views(books@) =~= wanted);
                }
            },
        }
        k = k + 1;
    }
    assert(symbols@.take(k as int) =~= symbols@);
    books
}

fn route_series(series: &Vec<(Symbol, Vec<Candle>)>, books: &Vec<Book>, texts: Ghost<Seq<Seq<char>>>) -> (r:
    Vec<Option<usize>>)
    requires
        texts@.len() == books@.len(),
        forall|i: int| 0 <= i < books@.len() ==> (#[trigger] books@[i]).symbol@ == texts@[i],
    ensures
        r@.len() == series@.len(),
        forall|k: int| 0 <= k < r@.len() ==> routed_to(texts@, series@[k].0@, #[trigger] r@[k]),
{
    let mut routes: Vec<Option<usize>> = Vec::new();
    let mut k: usize = 0;
    while k < series.len()
        invariant
            k <= series@.len(),
            routes@.len() == k,
            texts@.len() == books@.len(),
            forall|i: int| 0 <= i < books@.len() ==> (#[trigger] books@[i]).symbol@ == texts@[i],
            forall|j: int| 0 <= j < k ==> routed_to(texts@, series@[j].0@, #[trigger] routes@[j]),
        decreases series@.len() - k,
    {
        let route = find_book(books, &series[k].0);
        proof {
            if route is None && texts@.contains(series@[k as int].0@) {
                let i = choose|i: int| 0 <= i < texts@.len() && texts@[i] == series@[k as int].0@;
                assert(books@[i].symbol@ == texts@[i]);
            }
        }
        routes.push(route);
        k = k + 1;
    }
    routes
}

fn check_stream(stream: &Vec<Tagged>) -> (r: Result<(), Error>)
    ensures
        r is Ok <==> all_usable(stream@),
        r is Err ==> exists|i: int| #[trigger]
            first_bad_candle(stream@, i) && r->Err_0 == candle_error(stream@[i]),
{
    let mut i: usize = 0;
    while i < stream.len()
        invariant
            i <= stream@.len(),
            forall|k: int| 0 <= k < i ==> is_usable((#[trigger] stream@[k]).candle),
        decreases stream@.len() - i,
    {
        let tagged = stream[i];
        match validate_candle(&tagged.candle) {
            Ok(()) => {},
            Err(fault) => {
                assert(first_bad_candle(stream@, i as int));
                return Err(
                    Error::Candle { series: tagged.series, time: tagged.candle.time, fault },
                );
            },
        }
        i = i + 1;
    }
    Ok(())
}

proof fn sorting_keeps_usability(s: Seq<Tagged>, sorted: Seq<Tagged>)
    requires
        sorts(s, sorted),
    ensures
        all_usable(s) <==> all_usable(sorted),
{
    broadcast use vstd::seq_lib::group_to_multiset_ensures;

    if all_usable(s) {
        assert forall|i: int| 0 <= i < sorted.len() implies is_usable((#[trigger] sorted[i]).candle) by {
            assert(sorted.to_multiset().contains(sorted[i]));
            assert(s.to_multiset().contains(sorted[i]));
            assert(s.contains(sorted[i]));
        }
    }
    if all_usable(sorted) {
        assert forall|i: int| 0 <= i < s.len() implies is_usable((#[trigger] s[i]).candle) by {
            assert(s.to_multiset().contains(s[i]));
            assert(sorted.to_multiset().contains(s[i]));
            assert(sorted.contains(s[i]));
        }
    }
}

impl Replay {
    /// A replay of the given series, at its beginning.
    ///
    /// Refuses candles that cannot be used, the first in order of time, and
    /// then a funding schedule that cannot be used.
    pub fn new(config: &BacktestConfig, series: &Vec<(Symbol, Vec<Candle>)>) -> (r: Result<
        Self,
        Error,
    >)
        ensures
            r is Ok <==> all_usable(all_tagged(series_of(series@))) && config.funding@.is_valid(),
            r is Ok ==> is_start(r->Ok_0@, *config, series_of(series@)) && r->Ok_0@.is_sound(),
            r is Err && !all_usable(all_tagged(series_of(series@))) ==> exists|stream: Seq<Tagged>, i: int|
                #![trigger first_bad_candle(stream, i)]
                sorts(all_tagged(series_of(series@)), stream) && first_bad_candle(stream, i)
                    && r->Err_0 == candle_error(stream[i]),
            r is Err && all_usable(all_tagged(series_of(series@))) ==> r->Err_0 is Config
                && r->Err_0->Config_0 is Funding && fault_of(
                config.funding@,
                r->Err_0->Config_0->Funding_0,
            ),
    {
        let stream = merge_series(series);
        proof {
            sorting_keeps_usability(all_tagged(series_of(series@)), stream@);
        }
        match check_stream(&stream) {
            Ok(()) => {},
            Err(e) => {
                return Err(e);
            },
        }
        let funding = match config.funding.clone().validated() {
            Ok(model) => model,
            Err(fault) => {
                return Err(Error::Config(ConfigFault::Funding(fault)));
            },
        };
        let limit = match &config.session_pnl {
            Some(session) => session.loss_limit,
            None => Binary64::zero(),
        };
        let books = empty_books(&config.symbols, config.session_pnl.is_some(), config.circuit_breaker);
        let ghost texts = distinct_texts(config.symbols@);
        proof {
            let views = book_views(books@);
            assert(views.len() == texts.len());
            assert forall|i: int| 0 <= i < books@.len() implies (#[trigger] books@[i]).symbol@ == texts[i] by {
                assert(views[i] == books@[i]@);
                assert(views[i] == BookView::fresh(
                    texts[i],
                    config.session_pnl is Some,
                    config.circuit_breaker,
                ));
            }
        }
        let routes = route_series(series, &books, Ghost(texts));
        let replay = Replay {
            model: config.fill_model,
            funding,
            limit,
            stream,
            routes,
            books,
            cursor: 0,
            stage: Stage::Ready,
            signals: 0,
            blocked: 0,
            filled: 0,
            times: Vec::new(),
        };
        proof {
            let v = replay@;
            assert forall|i: int| 0 <= i < v.books.len() implies #[trigger] v.book_ok(i) by {
                assert(v.books[i] == books@[i]@);
                assert(v.books[i] == BookView::fresh(
                    texts[i],
                    config.session_pnl is Some,
                    config.circuit_breaker,
                ));
            }
            assert forall|k: int| 0 <= k < v.routes.len() && (#[trigger] v.routes[k]) is Some implies v.routes[k]->0
                < v.books.len() by {
                assert(routed_to(texts, series@[k].0@, v.routes[k]));
            }
        }
        Ok(replay)
    }

    /// Where the replay stands.
    pub fn stage(&self) -> (r: Stage)
        ensures
            r == self@.stage,
    {
        self.stage
    }

    /// Number of candles in the stream.
    pub fn candles(&self) -> (r: usize)
        ensures
            r == self@.stream.len(),
    {
        self.stream.len()
    }

    /// Decisions so far that were not holds.
    pub fn signals_emitted(&self) -> (r: usize)
        ensures
            r == self@.signals,
    {
        self.signals
    }

    /// Decisions so far that a gate blocked.
    pub fn orders_blocked(&self) -> (r: usize)
        ensures
            r == self@.blocked,
    {
        self.blocked
    }

    /// Fills so far.
    pub fn orders_filled(&self) -> (r: u128)
        ensures
            r == self@.filled,
    {
        self.filled
    }

    /// Times of the account's samples so far.
    pub fn equity_times(&self) -> (r: &Vec<i64>)
        ensures
            r@ == self@.times,
    {
        &self.times
    }

    /// Number of books.
    pub fn book_count(&self) -> (r: usize)
        ensures
            r == self@.books.len(),
    {
        self.books.len()
    }

    /// A symbol's book.
    pub fn book(&self, i: usize) -> (r: &Book)
        requires
            i < self@.books.len(),
        ensures
            r@ == self@.books[i as int],
    {
        &self.books[i]
    }
}

impl Replay {
    /// Begin the next candle; `None` when there is none left.
    pub fn begin(&mut self) -> (r: Option<Opening>)
        requires
            old(self)@.is_sound(),
            old(self)@.stage == Stage::Ready,
        ensures
            r is None <==> old(self)@.cursor == old(self)@.stream.len(),
            r is None ==> final(self)@ == old(self)@,
            r is Some ==> {
                let opening = r->0;
                let after = final(self)@;
                &&& after == old(self)@.opened()
                &&& opening.series == after.stream[after.cursor - 1].series
                &&& opening.book == after.at()
                &&& opening.candle == after.candle()
                &&& opening.settlements@ == after.due()
                &&& opening.holding == (if after.at() is Some {
                    after.book().holding
                } else {
                    Holding::spec_flat()
                })
                &&& opening.mark == (if after.at() is Some {
                    after.book().last_mark
                } else {
                    None
                })
            },
            final(self)@.is_sound(),
    {
        if self.cursor >= self.stream.len() {
            return None;
        }
        let ghost before = self@;
        let tagged = self.stream[self.cursor];
        let candle = tagged.candle;
        if self.cursor == 0 {
            self.times.push(candle.time);
        }
        self.cursor = self.cursor + 1;
        self.stage = Stage::Opened;
        let book = self.routes[tagged.series];
        match book {
            None => {
                assert(self@ =~= before.opened());
                proof {
                    opening_keeps_soundness(before);
                }
                Some(
                    Opening {
                        series: tagged.series,
                        book,
                        candle,
                        settlements: Vec::new(),
                        holding: Holding::flat(),
                        mark: None,
                    },
                )
            },
            Some(i) => {
                let ghost views = book_views(self.books@);
                self.books[i].tick(secs_at(candle.time));
                assert(book_views(self.books@) =~= views.update(i as int, views[i as int].ticked(secs_of(candle.time))));
                assert(self@ =~= before.opened());
                proof {
                    opening_keeps_soundness(before);
                }
                let holding = self.books[i].holding;
                let settlements = match self.books[i].last_time {
                    Some(last) => {
                        if holding.is_flat() {
                            Vec::new()
                        } else {
                            self.funding.settlements_between(last, candle.time)
                        }
                    },
                    None => Vec::new(),
                };
                assert(settlements@ =~= self@.due());
                Some(
                    Opening {
                        series: tagged.series,
                        book,
                        candle,
                        settlements,
                        holding,
                        mark: self.books[i].last_mark,
                    },
                )
            },
        }
    }

    /// Index of the book of the candle under way.
    fn current(&self) -> (r: Option<usize>)
        requires
            self@.is_sound(),
            self@.cursor > 0,
        ensures
            r == self@.at(),
            r is Some ==> r->0 < self@.books.len(),
    {
        self.routes[self.stream[self.cursor - 1].series]
    }

    fn set_stage(&mut self, stage: Stage) -> (r: Step)
        ensures
            final(self)@ == old(self)@.to(stage),
            r == step_of(stage),
    {
        self.stage = stage;
        match stage {
            Stage::Ready => Step::Sample,
            Stage::Opened => Step::Settle,
            Stage::Filling(request) => Step::Fill(request),
            Stage::Deciding => Step::Decide,
        }
    }

    /// Go on once the candle's funding is booked.
    pub fn settled(&mut self) -> (r: Step)
        requires
            old(self)@.is_sound(),
            old(self)@.stage == Stage::Opened,
        ensures
            final(self)@ == old(self)@.after_open(),
            r == step_of(final(self)@.stage),
            final(self)@.is_sound(),
    {
        let ghost before = self@;
        let step = match self.current() {
            None => self.set_stage(Stage::Deciding),
            Some(i) => {
                let candle = self.stream[self.cursor - 1].candle;
                let book = &self.books[i];
                let holding = book.holding;
                let exit = bracket_exit(self.model, &holding, &book.bracket, &candle);
                assert(self.books@[i as int]@ == before.book());
                proof {
                    assert(before.book_ok(i as int));
                }
                match exit {
                    Some((leg, price)) => {
                        let request = request_for_exit(&holding, leg, price, Cause::Exit(leg));
                        self.set_stage(Stage::Filling(request))
                    },
                    None => self.go_on_after_exits(i),
                }
            },
        };
        proof {
            after_open_is_sound(before);
        }
        step
    }

    fn go_on_after_exits(&mut self, i: usize) -> (r: Step)
        requires
            old(self)@.is_sound() || old(self)@.midway(),
            old(self)@.cursor > 0,
            old(self)@.at() == Some(i),
            old(self)@.cursor <= old(self)@.stream.len(),
            i < old(self)@.books.len(),
        ensures
            final(self)@ == old(self)@.after_exits(),
            r == step_of(final(self)@.stage),
    {
        let ghost before = self@;
        let candle = self.stream[self.cursor - 1].candle;
        let waiting = self.books[i].resting;
        assert(self.books@[i as int]@ == before.book());
        if let Some(order) = waiting {
            if let Some(price) = resting_fill(&order, &candle) {
                let ghost views = book_views(self.books@);
                self.books[i].resting = None;
                assert(book_views(self.books@) =~= views.update(
                    i as int,
                    (BookView { resting: None, ..views[i as int] }),
                ));
                let request = FillRequest {
                    side: order.side,
                    qty: order.qty,
                    reference: price,
                    taker: false,
                    cap: None,
                    legs: order.legs,
                    cause: Cause::Resting { placed: order.placed },
                };
                let step = self.set_stage(Stage::Filling(request));
                assert(self@ =~= before.after_exits());
                return step;
            }
        }
        self.set_stage(Stage::Deciding)
    }
}

impl Replay {
    /// The fill that is to be priced, and the index of its book.
    fn pending(&self) -> (r: (usize, FillRequest))
        requires
            self@.is_sound(),
            self@.stage is Filling,
        ensures
            self@.at() == Some(r.0),
            r.0 < self@.books.len(),
            r.1 == self@.request(),
    {
        match (self.current(), self.stage) {
            (Some(i), Stage::Filling(request)) => (i, request),
            _ => unreached(),
        }
    }

    /// What the fill that is to be priced will do at the given slipped price.
    pub fn plan(&self, slipped: Binary64) -> (r: FillPlan)
        requires
            self@.is_sound(),
            self@.stage is Filling,
        ensures
            ({
                let request = self@.request();
                let holding = self@.book().holding;
                &&& r.price == fill_price(request, slipped)
                &&& r.closing == self@.book().closes(request)
                &&& r.opening == request.qty - r.closing
                &&& r.holding == holding
                &&& r.averages == holding.grows_by(request.side, request.qty as int)
            }),
    {
        let (i, request) = self.pending();
        proof {
            assert(self@.book_ok(i as int));
            bounds_hold(self@, i as int);
        }
        let holding = self.books[i].holding;
        let price = cap_price(request.side, slipped, request.cap);
        let effect = holding.apply_fill(request.side, request.qty, price, price);
        FillPlan {
            price,
            closing: effect.closing,
            opening: effect.opening,
            holding,
            averages: holding.needs_average(request.side, request.qty),
        }
    }

    /// Report that a fill was priced.
    ///
    /// `slipped` is the reference price after slippage, `averaged` the entry
    /// price weighted over the old position and the fill (used only where the
    /// fill enlarges the position), `sums` what a closed trade comes to (used
    /// only where contracts are closed).
    pub fn filled(&mut self, slipped: Binary64, averaged: Binary64, sums: CloseSums) -> (r: Result<
        Step,
        Error,
    >)
        requires
            old(self)@.is_sound(),
            old(self)@.stage is Filling,
        ensures
            r is Err <==> old(self)@.book().is_full_for(old(self)@.request()),
            r is Err ==> final(self)@ == old(self)@ && r->Err_0 == Error::SessionFull,
            r is Ok ==> final(self)@ == old(self)@.after_fill(slipped, averaged, sums),
            r is Ok ==> r->Ok_0 == step_of(final(self)@.stage),
            final(self)@.is_sound(),
    {
        let ghost before = self@;
        let (i, request) = self.pending();
        let candle = self.stream[self.cursor - 1].candle;
        let now: u64 = secs_at(candle.time);
        let ghost views = book_views(self.books@);
        proof {
            assert(before.book_ok(i as int));
            bounds_hold(before, i as int);
            assert(views[i as int] == self.books@[i as int]@);
        }
        let outcome = self.books[i].fill(
            self.model,
            self.limit,
            now,
            &request,
            slipped,
            averaged,
            sums,
        );
        match outcome {
            Err(e) => {
                assert(book_views(self.books@) =~= views);
                return Err(e);
            },
            Ok(()) => {},
        }
        self.filled = self.filled + 1;
        let ghost book = before.book().after_fill(
            before.model,
            before.limit,
            before.now(),
            request,
            slipped,
            averaged,
            sums,
        );
        let ghost mid = ReplayView { filled: before.filled + 1, ..before.put(book) };
        proof {
            assert(book_views(self.books@) =~= views.update(i as int, book));
            assert(self@ =~= mid);
            fill_leads_midway(before, slipped, averaged, sums);
        }
        let step = match request.cause {
            Cause::Exit(_) => {
                proof {
                    after_exits_is_sound(mid);
                }
                self.go_on_after_exits(i)
            },
            Cause::Resting { .. } => {
                proof {
                    after_resting_is_sound(mid);
                }
                self.go_on_after_resting(i)
            },
            Cause::SameCandleStop => {
                proof {
                    deciding_is_sound(mid);
                }
                self.set_stage(Stage::Deciding)
            },
            Cause::Decision => {
                proof {
                    ended_is_sound(mid);
                }
                self.end_candle(Some(i))
            },
        };
        Ok(step)
    }

    fn go_on_after_resting(&mut self, i: usize) -> (r: Step)
        requires
            old(self)@.midway(),
            old(self)@.at() == Some(i),
            i < old(self)@.books.len(),
        ensures
            final(self)@ == old(self)@.after_resting(),
            r == step_of(final(self)@.stage),
    {
        let candle = self.stream[self.cursor - 1].candle;
        let holding = self.books[i].holding;
        let stop = Bracket { stop: self.books[i].bracket.stop, take_profit: None };
        assert(self.books@[i as int]@ == self@.book());
        proof {
            assert(self@.book_ok(i as int));
        }
        match bracket_exit(self.model, &holding, &stop, &candle) {
            Some((leg, price)) => {
                let request = request_for_exit(&holding, leg, price, Cause::SameCandleStop);
                self.set_stage(Stage::Filling(request))
            },
            None => self.set_stage(Stage::Deciding),
        }
    }

    fn end_candle(&mut self, book: Option<usize>) -> (r: Step)
        requires
            0 < old(self)@.cursor <= old(self)@.stream.len(),
            old(self)@.at() == book,
            book is Some ==> book->0 < old(self)@.books.len(),
        ensures
            final(self)@ == old(self)@.ended(),
            r == Step::Sample,
    {
        let ghost before = self@;
        let candle = self.stream[self.cursor - 1].candle;
        let ghost views = book_views(self.books@);
        if let Some(i) = book {
            assert(views[i as int] == self.books@[i as int]@);
            self.books[i].last_time = Some(candle.time);
            self.books[i].last_mark = Some(candle.close);
            assert(book_views(self.books@) =~= views.update(
                i as int,
                views[i as int].after_candle(candle.time, candle.close),
            ));
        }
        self.times.push(candle.time);
        let step = self.set_stage(Stage::Ready);
        assert(self@ =~= before.ended());
        step
    }

    /// Report the strategy's decision. `contracts` is the size of an entry.
    pub fn decided(&mut self, decision: &Decision, contracts: u32) -> (r: Step)
        requires
            old(self)@.is_sound(),
            old(self)@.stage == Stage::Deciding,
        ensures
            final(self)@ == old(self)@.after_decision(*decision, contracts),
            r == step_of(final(self)@.stage),
            final(self)@.is_sound(),
    {
        let ghost before = self@;
        proof {
            decision_is_sound(before, *decision, contracts);
        }
        let holds = match decision.signal {
            SignalType::Hold => true,
            _ => false,
        };
        let i: usize = match self.current() {
            Some(i) => {
                if holds {
                    return self.end_candle(Some(i));
                }
                i
            },
            None => {
                return self.end_candle(None);
            },
        };
        let candle = self.stream[self.cursor - 1].candle;
        let now: u64 = secs_at(candle.time);
        let ghost views = book_views(self.books@);
        assert(views[i as int] == self.books@[i as int]@);
        proof {
            assert(before.book_ok(i as int));
            bounds_hold(before, i as int);
        }
        self.signals = self.signals + 1;
        if self.books[i].gated(now) {
            self.blocked = self.blocked + 1;
            assert(self@ =~= (ReplayView { blocked: before.blocked + 1, ..before.with_signal() }));
            return self.end_candle(Some(i));
        }
        let order = resolve_order(decision, &self.books[i].holding, contracts);
        self.books[i].resting = None;
        assert(book_views(self.books@) =~= views.update(
            i as int,
            (BookView { resting: None, ..views[i as int] }),
        ));
        assert(self@ =~= before.with_signal().accepted());
        match order {
            None => self.end_candle(Some(i)),
            Some(order) => self.route(i, &order),
        }
    }

    fn route(&mut self, i: usize, order: &ResolvedOrder) -> (r: Step)
        requires
            0 < old(self)@.cursor <= old(self)@.stream.len(),
            old(self)@.at() == Some(i),
            i < old(self)@.books.len(),
        ensures
            final(self)@ == old(self)@.after_order(*order),
            r == step_of(final(self)@.stage),
    {
        let ghost before = self@;
        let candle = self.stream[self.cursor - 1].candle;
        match route_order(self.model, order, &candle) {
            Routing::Fill { reference, taker, cap } => {
                let request = FillRequest {
                    side: order.side,
                    qty: order.qty,
                    reference,
                    taker,
                    cap,
                    legs: order.legs,
                    cause: Cause::Decision,
                };
                self.set_stage(Stage::Filling(request))
            },
            Routing::Rest { limit } => {
                let waiting = RestingOrder {
                    side: order.side,
                    qty: order.qty,
                    limit,
                    legs: order.legs,
                    placed: self.cursor - 1,
                };
                let ghost views = book_views(self.books@);
                assert(views[i as int] == self.books@[i as int]@);
                self.books[i].resting = Some(waiting);
                assert(book_views(self.books@) =~= views.update(
                    i as int,
                    (BookView { resting: Some(waiting), ..views[i as int] }),
                ));
                assert(self@ =~= before.put(BookView { resting: Some(waiting), ..before.book() }));
                self.end_candle(Some(i))
            },
            Routing::Drop => self.end_candle(Some(i)),
        }
    }
}

proof fn bounds_hold(v: ReplayView, i: int)
    requires
        v.is_sound(),
        0 <= i < v.books.len(),
        v.cursor <= usize::MAX,
    ensures
        size_of(v.books[i].holding.qty as int) < i128::MAX / 2,
        v.stage is Filling && v.at()->0 == i ==> size_of(v.books[i].holding.qty as int)
            + v.request().qty <= i128::MAX,
        v.filled < u128::MAX,
{
    assert(v.book_ok(i));
    assert(v.filled <= 4 * 0x1_0000_0000_0000_0000);
    assert(v.filled * ENTRY_BOUND <= 4 * 0x1_0000_0000_0000_0000 * ENTRY_BOUND) by (nonlinear_arith)
        requires
            v.filled <= 4 * 0x1_0000_0000_0000_0000,
    ;
}

proof fn fill_leads_midway(v: ReplayView, slipped: Binary64, averaged: Binary64, sums: CloseSums)
    requires
        v.is_sound(),
        v.stage is Filling,
        v.cursor <= usize::MAX,
        !v.book().is_full_for(v.request()),
        v.book().after_fill(v.model, v.limit, v.now(), v.request(), slipped, averaged, sums).is_sound(),
        v.book().after_fill(v.model, v.limit, v.now(), v.request(), slipped, averaged, sums).holding.qty
            == v.book().holding.qty + signed(v.request().side, v.request().qty as int),
    ensures
        ({
            let book = v.book().after_fill(
                v.model,
                v.limit,
                v.now(),
                v.request(),
                slipped,
                averaged,
                sums,
            );
            (ReplayView { filled: v.filled + 1, ..v.put(book) }).midway()
        }),
{
    let book = v.book().after_fill(v.model, v.limit, v.now(), v.request(), slipped, averaged, sums);
    let mid = ReplayView { filled: v.filled + 1, ..v.put(book) };
    let at = v.at()->0 as int;
    assert(v.book_ok(at));
    assert((v.filled + 1) * ENTRY_BOUND == v.filled * ENTRY_BOUND + ENTRY_BOUND) by (nonlinear_arith);
    assert forall|i: int| 0 <= i < mid.books.len() implies #[trigger] mid.book_ok(i) by {
        assert(v.book_ok(i));
    }
    assert(mid.sampled());
}

proof fn after_resting_is_sound(v: ReplayView)
    requires
        v.midway(),
        v.request().cause is Resting,
    ensures
        v.after_resting().is_sound(),
{
    let after = v.after_resting();
    let at = v.at()->0 as int;
    assert(v.book_ok(at));
    assert forall|i: int| 0 <= i < after.books.len() implies #[trigger] after.book_ok(i) by {
        assert(v.book_ok(i));
    }
    assert(after.sampled());
    assert(after.at() == v.at());
}

proof fn deciding_is_sound(v: ReplayView)
    requires
        v.midway(),
        v.request().cause is SameCandleStop,
    ensures
        v.to(Stage::Deciding).is_sound(),
{
    let after = v.to(Stage::Deciding);
    assert forall|i: int| 0 <= i < after.books.len() implies #[trigger] after.book_ok(i) by {
        assert(v.book_ok(i));
    }
    assert(after.sampled());
}

proof fn ended_is_sound(v: ReplayView)
    requires
        v.midway(),
        v.request().cause is Decision,
    ensures
        v.ended().is_sound(),
{
    let after = v.ended();
    assert forall|i: int| 0 <= i < after.books.len() implies #[trigger] after.book_ok(i) by {
        assert(v.book_ok(i));
    }
    assert(after.sampled());
}

/// A decision ends the candle without a fill.
proof fn quiet_end_is_sound(v: ReplayView, w: ReplayView)
    requires
        v.is_sound(),
        v.stage == Stage::Deciding,
        w == (ReplayView { signals: w.signals, blocked: w.blocked, books: w.books, ..v }),
        w.blocked <= w.signals <= v.signals + 1,
        w.books.len() == v.books.len(),
        forall|i: int|
            0 <= i < w.books.len() ==> {
                &&& (#[trigger] w.books[i]).is_sound()
                &&& w.books[i].holding == v.books[i].holding
                &&& w.books[i].resting is Some ==> v.model == FillModel::Resting
                    && w.books[i].resting->0.placed < v.cursor
            },
    ensures
        w.ended().is_sound(),
{
    let after = w.ended();
    assert forall|i: int| 0 <= i < after.books.len() implies #[trigger] after.book_ok(i) by {
        assert(v.book_ok(i));
        assert(w.books[i].is_sound());
    }
    assert(after.sampled());
}

proof fn decision_is_sound(v: ReplayView, decision: Decision, contracts: u32)
    requires
        v.is_sound(),
        v.stage == Stage::Deciding,
        v.cursor <= usize::MAX,
    ensures
        v.after_decision(decision, contracts).is_sound(),
{
    assert forall|i: int| 0 <= i < v.books.len() implies (#[trigger] v.books[i]).is_sound() && (
    v.books[i].resting is Some ==> v.model == FillModel::Resting && v.books[i].resting->0.placed
        < v.cursor) by {
        assert(v.book_ok(i));
    }
    if !v.is_signal(decision) {
        quiet_end_is_sound(v, v);
    } else if v.book().is_gated(v.now()) {
        quiet_end_is_sound(v, ReplayView { blocked: v.blocked + 1, ..v.with_signal() });
    } else {
        let at = v.at()->0 as int;
        assert(v.book_ok(at));
        bounds_hold(v, at);
        let passed = v.with_signal().accepted();
        match order_for(decision, v.book().holding, contracts) {
            None => {
                quiet_end_is_sound(v, passed);
            },
            Some(order) => {
                match routed(v.model, order, v.candle()) {
                    Routing::Fill { reference, taker, cap } => {
                        let after = passed.after_order(order);
                        assert forall|i: int| 0 <= i < after.books.len() implies #[trigger] after.book_ok(i) by {
                            assert(v.book_ok(i));
                        }
                        assert(after.sampled());
                    },
                    Routing::Rest { limit } => {
                        let waiting = RestingOrder {
                            side: order.side,
                            qty: order.qty,
                            limit,
                            legs: order.legs,
                            placed: (passed.cursor - 1) as usize,
                        };
                        quiet_end_is_sound(
                            v,
                            passed.put(BookView { resting: Some(waiting), ..passed.book() }),
                        );
                    },
                    Routing::Drop => {
                        quiet_end_is_sound(v, passed);
                    },
                }
            },
        }
    }
}

fn request_for_exit(holding: &Holding, leg: Leg, price: Binary64, cause: Cause) -> (r: FillRequest)
    requires
        holding.spec_close_side() is Some,
        holding.qty > i128::MIN,
    ensures
        r == exit_request(*holding, leg, price, cause),
        r.qty > 0,
{
    let side = match holding.close_side() {
        Some(side) => side,
        None => unreached(),
    };
    FillRequest {
        side,
        qty: holding.size(),
        reference: price,
        taker: match leg {
            Leg::Stop => true,
            Leg::TakeProfit => false,
        },
        cap: None,
        legs: Bracket::none(),
        cause,
    }
}

impl ReplayView {
    /// A fill of the candle under way has just been booked, and what follows is
    /// not decided yet: all that soundness says but for the stage.
    spec fn midway(self) -> bool {
        &&& self.stage is Filling
        &&& self.at() is Some
        &&& 0 < self.cursor <= self.stream.len()
        &&& forall|i: int|
            0 <= i < self.stream.len() ==> (#[trigger] self.stream[i]).series < self.routes.len()
        &&& forall|k: int|
            0 <= k < self.routes.len() && (#[trigger] self.routes[k]) is Some ==> self.routes[k]->0
                < self.books.len()
        &&& forall|i: int| 0 <= i < self.books.len() ==> #[trigger] self.book_ok(i)
        &&& self.filled + self.slack() <= 4 * self.cursor + 1
        &&& self.blocked <= self.signals
        &&& self.signals + (if self.awaits_decision() {
            1int
        } else {
            0int
        }) <= self.cursor
        &&& self.sampled()
    }
}

proof fn after_open_is_sound(v: ReplayView)
    requires
        v.is_sound(),
        v.stage == Stage::Opened,
    ensures
        v.after_open().is_sound(),
{
    if v.at() is Some {
        assert(v.book_ok(v.at()->0 as int));
        let book = v.book();
        match exit_on(v.model, book.holding, book.bracket, v.candle()) {
            Some((leg, price)) => {
                let after = v.after_open();
                assert forall|i: int| 0 <= i < after.books.len() implies #[trigger] after.book_ok(i) by {
                    assert(v.book_ok(i));
                }
                assert(after.sampled());
            },
            None => {
                after_exits_is_sound(v);
            },
        }
    } else {
        let after = v.after_open();
        assert forall|i: int| 0 <= i < after.books.len() implies #[trigger] after.book_ok(i) by {
            assert(v.book_ok(i));
        }
        assert(after.sampled());
    }
}

proof fn after_exits_is_sound(v: ReplayView)
    requires
        v.is_sound() && v.stage == Stage::Opened || v.midway() && v.request().cause is Exit,
        v.at() is Some,
    ensures
        v.after_exits().is_sound(),
{
    let after = v.after_exits();
    let at = v.at()->0 as int;
    assert(v.book_ok(at));
    assert forall|i: int| 0 <= i < after.books.len() implies #[trigger] after.book_ok(i) by {
        assert(v.book_ok(i));
    }
    assert(after.sampled());
    assert(after.at() == v.at());
}

proof fn opening_keeps_soundness(v: ReplayView)
    requires
        v.is_sound(),
        v.stage == Stage::Ready,
        v.cursor < v.stream.len(),
    ensures
        v.opened().is_sound(),
{
    let after = v.opened();
    assert forall|i: int| 0 <= i < after.books.len() implies #[trigger] after.book_ok(i) by {
        assert(v.book_ok(i));
    }
    assert forall|i: int| 0 < i < after.times.len() implies #[trigger] after.times[i] == after.stream[i - 1].candle.time by {
        if v.cursor > 0 {
            assert(v.times[i] == v.stream[i - 1].candle.time);
        }
    }
}

proof fn texts_are_distinct(symbols: Seq<Symbol>)
    ensures
        forall|i: int, j: int|
            0 <= i < j < distinct_texts(symbols).len() ==> distinct_texts(symbols)[i]
                != distinct_texts(symbols)[j],
    decreases symbols.len(),
{
    if symbols.len() > 0 {
        texts_are_distinct(symbols.drop_last());
        let before = distinct_texts(symbols.drop_last());
        if !before.contains(symbols.last()@) {
            assert forall|i: int| 0 <= i < before.len() implies before[i] != symbols.last()@ by {
                assert(before.contains(before[i]));
            }
        }
    }
}

/// A replay is deterministic: the same settings and series begin it the same
/// way, and from there each step is a function of what the caller reports.
pub proof fn start_is_determined(
    a: ReplayView,
    b: ReplayView,
    config: BacktestConfig,
    series: Seq<(Seq<char>, Seq<Candle>)>,
)
    requires
        is_start(a, config, series),
        is_start(b, config, series),
    ensures
        a == b,
{
    let texts = distinct_texts(config.symbols@);
    sorting_is_determined(all_tagged(series), a.stream, b.stream);
    if config.funding@ is Series {
        sorting_is_determined(
            config.funding@->Series_0,
            a.funding->Series_0,
            b.funding->Series_0,
        );
    }
    texts_are_distinct(config.symbols@);
    assert forall|k: int| 0 <= k < series.len() implies a.routes[k] == b.routes[k] by {
        let (x, y) = (a.routes[k], b.routes[k]);
        assert(routed_to(texts, series[k].0, x) && routed_to(texts, series[k].0, y));
        if x is Some {
            assert(texts.contains(texts[x->0 as int]));
        }
        if y is Some {
            assert(texts.contains(texts[y->0 as int]));
        }
    }
    assert(a.routes =~= b.routes);
    assert(a =~= b);
}

proof fn texts_are_those_of_symbols(symbols: Seq<Symbol>, text: Seq<char>)
    ensures
        distinct_texts(symbols).contains(text) <==> exists|i: int|
            0 <= i < symbols.len() && (#[trigger] symbols[i])@ == text,
    decreases symbols.len(),
{
    if symbols.len() > 0 {
        let rest = symbols.drop_last();
        let (before, all) = (distinct_texts(rest), distinct_texts(symbols));
        texts_are_those_of_symbols(rest, text);
        if all.contains(text) {
            if before.contains(text) {
                let i = choose|i: int| 0 <= i < rest.len() && (#[trigger] rest[i])@ == text;
                assert(symbols[i]@ == text);
            } else {
                let k = choose|k: int| 0 <= k < all.len() && all[k] == text;
                if k < before.len() {
                    assert(before[k] == text);
                }
                assert(symbols[symbols.len() - 1]@ == text);
            }
        }
        if exists|i: int| 0 <= i < symbols.len() && (#[trigger] symbols[i])@ == text {
            let i = choose|i: int| 0 <= i < symbols.len() && (#[trigger] symbols[i])@ == text;
            if i < rest.len() {
                assert(rest[i]@ == text);
                let k = choose|k: int| 0 <= k < before.len() && before[k] == text;
                assert(all[k] == text);
            } else if !before.contains(text) {
                assert(all[before.len() as int] == text);
            }
        }
    }
}

/// A replay starts before its first candle, with nothing counted. Every
/// configured symbol has one book, flat and empty, with the gates that are
/// configured. A series goes to the book of its own symbol, and to none where
/// its symbol is not configured.
pub proof fn replays_start_flat(
    v: ReplayView,
    config: BacktestConfig,
    series: Seq<(Seq<char>, Seq<Candle>)>,
)
    requires
        is_start(v, config, series),
    ensures
        v.stage == Stage::Ready,
        v.cursor == 0 && v.signals == 0 && v.blocked == 0 && v.filled == 0 && v.times.len() == 0,
        v.model == config.fill_model,
        config.session_pnl is Some ==> v.limit == config.session_pnl->0.loss_limit,
        !(config.funding@ is Series) ==> v.funding == config.funding@,
        config.funding@ matches FundingView::Series(points) ==> (v.funding
            matches FundingView::Series(sorted) && sorted.len() == points.len() && (forall|i: int, j: int|
            0 <= i < j < sorted.len() ==> (#[trigger] sorted[i]).time < (#[trigger] sorted[j]).time)
            && (forall|s: Settlement| #[trigger] sorted.contains(s) <==> points.contains(s))),
        v.stream.len() == all_tagged(series).len(),
        forall|i: int, j: int|
            0 <= i <= j < v.stream.len() ==> (#[trigger] v.stream[i]).candle.time <= (
            #[trigger] v.stream[j]).candle.time,
        forall|b: int|
            0 <= b < v.books.len() ==> {
                let book = #[trigger] v.books[b];
                &&& book.holding.qty == 0
                &&& book.bracket.stop is None && book.bracket.take_profit is None
                &&& book.resting is None && book.last_time is None && book.last_mark is None
                &&& book.session is Some <==> config.session_pnl is Some
                &&& book.breaker is Some <==> config.circuit_breaker is Some
                &&& book.breaker is Some ==> book.breaker->0.config == config.circuit_breaker->0
                &&& exists|i: int|
                    0 <= i < config.symbols@.len() && (#[trigger] config.symbols@[i])@ == book.symbol
            },
        forall|i: int|
            0 <= i < config.symbols@.len() ==> exists|b: int|
                0 <= b < v.books.len() && (#[trigger] v.books[b]).symbol == (
                #[trigger] config.symbols@[i])@,
        forall|a: int, b: int|
            0 <= a < b < v.books.len() ==> (#[trigger] v.books[a]).symbol != (
            #[trigger] v.books[b]).symbol,
        v.routes.len() == series.len(),
        forall|k: int|
            0 <= k < series.len() ==> match #[trigger] v.routes[k] {
                Some(b) => b < v.books.len() && v.books[b as int].symbol == series[k].0,
                None => forall|i: int|
                    0 <= i < config.symbols@.len() ==> (#[trigger] config.symbols@[i])@ != series[k].0,
            },
{
    if let FundingView::Series(points) = config.funding@ {
        let sorted = v.funding->Series_0;
        times_are_those_of_settlements(sorted);
        assert forall|s: Settlement| #[trigger] sorted.contains(s) <==> points.contains(s) by {
            broadcast use vstd::seq_lib::group_to_multiset_ensures;

            assert(sorted.to_multiset().contains(s) <==> points.to_multiset().contains(s));
        }
        assert forall|i: int, j: int| 0 <= i < j < sorted.len() implies (#[trigger] sorted[i]).time
            < (#[trigger] sorted[j]).time by {
            assert(sorted[i].time != sorted[j].time && sorted[i].time <= sorted[j].time);
        }
    }
    let texts = distinct_texts(config.symbols@);
    texts_are_distinct(config.symbols@);
    assert forall|i: int, j: int| 0 <= i <= j < v.stream.len() implies (
    #[trigger] v.stream[i]).candle.time <= (#[trigger] v.stream[j]).candle.time by {
        assert(v.stream[i].at() <= v.stream[j].at());
    }
    assert forall|b: int| 0 <= b < v.books.len() implies (#[trigger] v.books[b]).symbol == texts[b]
        && exists|i: int|
        0 <= i < config.symbols@.len() && (#[trigger] config.symbols@[i])@ == v.books[b].symbol by {
        texts_are_those_of_symbols(config.symbols@, texts[b]);
        assert(texts.contains(texts[b]));
    }
    assert forall|i: int| 0 <= i < config.symbols@.len() implies exists|b: int|
        0 <= b < v.books.len() && (#[trigger] v.books[b]).symbol == (
        #[trigger] config.symbols@[i])@ by {
        texts_are_those_of_symbols(config.symbols@, config.symbols@[i]@);
        let b = choose|b: int| 0 <= b < texts.len() && texts[b] == config.symbols@[i]@;
        assert(v.books[b].symbol == texts[b]);
    }
    assert forall|k: int| 0 <= k < series.len() implies match #[trigger] v.routes[k] {
        Some(b) => b < v.books.len() && v.books[b as int].symbol == series[k].0,
        None => forall|i: int|
            0 <= i < config.symbols@.len() ==> (#[trigger] config.symbols@[i])@ != series[k].0,
    } by {
        assert(routed_to(texts, series[k].0, v.routes[k]));
        if v.routes[k] is None {
            texts_are_those_of_symbols(config.symbols@, series[k].0);
        }
    }
}

/// Candles that cannot be replayed are refused by the first of them in the
/// stream: all before it can be used, and the error gives the series and the
/// time of that candle and what is wrong with it.
pub proof fn refusals_name_the_first_bad_candle(stream: Seq<Tagged>, i: int)
    requires
        first_bad_candle(stream, i),
    ensures
        fault_in(stream[i].candle) is Some,
        forall|k: int| 0 <= k < i ==> fault_in((#[trigger] stream[k]).candle) is None,
        candle_error(stream[i]) == (Error::Candle {
            series: stream[i].series,
            time: stream[i].candle.time,
            fault: fault_in(stream[i].candle)->0,
        }),
        !all_usable(stream),
{
}

/// A stream can be replayed exactly where nothing is wrong with any candle of
/// it.
pub proof fn usable_streams_have_no_fault(stream: Seq<Tagged>)
    ensures
        all_usable(stream) <==> forall|i: int|
            0 <= i < stream.len() ==> fault_in((#[trigger] stream[i]).candle) is None,
{
    if forall|i: int| 0 <= i < stream.len() ==> fault_in((#[trigger] stream[i]).candle) is None {
        assert forall|i: int| 0 <= i < stream.len() implies is_usable(
            (#[trigger] stream[i]).candle,
        ) by {
            assert(fault_in(stream[i].candle) is None);
        }
    }
    if all_usable(stream) {
        assert forall|i: int| 0 <= i < stream.len() implies fault_in(
            (#[trigger] stream[i]).candle,
        ) is None by {
            assert(is_usable(stream[i].candle));
        }
    }
}

} // verus!
