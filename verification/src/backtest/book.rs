//! What a replay keeps per symbol: the position, its protection, the entry
//! that waits on the book, and the risk gates.

use vstd::prelude::*;

use crate::backtest::error::Error;
use crate::backtest::fills::{
    bracket_after, cap_price, capped, update_bracket, Bracket, FillModel, Leg, RestingOrder,
};
use crate::backtest::holding::{closing_part, signed, size_of, Holding};
use crate::domain::market::{Side, Symbol};
use crate::num::Binary64;
use crate::risk::circuit_breaker::{BreakerState, CircuitBreakerConfig, LossWindow};
use crate::risk::clock::{utc_day, SECS_PER_DAY};
use crate::risk::session_pnl::{Outcome, SessionClose, SessionPnlSnapshot};

verus! {

/// What a fill comes from.
#[derive(Clone, Copy, Debug, PartialEq, Eq, Structural)]
pub enum Cause {
    /// A protective leg of a position that was open before the candle.
    Exit(Leg),
    /// An entry that rested.
    Resting {
        /// Index of the candle at whose close the entry reached the book.
        placed: usize,
    },
    /// The stop of an entry that filled on the same candle.
    SameCandleStop,
    /// The decision on the candle.
    Decision,
}

/// A fill that the caller is to price.
#[derive(Clone, Copy, Debug, PartialEq, Eq, Structural)]
pub struct FillRequest {
    /// Side of the fill.
    pub side: Side,
    /// Contracts.
    pub qty: u128,
    /// Price before slippage.
    pub reference: Binary64,
    /// Whether the fill takes, and so slips and pays the taker rate.
    pub taker: bool,
    /// Price that slippage may not push the fill through.
    pub cap: Option<Binary64>,
    /// Protective levels that come with the fill.
    pub legs: Bracket,
    /// What the fill comes from.
    pub cause: Cause,
}

/// The sums that go with a fill that closes contracts.
#[derive(Clone, Copy, Debug, PartialEq, Eq, Structural)]
pub struct CloseSums {
    /// Net result of the trade.
    pub trade_net: Binary64,
    /// What the session books.
    pub session: SessionClose,
}

/// A symbol's book as a value.
#[verifier::ext_equal]
pub struct BookView {
    /// Text of the symbol.
    pub symbol: Seq<char>,
    /// Position.
    pub holding: Holding,
    /// Protection of the position.
    pub bracket: Bracket,
    /// Entry that waits.
    pub resting: Option<RestingOrder>,
    /// Time of the symbol's last candle.
    pub last_time: Option<i64>,
    /// Close of the symbol's last candle.
    pub last_mark: Option<Binary64>,
    /// Session totals, if the session gate is on.
    pub session: Option<SessionPnlSnapshot>,
    /// Loss record, if the breaker is on.
    pub breaker: Option<BreakerState>,
}

/// Price of a fill after slippage.
pub open spec fn fill_price(request: FillRequest, slipped: Binary64) -> Binary64 {
    capped(request.side, slipped, request.cap)
}

impl BookView {
    /// A book with nothing on it.
    pub open spec fn fresh(
        symbol: Seq<char>,
        session: bool,
        breaker: Option<CircuitBreakerConfig>,
    ) -> Self {
        BookView {
            symbol,
            holding: Holding::spec_flat(),
            bracket: Bracket::spec_none(),
            resting: None,
            last_time: None,
            last_mark: None,
            session: if session {
                Some(SessionPnlSnapshot::spec_fresh(0))
            } else {
                None
            },
            breaker: match breaker {
                Some(config) => Some(BreakerState::fresh(config)),
                None => None,
            },
        }
    }

    /// The book with its gates rolled forward to `now`.
    pub open spec fn ticked(self, now: u64) -> Self {
        BookView {
            session: match self.session {
                Some(s) => Some(s.spec_rolled(now / SECS_PER_DAY)),
                None => None,
            },
            breaker: match self.breaker {
                Some(b) => Some(b.ticked(now)),
                None => None,
            },
            ..self
        }
    }

    /// Whether a gate blocks decisions at `now`.
    pub open spec fn is_gated(self, now: u64) -> bool {
        (self.session is Some && self.session->0.halted) || (self.breaker is Some
            && self.breaker->0.tripped(now))
    }

    /// Contracts that a fill closes.
    pub open spec fn closes(self, request: FillRequest) -> int {
        closing_part(self.holding.qty as int, request.side, request.qty as int)
    }

    /// Whether the session has no room for the trade that a fill closes.
    pub open spec fn is_full_for(self, request: FillRequest) -> bool {
        self.closes(request) > 0 && self.session is Some && self.session->0.trades == u32::MAX
    }

    /// The gates after a closed trade.
    pub open spec fn with_trade(self, limit: Binary64, now: u64, sums: CloseSums) -> Self {
        BookView {
            session: match self.session {
                Some(s) => Some(s.after_close(limit, sums.session)),
                None => None,
            },
            breaker: match self.breaker {
                Some(b) => Some(
                    match Outcome::spec_of(sums.trade_net) {
                        Outcome::Win => b.evicted(now),
                        Outcome::Loss => b.after_loss(now),
                        Outcome::Breakeven => b,
                    },
                ),
                None => None,
            },
            ..self
        }
    }

    /// The position and its protection after a fill.
    pub open spec fn with_fill(
        self,
        model: FillModel,
        request: FillRequest,
        slipped: Binary64,
        averaged: Binary64,
    ) -> Self {
        let price = fill_price(request, slipped);
        let holding = self.holding.after_fill(request.side, request.qty as int, price, averaged);
        BookView {
            holding,
            bracket: bracket_after(
                model,
                self.bracket,
                self.holding.qty as int,
                self.holding.qty + signed(request.side, request.qty as int),
                price,
                request.legs,
            ),
            ..self
        }
    }

    /// The book after a fill: position, protection and, if contracts were
    /// closed, the gates.
    pub open spec fn after_fill(
        self,
        model: FillModel,
        limit: Binary64,
        now: u64,
        request: FillRequest,
        slipped: Binary64,
        averaged: Binary64,
        sums: CloseSums,
    ) -> Self {
        let filled = self.with_fill(model, request, slipped, averaged);
        if self.closes(request) > 0 {
            filled.with_trade(limit, now, sums)
        } else {
            filled
        }
    }

    /// The book after a candle has ended.
    pub open spec fn after_candle(self, time: i64, close: Binary64) -> Self {
        BookView { last_time: Some(time), last_mark: Some(close), ..self }
    }

    /// The position is sound, only an open position is protected, a waiting
    /// entry is a whole number of contracts, and the session's outcomes add up.
    pub open spec fn is_sound(self) -> bool {
        &&& self.holding.is_sound()
        &&& self.bracket.has_leg() ==> self.holding.qty != 0
        &&& self.resting is Some ==> 0 < self.resting->0.qty <= u32::MAX
        &&& self.session is Some ==> self.session->0.tallies()
    }
}

/// A symbol's book.
#[derive(Debug)]
pub struct Book {
    /// Symbol.
    pub symbol: Symbol,
    /// Position.
    pub holding: Holding,
    /// Protection of the position.
    pub bracket: Bracket,
    /// Entry that waits.
    pub resting: Option<RestingOrder>,
    /// Time of the symbol's last candle.
    pub last_time: Option<i64>,
    /// Close of the symbol's last candle.
    pub last_mark: Option<Binary64>,
    /// Session totals, if the session gate is on.
    pub session: Option<SessionPnlSnapshot>,
    /// Loss record, if the breaker is on.
    pub breaker: Option<LossWindow>,
}

impl View for Book {
    type V = BookView;

    open spec fn view(&self) -> BookView {
        BookView {
            symbol: self.symbol@,
            holding: self.holding,
            bracket: self.bracket,
            resting: self.resting,
            last_time: self.last_time,
            last_mark: self.last_mark,
            session: self.session,
            breaker: match self.breaker {
                Some(b) => Some(b@),
                None => None,
            },
        }
    }
}

impl Book {
    /// A book with nothing on it.
    pub fn new(symbol: Symbol, session: bool, breaker: Option<CircuitBreakerConfig>) -> (r: Self)
        ensures
            r@ == BookView::fresh(symbol@, session, breaker),
            r@.is_sound(),
    {
        Book {
            symbol,
            holding: Holding::flat(),
            bracket: Bracket::none(),
            resting: None,
            last_time: None,
            last_mark: None,
            session: if session {
                Some(SessionPnlSnapshot::fresh(0))
            } else {
                None
            },
            breaker: match breaker {
                Some(config) => Some(LossWindow::new(config)),
                None => None,
            },
        }
    }

    /// Roll the gates forward to `now`.
    pub fn tick(&mut self, now: u64)
        ensures
            final(self)@ == old(self)@.ticked(now),
            final(self)@.is_sound() <== old(self)@.is_sound(),
    {
        if let Some(mut session) = self.session {
            session.roll(utc_day(now));
            self.session = Some(session);
        }
        if let Some(mut breaker) = self.breaker.take() {
            breaker.tick(now);
            self.breaker = Some(breaker);
        }
    }

    /// Whether a gate blocks decisions at `now`.
    pub fn gated(&self, now: u64) -> (r: bool)
        ensures
            r == self@.is_gated(now),
    {
        let halted = match &self.session {
            Some(s) => s.halted,
            None => false,
        };
        let tripped = match &self.breaker {
            Some(b) => b.is_tripped(now),
            None => false,
        };
        halted || tripped
    }

    /// Book a fill of at least one contract.
    ///
    /// `slipped` is the reference price after slippage, `averaged` the entry
    /// price weighted over the old position and this fill, and `sums` what a
    /// closed trade brings the gates.
    pub fn fill(
        &mut self,
        model: FillModel,
        limit: Binary64,
        now: u64,
        request: &FillRequest,
        slipped: Binary64,
        averaged: Binary64,
        sums: CloseSums,
    ) -> (r: Result<(), Error>)
        requires
            old(self)@.is_sound(),
            request.qty > 0,
            size_of(old(self)@.holding.qty as int) + request.qty <= i128::MAX,
        ensures
            r is Err <==> old(self)@.is_full_for(*request),
            r is Err ==> r->Err_0 == Error::SessionFull && final(self)@ == old(self)@,
            r is Ok ==> final(self)@ == old(self)@.after_fill(
                model,
                limit,
                now,
                *request,
                slipped,
                averaged,
                sums,
            ),
            final(self)@.is_sound(),
            r is Ok ==> final(self)@.holding.qty == old(self)@.holding.qty + signed(
                request.side,
                request.qty as int,
            ),
    {
        let price = cap_price(request.side, slipped, request.cap);
        let effect = self.holding.apply_fill(request.side, request.qty, price, averaged);
        if effect.closing > 0 {
            if let Some(session) = &self.session {
                if session.trades == u32::MAX {
                    return Err(Error::SessionFull);
                }
            }
        }
        let ghost before = self@;
        self.bracket = update_bracket(
            model,
            self.bracket,
            self.holding.qty,
            effect.holding.qty,
            price,
            request.legs,
        );
        self.holding = effect.holding;
        assert(self@ == before.with_fill(model, *request, slipped, averaged));
        if effect.closing > 0 {
            self.book_trade(limit, now, sums);
        }
        Ok(())
    }

    fn book_trade(&mut self, limit: Binary64, now: u64, sums: CloseSums)
        requires
            old(self)@.session is Some ==> old(self)@.session->0.tallies()
                && old(self)@.session->0.trades < u32::MAX,
        ensures
            final(self)@ == old(self)@.with_trade(limit, now, sums),
            final(self)@.session is Some ==> final(self)@.session->0.tallies(),
    {
        if let Some(mut session) = self.session {
            session.record_close(limit, sums.session);
            self.session = Some(session);
        }
        if let Some(mut breaker) = self.breaker.take() {
            match Outcome::of(sums.trade_net) {
                Outcome::Win => {
                    breaker.record_win(now);
                },
                Outcome::Loss => {
                    breaker.record_loss(now);
                },
                Outcome::Breakeven => {},
            }
            self.breaker = Some(breaker);
        }
    }
}

/// A gate that blocks goes on blocking at the same time: ticking does not lift
/// what it has just found in force.
pub proof fn gates_hold(book: BookView, now: u64)
    requires
        book.breaker is Some ==> !book.breaker->0.cooled_down(now),
        book.session is Some ==> now / SECS_PER_DAY <= book.session->0.last_reset_day,
    ensures
        book.ticked(now).is_gated(now) == book.is_gated(now),
{
}

} // verus!
