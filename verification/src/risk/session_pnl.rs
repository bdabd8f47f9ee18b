//! Realised profit and loss of one trading session, with a loss limit that
//! halts the session and a rollover at 00:00 UTC.
//!
//! Amounts are added up outside the library: a caller that books a trade hands
//! in the sums, and the session decides what they mean.

use vstd::prelude::*;

use crate::num::Binary64;
use crate::risk::clock::{Clock, SystemClock};

verus! {

/// Bit pattern of minus fifty.
pub const DEFAULT_LOSS_LIMIT_BITS: u64 = 0xc049_0000_0000_0000;

/// Configuration of a session.
#[derive(Clone, Copy, Debug, PartialEq, Eq, Structural)]
pub struct SessionPnlConfig {
    /// Net loss ceiling in quote currency, a negative number. When net profit
    /// drops to or below it, the session is halted until the next 00:00 UTC.
    /// Negative infinity disables the halt.
    pub loss_limit: Binary64,
}

impl Default for SessionPnlConfig {
    /// A ceiling of fifty units of quote currency.
    fn default() -> (r: Self)
        ensures
            r.loss_limit == (Binary64 { bits: DEFAULT_LOSS_LIMIT_BITS }),
    {
        SessionPnlConfig { loss_limit: Binary64::from_bits(DEFAULT_LOSS_LIMIT_BITS) }
    }
}

/// The sums that go with a closed trade.
#[derive(Clone, Copy, Debug, PartialEq, Eq, Structural)]
pub struct SessionClose {
    /// Net result of the trade: its gross result less its fee.
    pub net: Binary64,
    /// Gross result of the session, this trade included.
    pub realised: Binary64,
    /// Fees of the session, this trade's included.
    pub fees: Binary64,
    /// Net result of the session: `realised` less `fees`.
    pub session_net: Binary64,
}

/// How a trade ended, by its net result.
#[derive(Clone, Copy, Debug, PartialEq, Eq, Structural)]
pub enum Outcome {
    /// Net result above zero.
    Win,
    /// Net result below zero.
    Loss,
    /// Neither.
    Breakeven,
}

impl Outcome {
    /// The outcome that a net result stands for.
    pub open spec fn spec_of(net: Binary64) -> Self {
        if net.spec_is_positive() {
            Outcome::Win
        } else if net.spec_is_negative() {
            Outcome::Loss
        } else {
            Outcome::Breakeven
        }
    }

    /// Classify a net result.
    pub fn of(net: Binary64) -> (r: Self)
        ensures
            r == Self::spec_of(net),
    {
        if net.is_positive() {
            Outcome::Win
        } else if net.is_negative() {
            Outcome::Loss
        } else {
            Outcome::Breakeven
        }
    }
}

/// Restart-durable state of a session. The loss limit is not part of it: it
/// comes from the live instance on restore.
#[derive(Clone, Copy, Debug, PartialEq, Eq, Structural)]
pub struct SessionPnlSnapshot {
    /// Gross realised result.
    pub realised: Binary64,
    /// Fees paid.
    pub fees: Binary64,
    /// Trades recorded.
    pub trades: u32,
    /// Trades with a net result above zero.
    pub wins: u32,
    /// Trades with a net result below zero.
    pub losses: u32,
    /// The other trades.
    pub breakevens: u32,
    /// Whether the loss limit has halted the session.
    pub halted: bool,
    /// UTC day number of the last reset.
    pub last_reset_day: u64,
}

impl SessionPnlSnapshot {
    /// A session that starts on the given day with nothing booked.
    pub open spec fn spec_fresh(day: u64) -> Self {
        SessionPnlSnapshot {
            realised: Binary64::spec_zero(),
            fees: Binary64::spec_zero(),
            trades: 0,
            wins: 0,
            losses: 0,
            breakevens: 0,
            halted: false,
            last_reset_day: day,
        }
    }

    /// Whether every trade is counted under exactly one outcome.
    pub open spec fn tallies(self) -> bool {
        self.wins + self.losses + self.breakevens == self.trades
    }

    /// Whether one more trade with the given outcome can be counted.
    pub open spec fn has_room_for(self, outcome: Outcome) -> bool {
        &&& self.trades < u32::MAX
        &&& outcome == Outcome::Win ==> self.wins < u32::MAX
        &&& outcome == Outcome::Loss ==> self.losses < u32::MAX
        &&& outcome == Outcome::Breakeven ==> self.breakevens < u32::MAX
    }

    /// The session after a closed trade.
    pub open spec fn after_close(self, limit: Binary64, close: SessionClose) -> Self {
        let outcome = Outcome::spec_of(close.net);
        SessionPnlSnapshot {
            realised: close.realised,
            fees: close.fees,
            trades: (self.trades + 1) as u32,
            wins: if outcome == Outcome::Win { (self.wins + 1) as u32 } else { self.wins },
            losses: if outcome == Outcome::Loss { (self.losses + 1) as u32 } else { self.losses },
            breakevens: if outcome == Outcome::Breakeven {
                (self.breakevens + 1) as u32
            } else {
                self.breakevens
            },
            halted: self.halted || close.session_net.spec_le(limit),
            last_reset_day: self.last_reset_day,
        }
    }

    /// The session with its totals and its halt wiped.
    pub open spec fn spec_reset(self) -> Self {
        Self::spec_fresh(self.last_reset_day)
    }

    /// The session after a look at the calendar.
    pub open spec fn spec_rolled(self, today: u64) -> Self {
        if today > self.last_reset_day {
            Self::spec_fresh(today)
        } else {
            self
        }
    }

    /// A session that starts on the given day with nothing booked.
    pub fn fresh(day: u64) -> (r: Self)
        ensures
            r == Self::spec_fresh(day),
    {
        SessionPnlSnapshot {
            realised: Binary64::zero(),
            fees: Binary64::zero(),
            trades: 0,
            wins: 0,
            losses: 0,
            breakevens: 0,
            halted: false,
            last_reset_day: day,
        }
    }

    /// Count a closed trade and halt the session if it brings the net result
    /// to or below the limit.
    pub fn record_close(&mut self, limit: Binary64, close: SessionClose)
        requires
            old(self).has_room_for(Outcome::spec_of(close.net)),
        ensures
            *final(self) == old(self).after_close(limit, close),
    {
        self.realised = close.realised;
        self.fees = close.fees;
        self.trades = self.trades + 1;
        match Outcome::of(close.net) {
            Outcome::Win => {
                self.wins = self.wins + 1;
            },
            Outcome::Loss => {
                self.losses = self.losses + 1;
            },
            Outcome::Breakeven => {
                self.breakevens = self.breakevens + 1;
            },
        }
        if !self.halted && close.session_net.le(limit) {
            self.halted = true;
        }
    }

    /// Start a new session if a later day has begun.
    pub fn roll(&mut self, today: u64)
        ensures
            *final(self) == old(self).spec_rolled(today),
    {
        if today > self.last_reset_day {
            self.reset_session();
            self.last_reset_day = today;
        }
    }

    /// Wipe the totals and the halt.
    pub fn reset_session(&mut self)
        ensures
            *final(self) == old(self).spec_reset(),
    {
        *self = Self::fresh(self.last_reset_day);
    }
}

/// Running totals of one trading session on a clock.
#[derive(Clone, Debug)]
pub struct SessionPnl<C: Clock = SystemClock> {
    symbol: String,
    config: SessionPnlConfig,
    totals: SessionPnlSnapshot,
    clock: C,
}

impl SessionPnl<SystemClock> {
    /// A session on the system clock.
    pub fn new<S: Into<String>>(symbol: S, config: SessionPnlConfig) -> (r: Self)
        ensures
            r.limit() == config.loss_limit,
            exists|text: String| #[trigger]
                call_ensures(<S as Into<String>>::into, (symbol,), text) && r.label() == text@,
            r.clock() == SystemClock,
            exists|day: u64|
                r.may_read_day(day) && r.state() == #[trigger] SessionPnlSnapshot::spec_fresh(day),
    {
        Self::with_clock(symbol, config, SystemClock)
    }
}

impl<C: Clock> SessionPnl<C> {
    /// What the session has on its books.
    pub closed spec fn state(&self) -> SessionPnlSnapshot {
        self.totals
    }

    /// The loss limit.
    pub closed spec fn limit(&self) -> Binary64 {
        self.config.loss_limit
    }

    /// The symbol's text.
    pub closed spec fn label(&self) -> Seq<char> {
        self.symbol@
    }

    /// The clock that the session reads.
    pub closed spec fn clock(&self) -> C {
        self.clock
    }

    /// Whether a day is one that the session's clock gives.
    pub open spec fn may_read_day(&self, day: u64) -> bool {
        call_ensures(C::utc_day_number, (&self.clock(),), day)
    }

    /// A session on the given clock, which starts today with nothing booked.
    pub fn with_clock<S: Into<String>>(symbol: S, config: SessionPnlConfig, clock: C) -> (r: Self)
        ensures
            r.limit() == config.loss_limit,
            exists|text: String| #[trigger]
                call_ensures(<S as Into<String>>::into, (symbol,), text) && r.label() == text@,
            r.clock() == clock,
            exists|day: u64|
                r.may_read_day(day) && r.state() == #[trigger] SessionPnlSnapshot::spec_fresh(day),
    {
        let day: u64 = clock.utc_day_number();
        let totals = SessionPnlSnapshot::fresh(day);
        SessionPnl { symbol: symbol.into(), config, totals, clock }
    }

    /// Text of the symbol the session is for.
    pub fn symbol(&self) -> (r: &str)
        ensures
            r@ == self.label(),
    {
        self.symbol.as_str()
    }

    /// Whether the loss limit has halted the session.
    pub fn is_session_halted(&self) -> (r: bool)
        ensures
            r == self.state().halted,
    {
        self.totals.halted
    }

    /// Trades that were won or lost; break-evens do not count.
    pub fn decided(&self) -> (r: u64)
        ensures
            r == self.state().wins + self.state().losses,
    {
        self.totals.wins as u64 + self.totals.losses as u64
    }

    /// Record a closed trade. It is classified by its net result, so that a
    /// small gross win with a large fee counts as the loss it is.
    pub fn record_close(&mut self, close: SessionClose)
        requires
            old(self).state().has_room_for(Outcome::spec_of(close.net)),
        ensures
            final(self).state() == old(self).state().after_close(old(self).limit(), close),
            final(self).limit() == old(self).limit(),
            final(self).label() == old(self).label(),
            final(self).clock() == old(self).clock(),
    {
        self.totals.record_close(self.config.loss_limit, close);
    }

    /// Call periodically: a new UTC day starts a new session.
    pub fn tick(&mut self)
        ensures
            exists|today: u64|
                old(self).may_read_day(today) && final(self).state()
                    == #[trigger] old(self).state().spec_rolled(today),
            final(self).limit() == old(self).limit(),
            final(self).label() == old(self).label(),
            final(self).clock() == old(self).clock(),
    {
        let today: u64 = self.clock.utc_day_number();
        self.totals.roll(today);
        assert(self.state() == old(self).state().spec_rolled(today));
    }

    /// Capture the state for persistence.
    pub fn snapshot(&self) -> (r: SessionPnlSnapshot)
        ensures
            r == self.state(),
    {
        self.totals
    }

    /// Take over a captured state, keeping the symbol, the limit and the
    /// clock. Call [`Self::tick`] afterwards so that a state from an earlier
    /// day rolls over.
    pub fn restore(&mut self, snap: SessionPnlSnapshot)
        ensures
            final(self).state() == snap,
            final(self).limit() == old(self).limit(),
            final(self).label() == old(self).label(),
            final(self).clock() == old(self).clock(),
    {
        self.totals = snap;
    }

    /// Wipe the totals and the halt by hand.
    pub fn reset_session(&mut self)
        ensures
            final(self).state() == old(self).state().spec_reset(),
            final(self).limit() == old(self).limit(),
            final(self).label() == old(self).label(),
            final(self).clock() == old(self).clock(),
    {
        self.totals.reset_session();
    }
}

/// Every way to change a session keeps each trade under exactly one outcome.
pub proof fn outcomes_add_up(s: SessionPnlSnapshot, limit: Binary64, close: SessionClose, day: u64)
    requires
        s.tallies(),
        s.trades < u32::MAX,
    ensures
        s.has_room_for(Outcome::spec_of(close.net)),
        s.after_close(limit, close).tallies(),
        s.spec_rolled(day).tallies(),
        s.spec_reset().tallies(),
        SessionPnlSnapshot::spec_fresh(day).tallies(),
{
}

/// A halt lasts: no trade lifts it, and neither does a tick on the same day.
pub proof fn halt_lasts_for_the_day(
    s: SessionPnlSnapshot,
    limit: Binary64,
    close: SessionClose,
    today: u64,
)
    requires
        s.halted,
        today <= s.last_reset_day,
    ensures
        s.after_close(limit, close).halted,
        s.spec_rolled(today).halted,
{
}

/// The first tick of a later day lifts the halt and wipes the totals; further
/// ticks on that day change nothing.
pub proof fn rollover_starts_afresh(s: SessionPnlSnapshot, today: u64)
    requires
        today > s.last_reset_day,
    ensures
        s.spec_rolled(today) == SessionPnlSnapshot::spec_fresh(today),
        s.spec_rolled(today).spec_rolled(today) == s.spec_rolled(today),
{
}

/// A limit of negative infinity halts on no finite result.
pub proof fn infinite_limit_never_halts(s: SessionPnlSnapshot, limit: Binary64, close: SessionClose)
    requires
        !s.halted,
        limit.bits == crate::num::SIGN_BIT + crate::num::INFINITY_BITS,
        close.session_net.spec_is_finite(),
    ensures
        !s.after_close(limit, close).halted,
{
}

/// A net result above zero is a win, one below zero a loss, and anything else
/// neither.
pub proof fn outcomes_go_by_the_sign(net: Binary64)
    ensures
        Outcome::spec_of(net) == Outcome::Win <==> Binary64::spec_zero().spec_lt(net),
        Outcome::spec_of(net) == Outcome::Loss <==> net.spec_lt(Binary64::spec_zero()),
        Outcome::spec_of(net) == Outcome::Breakeven <==> net.spec_is_zero() || net.spec_is_nan(),
{
}

/// A closed trade is counted once as a trade and once under its outcome, by its
/// own net result. The totals become those handed in. The session is halted by
/// it exactly where the session's net result is at or below the limit, and no
/// trade lifts a halt or moves the day.
pub proof fn closes_are_booked_as_handed_in(s: SessionPnlSnapshot, limit: Binary64, close: SessionClose)
    requires
        s.trades < u32::MAX,
        s.wins < u32::MAX,
        s.losses < u32::MAX,
        s.breakevens < u32::MAX,
    ensures
        ({
            let after = s.after_close(limit, close);
            let zero = Binary64::spec_zero();
            &&& after.trades == s.trades + 1
            &&& zero.spec_lt(close.net) ==> after.wins == s.wins + 1 && after.losses == s.losses
                && after.breakevens == s.breakevens
            &&& close.net.spec_lt(zero) ==> after.wins == s.wins && after.losses == s.losses + 1
                && after.breakevens == s.breakevens
            &&& !zero.spec_lt(close.net) && !close.net.spec_lt(zero) ==> after.wins == s.wins
                && after.losses == s.losses && after.breakevens == s.breakevens + 1
            &&& after.realised == close.realised
            &&& after.fees == close.fees
            &&& after.halted <==> s.halted || close.session_net.spec_le(limit)
            &&& after.last_reset_day == s.last_reset_day
        }),
{
}

/// A session that starts, or is reset, has nothing on its books and is not
/// halted. A reset keeps the day, and a later day begins a session of its own.
pub proof fn fresh_sessions_are_empty(s: SessionPnlSnapshot, day: u64)
    ensures
        ({
            let fresh = SessionPnlSnapshot::spec_fresh(day);
            &&& fresh.realised.bits == 0 && fresh.fees.bits == 0
            &&& fresh.trades == 0 && fresh.wins == 0 && fresh.losses == 0 && fresh.breakevens == 0
            &&& !fresh.halted
            &&& fresh.last_reset_day == day
            &&& s.spec_reset() == SessionPnlSnapshot { last_reset_day: s.last_reset_day, ..fresh }
            &&& day > s.last_reset_day ==> s.spec_rolled(day) == fresh
            &&& day <= s.last_reset_day ==> s.spec_rolled(day) == s
        }),
{
}

/// Counting a trade is possible as long as no counter is at its end.
pub proof fn counters_have_room(s: SessionPnlSnapshot, outcome: Outcome)
    ensures
        s.trades < u32::MAX && s.wins < u32::MAX && s.losses < u32::MAX && s.breakevens < u32::MAX
            ==> s.has_room_for(outcome),
        s.has_room_for(outcome) ==> s.trades < u32::MAX,
{
}

} // verus!
