//! Sliding-window circuit breaker.
//!
//! The breaker trips when `loss_limit` losses fall within a rolling window.
//! Once tripped it blocks new entries until the cooldown has passed.
//!
//! [`LossWindow`] is the breaker itself and takes the time as an argument.
//! [`CircuitBreaker`] is a loss window with a clock attached.

use std::collections::VecDeque;
use vstd::prelude::*;

use crate::risk::clock::{Clock, SystemClock};
use crate::time::{Duration, NANOS_PER_SEC};

verus! {

/// Limits of a circuit breaker.
#[derive(Clone, Copy, Debug, PartialEq, Eq, Structural)]
pub struct CircuitBreakerConfig {
    /// Number of losses in the rolling window that trips the breaker.
    pub loss_limit: u32,
    /// Rolling lookback window in seconds.
    pub window_secs: u64,
    /// How long the breaker stays tripped, in seconds.
    pub cooldown_secs: u64,
}

impl Default for CircuitBreakerConfig {
    /// Four losses in any four hours, then one hour of cooldown.
    fn default() -> (r: Self)
        ensures
            r == (CircuitBreakerConfig {
                loss_limit: 4,
                window_secs: 14_400,
                cooldown_secs: 3_600,
            }),
    {
        CircuitBreakerConfig { loss_limit: 4, window_secs: 14_400, cooldown_secs: 3_600 }
    }
}

/// Restart-durable state of a breaker. Both fields are absolute times, so that
/// downtime is accounted for at the first tick after a restore.
#[derive(Clone, Debug, PartialEq, Eq)]
pub struct CircuitBreakerSnapshot {
    /// Times of the losses on record, in UNIX seconds.
    pub recent_losses: Vec<u64>,
    /// When the breaker tripped, in UNIX seconds; `None` if it has not.
    pub tripped_at_unix_secs: Option<u64>,
}

/// What a breaker is, apart from its clock.
#[verifier::ext_equal]
pub struct BreakerState {
    /// Its limits.
    pub config: CircuitBreakerConfig,
    /// Times of the losses on record, oldest record first.
    pub losses: Seq<u64>,
    /// When it tripped.
    pub tripped_at: Option<u64>,
}

/// How many losses at the front are older than `cutoff`, up to the first that
/// is not.
pub open spec fn stale_prefix(losses: Seq<u64>, cutoff: u64) -> nat
    decreases losses.len(),
{
    if losses.len() == 0 || losses[0] >= cutoff {
        0
    } else {
        1 + stale_prefix(losses.skip(1), cutoff)
    }
}

/// Seconds from `then` to `now`, and 0 where `then` is later.
pub open spec fn elapsed_secs(now: u64, then: u64) -> int {
    if now < then {
        0
    } else {
        now - then
    }
}

/// Oldest time that still lies in the window.
pub open spec fn window_start(config: CircuitBreakerConfig, now: u64) -> u64 {
    elapsed_secs(now, config.window_secs) as u64
}

impl BreakerState {
    /// A breaker without a record.
    pub open spec fn fresh(config: CircuitBreakerConfig) -> Self {
        BreakerState { config, losses: Seq::empty(), tripped_at: None }
    }

    /// The breaker with its record wiped.
    pub open spec fn cleared(self) -> Self {
        Self::fresh(self.config)
    }

    /// The breaker without the losses that have left the window.
    pub open spec fn evicted(self, now: u64) -> Self {
        let cutoff = window_start(self.config, now);
        BreakerState { losses: self.losses.skip(stale_prefix(self.losses, cutoff) as int), ..self }
    }

    /// Whether the breaker has tripped and its cooldown has passed.
    pub open spec fn cooled_down(self, now: u64) -> bool {
        self.tripped_at is Some && elapsed_secs(now, self.tripped_at->0) >= self.config.cooldown_secs
    }

    /// The breaker after a tick.
    pub open spec fn ticked(self, now: u64) -> Self {
        if self.cooled_down(now) {
            self.cleared().evicted(now)
        } else {
            self.evicted(now)
        }
    }

    /// The breaker after a loss.
    pub open spec fn after_loss(self, now: u64) -> Self {
        let counted = BreakerState { losses: self.losses.push(now), ..self }.evicted(now);
        if counted.losses.len() >= self.config.loss_limit {
            BreakerState { tripped_at: Some(now), ..counted }
        } else {
            counted
        }
    }

    /// Whether the breaker blocks at `now`.
    pub open spec fn tripped(self, now: u64) -> bool {
        self.tripped_at is Some && elapsed_secs(now, self.tripped_at->0) < self.config.cooldown_secs
    }

    /// Seconds until the breaker stops blocking, if it blocks.
    pub open spec fn remaining_secs(self, now: u64) -> Option<int> {
        if self.tripped(now) {
            Some(self.config.cooldown_secs - elapsed_secs(now, self.tripped_at->0))
        } else {
            None
        }
    }
}

/// A circuit breaker that is told the time.
#[derive(Clone, Debug)]
pub struct LossWindow {
    config: CircuitBreakerConfig,
    recent_losses: VecDeque<u64>,
    tripped_at_unix_secs: Option<u64>,
}

impl View for LossWindow {
    type V = BreakerState;

    closed spec fn view(&self) -> BreakerState {
        BreakerState {
            config: self.config,
            losses: self.recent_losses@,
            tripped_at: self.tripped_at_unix_secs,
        }
    }
}

fn saturating_diff(a: u64, b: u64) -> (r: u64)
    ensures
        r == elapsed_secs(a, b),
{
    if a < b {
        0
    } else {
        a - b
    }
}

impl LossWindow {
    /// A breaker without a record.
    pub fn new(config: CircuitBreakerConfig) -> (r: Self)
        ensures
            r@ == BreakerState::fresh(config),
    {
        LossWindow {
            config,
            recent_losses: VecDeque::with_capacity(16),
            tripped_at_unix_secs: None,
        }
    }

    /// Drop the losses that have left the window.
    fn evict_old(&mut self, now: u64)
        ensures
            final(self)@ == old(self)@.evicted(now),
    {
        let cutoff: u64 = saturating_diff(now, self.config.window_secs);
        let ghost before = self.recent_losses@;
        let ghost mut dropped: int = 0;
        proof {
            assert(before.skip(0) =~= before);
        }
        while self.recent_losses.len() > 0 && self.recent_losses[0] < cutoff
            invariant
                0 <= dropped <= before.len(),
                self.recent_losses@ == before.skip(dropped),
                stale_prefix(before, cutoff) == dropped + stale_prefix(self.recent_losses@, cutoff),
                self.config == old(self).config,
                self.tripped_at_unix_secs == old(self).tripped_at_unix_secs,
            decreases self.recent_losses@.len(),
        {
            let ghost rest = self.recent_losses@;
            let _ = self.recent_losses.pop_front();
            proof {
                assert(self.recent_losses@ =~= rest.skip(1));
                assert(rest.skip(1) =~= before.skip(dropped + 1));
                dropped = dropped + 1;
            }
        }
        assert(stale_prefix(self.recent_losses@, cutoff) == 0);
    }

    /// Un-trip the breaker if its cooldown has passed, then drop the losses
    /// that have left the window.
    pub fn tick(&mut self, now: u64)
        ensures
            final(self)@ == old(self)@.ticked(now),
    {
        if let Some(t) = self.tripped_at_unix_secs {
            if saturating_diff(now, t) >= self.config.cooldown_secs {
                self.reset();
            }
        }
        self.evict_old(now);
    }

    /// Record a losing trade, and trip the breaker if the losses in the window
    /// have reached the limit.
    pub fn record_loss(&mut self, now: u64)
        ensures
            final(self)@ == old(self)@.after_loss(now),
    {
        self.recent_losses.push_back(now);
        self.evict_old(now);
        if self.recent_losses.len() >= self.config.loss_limit as usize {
            self.tripped_at_unix_secs = Some(now);
        }
    }

    /// Record a winning trade. A win never un-trips the breaker.
    pub fn record_win(&mut self, now: u64)
        ensures
            final(self)@ == old(self)@.evicted(now),
    {
        self.evict_old(now);
    }

    /// Whether the breaker blocks at `now`.
    pub fn is_tripped(&self, now: u64) -> (r: bool)
        ensures
            r == self@.tripped(now),
    {
        match self.tripped_at_unix_secs {
            Some(t) => saturating_diff(now, t) < self.config.cooldown_secs,
            None => false,
        }
    }

    /// Capture the record for persistence.
    pub fn snapshot(&self) -> (r: CircuitBreakerSnapshot)
        ensures
            r.recent_losses@ == self@.losses,
            r.tripped_at_unix_secs == self@.tripped_at,
    {
        let mut losses: Vec<u64> = Vec::new();
        let mut i: usize = 0;
        while i < self.recent_losses.len()
            invariant
                i <= self.recent_losses@.len(),
                losses@ == self.recent_losses@.take(i as int),
            decreases self.recent_losses@.len() - i,
        {
            losses.push(self.recent_losses[i]);
            i = i + 1;
            assert(self.recent_losses@.take(i as int).drop_last() =~= self.recent_losses@.take(i - 1));
        }
        assert(self.recent_losses@.take(i as int) =~= self.recent_losses@);
        CircuitBreakerSnapshot { recent_losses: losses, tripped_at_unix_secs: self.tripped_at_unix_secs }
    }

    /// Take over a captured record, keeping the limits.
    pub fn restore(&mut self, snap: CircuitBreakerSnapshot)
        ensures
            final(self)@ == (BreakerState {
                config: old(self)@.config,
                losses: snap.recent_losses@,
                tripped_at: snap.tripped_at_unix_secs,
            }),
    {
        let mut losses: VecDeque<u64> = VecDeque::new();
        let mut i: usize = 0;
        while i < snap.recent_losses.len()
            invariant
                i <= snap.recent_losses@.len(),
                losses@ == snap.recent_losses@.take(i as int),
            decreases snap.recent_losses@.len() - i,
        {
            losses.push_back(snap.recent_losses[i]);
            i = i + 1;
            assert(snap.recent_losses@.take(i as int).drop_last() =~= snap.recent_losses@.take(i - 1));
        }
        assert(snap.recent_losses@.take(i as int) =~= snap.recent_losses@);
        self.recent_losses = losses;
        self.tripped_at_unix_secs = snap.tripped_at_unix_secs;
    }

    /// Wipe the record.
    pub fn reset(&mut self)
        ensures
            final(self)@ == old(self)@.cleared(),
    {
        self.recent_losses.clear();
        self.tripped_at_unix_secs = None;
    }

    /// Number of losses on record.
    pub fn recent_loss_count(&self) -> (r: usize)
        ensures
            r == self@.losses.len(),
    {
        self.recent_losses.len()
    }

    /// Cooldown time that remains, if the breaker blocks at `now`.
    pub fn cooldown_remaining(&self, now: u64) -> (r: Option<Duration>)
        ensures
            r is Some <==> self@.remaining_secs(now) is Some,
            r is Some ==> r->0@ == self@.remaining_secs(now)->0 * NANOS_PER_SEC,
    {
        match self.tripped_at_unix_secs {
            Some(t) => {
                let elapsed: u64 = saturating_diff(now, t);
                if elapsed < self.config.cooldown_secs {
                    Some(Duration::from_secs(self.config.cooldown_secs - elapsed))
                } else {
                    None
                }
            },
            None => None,
        }
    }
}

/// A [`LossWindow`] with a clock.
///
/// Each method reads the clock once and does what the loss window does at the
/// time that the clock gave, whatever it was.
#[derive(Clone, Debug)]
pub struct CircuitBreaker<C: Clock = SystemClock> {
    window: LossWindow,
    clock: C,
}

impl<C: Clock> View for CircuitBreaker<C> {
    type V = BreakerState;

    closed spec fn view(&self) -> BreakerState {
        self.window@
    }
}

impl CircuitBreaker<SystemClock> {
    /// A breaker on the system clock.
    pub fn new(config: CircuitBreakerConfig) -> (r: Self)
        ensures
            r@ == BreakerState::fresh(config),
            r.clock() == SystemClock,
    {
        CircuitBreaker { window: LossWindow::new(config), clock: SystemClock }
    }
}

impl<C: Clock> CircuitBreaker<C> {
    /// The clock that the breaker reads.
    pub closed spec fn clock(&self) -> C {
        self.clock
    }

    /// Whether a time is one that the breaker's clock gives.
    pub open spec fn may_read(&self, now: u64) -> bool {
        call_ensures(C::now_unix_secs, (&self.clock(),), now)
    }

    /// A breaker on the given clock.
    pub fn with_clock(config: CircuitBreakerConfig, clock: C) -> (r: Self)
        ensures
            r@ == BreakerState::fresh(config),
            r.clock() == clock,
    {
        CircuitBreaker { window: LossWindow::new(config), clock }
    }

    /// Call once per decision to un-trip the breaker after its cooldown and to
    /// drop the losses that have left the window.
    pub fn tick(&mut self)
        ensures
            exists|now: u64|
                old(self).may_read(now) && final(self)@ == #[trigger] old(self)@.ticked(now),
            final(self).clock() == old(self).clock(),
    {
        let now: u64 = self.clock.now_unix_secs();
        self.window.tick(now);
        assert(self@ == old(self)@.ticked(now));
    }

    /// Record a losing trade.
    pub fn record_loss(&mut self)
        ensures
            exists|now: u64|
                old(self).may_read(now) && final(self)@ == #[trigger] old(self)@.after_loss(now),
            final(self).clock() == old(self).clock(),
    {
        let now: u64 = self.clock.now_unix_secs();
        self.window.record_loss(now);
        assert(self@ == old(self)@.after_loss(now));
    }

    /// Record a winning trade. A win never un-trips the breaker.
    pub fn record_win(&mut self)
        ensures
            exists|now: u64|
                old(self).may_read(now) && final(self)@ == #[trigger] old(self)@.evicted(now),
            final(self)@.tripped_at == old(self)@.tripped_at,
            final(self).clock() == old(self).clock(),
    {
        let now: u64 = self.clock.now_unix_secs();
        self.window.record_win(now);
        assert(self@ == old(self)@.evicted(now));
    }

    /// Whether the breaker blocks now.
    pub fn is_tripped(&self) -> (r: bool)
        ensures
            exists|now: u64| self.may_read(now) && r == #[trigger] self@.tripped(now),
            self@.tripped_at is None ==> !r,
    {
        let now: u64 = self.clock.now_unix_secs();
        let blocked = self.window.is_tripped(now);
        assert(blocked == self@.tripped(now));
        blocked
    }

    /// Capture the record for persistence; the limits and the clock stay out.
    pub fn snapshot(&self) -> (r: CircuitBreakerSnapshot)
        ensures
            r.recent_losses@ == self@.losses,
            r.tripped_at_unix_secs == self@.tripped_at,
    {
        self.window.snapshot()
    }

    /// Take over a captured record, keeping the limits and the clock. Call
    /// [`Self::tick`] afterwards to account for the time in between.
    pub fn restore(&mut self, snap: CircuitBreakerSnapshot)
        ensures
            final(self)@ == (BreakerState {
                config: old(self)@.config,
                losses: snap.recent_losses@,
                tripped_at: snap.tripped_at_unix_secs,
            }),
            final(self).clock() == old(self).clock(),
    {
        self.window.restore(snap);
    }

    /// Wipe the record by hand.
    pub fn reset(&mut self)
        ensures
            final(self)@ == old(self)@.cleared(),
            final(self).clock() == old(self).clock(),
    {
        self.window.reset();
    }

    /// Number of losses on record.
    pub fn recent_loss_count(&self) -> (r: usize)
        ensures
            r == self@.losses.len(),
    {
        self.window.recent_loss_count()
    }

    /// Cooldown time that remains if the breaker blocks, else `None`.
    pub fn cooldown_remaining(&self) -> (r: Option<Duration>)
        ensures
            exists|now: u64|
                {
                    &&& self.may_read(now)
                    &&& r is Some <==> (#[trigger] self@.remaining_secs(now)) is Some
                    &&& r is Some ==> r->0@ == self@.remaining_secs(now)->0 * NANOS_PER_SEC
                },
            self@.tripped_at is None ==> r is None,
    {
        let now: u64 = self.clock.now_unix_secs();
        let left = self.window.cooldown_remaining(now);
        assert(left is Some <==> self@.remaining_secs(now) is Some);
        left
    }
}

/// Losses recorded in order of time.
pub open spec fn in_order(losses: Seq<u64>) -> bool {
    forall|i: int, j: int| 0 <= i <= j < losses.len() ==> losses[i] <= losses[j]
}

/// On a record in order of time, what a tick leaves are exactly the losses
/// that lie in the window.
pub proof fn eviction_keeps_the_window(state: BreakerState, now: u64)
    requires
        in_order(state.losses),
    ensures
        state.evicted(now).losses == state.losses.filter(
            |t: u64| t >= window_start(state.config, now),
        ),
    decreases state.losses.len(),
{
    let cutoff = window_start(state.config, now);
    let keep = |t: u64| t >= cutoff;
    let losses = state.losses;
    if losses.len() == 0 {
        reveal(Seq::filter);
        assert(losses.skip(0) =~= losses.filter(keep));
    } else if losses[0] >= cutoff {
        assert(losses.skip(0) =~= losses);
        all_kept(losses, keep);
    } else {
        let rest = BreakerState { losses: losses.skip(1), ..state };
        eviction_keeps_the_window(rest, now);
        stale_prefix_fits(losses.skip(1), cutoff);
        assert(losses.skip(1).skip(stale_prefix(losses.skip(1), cutoff) as int) =~= losses.skip(
            1 + stale_prefix(losses.skip(1), cutoff) as int,
        ));
        filter_drops_first(losses, keep);
    }
}

proof fn stale_prefix_fits(losses: Seq<u64>, cutoff: u64)
    ensures
        stale_prefix(losses, cutoff) <= losses.len(),
    decreases losses.len(),
{
    if losses.len() > 0 {
        stale_prefix_fits(losses.skip(1), cutoff);
    }
}

proof fn all_kept(s: Seq<u64>, keep: spec_fn(u64) -> bool)
    requires
        forall|i: int| 0 <= i < s.len() ==> keep(#[trigger] s[i]),
    ensures
        s.filter(keep) == s,
    decreases s.len(),
{
    reveal(Seq::filter);
    if s.len() > 0 {
        all_kept(s.drop_last(), keep);
        assert(s =~= s.drop_last().push(s.last()));
    }
}

proof fn filter_drops_first(s: Seq<u64>, keep: spec_fn(u64) -> bool)
    requires
        s.len() > 0,
        !keep(s[0]),
    ensures
        s.filter(keep) == s.skip(1).filter(keep),
    decreases s.len(),
{
    reveal(Seq::filter);
    if s.len() == 1 {
        assert(s.drop_last() =~= Seq::<u64>::empty());
        assert(s.skip(1) =~= Seq::<u64>::empty());
    } else {
        filter_drops_first(s.drop_last(), keep);
        assert(s.drop_last().skip(1) =~= s.skip(1).drop_last());
        assert(s.skip(1).last() == s.last());
    }
}

/// Once tripped, only the cooldown un-trips the breaker: until it has passed,
/// neither ticks nor wins nor further losses make it stop blocking.
pub proof fn only_cooldown_untrips(state: BreakerState, now: u64)
    requires
        state.tripped(now),
    ensures
        state.ticked(now).tripped(now),
        state.evicted(now).tripped(now),
        state.after_loss(now).tripped(now),
{
}

/// A breaker whose cooldown has passed does not block, and the next tick
/// leaves it with a clean record.
pub proof fn cooldown_resets(state: BreakerState, now: u64)
    requires
        state.cooled_down(now),
    ensures
        !state.tripped(now),
        state.ticked(now) == state.cleared(),
{
    assert(Seq::<u64>::empty().skip(0) =~= Seq::<u64>::empty());
}

/// Restoring a captured record onto a breaker with the same limits gives the
/// captured breaker back.
pub proof fn snapshot_restores(state: BreakerState, other: BreakerState)
    requires
        other.config == state.config,
    ensures
        (BreakerState { losses: state.losses, tripped_at: state.tripped_at, ..other }) == state,
{
}

/// Losses that lie further apart than the window never trip a breaker whose
/// limit is above one.
pub proof fn sparse_losses_never_trip(state: BreakerState, now: u64)
    requires
        state.config.loss_limit > 1,
        state.tripped_at is None,
        in_order(state.losses),
        state.losses.len() > 0 ==> now - state.losses.last() > state.config.window_secs,
    ensures
        state.after_loss(now).tripped_at is None,
        state.after_loss(now).losses == seq![now],
{
    let losses = state.losses.push(now);
    let cutoff = window_start(state.config, now);
    only_last_survives(losses, cutoff);
}

proof fn only_last_survives(losses: Seq<u64>, cutoff: u64)
    requires
        losses.len() > 0,
        losses.last() >= cutoff,
        forall|i: int| 0 <= i < losses.len() - 1 ==> losses[i] < cutoff,
    ensures
        stale_prefix(losses, cutoff) == losses.len() - 1,
        losses.skip(stale_prefix(losses, cutoff) as int) == seq![losses.last()],
    decreases losses.len(),
{
    if losses.len() > 1 {
        assert(losses.skip(1).last() == losses.last());
        only_last_survives(losses.skip(1), cutoff);
        assert(losses.skip(1).skip(stale_prefix(losses.skip(1), cutoff) as int) =~= losses.skip(
            1 + stale_prefix(losses.skip(1), cutoff) as int,
        ));
    } else {
        assert(losses.skip(0) =~= seq![losses.last()]);
    }
}

/// A call that can change a breaker, with the time of its reading.
pub enum BreakerCall {
    /// A tick.
    Tick(u64),
    /// A losing trade.
    Loss(u64),
    /// A winning trade.
    Win(u64),
}

impl BreakerCall {
    /// The time of the reading.
    pub open spec fn at(self) -> u64 {
        match self {
            BreakerCall::Tick(now) => now,
            BreakerCall::Loss(now) => now,
            BreakerCall::Win(now) => now,
        }
    }
}

impl BreakerState {
    /// The breaker after a call.
    pub open spec fn after(self, call: BreakerCall) -> Self {
        match call {
            BreakerCall::Tick(now) => self.ticked(now),
            BreakerCall::Loss(now) => self.after_loss(now),
            BreakerCall::Win(now) => self.evicted(now),
        }
    }

    /// The breaker after a sequence of calls.
    pub open spec fn after_all(self, calls: Seq<BreakerCall>) -> Self
        decreases calls.len(),
    {
        if calls.len() == 0 {
            self
        } else {
            self.after_all(calls.drop_last()).after(calls.last())
        }
    }

    /// Whether no loss among the calls trips the breaker.
    pub open spec fn not_tripped_again(self, calls: Seq<BreakerCall>) -> bool {
        forall|i: int|
            0 <= i < calls.len() && (#[trigger] calls[i]) is Loss ==> {
                let before = self.after_all(calls.take(i));
                before.after(calls[i]).tripped_at == before.tripped_at
            }
    }
}

/// Whether readings never go back, from `start` on and up to `end`.
pub open spec fn readings_grow(start: u64, calls: Seq<BreakerCall>, end: u64) -> bool {
    &&& start <= end
    &&& forall|i: int| 0 <= i < calls.len() ==> start <= (#[trigger] calls[i]).at() <= end
    &&& forall|i: int, j: int|
        0 <= i <= j < calls.len() ==> (#[trigger] calls[i]).at() <= (#[trigger] calls[j]).at()
}

proof fn trip_outlasts_calls(state: BreakerState, calls: Seq<BreakerCall>, now: u64)
    requires
        state.tripped_at is Some,
        readings_grow(state.tripped_at->0, calls, now),
        now < state.tripped_at->0 + state.config.cooldown_secs,
    ensures
        state.after_all(calls).config == state.config,
        state.after_all(calls).tripped_at is Some,
        state.tripped_at->0 <= state.after_all(calls).tripped_at->0 <= now,
    decreases calls.len(),
{
    if calls.len() > 0 {
        let rest = calls.drop_last();
        assert(forall|i: int| 0 <= i < rest.len() ==> rest[i] == calls[i]);
        assert(calls.last() == calls[calls.len() - 1]);
        trip_outlasts_calls(state, rest, now);
    }
}

/// A breaker that tripped at some time blocks until its cooldown has passed,
/// whatever wins, losses and ticks come in between, on a clock that does not
/// go back. Blocking and having cooldown left are the same thing.
pub proof fn trip_lasts_for_the_cooldown(state: BreakerState, calls: Seq<BreakerCall>, now: u64)
    requires
        state.tripped_at is Some,
        readings_grow(state.tripped_at->0, calls, now),
    ensures
        now < state.tripped_at->0 + state.config.cooldown_secs ==> state.after_all(calls).tripped(now),
        state.after_all(calls).tripped(now) <==> state.after_all(calls).remaining_secs(now) is Some,
{
    if now < state.tripped_at->0 + state.config.cooldown_secs {
        trip_outlasts_calls(state, calls, now);
    }
}

proof fn single_trip_ends_once(state: BreakerState, calls: Seq<BreakerCall>, now: u64)
    requires
        state.tripped_at is Some,
        readings_grow(state.tripped_at->0, calls, now),
        state.not_tripped_again(calls),
    ensures
        state.after_all(calls).config == state.config,
        state.after_all(calls).tripped_at == state.tripped_at || (state.after_all(calls).tripped_at
            is None && now >= state.tripped_at->0 + state.config.cooldown_secs),
    decreases calls.len(),
{
    if calls.len() > 0 {
        let rest = calls.drop_last();
        let last = calls.len() - 1;
        assert(forall|i: int| 0 <= i < rest.len() ==> rest[i] == calls[i]);
        assert(calls.last() == calls[last]);
        assert(rest =~= calls.take(last));
        assert forall|i: int| 0 <= i < rest.len() && (#[trigger] rest[i]) is Loss implies ({
            let before = state.after_all(rest.take(i));
            before.after(rest[i]).tripped_at == before.tripped_at
        }) by {
            assert(rest.take(i) =~= calls.take(i));
            assert(calls[i] is Loss);
        }
        single_trip_ends_once(state, rest, now);
    }
}

/// A breaker that tripped at some time, and that no later loss tripped again,
/// blocks exactly until its cooldown has passed, on a clock that does not go
/// back.
pub proof fn trip_ends_with_the_cooldown(state: BreakerState, calls: Seq<BreakerCall>, now: u64)
    requires
        state.tripped_at is Some,
        readings_grow(state.tripped_at->0, calls, now),
        state.not_tripped_again(calls),
    ensures
        state.after_all(calls).tripped(now) <==> now < state.tripped_at->0
            + state.config.cooldown_secs,
{
    single_trip_ends_once(state, calls, now);
}

/// Whether eviction drops the first `k` losses of a record: those that have left
/// the window, up to the first that has not.
pub open spec fn drops(state: BreakerState, now: u64, k: int) -> bool {
    &&& 0 <= k <= state.losses.len()
    &&& state.evicted(now).losses == state.losses.skip(k)
    &&& forall|i: int| 0 <= i < k ==> (#[trigger] state.losses[i]) + state.config.window_secs < now
    &&& k < state.losses.len() ==> state.losses[k] + state.config.window_secs >= now
}

/// Eviction drops losses from the front, only such as have left the window, and
/// stops at the first that has not. It neither trips nor un-trips the breaker.
pub proof fn eviction_drops_only_stale_losses(state: BreakerState, now: u64)
    ensures
        exists|k: int| #[trigger] drops(state, now, k),
        state.evicted(now).tripped_at == state.tripped_at,
        state.evicted(now).config == state.config,
    decreases state.losses.len(),
{
    let losses = state.losses;
    if losses.len() == 0 || losses[0] + state.config.window_secs >= now {
        assert(losses.skip(0) =~= losses);
        assert(drops(state, now, 0));
    } else {
        let rest = BreakerState { losses: losses.skip(1), ..state };
        eviction_drops_only_stale_losses(rest, now);
        let k = choose|k: int| #[trigger] drops(rest, now, k);
        let n = stale_prefix(losses.skip(1), window_start(state.config, now)) as int;
        stale_prefix_fits(losses.skip(1), window_start(state.config, now));
        assert(losses.skip(1).skip(n) =~= losses.skip(n + 1));
        assert(losses.skip(1).skip(k) =~= losses.skip(k + 1));
        assert forall|i: int| 0 <= i < k + 1 implies (#[trigger] losses[i])
            + state.config.window_secs < now by {
            if i > 0 {
                assert(losses.skip(1)[i - 1] == losses[i]);
            }
        }
        if k + 1 < losses.len() {
            assert(losses.skip(1)[k] == losses[k + 1]);
        }
        assert(drops(state, now, k + 1));
    }
}

/// A win leaves every loss on record that still lies in the window, and leaves
/// the breaker tripped or not as it was: it is no consecutive-loss counter.
pub proof fn wins_forgive_nothing(state: BreakerState, now: u64, i: int)
    requires
        0 <= i < state.losses.len(),
        state.losses[i] + state.config.window_secs >= now,
    ensures
        state.evicted(now).losses.contains(state.losses[i]),
        state.evicted(now).tripped_at == state.tripped_at,
{
    eviction_drops_only_stale_losses(state, now);
    let k = choose|k: int| #[trigger] drops(state, now, k);
    assert(k <= i);
    assert(state.losses.skip(k)[i - k] == state.losses[i]);
}

/// The losses of a record in order of time that lie in the window.
pub open spec fn recent_losses(config: CircuitBreakerConfig, losses: Seq<u64>, now: u64) -> Seq<u64> {
    losses.filter(|t: u64| t + config.window_secs >= now)
}

/// A loss is counted with the losses that lie in the window at its time, and
/// trips the breaker exactly where these number at least the limit. Otherwise
/// the breaker is tripped or not as it was.
pub proof fn losses_trip_at_the_limit(state: BreakerState, now: u64)
    requires
        in_order(state.losses.push(now)),
    ensures
        ({
            let after = state.after_loss(now);
            let recent = recent_losses(state.config, state.losses.push(now), now);
            &&& after.config == state.config
            &&& after.losses == recent
            &&& recent.len() >= state.config.loss_limit ==> after.tripped_at == Some(now)
            &&& recent.len() < state.config.loss_limit ==> after.tripped_at == state.tripped_at
        }),
{
    let all = BreakerState { losses: state.losses.push(now), ..state };
    eviction_keeps_the_window(all, now);
    let cutoff = window_start(state.config, now);
    filters_agree(
        all.losses,
        |t: u64| t >= cutoff,
        |t: u64| t + state.config.window_secs >= now,
    );
}

proof fn filters_agree(s: Seq<u64>, f: spec_fn(u64) -> bool, g: spec_fn(u64) -> bool)
    requires
        forall|t: u64| #[trigger] f(t) == g(t),
    ensures
        s.filter(f) == s.filter(g),
    decreases s.len(),
{
    reveal(Seq::filter);
    if s.len() > 0 {
        filters_agree(s.drop_last(), f, g);
    }
}

/// A breaker blocks exactly while less than its cooldown has passed since it
/// tripped, and says how many seconds are left of it.
pub proof fn blocking_lasts_from_the_trip(state: BreakerState, now: u64)
    ensures
        state.tripped_at is None ==> !state.tripped(now) && state.remaining_secs(now) is None,
        state.tripped_at matches Some(at) ==> {
            &&& state.tripped(now) <==> state.config.cooldown_secs > 0 && now < at
                + state.config.cooldown_secs
            &&& state.remaining_secs(now) is Some <==> state.tripped(now)
            &&& state.tripped(now) && now >= at ==> state.remaining_secs(now) == Some(
                at + state.config.cooldown_secs - now,
            )
            &&& state.tripped(now) && now < at ==> state.remaining_secs(now) == Some(
                state.config.cooldown_secs as int,
            )
        },
{
}

/// A tick wipes the record of a breaker whose cooldown is over, and else drops
/// no more than the losses that have left the window.
pub proof fn ticks_reset_after_the_cooldown(state: BreakerState, now: u64)
    ensures
        state.ticked(now).config == state.config,
        state.tripped_at is Some && !state.tripped(now) ==> state.ticked(now).tripped_at is None
            && state.ticked(now).losses.len() == 0,
        state.tripped_at is None || state.tripped(now) ==> {
            &&& state.ticked(now).tripped_at == state.tripped_at
            &&& state.ticked(now).losses == state.evicted(now).losses
        },
{
    assert(Seq::<u64>::empty().skip(0) =~= Seq::<u64>::empty());
}

/// A breaker that starts or is reset has no losses on record and is not
/// tripped; it keeps its limits.
pub proof fn fresh_breakers_are_clear(state: BreakerState, config: CircuitBreakerConfig)
    ensures
        BreakerState::fresh(config).losses.len() == 0,
        BreakerState::fresh(config).tripped_at is None,
        BreakerState::fresh(config).config == config,
        state.cleared().losses.len() == 0,
        state.cleared().tripped_at is None,
        state.cleared().config == state.config,
{
}

} // verus!
