//! Exponential backoff with full jitter, a cooldown and a circuit breaker.
//!
//! The ceiling of the next delay is `min(max, base × 2^attempt)`, and the
//! delay itself is drawn from zero to that ceiling. A service that has run for
//! the cooldown period starts over; one that fails too often within a window
//! is given up.

use rand::Rng;
use vstd::arithmetic::power2::pow2;
use vstd::prelude::*;

use crate::time::{Duration, Stopwatch, NANOS_PER_MILLI, NANOS_PER_SEC};

verus! {

/// Largest exponent that the doubling uses.
pub const MAX_SHIFT: u32 = 62;

/// Configuration of a backoff.
#[derive(Clone, Copy, Debug, PartialEq, Eq, Structural)]
pub struct BackoffConfig {
    /// Delay that the doubling starts from.
    pub base_delay: Duration,
    /// Longest delay between retries.
    pub max_delay: Duration,
    /// A run of at least this length resets the attempt counter.
    pub cooldown_period: Duration,
    /// Failures in the window that trip the circuit breaker; 0 disables it.
    pub max_retries: u32,
    /// Window of the circuit breaker.
    pub circuit_breaker_window: Duration,
}

impl BackoffConfig {
    /// 100 ms to one minute, five minutes of cooldown, ten failures in ten
    /// minutes.
    pub open spec fn spec_default() -> Self {
        BackoffConfig {
            base_delay: Duration { nanos: (100 * NANOS_PER_MILLI) as u128 },
            max_delay: Duration { nanos: (60 * NANOS_PER_SEC) as u128 },
            cooldown_period: Duration { nanos: (300 * NANOS_PER_SEC) as u128 },
            max_retries: 10,
            circuit_breaker_window: Duration { nanos: (600 * NANOS_PER_SEC) as u128 },
        }
    }

    /// The default with the given delays.
    pub fn new(base_delay: Duration, max_delay: Duration) -> (r: Self)
        ensures
            r == (BackoffConfig { base_delay, max_delay, ..Self::spec_default() }),
    {
        BackoffConfig { base_delay, max_delay, ..Self::default() }
    }

    /// The configuration with the given cooldown period.
    pub fn with_cooldown(self, cooldown: Duration) -> (r: Self)
        ensures
            r == (BackoffConfig { cooldown_period: cooldown, ..self }),
    {
        BackoffConfig { cooldown_period: cooldown, ..self }
    }

    /// The configuration with the given circuit breaker.
    pub fn with_circuit_breaker(self, max_retries: u32, window: Duration) -> (r: Self)
        ensures
            r == (BackoffConfig { max_retries, circuit_breaker_window: window, ..self }),
    {
        BackoffConfig { max_retries, circuit_breaker_window: window, ..self }
    }

    /// The configuration without a circuit breaker.
    pub fn without_circuit_breaker(self) -> (r: Self)
        ensures
            r == (BackoffConfig { max_retries: 0, ..self }),
    {
        BackoffConfig { max_retries: 0, ..self }
    }
}

impl Default for BackoffConfig {
    fn default() -> (r: Self)
        ensures
            r == Self::spec_default(),
    {
        BackoffConfig {
            base_delay: Duration::from_millis(100),
            max_delay: Duration::from_secs(60),
            cooldown_period: Duration::from_secs(300),
            max_retries: 10,
            circuit_breaker_window: Duration::from_secs(600),
        }
    }
}

/// What to do after a failure.
#[derive(Clone, Copy, Debug, PartialEq, Eq, Structural)]
pub enum BackoffAction {
    /// Wait, then retry.
    Retry(Duration),
    /// Too many failures within the window: give up.
    CircuitOpen {
        /// Failures within the window.
        failures: u32,
        /// The configured maximum.
        max_retries: u32,
    },
}

/// A backoff history as a value. Times are nanoseconds on the history's own
/// stopwatch.
#[verifier::ext_equal]
pub struct BackoffView {
    /// Configuration.
    pub config: BackoffConfig,
    /// Failures since the last reset.
    pub attempt: u32,
    /// Times of the failures on record.
    pub failures: Seq<Duration>,
    /// When the service last started.
    pub last_start: Option<Duration>,
    /// What the times are measured on.
    pub watch: Stopwatch,
}

/// The exponent of an attempt.
pub open spec fn shift_of(attempt: u32) -> nat {
    if attempt < MAX_SHIFT {
        attempt as nat
    } else {
        MAX_SHIFT as nat
    }
}

/// Ceiling of the delay in whole milliseconds: `min(max, base × 2^attempt)`.
pub open spec fn ceiling_ms(config: BackoffConfig, attempt: u32) -> int {
    let base = config.base_delay@ / (NANOS_PER_MILLI as nat);
    let max = config.max_delay@ / (NANOS_PER_MILLI as nat);
    let grown = base * pow2(shift_of(attempt));
    if grown < max {
        grown as int
    } else {
        max as int
    }
}

/// Whether a failure still lies in the circuit breaker's window.
pub open spec fn in_window(config: BackoffConfig, failure: Duration, now: Duration) -> bool {
    failure@ + config.circuit_breaker_window@ >= now@
}

/// The failures that still lie in the window.
pub open spec fn recent(config: BackoffConfig, failures: Seq<Duration>, now: Duration) -> Seq<Duration> {
    failures.filter(|t: Duration| in_window(config, t, now))
}

impl BackoffView {
    /// A history without failures.
    pub open spec fn fresh(config: BackoffConfig, watch: Stopwatch) -> Self {
        BackoffView { config, attempt: 0, failures: Seq::empty(), last_start: None, watch }
    }

    /// The history with everything but the configuration and the stopwatch
    /// wiped.
    pub open spec fn wiped(self) -> Self {
        Self::fresh(self.config, self.watch)
    }

    /// The history after a start.
    pub open spec fn started(self, now: Duration) -> Self {
        BackoffView { last_start: Some(now), ..self }
    }

    /// Whether the service has run for the cooldown period.
    pub open spec fn has_cooled(self, now: Duration) -> bool {
        self.last_start is Some && Duration::spec_since(now@, self.last_start->0@)
            >= self.config.cooldown_period@
    }

    /// The history after an exit.
    pub open spec fn exited(self, now: Duration) -> Self {
        if self.has_cooled(now) {
            BackoffView { attempt: 0, failures: Seq::empty(), ..self }
        } else {
            self
        }
    }

    /// The history after a failure.
    pub open spec fn failed(self, now: Duration) -> Self {
        let failures = self.failures.push(now);
        BackoffView {
            attempt: if self.attempt == u32::MAX {
                u32::MAX
            } else {
                (self.attempt + 1) as u32
            },
            failures: if self.config.max_retries > 0 {
                recent(self.config, failures, now)
            } else {
                failures
            },
            ..self
        }
    }

    /// Whether the circuit breaker is open.
    pub open spec fn is_open(self) -> bool {
        self.config.max_retries > 0 && self.failures.len() >= self.config.max_retries
    }

    /// Nanoseconds to wait, given the milliseconds drawn: a draw above the
    /// ceiling of the attempt counts as the ceiling.
    pub open spec fn delay_for(self, drawn_ms: u128) -> int {
        let ceiling = ceiling_ms(self.config, self.attempt);
        NANOS_PER_MILLI * (if drawn_ms <= ceiling {
            drawn_ms as int
        } else {
            ceiling
        })
    }

    /// Whether an action is one that may follow a failure: to give up, with
    /// the count of recent failures, where the breaker is open; else to retry
    /// after at most the ceiling of the attempt.
    pub open spec fn may_answer(self, action: BackoffAction) -> bool {
        if self.is_open() {
            action == (BackoffAction::CircuitOpen {
                failures: self.failures.len() as u32,
                max_retries: self.config.max_retries,
            })
        } else {
            action is Retry && action->Retry_0@ <= ceiling_ms(self.config, self.attempt)
                * NANOS_PER_MILLI
        }
    }
}

/// Backoff history of one service.
#[derive(Clone, Debug)]
pub struct BackoffState {
    /// Configuration.
    pub config: BackoffConfig,
    /// Failures since the last reset.
    pub attempt: u32,
    /// Times of the failures on record.
    pub failure_timestamps: Vec<Duration>,
    /// When the service last started.
    pub last_start: Option<Duration>,
    /// What the times are measured on.
    pub stopwatch: Stopwatch,
}

impl View for BackoffState {
    type V = BackoffView;

    open spec fn view(&self) -> BackoffView {
        BackoffView {
            config: self.config,
            attempt: self.attempt,
            failures: self.failure_timestamps@,
            last_start: self.last_start,
            watch: self.stopwatch,
        }
    }
}

/// Draws a whole number from 0 to `max` with `rand::Rng::random_range` on
/// `rand::rng`. All that is claimed of it is that it lies in that range.
#[verifier::external_body]
fn draw_up_to(max: u128) -> (r: u128)
    ensures
        r <= max,
{
    rand::rng().random_range(0..=max)
}

/// Whether `drawn` is a number that a draw from 0 to `max` gives.
pub closed spec fn may_draw(max: u128, drawn: u128) -> bool {
    call_ensures(draw_up_to, (max,), drawn)
}

/// Whole milliseconds as a span, given that they came from one.
fn span_of_millis(ms: u128) -> (r: Duration)
    requires
        ms <= u128::MAX / NANOS_PER_MILLI,
    ensures
        r@ == ms * NANOS_PER_MILLI,
{
    Duration { nanos: ms * NANOS_PER_MILLI }
}

fn ceiling_millis(config: BackoffConfig, attempt: u32) -> (r: u128)
    ensures
        r == ceiling_ms(config, attempt),
        r <= u128::MAX / NANOS_PER_MILLI,
{
    let base: u128 = config.base_delay.as_millis();
    let max: u128 = config.max_delay.as_millis();
    let shift: u32 = if attempt < MAX_SHIFT {
        attempt
    } else {
        MAX_SHIFT
    };
    proof {
        vstd::bits::lemma_u64_pow2_no_overflow(shift as nat);
        vstd::bits::lemma_u64_shl_is_mul(1, shift as u64);
        vstd::arithmetic::power2::lemma_pow2_pos(shift as nat);
    }
    let power: u64 = 1u64 << shift;
    let factor: u128 = power as u128;
    let grows_past = base > max / factor;
    proof {
        let (b, m, f) = (base as int, max as int, factor as int);
        vstd::arithmetic::div_mod::lemma_fundamental_div_mod(m, f);
        let q = m / f;
        if b > q {
            assert(b * f >= f * q + f) by (nonlinear_arith)
                requires
                    b >= q + 1,
                    f > 0,
            ;
        } else {
            assert(b * f <= f * q) by (nonlinear_arith)
                requires
                    b <= q,
                    f > 0,
            ;
        }
    }
    if grows_past {
        max
    } else {
        base * factor
    }
}

impl BackoffState {
    /// A history without failures, on a stopwatch that starts now.
    pub fn new(config: BackoffConfig) -> (r: Self)
        ensures
            r@ == BackoffView::fresh(config, r@.watch),
            r@.watch.was_started(),
    {
        BackoffState {
            config,
            attempt: 0,
            failure_timestamps: Vec::new(),
            last_start: None,
            stopwatch: Stopwatch::started(),
        }
    }

    /// A history without failures, with the default configuration.
    pub fn with_defaults() -> (r: Self)
        ensures
            r@ == BackoffView::fresh(BackoffConfig::spec_default(), r@.watch),
            r@.watch.was_started(),
    {
        Self::new(BackoffConfig::default())
    }

    /// The time on the history's stopwatch.
    pub fn now(&self) -> (r: Duration)
        ensures
            self@.watch.may_show(r),
    {
        self.stopwatch.read()
    }

    /// Record that the service starts at `now`.
    pub fn record_start_at(&mut self, now: Duration)
        ensures
            final(self)@ == old(self)@.started(now),
    {
        self.last_start = Some(now);
    }

    /// Record that the service starts.
    pub fn record_start(&mut self)
        ensures
            exists|now: Duration|
                old(self)@.watch.may_show(now) && final(self)@ == #[trigger] old(self)@.started(now),
    {
        let now = self.now();
        self.record_start_at(now);
        assert(self@ == old(self)@.started(now));
    }

    /// Forget the failures if the service has run for the cooldown period by
    /// `now`.
    pub fn maybe_reset_on_cooldown_at(&mut self, now: Duration)
        ensures
            final(self)@ == old(self)@.exited(now),
    {
        if let Some(start) = self.last_start {
            if !now.since(start).shorter_than(self.config.cooldown_period) {
                self.attempt = 0;
                self.failure_timestamps.clear();
            }
        }
    }

    /// Forget the failures if the service has run for the cooldown period.
    /// Called when a service exits.
    pub fn maybe_reset_on_cooldown(&mut self)
        ensures
            exists|now: Duration|
                old(self)@.watch.may_show(now) && final(self)@ == #[trigger] old(self)@.exited(now),
    {
        let now = self.now();
        self.maybe_reset_on_cooldown_at(now);
        assert(self@ == old(self)@.exited(now));
    }

    /// Keep the failures that lie in the circuit breaker's window.
    fn prune(&mut self, now: Duration)
        ensures
            final(self)@ == (BackoffView {
                failures: recent(old(self)@.config, old(self)@.failures, now),
                ..old(self)@
            }),
    {
        let mut kept: Vec<Duration> = Vec::new();
        let mut i: usize = 0;
        proof {
            reveal(Seq::filter);
            assert(self.failure_timestamps@.take(0) =~= Seq::empty());
        }
        while i < self.failure_timestamps.len()
            invariant
                i <= self.failure_timestamps@.len(),
                kept@ == recent(self.config, self.failure_timestamps@.take(i as int), now),
                self@ == old(self)@,
            decreases self.failure_timestamps@.len() - i,
        {
            let t = self.failure_timestamps[i];
            proof {
                reveal(Seq::filter);
                assert(self.failure_timestamps@.take(i + 1).drop_last()
                    =~= self.failure_timestamps@.take(i as int));
            }
            let window = self.config.circuit_breaker_window;
            if !window.shorter_than(now.since(t)) {
                kept.push(t);
            }
            i = i + 1;
        }
        assert(self.failure_timestamps@.take(i as int) =~= self.failure_timestamps@);
        self.failure_timestamps = kept;
    }

    /// Record a failure at `now`, without deciding on it.
    fn record_failure(&mut self, now: Duration)
        ensures
            final(self)@ == old(self)@.failed(now),
    {
        self.failure_timestamps.push(now);
        if self.attempt < u32::MAX {
            self.attempt = self.attempt + 1;
        }
        if self.config.max_retries > 0 {
            self.prune(now);
        }
    }

    /// Whether the circuit breaker is open, and with how many failures.
    fn open_circuit(&self) -> (r: Option<BackoffAction>)
        ensures
            r is Some <==> self@.is_open(),
            r is Some ==> self@.may_answer(r->0),
    {
        if self.config.max_retries > 0 && self.failure_timestamps.len()
            >= self.config.max_retries as usize {
            Some(
                BackoffAction::CircuitOpen {
                    #[verifier::truncate]
                    failures: self.failure_timestamps.len() as u32,
                    max_retries: self.config.max_retries,
                },
            )
        } else {
            None
        }
    }

    /// Record a failure at `now` and decide what to do, given the number of
    /// milliseconds drawn for the delay. A draw above the ceiling counts as
    /// the ceiling.
    pub fn next_backoff_at(&mut self, now: Duration, drawn_ms: u128) -> (r: BackoffAction)
        ensures
            final(self)@ == old(self)@.failed(now),
            final(self)@.may_answer(r),
            !final(self)@.is_open() ==> r->Retry_0@ == final(self)@.delay_for(drawn_ms),
    {
        self.record_failure(now);
        match self.open_circuit() {
            Some(action) => action,
            None => {
                let ceiling: u128 = ceiling_millis(self.config, self.attempt);
                let ms: u128 = if drawn_ms <= ceiling {
                    drawn_ms
                } else {
                    ceiling
                };
                BackoffAction::Retry(span_of_millis(ms))
            },
        }
    }

    /// Record a failure and decide what to do.
    pub fn next_backoff(&mut self) -> (r: BackoffAction)
        ensures
            exists|now: Duration|
                old(self)@.watch.may_show(now) && final(self)@ == #[trigger] old(self)@.failed(now),
            final(self)@.may_answer(r),
            !final(self)@.is_open() ==> exists|drawn: u128| #[trigger]
                may_draw(ceiling_ms(final(self)@.config, final(self)@.attempt) as u128, drawn)
                    && r->Retry_0@ == drawn * NANOS_PER_MILLI,
    {
        let now = self.now();
        self.record_failure(now);
        assert(self@ == old(self)@.failed(now));
        match self.open_circuit() {
            Some(action) => action,
            None => {
                let delay = self.compute_exponential_delay();
                let jittered = self.add_jitter(delay);
                assert((delay@ / (NANOS_PER_MILLI as nat)) as u128 == ceiling_ms(
                    self@.config,
                    self@.attempt,
                ) as u128);
                BackoffAction::Retry(jittered)
            },
        }
    }

    /// Draw a delay, in milliseconds, for a failure that is about to be
    /// recorded: from zero to the ceiling that the failure will have, with the
    /// cooldown taken into account.
    pub fn draw_for_next(&self, now: Duration) -> (r: u128)
        ensures
            may_draw(ceiling_ms(self@.config, self@.exited(now).failed(now).attempt) as u128, r),
            r <= ceiling_ms(self@.config, self@.exited(now).failed(now).attempt),
    {
        let cooled = match self.last_start {
            Some(start) => !now.since(start).shorter_than(self.config.cooldown_period),
            None => false,
        };
        let attempt: u32 = if cooled {
            1
        } else if self.attempt < u32::MAX {
            self.attempt + 1
        } else {
            u32::MAX
        };
        draw_up_to(ceiling_millis(self.config, attempt))
    }

    /// Wipe everything but the configuration and the stopwatch.
    pub fn reset(&mut self)
        ensures
            final(self)@ == old(self)@.wiped(),
    {
        self.attempt = 0;
        self.failure_timestamps.clear();
        self.last_start = None;
    }

    /// Failures since the last reset.
    pub fn attempt(&self) -> (r: u32)
        ensures
            r == self@.attempt,
    {
        self.attempt
    }

    /// Number of failures on record.
    pub fn recent_failures(&self) -> (r: usize)
        ensures
            r == self@.failures.len(),
    {
        self.failure_timestamps.len()
    }

    /// The ceiling of the next delay: `min(max, base × 2^attempt)` in whole
    /// milliseconds.
    pub fn compute_exponential_delay(&self) -> (r: Duration)
        ensures
            r@ == ceiling_ms(self@.config, self@.attempt) * NANOS_PER_MILLI,
    {
        let ms: u128 = ceiling_millis(self.config, self.attempt);
        span_of_millis(ms)
    }

    /// Full jitter: a span of whole milliseconds drawn from zero to the given one.
    pub fn add_jitter(&self, ceiling: Duration) -> (r: Duration)
        ensures
            exists|drawn: u128| #[trigger]
                may_draw((ceiling@ / (NANOS_PER_MILLI as nat)) as u128, drawn) && r@ == drawn
                    * NANOS_PER_MILLI,
            r@ <= ceiling@,
            r@ % (NANOS_PER_MILLI as nat) == 0,
    {
        let max: u128 = ceiling.as_millis();
        let drawn: u128 = draw_up_to(max);
        proof {
            let (n, d, m) = (ceiling@ as int, drawn as int, NANOS_PER_MILLI as int);
            vstd::arithmetic::div_mod::lemma_fundamental_div_mod(n, m);
            assert(d * m <= n) by (nonlinear_arith)
                requires
                    d <= n / m,
                    n == m * (n / m) + n % m,
                    n % m >= 0,
                    m > 0,
            ;
            vstd::arithmetic::div_mod::lemma_mod_multiples_basic(d, m);
            assert(may_draw((ceiling@ / (NANOS_PER_MILLI as nat)) as u128, drawn));
        }
        span_of_millis(drawn)
    }
}

proof fn doubling_grows(base: nat, a: nat, b: nat)
    requires
        a <= b,
    ensures
        base * pow2(a) <= base * pow2(b),
{
    if a < b {
        vstd::arithmetic::power2::lemma_pow2_strictly_increases(a, b);
    }
    assert(base * pow2(a) <= base * pow2(b)) by (nonlinear_arith)
        requires
            pow2(a) <= pow2(b),
    ;
}

/// The ceiling never shrinks from one attempt to a later one, and never
/// exceeds the configured maximum.
pub proof fn ceiling_grows_up_to_max(config: BackoffConfig, a: u32, b: u32)
    requires
        a <= b,
    ensures
        ceiling_ms(config, a) <= ceiling_ms(config, b),
        ceiling_ms(config, b) <= config.max_delay@ / (NANOS_PER_MILLI as nat),
        0 <= ceiling_ms(config, a),
{
    doubling_grows(config.base_delay@ / (NANOS_PER_MILLI as nat), shift_of(a), shift_of(b));
    vstd::arithmetic::power2::lemma_pow2_pos(shift_of(a));
    let base = config.base_delay@ / (NANOS_PER_MILLI as nat);
    assert(base * pow2(shift_of(a)) >= 0) by (nonlinear_arith);
}

/// A breaker that is switched off never gives up.
pub proof fn disabled_breaker_always_retries(state: BackoffView, now: Duration, action: BackoffAction)
    requires
        state.config.max_retries == 0,
        state.failed(now).may_answer(action),
    ensures
        action is Retry,
{
}

/// A service that keeps failing within the window is given up by the failure
/// that brings the record to the limit, and not before.
pub proof fn breaker_opens_at_the_limit(state: BackoffView, now: Duration)
    requires
        state.config.max_retries > 0,
        forall|i: int| 0 <= i < state.failures.len() ==> in_window(state.config, #[trigger] state.failures[i], now),
    ensures
        state.failed(now).failures == state.failures.push(now),
        state.failed(now).is_open() <==> state.failures.len() + 1 >= state.config.max_retries,
{
    let all = state.failures.push(now);
    keep_all(state.config, all, now);
}

proof fn keep_all(config: BackoffConfig, failures: Seq<Duration>, now: Duration)
    requires
        forall|i: int| 0 <= i < failures.len() ==> in_window(config, #[trigger] failures[i], now),
    ensures
        recent(config, failures, now) == failures,
    decreases failures.len(),
{
    reveal(Seq::filter);
    if failures.len() > 0 {
        keep_all(config, failures.drop_last(), now);
        assert(failures =~= failures.drop_last().push(failures.last()));
    }
}

/// A run of the cooldown period wipes the slate, so that the next failure is
/// the first.
pub proof fn cooldown_forgives(state: BackoffView, exit: Duration, failure: Duration)
    requires
        state.has_cooled(exit),
    ensures
        state.exited(exit).attempt == 0,
        state.exited(exit).failures.len() == 0,
        state.exited(exit).failed(failure).attempt == 1,
{
}

/// The ceiling starts from the base delay and doubles with each attempt, up to
/// the maximum, in whole milliseconds. From the 62nd attempt on it stays.
pub proof fn ceilings_double_up_to_the_maximum(config: BackoffConfig, attempt: u32)
    ensures
        ({
            let (base, max) = (config.base_delay@ / 1_000_000, config.max_delay@ / 1_000_000);
            &&& ceiling_ms(config, 0) == (if base < max {
                base
            } else {
                max
            })
            &&& attempt < 62 ==> ceiling_ms(config, (attempt + 1) as u32) == (if 2 * ceiling_ms(
                config,
                attempt,
            ) < max {
                2 * ceiling_ms(config, attempt)
            } else {
                max as int
            })
            &&& attempt >= 62 ==> ceiling_ms(config, attempt) == ceiling_ms(config, 62)
        }),
{
    let base = config.base_delay@ / 1_000_000;
    reveal(pow2);
    vstd::arithmetic::power2::lemma2_to64();
    assert(pow2(0) == 1);
    assert(base * pow2(0) == base) by (nonlinear_arith)
        requires
            pow2(0) == 1,
    ;
    if attempt < 62 {
        vstd::arithmetic::power2::lemma_pow2_adds(attempt as nat, 1);
        assert(pow2(1) == 2);
        assert(base * pow2((attempt + 1) as nat) == 2 * (base * pow2(attempt as nat)))
            by (nonlinear_arith)
            requires
                pow2((attempt + 1) as nat) == pow2(attempt as nat) * 2,
        ;
    }
}

/// The draw for a delay counts up to the ceiling, in whole milliseconds.
pub proof fn delays_are_draws_up_to_the_ceiling(state: BackoffView, drawn_ms: u128)
    ensures
        drawn_ms <= ceiling_ms(state.config, state.attempt) ==> state.delay_for(drawn_ms) == drawn_ms
            * 1_000_000,
        drawn_ms > ceiling_ms(state.config, state.attempt) ==> state.delay_for(drawn_ms)
            == ceiling_ms(state.config, state.attempt) * 1_000_000,
{
}

/// A start is remembered and changes nothing else.
pub proof fn starts_are_remembered(state: BackoffView, now: Duration)
    ensures
        ({
            let after = state.started(now);
            &&& after.last_start == Some(now)
            &&& after.config == state.config && after.watch == state.watch
            &&& after.attempt == state.attempt && after.failures == state.failures
        }),
{
}

/// An exit forgives the failures exactly where the service ran for at least the
/// cooldown period; the start stays on record either way.
pub proof fn long_runs_are_forgiven(state: BackoffView, now: Duration)
    ensures
        ({
            let after = state.exited(now);
            let long = state.last_start matches Some(start) && (if now@ >= start@ {
                now@ - start@ >= state.config.cooldown_period@
            } else {
                state.config.cooldown_period@ == 0
            });
            &&& long ==> after.attempt == 0 && after.failures.len() == 0
            &&& !long ==> after.attempt == state.attempt && after.failures == state.failures
            &&& after.config == state.config && after.watch == state.watch
            &&& after.last_start == state.last_start
        }),
{
}

/// A failure is the next attempt, and is put on record. Of the earlier failures
/// those are kept that are no further back than the window, where the breaker
/// is on, and all where it is off.
pub proof fn failures_are_recorded(state: BackoffView, now: Duration, t: Duration)
    ensures
        ({
            let after = state.failed(now);
            &&& state.attempt < u32::MAX ==> after.attempt == state.attempt + 1
            &&& state.attempt == u32::MAX ==> after.attempt == u32::MAX
            &&& after.config == state.config && after.watch == state.watch
            &&& after.last_start == state.last_start
            &&& after.failures.contains(now)
            &&& after.failures.len() <= state.failures.len() + 1
            &&& state.config.max_retries == 0 ==> after.failures == state.failures.push(now)
            &&& state.config.max_retries > 0 ==> (after.failures.contains(t) <==> (
            state.failures.contains(t) || t == now) && t@ + state.config.circuit_breaker_window@
                >= now@)
        }),
{
    let all = state.failures.push(now);
    let keep = |x: Duration| in_window(state.config, x, now);
    assert(all[state.failures.len() as int] == now);
    all.lemma_filter_contains(keep, state.failures.len() as int);
    all.lemma_filter_len(keep);
    let kept = all.filter(keep);
    if kept.contains(t) {
        let i = choose|i: int| 0 <= i < kept.len() && kept[i] == t;
        all.lemma_filter_pred(keep, i);
        all.lemma_filter_contains_rev(keep, t);
        let k = choose|k: int| 0 <= k < all.len() && all[k] == t;
        if k < state.failures.len() {
            assert(state.failures[k] == t);
        }
    }
    if state.failures.contains(t) && t@ + state.config.circuit_breaker_window@ >= now@ {
        let k = choose|k: int| 0 <= k < state.failures.len() && state.failures[k] == t;
        assert(all[k] == t);
        all.lemma_filter_contains(keep, k);
    }
    if state.config.max_retries == 0 {
        assert(state.failed(now).failures[state.failures.len() as int] == now);
    }
}

/// The breaker is open exactly where it is on and as many failures are on record
/// as it allows. The answer is then to give up, with that count, and else to
/// retry after no more than the ceiling.
pub proof fn answers_go_by_the_record(state: BackoffView, action: BackoffAction)
    ensures
        state.is_open() <==> state.config.max_retries > 0 && state.failures.len()
            >= state.config.max_retries,
        state.may_answer(action) ==> (action is CircuitOpen <==> state.is_open()),
        state.may_answer(action) && action is CircuitOpen && state.failures.len() <= u32::MAX
            ==> action->failures == state.failures.len() && action->max_retries
            == state.config.max_retries,
        state.may_answer(action) && action is Retry ==> action->Retry_0@ <= ceiling_ms(
            state.config,
            state.attempt,
        ) * 1_000_000,
{
}

/// A history that starts or is wiped has no failures, no attempts and no start
/// on record, and keeps its settings and its stopwatch.
pub proof fn fresh_histories_are_empty(state: BackoffView, config: BackoffConfig, watch: Stopwatch)
    ensures
        ({
            let fresh = BackoffView::fresh(config, watch);
            &&& fresh.attempt == 0 && fresh.failures.len() == 0 && fresh.last_start is None
            &&& fresh.config == config && fresh.watch == watch
            &&& state.wiped() == BackoffView::fresh(state.config, state.watch)
        }),
{
}

} // verus!
