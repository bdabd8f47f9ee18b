//! The loop that starts a service, restarts it and gives it up.
//!
//! The loop itself (running the service, sleeping, watching for cancellation)
//! lives outside the library. After each of these it tells the
//! [`ServiceRunner`] what happened, and does what the runner answers.

use vstd::prelude::*;

use crate::supervisor::backoff::{
    breaker_opens_at_the_limit, ceiling_ms, in_window, may_draw, BackoffAction, BackoffConfig,
    BackoffState, BackoffView,
};
use crate::supervisor::lifecycle::{
    LifecycleView, ReasonView, ServiceLifecycle, ServicePhase, TerminationReason,
};
use crate::supervisor::metrics::SupervisorMetrics;
use crate::supervisor::service::RestartPolicy;
use crate::time::{Duration, NANOS_PER_MILLI};

verus! {

/// Pause before a service that exited cleanly is started again, in
/// milliseconds.
pub const CLEAN_EXIT_PAUSE_MS: u64 = 100;

/// How a run ended.
#[derive(Debug)]
pub enum RunOutcome {
    /// The service returned normally.
    Finished,
    /// The service failed with this message.
    Failed(String),
}

/// What the loop is to do next.
#[derive(Clone, Copy, Debug, PartialEq, Eq, Structural)]
pub enum LoopAction {
    /// Attempt to start the service.
    Attempt,
    /// Run the service.
    Run,
    /// Sleep for this long, unless cancelled.
    Pause(Duration),
    /// End: the service has terminated.
    Finish,
}

/// What the loop is doing.
#[derive(Clone, Copy, Debug, PartialEq, Eq, Structural)]
pub enum Stage {
    /// It is about to attempt a start.
    Idle,
    /// The service is running.
    Running,
    /// It sleeps before the next attempt.
    Pausing,
    /// It has ended.
    Done,
}

/// A reading of the two stopwatches of a runner.
#[derive(Clone, Copy, Debug, PartialEq, Eq, Structural)]
pub struct Moment {
    /// On the backoff's stopwatch.
    pub backoff: Duration,
    /// On the lifecycle's stopwatch.
    pub lifecycle: Duration,
}

/// A runner as a value.
#[verifier::ext_equal]
pub struct RunnerView {
    /// When to restart.
    pub policy: RestartPolicy,
    /// History of failures.
    pub backoff: BackoffView,
    /// Lifecycle.
    pub lifecycle: LifecycleView,
    /// What the loop is doing.
    pub stage: Stage,
}

/// Message recorded for a clean exit that is followed by a restart.
pub open spec fn clean_exit_message() -> Seq<char> {
    "clean exit, policy=always"@
}

impl RunOutcome {
    /// The message of a failed run.
    pub open spec fn message(self) -> Option<Seq<char>> {
        match self {
            RunOutcome::Finished => None,
            RunOutcome::Failed(msg) => Some(msg@),
        }
    }
}

impl RunnerView {
    /// The lifecycle is sound and its phase goes with what the loop is doing.
    pub open spec fn is_sound(self) -> bool {
        &&& self.lifecycle.is_sound()
        &&& match self.stage {
            Stage::Idle => self.lifecycle.phase == ServicePhase::Starting || self.lifecycle.phase
                == ServicePhase::BackingOff,
            Stage::Running => self.lifecycle.phase == ServicePhase::Running,
            Stage::Pausing => self.lifecycle.phase == ServicePhase::BackingOff,
            Stage::Done => self.lifecycle.phase == ServicePhase::Terminated,
        }
    }

    /// Whether the two stopwatches may show a reading.
    pub open spec fn may_show(self, at: Moment) -> bool {
        self.backoff.watch.may_show(at.backoff) && self.lifecycle.watch.may_show(at.lifecycle)
    }

    /// Whether the counters of the lifecycle have room for one more turn.
    pub open spec fn has_room(self) -> bool {
        self.lifecycle.starts < u32::MAX && self.lifecycle.failures < u32::MAX
    }

    /// The service was cancelled.
    pub open spec fn cancelled(self, at: Moment) -> Self {
        RunnerView {
            lifecycle: self.lifecycle.stopping(at.lifecycle).terminated(
                ReasonView::Cancelled,
                at.lifecycle,
            ),
            stage: Stage::Done,
            ..self
        }
    }

    /// The service ended for the given reason.
    pub open spec fn ended(self, reason: ReasonView, at: Moment) -> Self {
        RunnerView {
            lifecycle: self.lifecycle.terminated(reason, at.lifecycle),
            stage: Stage::Done,
            ..self
        }
    }

    /// The service pauses after the given failure.
    pub open spec fn paused(self, error: Seq<char>, at: Moment) -> Self {
        RunnerView {
            lifecycle: self.lifecycle.backing_off(error, at.lifecycle),
            stage: Stage::Pausing,
            ..self
        }
    }

    /// Whether the next start is a restart.
    pub open spec fn is_restart(self) -> bool {
        self.lifecycle.phase == ServicePhase::BackingOff
    }

    /// The service starts, for the first time or again.
    pub open spec fn started(self, at: Moment) -> Self {
        RunnerView {
            lifecycle: if self.is_restart() {
                self.lifecycle.restarting(at.lifecycle).running(at.lifecycle)
            } else {
                self.lifecycle.running(at.lifecycle)
            },
            backoff: self.backoff.started(at.backoff),
            stage: Stage::Running,
            ..self
        }
    }

    /// The runner after an attempt.
    pub open spec fn attempted(self, cancelled: bool, at: Moment) -> Self {
        if cancelled {
            self.cancelled(at)
        } else {
            self.started(at)
        }
    }

    /// The backoff after a run that failed and is to be retried.
    pub open spec fn failed_backoff(self, at: Moment) -> BackoffView {
        self.backoff.exited(at.backoff).failed(at.backoff)
    }

    /// Whether a number of milliseconds is one that a draw up to the ceiling
    /// of a failure at `at` gives.
    pub open spec fn may_draw_at(self, at: Moment, drawn_ms: u128) -> bool {
        let after = self.failed_backoff(at);
        may_draw(ceiling_ms(after.config, after.attempt) as u128, drawn_ms)
    }

    /// Whether a failed run is the one that opens the circuit breaker.
    pub open spec fn gives_up(self, at: Moment) -> bool {
        self.policy != RestartPolicy::Never && self.failed_backoff(at).is_open()
    }

    /// The runner after a run that returned normally.
    pub open spec fn finished(self, at: Moment) -> Self {
        if self.policy == RestartPolicy::Always {
            RunnerView { backoff: self.backoff.exited(at.backoff).wiped(), ..self }.paused(
                clean_exit_message(),
                at,
            )
        } else {
            RunnerView { backoff: self.backoff.exited(at.backoff), ..self }.ended(
                ReasonView::Completed,
                at,
            )
        }
    }

    /// The runner after a run that failed.
    pub open spec fn failed(self, message: Seq<char>, at: Moment) -> Self {
        if self.policy == RestartPolicy::Never {
            RunnerView { backoff: self.backoff.exited(at.backoff), ..self }.ended(
                ReasonView::Unrecoverable(message),
                at,
            )
        } else {
            let after = RunnerView { backoff: self.failed_backoff(at), ..self };
            if after.backoff.is_open() {
                after.ended(
                    ReasonView::CircuitBreakerOpen {
                        failures: after.backoff.failures.len() as u32,
                        max_retries: after.backoff.config.max_retries,
                    },
                    at,
                )
            } else {
                after.paused(message, at)
            }
        }
    }

    /// The runner after a run.
    pub open spec fn exited(self, cancelled: bool, message: Option<Seq<char>>, at: Moment) -> Self {
        if cancelled {
            self.cancelled(at)
        } else {
            match message {
                None => self.finished(at),
                Some(msg) => self.failed(msg, at),
            }
        }
    }

    /// The runner after a pause.
    pub open spec fn woken(self, cancelled: bool, at: Moment) -> Self {
        if cancelled {
            self.cancelled(at)
        } else {
            RunnerView { stage: Stage::Idle, ..self }
        }
    }
}

/// Whether an action is right for a runner that has just taken a step: the
/// pause after a clean exit is fixed, and the pause after a failure lies within
/// the backoff's ceiling.
pub open spec fn action_fits(after: RunnerView, clean: bool, action: LoopAction) -> bool {
    match after.stage {
        Stage::Idle => action == LoopAction::Attempt,
        Stage::Running => action == LoopAction::Run,
        Stage::Done => action == LoopAction::Finish,
        Stage::Pausing => {
            &&& action is Pause
            &&& clean ==> action->Pause_0@ == CLEAN_EXIT_PAUSE_MS * NANOS_PER_MILLI
            &&& !clean ==> after.backoff.may_answer(BackoffAction::Retry(action->Pause_0))
        },
    }
}

/// Decides the turns of one service's loop.
#[derive(Debug)]
pub struct ServiceRunner {
    policy: RestartPolicy,
    backoff: BackoffState,
    lifecycle: ServiceLifecycle,
    stage: Stage,
}

impl View for ServiceRunner {
    type V = RunnerView;

    closed spec fn view(&self) -> RunnerView {
        RunnerView {
            policy: self.policy,
            backoff: self.backoff@,
            lifecycle: self.lifecycle@,
            stage: self.stage,
        }
    }
}

impl ServiceRunner {
    /// A runner for a service that has not been started yet.
    pub fn new(service_name: &str, policy: RestartPolicy, backoff: BackoffConfig) -> (r: Self)
        ensures
            r@.policy == policy,
            r@.backoff == BackoffView::fresh(backoff, r@.backoff.watch),
            r@.backoff.watch.was_started(),
            r@.lifecycle.name == service_name@,
            exists|now: Duration|
                r@.lifecycle.watch.may_show(now) && r@.lifecycle == #[trigger] LifecycleView::fresh(
                    service_name@,
                    r@.lifecycle.watch,
                    now,
                ),
            r@.lifecycle.watch.was_started(),
            r@.stage == Stage::Idle,
            r@.is_sound(),
            r@.has_room(),
    {
        let lifecycle = ServiceLifecycle::named(service_name);
        ServiceRunner { policy, backoff: BackoffState::new(backoff), lifecycle, stage: Stage::Idle }
    }

    /// The time on both stopwatches.
    pub fn now(&self) -> (r: Moment)
        ensures
            self@.may_show(r),
    {
        Moment { backoff: self.backoff.now(), lifecycle: self.lifecycle.now() }
    }

    /// What the loop is doing.
    pub fn stage(&self) -> (r: Stage)
        ensures
            r == self@.stage,
    {
        self.stage
    }

    /// The lifecycle, for others to see.
    pub fn lifecycle(&self) -> (r: &ServiceLifecycle)
        ensures
            r@ == self@.lifecycle,
    {
        &self.lifecycle
    }

    /// The history of failures.
    pub fn backoff(&self) -> (r: &BackoffState)
        ensures
            r@ == self@.backoff,
    {
        &self.backoff
    }

    /// Whether the counters have room for one more turn.
    pub fn has_room(&self) -> (r: bool)
        ensures
            r == self@.has_room(),
    {
        self.lifecycle.start_count() < u32::MAX && self.lifecycle.total_failures() < u32::MAX
    }

    fn cancel(&mut self, at: Moment, metrics: &mut SupervisorMetrics) -> (r: LoopAction)
        requires
            old(self)@.lifecycle.phase.spec_is_alive(),
        ensures
            final(self)@ == old(self)@.cancelled(at),
            *final(metrics) == old(metrics).ended(),
            r == LoopAction::Finish,
    {
        let _ = self.lifecycle.transition_to_stopping_at(at.lifecycle);
        self.end(TerminationReason::Cancelled, at, metrics)
    }

    fn end(&mut self, reason: TerminationReason, at: Moment, metrics: &mut SupervisorMetrics) -> (r:
        LoopAction)
        requires
            old(self)@.lifecycle.phase != ServicePhase::Terminated,
        ensures
            final(self)@ == old(self)@.ended(reason@, at),
            *final(metrics) == old(metrics).ended(),
            r == LoopAction::Finish,
    {
        let _ = self.lifecycle.transition_to_terminated_at(reason, at.lifecycle);
        self.stage = Stage::Done;
        metrics.record_termination();
        LoopAction::Finish
    }

    fn pause(&mut self, error: &str, delay: Duration, at: Moment) -> (r: LoopAction)
        requires
            old(self)@.lifecycle.phase == ServicePhase::Running,
            old(self)@.has_room(),
        ensures
            final(self)@ == old(self)@.paused(error@, at),
            r == LoopAction::Pause(delay),
    {
        let _ = self.lifecycle.transition_to_backing_off_at(error, at.lifecycle);
        self.stage = Stage::Pausing;
        LoopAction::Pause(delay)
    }

    /// An attempt to start the service, at `at`.
    pub fn attempt_at(&mut self, cancelled: bool, at: Moment, metrics: &mut SupervisorMetrics) -> (r:
        LoopAction)
        requires
            old(self)@.is_sound(),
            !cancelled ==> old(self)@.has_room(),
            old(self)@.stage == Stage::Idle,
        ensures
            final(self)@ == old(self)@.attempted(cancelled, at),
            final(self)@.is_sound(),
            *final(metrics) == (if cancelled {
                old(metrics).ended()
            } else if old(self)@.is_restart() {
                old(metrics).restarted()
            } else {
                *old(metrics)
            }),
            action_fits(final(self)@, false, r),
    {
        if cancelled {
            return self.cancel(at, metrics);
        }
        if self.lifecycle.phase() == ServicePhase::Starting {
            let _ = self.lifecycle.transition_to_running_at(at.lifecycle);
        } else {
            let _ = self.lifecycle.transition_to_restarting_at(at.lifecycle);
            let _ = self.lifecycle.transition_to_running_at(at.lifecycle);
            metrics.record_restart();
        }
        self.backoff.record_start_at(at.backoff);
        self.stage = Stage::Running;
        LoopAction::Run
    }

    /// An attempt to start the service.
    pub fn attempt(&mut self, cancelled: bool, metrics: &mut SupervisorMetrics) -> (r: LoopAction)
        requires
            old(self)@.is_sound(),
            !cancelled ==> old(self)@.has_room(),
            old(self)@.stage == Stage::Idle,
        ensures
            exists|at: Moment|
                old(self)@.may_show(at) && final(self)@ == #[trigger] old(self)@.attempted(cancelled, at),
            final(self)@.is_sound(),
            *final(metrics) == (if cancelled {
                old(metrics).ended()
            } else if old(self)@.is_restart() {
                old(metrics).restarted()
            } else {
                *old(metrics)
            }),
            action_fits(final(self)@, false, r),
    {
        let at = self.now();
        let action = self.attempt_at(cancelled, at, metrics);
        assert(self@ == old(self)@.attempted(cancelled, at));
        action
    }

    /// The end of a run, at `at`; `drawn_ms` is the draw for the delay of a
    /// retry.
    pub fn exited_at(
        &mut self,
        cancelled: bool,
        outcome: RunOutcome,
        at: Moment,
        drawn_ms: u128,
        metrics: &mut SupervisorMetrics,
    ) -> (r: LoopAction)
        requires
            old(self)@.is_sound(),
            !cancelled ==> old(self)@.has_room(),
            old(self)@.stage == Stage::Running,
        ensures
            final(self)@ == old(self)@.exited(cancelled, outcome.message(), at),
            final(self)@.is_sound(),
            *final(metrics) == metrics_after_exit(
                old(self)@,
                cancelled,
                outcome.message(),
                at,
                *old(metrics),
            ),
            action_fits(final(self)@, outcome is Finished, r),
            outcome is Failed && final(self)@.stage == Stage::Pausing ==> r->Pause_0@
                == final(self)@.backoff.delay_for(drawn_ms),
    {
        if cancelled {
            return self.cancel(at, metrics);
        }
        self.backoff.maybe_reset_on_cooldown_at(at.backoff);
        match outcome {
            RunOutcome::Finished => self.finish_clean(at, metrics),
            RunOutcome::Failed(message) => {
                if self.policy == RestartPolicy::Never {
                    return self.end(TerminationReason::Unrecoverable(message), at, metrics);
                }
                let answer = self.backoff.next_backoff_at(at.backoff, drawn_ms);
                self.answer_failure(answer, message, at, metrics)
            },
        }
    }

    /// The end of a run.
    pub fn exited(&mut self, cancelled: bool, outcome: RunOutcome, metrics: &mut SupervisorMetrics) -> (r:
        LoopAction)
        requires
            old(self)@.is_sound(),
            !cancelled ==> old(self)@.has_room(),
            old(self)@.stage == Stage::Running,
        ensures
            exists|at: Moment, drawn_ms: u128|
                {
                    &&& old(self)@.may_show(at)
                    &&& #[trigger] old(self)@.may_draw_at(at, drawn_ms)
                    &&& final(self)@ == old(self)@.exited(cancelled, outcome.message(), at)
                    &&& *final(metrics) == metrics_after_exit(
                        old(self)@,
                        cancelled,
                        outcome.message(),
                        at,
                        *old(metrics),
                    )
                    &&& outcome is Failed && final(self)@.stage == Stage::Pausing ==> r->Pause_0@
                        == drawn_ms * NANOS_PER_MILLI
                },
            final(self)@.is_sound(),
            action_fits(final(self)@, outcome is Finished, r),
    {
        let at = self.now();
        let ghost before = self@;
        let ghost counted = *metrics;
        let ghost message = outcome.message();
        let drawn_ms: u128 = self.backoff.draw_for_next(at.backoff);
        let action = self.exited_at(cancelled, outcome, at, drawn_ms, metrics);
        assert(before.may_draw_at(at, drawn_ms));
        assert(self@ == before.exited(cancelled, message, at));
        assert(*metrics == metrics_after_exit(before, cancelled, message, at, counted));
        action
    }

    fn finish_clean(&mut self, at: Moment, metrics: &mut SupervisorMetrics) -> (r: LoopAction)
        requires
            old(self)@.lifecycle.phase == ServicePhase::Running,
            old(self)@.has_room(),
        ensures
            old(self)@.policy == RestartPolicy::Always ==> {
                &&& final(self)@ == (RunnerView {
                    backoff: old(self)@.backoff.wiped(),
                    ..old(self)@
                }).paused(clean_exit_message(), at)
                &&& *final(metrics) == *old(metrics)
                &&& r is Pause && r->Pause_0@ == CLEAN_EXIT_PAUSE_MS * NANOS_PER_MILLI
            },
            old(self)@.policy != RestartPolicy::Always ==> {
                &&& final(self)@ == old(self)@.ended(ReasonView::Completed, at)
                &&& *final(metrics) == old(metrics).ended()
                &&& r == LoopAction::Finish
            },
    {
        match self.policy {
            RestartPolicy::Always => {
                self.backoff.reset();
                let delay = Duration::from_millis(CLEAN_EXIT_PAUSE_MS);
                self.pause("clean exit, policy=always", delay, at)
            },
            RestartPolicy::OnFailure | RestartPolicy::Never => self.end(
                TerminationReason::Completed,
                at,
                metrics,
            ),
        }
    }

    fn answer_failure(
        &mut self,
        answer: BackoffAction,
        message: String,
        at: Moment,
        metrics: &mut SupervisorMetrics,
    ) -> (r: LoopAction)
        requires
            old(self)@.lifecycle.phase == ServicePhase::Running,
            old(self)@.has_room(),
            old(self)@.backoff.may_answer(answer),
        ensures
            old(self)@.backoff.is_open() ==> {
                &&& final(self)@ == old(self)@.ended(
                    ReasonView::CircuitBreakerOpen {
                        failures: old(self)@.backoff.failures.len() as u32,
                        max_retries: old(self)@.backoff.config.max_retries,
                    },
                    at,
                )
                &&& *final(metrics) == old(metrics).tripped().ended()
                &&& r == LoopAction::Finish
            },
            !old(self)@.backoff.is_open() ==> {
                &&& final(self)@ == old(self)@.paused(message@, at)
                &&& *final(metrics) == *old(metrics)
                &&& r == LoopAction::Pause(answer->Retry_0)
            },
    {
        match answer {
            BackoffAction::Retry(delay) => self.pause(message.as_str(), delay, at),
            BackoffAction::CircuitOpen { failures, max_retries } => {
                metrics.record_circuit_breaker_trip();
                self.end(TerminationReason::CircuitBreakerOpen { failures, max_retries }, at, metrics)
            },
        }
    }

    /// The end of a pause, at `at`: by cancellation, or because it is over.
    pub fn woke_at(&mut self, cancelled: bool, at: Moment, metrics: &mut SupervisorMetrics) -> (r:
        LoopAction)
        requires
            old(self)@.is_sound(),
            old(self)@.stage == Stage::Pausing,
        ensures
            final(self)@ == old(self)@.woken(cancelled, at),
            final(self)@.is_sound(),
            *final(metrics) == (if cancelled {
                old(metrics).ended()
            } else {
                *old(metrics)
            }),
            action_fits(final(self)@, false, r),
    {
        if cancelled {
            return self.cancel(at, metrics);
        }
        self.stage = Stage::Idle;
        LoopAction::Attempt
    }

    /// The end of a pause: by cancellation, or because it is over.
    pub fn woke(&mut self, cancelled: bool, metrics: &mut SupervisorMetrics) -> (r: LoopAction)
        requires
            old(self)@.is_sound(),
            old(self)@.stage == Stage::Pausing,
        ensures
            exists|at: Moment|
                old(self)@.may_show(at) && final(self)@ == #[trigger] old(self)@.woken(cancelled, at),
            final(self)@.is_sound(),
            *final(metrics) == (if cancelled {
                old(metrics).ended()
            } else {
                *old(metrics)
            }),
            action_fits(final(self)@, false, r),
    {
        let at = self.now();
        let action = self.woke_at(cancelled, at, metrics);
        assert(self@ == old(self)@.woken(cancelled, at));
        action
    }
}

/// The counters after a run: a service that ends is counted once, and a
/// breaker that trips is counted first.
pub open spec fn metrics_after_exit(
    before: RunnerView,
    cancelled: bool,
    message: Option<Seq<char>>,
    at: Moment,
    metrics: SupervisorMetrics,
) -> SupervisorMetrics {
    if cancelled {
        metrics.ended()
    } else if message is Some && before.gives_up(at) {
        metrics.tripped().ended()
    } else if before.exited(cancelled, message, at).stage == Stage::Done {
        metrics.ended()
    } else {
        metrics
    }
}

/// Cancellation ends the service from every stage of the loop, with the
/// cancellation as its reason.
pub proof fn cancellation_always_ends(r: RunnerView, message: Option<Seq<char>>, at: Moment)
    ensures
        r.attempted(true, at) == r.cancelled(at),
        r.exited(true, message, at) == r.cancelled(at),
        r.woken(true, at) == r.cancelled(at),
        r.cancelled(at).stage == Stage::Done,
        r.cancelled(at).lifecycle.reason == Some(ReasonView::Cancelled),
{
}

/// A service that is never to be restarted runs once: whatever its run brings,
/// it ends.
pub proof fn never_means_once(r: RunnerView, cancelled: bool, message: Option<Seq<char>>, at: Moment)
    requires
        r.policy == RestartPolicy::Never,
    ensures
        r.exited(cancelled, message, at).stage == Stage::Done,
{
}

/// A service that is restarted on failure ends with its first clean exit.
pub proof fn clean_exit_completes(r: RunnerView, at: Moment)
    requires
        r.policy == RestartPolicy::OnFailure,
    ensures
        r.exited(false, None, at).stage == Stage::Done,
        r.exited(false, None, at).lifecycle.reason == Some(ReasonView::Completed),
{
}

/// A service that is always restarted never ends by a clean exit, and its
/// clean exit leaves no failures behind.
pub proof fn always_restarts_with_a_clean_slate(r: RunnerView, at: Moment)
    requires
        r.policy == RestartPolicy::Always,
    ensures
        r.exited(false, None, at).stage == Stage::Pausing,
        r.exited(false, None, at).backoff.attempt == 0,
        r.exited(false, None, at).backoff.failures.len() == 0,
{
}

/// Without cancellation a failing service that may be restarted ends only when
/// its circuit breaker opens.
pub proof fn only_the_breaker_gives_up(r: RunnerView, message: Seq<char>, at: Moment)
    requires
        r.policy != RestartPolicy::Never,
    ensures
        r.exited(false, Some(message), at).stage == Stage::Done <==> r.gives_up(at),
        r.gives_up(at) ==> r.exited(false, Some(message), at).lifecycle.reason->0
            is CircuitBreakerOpen,
{
}

/// Starts count restarts: a start that follows a pause is one more, and the
/// first start is already counted.
pub proof fn restarts_are_starts(r: RunnerView, at: Moment)
    requires
        r.is_sound(),
        r.has_room(),
        r.stage == Stage::Idle,
    ensures
        r.started(at).lifecycle.starts == r.lifecycle.starts + (if r.is_restart() {
            1int
        } else {
            0int
        }),
{
}

/// A run that fails without being cancelled, and the pause after it.
pub struct FailedRun {
    /// When the run began.
    pub started: Moment,
    /// When it failed.
    pub failed: Moment,
    /// With what message.
    pub message: Seq<char>,
    /// When the pause after it was over.
    pub woke: Moment,
}

/// A runner and the counters after one more turn of the loop: an attempt, a
/// failed run, and a pause unless the loop has ended.
pub open spec fn after_failed_run(r: RunnerView, m: SupervisorMetrics, run: FailedRun) -> (
    RunnerView,
    SupervisorMetrics,
) {
    let started = r.attempted(false, run.started);
    let counted = if r.is_restart() {
        m.restarted()
    } else {
        m
    };
    let failed = started.exited(false, Some(run.message), run.failed);
    (
        if failed.stage == Stage::Pausing {
            failed.woken(false, run.woke)
        } else {
            failed
        },
        metrics_after_exit(started, false, Some(run.message), run.failed, counted),
    )
}

/// A runner and the counters after a sequence of failed runs.
pub open spec fn after_failed_runs(r: RunnerView, m: SupervisorMetrics, runs: Seq<FailedRun>) -> (
    RunnerView,
    SupervisorMetrics,
)
    decreases runs.len(),
{
    if runs.len() == 0 {
        (r, m)
    } else {
        let before = after_failed_runs(r, m, runs.drop_last());
        after_failed_run(before.0, before.1, runs.last())
    }
}

/// Whether no failure has left the circuit breaker's window by the time of a
/// later one, and no run was as long as the cooldown period.
pub open spec fn fail_in_a_row(config: BackoffConfig, runs: Seq<FailedRun>) -> bool {
    &&& forall|i: int, j: int|
        0 <= i <= j < runs.len() ==> in_window(
            config,
            (#[trigger] runs[i]).failed.backoff,
            (#[trigger] runs[j]).failed.backoff,
        )
    &&& forall|i: int|
        0 <= i < runs.len() ==> Duration::spec_since(
            (#[trigger] runs[i]).failed.backoff@,
            runs[i].started.backoff@,
        ) < config.cooldown_period@
}

/// Whether a runner has not been started yet.
pub open spec fn is_unstarted(r: RunnerView) -> bool {
    &&& r.stage == Stage::Idle
    &&& r.backoff == BackoffView::fresh(r.backoff.config, r.backoff.watch)
    &&& r.lifecycle == LifecycleView::fresh(
        r.lifecycle.name,
        r.lifecycle.watch,
        r.lifecycle.created_at,
    )
}

proof fn failures_pile_up(r: RunnerView, m: SupervisorMetrics, runs: Seq<FailedRun>)
    requires
        is_unstarted(r),
        r.policy != RestartPolicy::Never,
        runs.len() < r.backoff.config.max_retries,
        fail_in_a_row(r.backoff.config, runs),
        m.restarts_total + runs.len() <= u64::MAX,
    ensures
        ({
            let (after, counted) = after_failed_runs(r, m, runs);
            let n = runs.len();
            &&& after.stage == Stage::Idle
            &&& after.policy == r.policy
            &&& after.backoff.config == r.backoff.config
            &&& after.backoff.failures == runs.map_values(|run: FailedRun| run.failed.backoff)
            &&& after.lifecycle.phase == (if n == 0 {
                ServicePhase::Starting
            } else {
                ServicePhase::BackingOff
            })
            &&& after.lifecycle.starts == (if n == 0 {
                1
            } else {
                n
            })
            &&& after.lifecycle.failures == n
            &&& counted == (SupervisorMetrics {
                restarts_total: (m.restarts_total + (if n == 0 {
                    0
                } else {
                    n - 1
                })) as u64,
                ..m
            })
        }),
    decreases runs.len(),
{
    if runs.len() > 0 {
        let rest = runs.drop_last();
        let last = runs.len() - 1;
        assert(forall|i: int| 0 <= i < rest.len() ==> rest[i] == runs[i]);
        assert(runs.last() == runs[last]);
        failures_pile_up(r, m, rest);
        let (before, _) = after_failed_runs(r, m, rest);
        one_more_failure(before, rest, runs.last());
        assert(runs.map_values(|run: FailedRun| run.failed.backoff) =~= rest.map_values(
            |run: FailedRun| run.failed.backoff,
        ).push(runs.last().failed.backoff));
    } else {
        assert(runs.map_values(|run: FailedRun| run.failed.backoff) =~= Seq::empty());
    }
}

proof fn one_more_failure(before: RunnerView, rest: Seq<FailedRun>, run: FailedRun)
    requires
        before.backoff.config.max_retries > 0,
        before.backoff.failures == rest.map_values(|run: FailedRun| run.failed.backoff),
        fail_in_a_row(before.backoff.config, rest.push(run)),
    ensures
        ({
            let started = before.backoff.started(run.started.backoff);
            let after = started.exited(run.failed.backoff).failed(run.failed.backoff);
            &&& after.config == before.backoff.config
            &&& after.failures == before.backoff.failures.push(run.failed.backoff)
        }),
{
    let config = before.backoff.config;
    let all = rest.push(run);
    let started = before.backoff.started(run.started.backoff);
    assert(all[rest.len() as int] == run);
    assert(!started.has_cooled(run.failed.backoff));
    assert forall|i: int| 0 <= i < started.failures.len() implies in_window(
        config,
        #[trigger] started.failures[i],
        run.failed.backoff,
    ) by {
        assert(all[i] == rest[i]);
        assert(in_window(config, all[i].failed.backoff, all[rest.len() as int].failed.backoff));
    }
    breaker_opens_at_the_limit(started, run.failed.backoff);
}

/// A service that keeps failing is run exactly as often as its circuit breaker
/// allows. Each failure before the limit is followed by a pause and another
/// attempt. The one that brings the failures to the limit ends the loop: after
/// as many starts as the limit, the first of which is no restart, with one trip
/// and one termination, and with the open breaker and the count as the reason.
pub proof fn loop_gives_up_at_the_limit(r: RunnerView, m: SupervisorMetrics, runs: Seq<FailedRun>)
    requires
        is_unstarted(r),
        r.policy != RestartPolicy::Never,
        0 < runs.len() <= r.backoff.config.max_retries,
        fail_in_a_row(r.backoff.config, runs),
        m.restarts_total + runs.len() <= u64::MAX,
    ensures
        ({
            let (after, counted) = after_failed_runs(r, m, runs);
            let (n, limit) = (runs.len(), r.backoff.config.max_retries);
            let restarted = SupervisorMetrics {
                restarts_total: (m.restarts_total + n - 1) as u64,
                ..m
            };
            &&& after.lifecycle.starts == n
            &&& n < limit ==> {
                &&& after.stage == Stage::Idle
                &&& after.lifecycle.phase == ServicePhase::BackingOff
                &&& after.lifecycle.failures == n
                &&& counted == restarted
            }
            &&& n == limit ==> {
                &&& after.stage == Stage::Done
                &&& after.lifecycle.phase == ServicePhase::Terminated
                &&& after.lifecycle.reason == Some(
                    ReasonView::CircuitBreakerOpen { failures: limit, max_retries: limit },
                )
                &&& counted == restarted.tripped().ended()
            }
        }),
{
    if runs.len() < r.backoff.config.max_retries {
        failures_pile_up(r, m, runs);
    } else {
        let rest = runs.drop_last();
        assert(forall|i: int| 0 <= i < rest.len() ==> rest[i] == runs[i]);
        assert(rest.push(runs.last()) =~= runs);
        failures_pile_up(r, m, rest);
        let (before, _) = after_failed_runs(r, m, rest);
        one_more_failure(before, rest, runs.last());
    }
}

/// A service whose circuit breaker is switched off is started again after
/// every failure, however many there are.
pub proof fn loop_without_breaker_goes_on(r: RunnerView, m: SupervisorMetrics, runs: Seq<FailedRun>)
    requires
        is_unstarted(r),
        r.policy != RestartPolicy::Never,
        r.backoff.config.max_retries == 0,
        runs.len() <= u32::MAX,
    ensures
        ({
            let after = after_failed_runs(r, m, runs).0;
            &&& after.stage == Stage::Idle
            &&& after.policy == r.policy
            &&& after.backoff.config == r.backoff.config
            &&& after.lifecycle.failures == runs.len()
        }),
    decreases runs.len(),
{
    if runs.len() > 0 {
        loop_without_breaker_goes_on(r, m, runs.drop_last());
    }
}

/// Cancellation stops the service and ends it at once, with the cancellation as
/// its reason, and leaves the history of failures alone.
pub proof fn cancellation_stops_and_ends(r: RunnerView, at: Moment)
    ensures
        ({
            let after = r.cancelled(at);
            &&& after.stage == Stage::Done
            &&& after.policy == r.policy && after.backoff == r.backoff
            &&& after.lifecycle.phase == ServicePhase::Terminated
            &&& after.lifecycle.reason == Some(ReasonView::Cancelled)
            &&& after.lifecycle.entered_at == at.lifecycle
            &&& after.lifecycle.name == r.lifecycle.name
            &&& after.lifecycle.starts == r.lifecycle.starts
            &&& after.lifecycle.failures == r.lifecycle.failures
            &&& after.lifecycle.last_error == r.lifecycle.last_error
            &&& after.lifecycle.ran == r.lifecycle.total_ran(at.lifecycle)
            &&& after.lifecycle.running_since is None
        }),
{
}

/// An attempt that is not cancelled puts the service into its running phase,
/// remembers the start, and counts one more start exactly where the service was
/// backing off.
pub proof fn attempts_start_the_service(r: RunnerView, at: Moment)
    requires
        r.lifecycle.starts < u32::MAX,
    ensures
        ({
            let after = r.attempted(false, at);
            let again = r.lifecycle.phase == ServicePhase::BackingOff;
            &&& r.is_restart() <==> again
            &&& after.stage == Stage::Running
            &&& after.policy == r.policy
            &&& after.backoff.last_start == Some(at.backoff)
            &&& after.backoff.attempt == r.backoff.attempt
            &&& after.backoff.failures == r.backoff.failures
            &&& after.backoff.config == r.backoff.config
            &&& after.lifecycle.phase == ServicePhase::Running
            &&& after.lifecycle.running_since == Some(at.lifecycle)
            &&& after.lifecycle.entered_at == at.lifecycle
            &&& again ==> after.lifecycle.starts == r.lifecycle.starts + 1
            &&& !again ==> after.lifecycle.starts == r.lifecycle.starts
            &&& after.lifecycle.failures == r.lifecycle.failures
            &&& after.lifecycle.last_error == r.lifecycle.last_error
            &&& after.lifecycle.ran == r.lifecycle.ran
        }),
{
}

/// A run that returns normally ends the service as completed, unless it is
/// always to be restarted. Then it pauses, and its history of failures is wiped.
pub proof fn clean_exits_complete_or_restart(r: RunnerView, at: Moment)
    requires
        r.lifecycle.failures < u32::MAX,
    ensures
        ({
            let after = r.exited(false, None, at);
            &&& after.policy == r.policy
            &&& after.lifecycle.ran == r.lifecycle.total_ran(at.lifecycle)
            &&& after.lifecycle.starts == r.lifecycle.starts
            &&& r.policy == RestartPolicy::Always ==> {
                &&& after.stage == Stage::Pausing
                &&& after.lifecycle.phase == ServicePhase::BackingOff
                &&& after.lifecycle.failures == r.lifecycle.failures + 1
                &&& after.lifecycle.last_error == Some("clean exit, policy=always"@)
                &&& after.backoff.attempt == 0 && after.backoff.failures.len() == 0
                &&& after.backoff.last_start is None
            }
            &&& r.policy != RestartPolicy::Always ==> {
                &&& after.stage == Stage::Done
                &&& after.lifecycle.phase == ServicePhase::Terminated
                &&& after.lifecycle.reason == Some(ReasonView::Completed)
                &&& after.lifecycle.failures == r.lifecycle.failures
                &&& after.backoff == r.backoff.exited(at.backoff)
            }
        }),
{
}

/// A run that fails ends a service that is never to be restarted, with its
/// message as the reason. Any other service forgives a long run, records the
/// failure, and then pauses with the message as its last error, or ends where
/// the breaker has opened by this failure.
pub proof fn failed_runs_pause_or_end(r: RunnerView, message: Seq<char>, at: Moment)
    requires
        r.lifecycle.failures < u32::MAX,
    ensures
        ({
            let after = r.exited(false, Some(message), at);
            let record = r.backoff.exited(at.backoff).failed(at.backoff);
            let open = record.config.max_retries > 0 && record.failures.len()
                >= record.config.max_retries;
            &&& after.policy == r.policy
            &&& after.lifecycle.ran == r.lifecycle.total_ran(at.lifecycle)
            &&& after.lifecycle.starts == r.lifecycle.starts
            &&& r.policy == RestartPolicy::Never ==> {
                &&& after.stage == Stage::Done
                &&& after.lifecycle.phase == ServicePhase::Terminated
                &&& after.lifecycle.reason == Some(ReasonView::Unrecoverable(message))
                &&& after.backoff == r.backoff.exited(at.backoff)
            }
            &&& r.policy != RestartPolicy::Never ==> after.backoff == record
            &&& r.policy != RestartPolicy::Never && open ==> {
                &&& after.stage == Stage::Done
                &&& after.lifecycle.phase == ServicePhase::Terminated
                &&& after.lifecycle.reason matches Some(
                    ReasonView::CircuitBreakerOpen { max_retries, .. },
                ) && max_retries == r.backoff.config.max_retries
                &&& after.lifecycle.failures == r.lifecycle.failures
            }
            &&& r.policy != RestartPolicy::Never && !open ==> {
                &&& after.stage == Stage::Pausing
                &&& after.lifecycle.phase == ServicePhase::BackingOff
                &&& after.lifecycle.failures == r.lifecycle.failures + 1
                &&& after.lifecycle.last_error == Some(message)
            }
        }),
{
}

/// The end of a pause that is not cancelled leads to the next attempt and
/// changes nothing else.
pub proof fn pauses_lead_to_an_attempt(r: RunnerView, at: Moment)
    ensures
        ({
            let after = r.woken(false, at);
            &&& after.stage == Stage::Idle
            &&& after.policy == r.policy
            &&& after.backoff == r.backoff
            &&& after.lifecycle == r.lifecycle
        }),
{
}

/// What the loop is told to do goes with what it is doing: to attempt, to run,
/// to pause or to finish. The pause after a clean exit is a tenth of a second.
pub proof fn actions_go_with_stages(after: RunnerView, clean: bool, action: LoopAction)
    requires
        action_fits(after, clean, action),
    ensures
        action == LoopAction::Attempt <==> after.stage == Stage::Idle,
        action == LoopAction::Run <==> after.stage == Stage::Running,
        action == LoopAction::Finish <==> after.stage == Stage::Done,
        action is Pause <==> after.stage == Stage::Pausing,
        action is Pause && clean ==> action->Pause_0@ == 100_000_000,
        action is Pause && !clean ==> action->Pause_0@ <= ceiling_ms(
            after.backoff.config,
            after.backoff.attempt,
        ) * 1_000_000,
{
}

/// An exit is counted as a termination exactly where it ends the service, and as
/// a trip exactly where it ends it by the breaker. It counts nothing else.
pub proof fn exits_are_counted_once(
    r: RunnerView,
    cancelled: bool,
    message: Option<Seq<char>>,
    at: Moment,
    m: SupervisorMetrics,
)
    requires
        m.terminated_total < u64::MAX,
        m.circuit_breaker_trips < u64::MAX,
    ensures
        ({
            let after = r.exited(cancelled, message, at);
            let counted = metrics_after_exit(r, cancelled, message, at, m);
            let ends = after.stage == Stage::Done;
            let trips = ends && after.lifecycle.reason->0 is CircuitBreakerOpen;
            &&& counted.spawned_total == m.spawned_total
            &&& counted.restarts_total == m.restarts_total
            &&& ends ==> counted.terminated_total == m.terminated_total + 1
            &&& !ends ==> counted.terminated_total == m.terminated_total
            &&& trips ==> counted.circuit_breaker_trips == m.circuit_breaker_trips + 1
            &&& !trips ==> counted.circuit_breaker_trips == m.circuit_breaker_trips
            &&& ends && m.active_services > 0 ==> counted.active_services == m.active_services - 1
            &&& !ends ==> counted.active_services == m.active_services
        }),
{
}

} // verus!
