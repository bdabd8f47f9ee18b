//! Lifecycle of a supervised service.
//!
//! A service starts, runs, backs off after a failure and starts again, until
//! it stops or is given up. Terminated is final.

use vstd::prelude::*;

use crate::text::{decimal, digits};
use crate::time::{Duration, Stopwatch};

verus! {

/// Lifecycle phase of a service.
#[derive(Clone, Copy, Debug, PartialEq, Eq, Hash, Structural)]
pub enum ServicePhase {
    /// The service is initializing.
    Starting,
    /// The service's main loop is executing.
    Running,
    /// The service failed and waits for its next attempt.
    BackingOff,
    /// A shutdown signal was received and the service is cleaning up.
    Stopping,
    /// The service has exited for good.
    Terminated,
}

impl ServicePhase {
    /// The phase's name.
    pub open spec fn spec_name(self) -> Seq<char> {
        match self {
            ServicePhase::Starting => "starting"@,
            ServicePhase::Running => "running"@,
            ServicePhase::BackingOff => "backing_off"@,
            ServicePhase::Stopping => "stopping"@,
            ServicePhase::Terminated => "terminated"@,
        }
    }

    /// The phase's name.
    pub fn name(&self) -> (r: &'static str)
        ensures
            r@ == self.spec_name(),
    {
        match self {
            ServicePhase::Starting => "starting",
            ServicePhase::Running => "running",
            ServicePhase::BackingOff => "backing_off",
            ServicePhase::Stopping => "stopping",
            ServicePhase::Terminated => "terminated",
        }
    }

    /// The phase as text for people to read: its name.
    pub fn render(&self) -> (r: String)
        ensures
            r@ == self.spec_name(),
    {
        self.name().to_string()
    }

    /// Whether the phase is final.
    pub fn is_terminal(&self) -> (r: bool)
        ensures
            r == (*self == ServicePhase::Terminated),
    {
        match self {
            ServicePhase::Terminated => true,
            _ => false,
        }
    }

    /// Whether the service is starting, running or backing off.
    pub open spec fn spec_is_alive(self) -> bool {
        self == ServicePhase::Starting || self == ServicePhase::Running || self
            == ServicePhase::BackingOff
    }

    /// Whether the service is starting, running or backing off.
    pub fn is_alive(&self) -> (r: bool)
        ensures
            r == self.spec_is_alive(),
    {
        match self {
            ServicePhase::Starting | ServicePhase::Running | ServicePhase::BackingOff => true,
            _ => false,
        }
    }
}

/// Whether a service may go from one phase to another.
pub open spec fn may_follow(from: ServicePhase, to: ServicePhase) -> bool {
    match from {
        ServicePhase::Starting => to != ServicePhase::Starting,
        ServicePhase::Running => to == ServicePhase::BackingOff || to == ServicePhase::Stopping
            || to == ServicePhase::Terminated,
        ServicePhase::BackingOff => to == ServicePhase::Starting || to == ServicePhase::Stopping
            || to == ServicePhase::Terminated,
        ServicePhase::Stopping => to == ServicePhase::Terminated,
        ServicePhase::Terminated => false,
    }
}

/// Why a service terminated.
#[derive(Debug, PartialEq, Eq)]
pub enum TerminationReason {
    /// The service completed.
    Completed,
    /// The service was cancelled.
    Cancelled,
    /// Too many failures.
    CircuitBreakerOpen {
        /// Failures within the circuit breaker's window.
        failures: u32,
        /// The configured maximum.
        max_retries: u32,
    },
    /// The service failed and is not to be restarted.
    Unrecoverable(String),
}

/// A termination reason as a value.
pub enum ReasonView {
    /// The service completed.
    Completed,
    /// The service was cancelled.
    Cancelled,
    /// Too many failures.
    CircuitBreakerOpen {
        /// Failures within the circuit breaker's window.
        failures: u32,
        /// The configured maximum.
        max_retries: u32,
    },
    /// The service failed and is not to be restarted.
    Unrecoverable(Seq<char>),
}

impl View for TerminationReason {
    type V = ReasonView;

    open spec fn view(&self) -> ReasonView {
        match *self {
            TerminationReason::Completed => ReasonView::Completed,
            TerminationReason::Cancelled => ReasonView::Cancelled,
            TerminationReason::CircuitBreakerOpen { failures, max_retries } =>
                ReasonView::CircuitBreakerOpen { failures, max_retries },
            TerminationReason::Unrecoverable(msg) => ReasonView::Unrecoverable(msg@),
        }
    }
}

impl ReasonView {
    /// The reason as text.
    pub open spec fn text(self) -> Seq<char> {
        match self {
            ReasonView::Completed => "completed"@,
            ReasonView::Cancelled => "cancelled"@,
            ReasonView::CircuitBreakerOpen { failures, max_retries } => "circuit breaker open ("@
                + digits(failures as nat) + "/"@ + digits(max_retries as nat) + " failures)"@,
            ReasonView::Unrecoverable(msg) => "unrecoverable: "@ + msg,
        }
    }
}

impl TerminationReason {
    /// The reason as text for people to read.
    pub fn render(&self) -> (r: String)
        ensures
            r@ == self@.text(),
    {
        match self {
            TerminationReason::Completed => "completed".to_string(),
            TerminationReason::Cancelled => "cancelled".to_string(),
            TerminationReason::CircuitBreakerOpen { failures, max_retries } => {
                let mut text = "circuit breaker open (".to_string();
                text.append(decimal(*failures as u128).as_str());
                text.append("/");
                text.append(decimal(*max_retries as u128).as_str());
                text.append(" failures)");
                text
            },
            TerminationReason::Unrecoverable(msg) => {
                let mut text = "unrecoverable: ".to_string();
                text.append(msg.as_str());
                text
            },
        }
    }
}

impl Clone for TerminationReason {
    fn clone(&self) -> (r: Self)
        ensures
            r@ == self@,
    {
        match self {
            TerminationReason::Completed => TerminationReason::Completed,
            TerminationReason::Cancelled => TerminationReason::Cancelled,
            TerminationReason::CircuitBreakerOpen { failures, max_retries } =>
                TerminationReason::CircuitBreakerOpen {
                    failures: *failures,
                    max_retries: *max_retries,
                },
            TerminationReason::Unrecoverable(msg) => TerminationReason::Unrecoverable(msg.clone()),
        }
    }
}

/// A transition that the lifecycle does not allow.
#[derive(Clone, Copy, Debug, PartialEq, Eq, Structural)]
pub struct TransitionError {
    /// Phase the service was in.
    pub from: ServicePhase,
    /// Phase it was asked to enter.
    pub to: ServicePhase,
}

impl TransitionError {
    /// The error as text for people to read.
    pub fn render(&self) -> (r: String)
        ensures
            r@ == "invalid lifecycle transition: "@ + self.from.spec_name() + " → "@
                + self.to.spec_name(),
    {
        let mut text = "invalid lifecycle transition: ".to_string();
        text.append(self.from.name());
        text.append(" → ");
        text.append(self.to.name());
        text
    }
}

/// A lifecycle as a value. Times are on the lifecycle's own stopwatch.
#[verifier::ext_equal]
pub struct LifecycleView {
    /// Name of the service.
    pub name: Seq<char>,
    /// Current phase.
    pub phase: ServicePhase,
    /// When the lifecycle began.
    pub created_at: Duration,
    /// When the current phase was entered.
    pub entered_at: Duration,
    /// Starts so far.
    pub starts: u32,
    /// Failures so far.
    pub failures: u32,
    /// Message of the last failure.
    pub last_error: Option<Seq<char>>,
    /// Why the service terminated.
    pub reason: Option<ReasonView>,
    /// Time spent running in earlier runs.
    pub ran: Duration,
    /// When the current run began.
    pub running_since: Option<Duration>,
    /// What the times are measured on.
    pub watch: Stopwatch,
}

impl LifecycleView {
    /// A service that starts at `now`, on the given stopwatch, for the first
    /// time.
    pub open spec fn fresh(name: Seq<char>, watch: Stopwatch, now: Duration) -> Self {
        LifecycleView {
            name,
            phase: ServicePhase::Starting,
            created_at: now,
            entered_at: now,
            starts: 1,
            failures: 0,
            last_error: None,
            reason: None,
            ran: Duration { nanos: 0 },
            running_since: None,
            watch,
        }
    }

    /// The lifecycle with the current run, if there is one, added to the time
    /// spent running.
    pub open spec fn accumulated(self, now: Duration) -> Self {
        LifecycleView { ran: self.total_ran(now), running_since: None, ..self }
    }

    /// Time spent running up to `now`.
    pub open spec fn total_ran(self, now: Duration) -> Duration {
        match self.running_since {
            Some(since) => Duration {
                nanos: self.ran.spec_plus(
                    Duration { nanos: Duration::spec_since(now@, since@) as u128 },
                ) as u128,
            },
            None => self.ran,
        }
    }

    /// The lifecycle in another phase.
    pub open spec fn in_phase(self, phase: ServicePhase, now: Duration) -> Self {
        LifecycleView { phase, entered_at: now, ..self }
    }

    /// The service begins to run.
    pub open spec fn running(self, now: Duration) -> Self {
        LifecycleView { running_since: Some(now), ..self.in_phase(ServicePhase::Running, now) }
    }

    /// The service has failed and backs off.
    pub open spec fn backing_off(self, error: Seq<char>, now: Duration) -> Self {
        LifecycleView {
            failures: (self.failures + 1) as u32,
            last_error: Some(error),
            ..self.accumulated(now).in_phase(ServicePhase::BackingOff, now)
        }
    }

    /// The service starts again.
    pub open spec fn restarting(self, now: Duration) -> Self {
        LifecycleView {
            starts: (self.starts + 1) as u32,
            ..self.in_phase(ServicePhase::Starting, now)
        }
    }

    /// The service is asked to stop.
    pub open spec fn stopping(self, now: Duration) -> Self {
        self.accumulated(now).in_phase(ServicePhase::Stopping, now)
    }

    /// The service is gone.
    pub open spec fn terminated(self, reason: ReasonView, now: Duration) -> Self {
        LifecycleView {
            reason: Some(reason),
            ..self.accumulated(now).in_phase(ServicePhase::Terminated, now)
        }
    }

    /// A run is under way exactly in the running phase, and there is a
    /// termination reason exactly in the terminated one.
    pub open spec fn is_sound(self) -> bool {
        &&& self.running_since is Some <==> self.phase == ServicePhase::Running
        &&& self.reason is Some <==> self.phase == ServicePhase::Terminated
        &&& self.starts >= 1
    }
}

/// Lifecycle of a single service, with its counters and timings.
#[derive(Debug)]
pub struct ServiceLifecycle {
    phase: ServicePhase,
    service_name: String,
    stopwatch: Stopwatch,
    created_at: Duration,
    phase_entered_at: Duration,
    start_count: u32,
    total_failures: u32,
    last_error: Option<String>,
    termination_reason: Option<TerminationReason>,
    cumulative_running: Duration,
    running_since: Option<Duration>,
}

impl View for ServiceLifecycle {
    type V = LifecycleView;

    closed spec fn view(&self) -> LifecycleView {
        LifecycleView {
            name: self.service_name@,
            phase: self.phase,
            created_at: self.created_at,
            entered_at: self.phase_entered_at,
            starts: self.start_count,
            failures: self.total_failures,
            last_error: match self.last_error {
                Some(e) => Some(e@),
                None => None,
            },
            reason: match self.termination_reason {
                Some(r) => Some(r@),
                None => None,
            },
            ran: self.cumulative_running,
            running_since: self.running_since,
            watch: self.stopwatch,
        }
    }
}

impl Clone for ServiceLifecycle {
    fn clone(&self) -> (r: Self)
        ensures
            r@ == self@,
    {
        ServiceLifecycle {
            phase: self.phase,
            service_name: self.service_name.clone(),
            stopwatch: self.stopwatch,
            created_at: self.created_at,
            phase_entered_at: self.phase_entered_at,
            start_count: self.start_count,
            total_failures: self.total_failures,
            last_error: match &self.last_error {
                Some(e) => Some(e.clone()),
                None => None,
            },
            termination_reason: match &self.termination_reason {
                Some(r) => Some(r.clone()),
                None => None,
            },
            cumulative_running: self.cumulative_running,
            running_since: self.running_since,
        }
    }
}

impl ServiceLifecycle {
    /// A service that starts now for the first time.
    pub fn new<S: Into<String>>(service_name: S) -> (r: Self)
        ensures
            exists|text: String, now: Duration| #[trigger]
                call_ensures(<S as Into<String>>::into, (service_name,), text)
                    && r@.watch.may_show(now) && r@ == #[trigger] LifecycleView::fresh(
                    text@,
                    r@.watch,
                    now,
                ),
            r@.watch.was_started(),
            r@.is_sound(),
    {
        let name: String = service_name.into();
        Self::named(name.as_str())
    }

    /// A service with the given name that starts now for the first time.
    pub fn named(name: &str) -> (r: Self)
        ensures
            exists|now: Duration|
                r@.watch.may_show(now) && r@ == #[trigger] LifecycleView::fresh(name@, r@.watch, now),
            r@.watch.was_started(),
            r@.is_sound(),
    {
        let stopwatch = Stopwatch::started();
        let now = stopwatch.read();
        let lifecycle = ServiceLifecycle {
            phase: ServicePhase::Starting,
            service_name: name.to_string(),
            stopwatch,
            created_at: now,
            phase_entered_at: now,
            start_count: 1,
            total_failures: 0,
            last_error: None,
            termination_reason: None,
            cumulative_running: Duration::zero(),
            running_since: None,
        };
        assert(lifecycle@ == LifecycleView::fresh(name@, lifecycle@.watch, now));
        lifecycle
    }

    /// The time on the lifecycle's stopwatch.
    pub fn now(&self) -> (r: Duration)
        ensures
            self@.watch.may_show(r),
    {
        self.stopwatch.read()
    }

    /// Current phase.
    pub fn phase(&self) -> (r: ServicePhase)
        ensures
            r == self@.phase,
    {
        self.phase
    }

    /// Name of the service.
    pub fn service_name(&self) -> (r: &str)
        ensures
            r@ == self@.name,
    {
        self.service_name.as_str()
    }

    /// How long the service has existed.
    pub fn age(&self) -> (r: Duration)
        ensures
            exists|now: Duration|
                self@.watch.may_show(now) && r@ == #[trigger] Duration::spec_since(
                    now@,
                    self@.created_at@,
                ),
    {
        let now = self.now();
        let age = now.since(self.created_at);
        assert(age@ == Duration::spec_since(now@, self@.created_at@));
        age
    }

    /// How long the service has been in its current phase.
    pub fn time_in_current_phase(&self) -> (r: Duration)
        ensures
            exists|now: Duration|
                self@.watch.may_show(now) && r@ == #[trigger] Duration::spec_since(
                    now@,
                    self@.entered_at@,
                ),
    {
        let now = self.now();
        let time = now.since(self.phase_entered_at);
        assert(time@ == Duration::spec_since(now@, self@.entered_at@));
        time
    }

    /// Starts so far.
    pub fn start_count(&self) -> (r: u32)
        ensures
            r == self@.starts,
    {
        self.start_count
    }

    /// Failures so far.
    pub fn total_failures(&self) -> (r: u32)
        ensures
            r == self@.failures,
    {
        self.total_failures
    }

    /// Message of the last failure, if there was one.
    pub fn last_error(&self) -> (r: Option<&str>)
        ensures
            r is Some <==> self@.last_error is Some,
            r is Some ==> r->0@ == self@.last_error->0,
    {
        match &self.last_error {
            Some(e) => Some(e.as_str()),
            None => None,
        }
    }

    /// Why the service terminated, once it has.
    pub fn termination_reason(&self) -> (r: Option<&TerminationReason>)
        ensures
            r is Some <==> self@.reason is Some,
            r is Some ==> r->0@ == self@.reason->0,
    {
        match &self.termination_reason {
            Some(reason) => Some(reason),
            None => None,
        }
    }

    /// Time spent running up to `now`.
    pub fn cumulative_running_time_at(&self, now: Duration) -> (r: Duration)
        ensures
            r == self@.total_ran(now),
    {
        match self.running_since {
            Some(since) => self.cumulative_running.plus(now.since(since)),
            None => self.cumulative_running,
        }
    }

    /// Time spent running, the current run included.
    pub fn cumulative_running_time(&self) -> (r: Duration)
        ensures
            exists|now: Duration|
                self@.watch.may_show(now) && r == #[trigger] self@.total_ran(now),
            self@.running_since is None ==> r == self@.ran,
    {
        let now = self.now();
        let time = self.cumulative_running_time_at(now);
        assert(time == self@.total_ran(now));
        time
    }

    /// Check that a phase may follow the current one.
    fn validate_transition(&self, target: ServicePhase) -> (r: Result<(), TransitionError>)
        ensures
            r is Ok <==> may_follow(self@.phase, target),
            r is Err ==> r->Err_0 == (TransitionError { from: self@.phase, to: target }),
    {
        let valid = match (self.phase, target) {
            (ServicePhase::Starting, ServicePhase::Running) => true,
            (ServicePhase::Starting, ServicePhase::Terminated) => true,
            (ServicePhase::Starting, ServicePhase::Stopping) => true,
            (ServicePhase::Starting, ServicePhase::BackingOff) => true,
            (ServicePhase::Running, ServicePhase::BackingOff) => true,
            (ServicePhase::Running, ServicePhase::Stopping) => true,
            (ServicePhase::Running, ServicePhase::Terminated) => true,
            (ServicePhase::BackingOff, ServicePhase::Starting) => true,
            (ServicePhase::BackingOff, ServicePhase::Stopping) => true,
            (ServicePhase::BackingOff, ServicePhase::Terminated) => true,
            (ServicePhase::Stopping, ServicePhase::Terminated) => true,
            _ => false,
        };
        if valid {
            Ok(())
        } else {
            Err(TransitionError { from: self.phase, to: target })
        }
    }

    fn set_phase(&mut self, phase: ServicePhase, now: Duration)
        ensures
            final(self)@ == old(self)@.in_phase(phase, now),
    {
        self.phase = phase;
        self.phase_entered_at = now;
    }

    fn accumulate_running_time(&mut self, now: Duration)
        ensures
            final(self)@ == old(self)@.accumulated(now),
    {
        self.cumulative_running = self.cumulative_running_time_at(now);
        self.running_since = None;
    }

    /// Enter the running phase at `now`.
    pub fn transition_to_running_at(&mut self, now: Duration) -> (r: Result<(), TransitionError>)
        ensures
            r is Ok <==> may_follow(old(self)@.phase, ServicePhase::Running),
            r is Ok ==> final(self)@ == old(self)@.running(now),
            r is Err ==> final(self)@ == old(self)@ && r->Err_0 == (TransitionError {
                from: old(self)@.phase,
                to: ServicePhase::Running,
            }),
    {
        match self.validate_transition(ServicePhase::Running) {
            Ok(()) => {
                self.set_phase(ServicePhase::Running, now);
                self.running_since = Some(now);
                Ok(())
            },
            Err(e) => Err(e),
        }
    }

    /// Enter the running phase.
    pub fn transition_to_running(&mut self) -> (r: Result<(), TransitionError>)
        ensures
            r is Ok <==> may_follow(old(self)@.phase, ServicePhase::Running),
            r is Ok ==> exists|now: Duration|
                old(self)@.watch.may_show(now) && final(self)@ == #[trigger] old(self)@.running(now),
            r is Err ==> final(self)@ == old(self)@ && r->Err_0 == (TransitionError {
                from: old(self)@.phase,
                to: ServicePhase::Running,
            }),
    {
        let now = self.now();
        self.transition_to_running_at(now)
    }

    /// Back off at `now` after a failure.
    pub fn transition_to_backing_off_at(&mut self, error: &str, now: Duration) -> (r: Result<
        (),
        TransitionError,
    >)
        requires
            may_follow(old(self)@.phase, ServicePhase::BackingOff) ==> old(self)@.failures < u32::MAX,
        ensures
            r is Ok <==> may_follow(old(self)@.phase, ServicePhase::BackingOff),
            r is Ok ==> final(self)@ == old(self)@.backing_off(error@, now),
            r is Err ==> final(self)@ == old(self)@ && r->Err_0 == (TransitionError {
                from: old(self)@.phase,
                to: ServicePhase::BackingOff,
            }),
    {
        match self.validate_transition(ServicePhase::BackingOff) {
            Ok(()) => {
                self.accumulate_running_time(now);
                self.total_failures = self.total_failures + 1;
                self.last_error = Some(error.to_string());
                self.set_phase(ServicePhase::BackingOff, now);
                Ok(())
            },
            Err(e) => Err(e),
        }
    }

    /// Back off after a failure. The length of the pause is not recorded.
    pub fn transition_to_backing_off(&mut self, error: &str, backoff_duration: Duration) -> (r: Result<
        (),
        TransitionError,
    >)
        requires
            may_follow(old(self)@.phase, ServicePhase::BackingOff) ==> old(self)@.failures < u32::MAX,
        ensures
            r is Ok <==> may_follow(old(self)@.phase, ServicePhase::BackingOff),
            r is Ok ==> exists|now: Duration|
                old(self)@.watch.may_show(now) && final(self)@ == #[trigger] old(self)@.backing_off(
                error@,
                now,
            ),
            r is Err ==> final(self)@ == old(self)@ && r->Err_0 == (TransitionError {
                from: old(self)@.phase,
                to: ServicePhase::BackingOff,
            }),
    {
        let now = self.now();
        self.transition_to_backing_off_at(error, now)
    }

    /// Start again at `now` after a pause.
    pub fn transition_to_restarting_at(&mut self, now: Duration) -> (r: Result<(), TransitionError>)
        requires
            may_follow(old(self)@.phase, ServicePhase::Starting) ==> old(self)@.starts < u32::MAX,
        ensures
            r is Ok <==> may_follow(old(self)@.phase, ServicePhase::Starting),
            r is Ok ==> final(self)@ == old(self)@.restarting(now),
            r is Err ==> final(self)@ == old(self)@ && r->Err_0 == (TransitionError {
                from: old(self)@.phase,
                to: ServicePhase::Starting,
            }),
    {
        match self.validate_transition(ServicePhase::Starting) {
            Ok(()) => {
                self.start_count = self.start_count + 1;
                self.set_phase(ServicePhase::Starting, now);
                Ok(())
            },
            Err(e) => Err(e),
        }
    }

    /// Start again after a pause.
    pub fn transition_to_restarting(&mut self) -> (r: Result<(), TransitionError>)
        requires
            may_follow(old(self)@.phase, ServicePhase::Starting) ==> old(self)@.starts < u32::MAX,
        ensures
            r is Ok <==> may_follow(old(self)@.phase, ServicePhase::Starting),
            r is Ok ==> exists|now: Duration|
                old(self)@.watch.may_show(now) && final(self)@ == #[trigger] old(self)@.restarting(now),
            r is Err ==> final(self)@ == old(self)@ && r->Err_0 == (TransitionError {
                from: old(self)@.phase,
                to: ServicePhase::Starting,
            }),
    {
        let now = self.now();
        self.transition_to_restarting_at(now)
    }

    /// Begin to stop at `now`.
    pub fn transition_to_stopping_at(&mut self, now: Duration) -> (r: Result<(), TransitionError>)
        ensures
            r is Ok <==> may_follow(old(self)@.phase, ServicePhase::Stopping),
            r is Ok ==> final(self)@ == old(self)@.stopping(now),
            r is Err ==> final(self)@ == old(self)@ && r->Err_0 == (TransitionError {
                from: old(self)@.phase,
                to: ServicePhase::Stopping,
            }),
    {
        match self.validate_transition(ServicePhase::Stopping) {
            Ok(()) => {
                self.accumulate_running_time(now);
                self.set_phase(ServicePhase::Stopping, now);
                Ok(())
            },
            Err(e) => Err(e),
        }
    }

    /// Begin to stop.
    pub fn transition_to_stopping(&mut self) -> (r: Result<(), TransitionError>)
        ensures
            r is Ok <==> may_follow(old(self)@.phase, ServicePhase::Stopping),
            r is Ok ==> exists|now: Duration|
                old(self)@.watch.may_show(now) && final(self)@ == #[trigger] old(self)@.stopping(now),
            r is Err ==> final(self)@ == old(self)@ && r->Err_0 == (TransitionError {
                from: old(self)@.phase,
                to: ServicePhase::Stopping,
            }),
    {
        let now = self.now();
        self.transition_to_stopping_at(now)
    }

    /// Terminate at `now` for the given reason.
    pub fn transition_to_terminated_at(&mut self, reason: TerminationReason, now: Duration) -> (r: Result<
        (),
        TransitionError,
    >)
        ensures
            r is Ok <==> may_follow(old(self)@.phase, ServicePhase::Terminated),
            r is Ok ==> final(self)@ == old(self)@.terminated(reason@, now),
            r is Err ==> final(self)@ == old(self)@ && r->Err_0 == (TransitionError {
                from: old(self)@.phase,
                to: ServicePhase::Terminated,
            }),
    {
        match self.validate_transition(ServicePhase::Terminated) {
            Ok(()) => {
                self.accumulate_running_time(now);
                self.termination_reason = Some(reason);
                self.set_phase(ServicePhase::Terminated, now);
                Ok(())
            },
            Err(e) => Err(e),
        }
    }

    /// Terminate for the given reason.
    pub fn transition_to_terminated(&mut self, reason: TerminationReason) -> (r: Result<
        (),
        TransitionError,
    >)
        ensures
            r is Ok <==> may_follow(old(self)@.phase, ServicePhase::Terminated),
            r is Ok ==> exists|now: Duration|
                old(self)@.watch.may_show(now) && final(self)@ == #[trigger] old(self)@.terminated(
                reason@,
                now,
            ),
            r is Err ==> final(self)@ == old(self)@ && r->Err_0 == (TransitionError {
                from: old(self)@.phase,
                to: ServicePhase::Terminated,
            }),
    {
        let now = self.now();
        self.transition_to_terminated_at(reason, now)
    }

    /// The lifecycle as text for people to read. The seconds spent running are
    /// handed in as text.
    pub fn render(&self, running_secs: &str) -> (r: String)
        ensures
            r@ == self@.name + "["@ + self@.phase.spec_name() + "] starts="@ + digits(
                self@.starts as nat,
            ) + " failures="@ + digits(self@.failures as nat) + " running="@ + running_secs@
                + "s"@,
    {
        let mut text = self.service_name.clone();
        text.append("[");
        text.append(self.phase.name());
        text.append("] starts=");
        text.append(decimal(self.start_count as u128).as_str());
        text.append(" failures=");
        text.append(decimal(self.total_failures as u128).as_str());
        text.append(" running=");
        text.append(running_secs);
        text.append("s");
        text
    }

    /// What the lifecycle shows at `now`.
    pub fn snapshot_at(&self, now: Duration) -> (r: ServiceLifecycleSnapshot)
        ensures
            r.shows(self@, now),
    {
        ServiceLifecycleSnapshot {
            service_name: self.service_name.clone(),
            phase: self.phase,
            start_count: self.start_count,
            total_failures: self.total_failures,
            last_error: match &self.last_error {
                Some(e) => Some(e.clone()),
                None => None,
            },
            cumulative_running: self.cumulative_running_time_at(now),
            age: now.since(self.created_at),
            time_in_phase: now.since(self.phase_entered_at),
            termination_reason: match &self.termination_reason {
                Some(reason) => Some(reason.render()),
                None => None,
            },
        }
    }
}

/// What a lifecycle showed at one moment.
#[derive(Clone, Debug)]
pub struct ServiceLifecycleSnapshot {
    /// Name of the service.
    pub service_name: String,
    /// Phase.
    pub phase: ServicePhase,
    /// Starts to date.
    pub start_count: u32,
    /// Failures to date.
    pub total_failures: u32,
    /// Message of the last failure.
    pub last_error: Option<String>,
    /// Time spent running.
    pub cumulative_running: Duration,
    /// Time since the lifecycle began.
    pub age: Duration,
    /// Time since the phase was entered.
    pub time_in_phase: Duration,
    /// Termination reason as text, once there is one.
    pub termination_reason: Option<String>,
}

impl ServiceLifecycleSnapshot {
    /// Whether the snapshot shows a lifecycle at a moment.
    pub open spec fn shows(self, lc: LifecycleView, now: Duration) -> bool {
        &&& self.service_name@ == lc.name
        &&& self.phase == lc.phase
        &&& self.start_count == lc.starts
        &&& self.total_failures == lc.failures
        &&& self.last_error is Some <==> lc.last_error is Some
        &&& self.last_error is Some ==> self.last_error->0@ == lc.last_error->0
        &&& self.cumulative_running == lc.total_ran(now)
        &&& self.age@ == Duration::spec_since(now@, lc.created_at@)
        &&& self.time_in_phase@ == Duration::spec_since(now@, lc.entered_at@)
        &&& self.termination_reason is Some <==> lc.reason is Some
        &&& self.termination_reason is Some ==> self.termination_reason->0@ == lc.reason->0.text()
    }
}

impl From<&ServiceLifecycle> for ServiceLifecycleSnapshot {
    fn from(lc: &ServiceLifecycle) -> (r: Self)
        ensures
            exists|now: Duration| lc@.watch.may_show(now) && #[trigger] r.shows(lc@, now),
    {
        let now = lc.now();
        let snapshot = lc.snapshot_at(now);
        assert(snapshot.shows(lc@, now));
        snapshot
    }
}

impl vstd::std_specs::convert::FromSpecImpl<&ServiceLifecycle> for ServiceLifecycleSnapshot {
    open spec fn obeys_from_spec() -> bool {
        false
    }

    open spec fn from_spec(lc: &ServiceLifecycle) -> Self {
        arbitrary()
    }
}

/// Nothing follows termination.
pub proof fn terminated_is_final(to: ServicePhase)
    ensures
        !may_follow(ServicePhase::Terminated, to),
{
}

/// From every phase but the last the service can be terminated, and while it
/// is alive it can be asked to stop.
pub proof fn every_service_can_end(phase: ServicePhase)
    ensures
        phase != ServicePhase::Terminated ==> may_follow(phase, ServicePhase::Terminated),
        phase.spec_is_alive() <==> may_follow(phase, ServicePhase::Stopping),
{
}

/// Running is entered from starting alone, and starting again from backing off
/// alone.
pub proof fn entries_are_unique(from: ServicePhase)
    ensures
        may_follow(from, ServicePhase::Running) <==> from == ServicePhase::Starting,
        may_follow(from, ServicePhase::Starting) <==> from == ServicePhase::BackingOff,
{
}

/// Every allowed transition keeps a lifecycle sound.
pub proof fn transitions_keep_soundness(
    lc: LifecycleView,
    error: Seq<char>,
    reason: ReasonView,
    now: Duration,
)
    requires
        lc.is_sound(),
    ensures
        may_follow(lc.phase, ServicePhase::Running) ==> lc.running(now).is_sound(),
        may_follow(lc.phase, ServicePhase::BackingOff) ==> lc.backing_off(error, now).is_sound(),
        may_follow(lc.phase, ServicePhase::Starting) && lc.starts < u32::MAX ==> lc.restarting(
            now,
        ).is_sound(),
        may_follow(lc.phase, ServicePhase::Stopping) ==> lc.stopping(now).is_sound(),
        may_follow(lc.phase, ServicePhase::Terminated) ==> lc.terminated(reason, now).is_sound(),
{
}

/// Time spent running never decreases: leaving the running phase books the run
/// that ends, and the other transitions leave the total alone.
pub proof fn running_time_is_kept(
    lc: LifecycleView,
    error: Seq<char>,
    reason: ReasonView,
    now: Duration,
)
    ensures
        lc.total_ran(now)@ >= lc.ran@,
        lc.backing_off(error, now).ran == lc.total_ran(now),
        lc.stopping(now).ran == lc.total_ran(now),
        lc.terminated(reason, now).ran == lc.total_ran(now),
        lc.restarting(now).ran == lc.ran,
        lc.running(now).ran == lc.ran,
{
}

/// A transition that a service is asked to make.
pub enum Transition {
    /// To run.
    Running,
    /// To back off after a failure with this message.
    BackingOff(Seq<char>),
    /// To start again.
    Restarting,
    /// To stop.
    Stopping,
    /// To terminate for this reason.
    Terminated(ReasonView),
}

impl Transition {
    /// The phase that the transition leads to.
    pub open spec fn target(self) -> ServicePhase {
        match self {
            Transition::Running => ServicePhase::Running,
            Transition::BackingOff(_) => ServicePhase::BackingOff,
            Transition::Restarting => ServicePhase::Starting,
            Transition::Stopping => ServicePhase::Stopping,
            Transition::Terminated(_) => ServicePhase::Terminated,
        }
    }
}

impl LifecycleView {
    /// Whether a transition is allowed.
    pub open spec fn allows(self, transition: Transition) -> bool {
        may_follow(self.phase, transition.target())
    }

    /// The lifecycle after it was asked to make a transition at `now`: one that
    /// is not allowed changes nothing.
    pub open spec fn asked(self, transition: Transition, now: Duration) -> Self {
        if !self.allows(transition) {
            self
        } else {
            match transition {
                Transition::Running => self.running(now),
                Transition::BackingOff(error) => self.backing_off(error, now),
                Transition::Restarting => self.restarting(now),
                Transition::Stopping => self.stopping(now),
                Transition::Terminated(reason) => self.terminated(reason, now),
            }
        }
    }

    /// The lifecycle after it was asked to make a sequence of transitions.
    pub open spec fn asked_all(self, steps: Seq<(Transition, Duration)>) -> Self
        decreases steps.len(),
    {
        if steps.len() == 0 {
            self
        } else {
            self.asked_all(steps.drop_last()).asked(steps.last().0, steps.last().1)
        }
    }

    /// How many of the transitions were allowed and led to the given phase.
    pub open spec fn times_entered(self, steps: Seq<(Transition, Duration)>, phase: ServicePhase) -> nat
        decreases steps.len(),
    {
        if steps.len() == 0 {
            0
        } else {
            let rest = steps.drop_last();
            let entered = self.asked_all(rest).allows(steps.last().0) && steps.last().0.target()
                == phase;
            self.times_entered(rest, phase) + (if entered {
                1nat
            } else {
                0nat
            })
        }
    }

    /// The message of the latest failure among the transitions that were
    /// allowed.
    pub open spec fn latest_failure(self, steps: Seq<(Transition, Duration)>) -> Option<Seq<char>>
        decreases steps.len(),
    {
        if steps.len() == 0 {
            None
        } else {
            match steps.last().0 {
                Transition::BackingOff(error) if self.asked_all(steps.drop_last()).allows(
                    steps.last().0,
                ) => Some(error),
                _ => self.latest_failure(steps.drop_last()),
            }
        }
    }
}

impl LifecycleView {
    /// The reason of the latest termination among the transitions that were
    /// allowed.
    pub open spec fn accepted_reason(self, steps: Seq<(Transition, Duration)>) -> Option<ReasonView>
        decreases steps.len(),
    {
        if steps.len() == 0 {
            None
        } else {
            match steps.last().0 {
                Transition::Terminated(reason) if self.asked_all(steps.drop_last()).allows(
                    steps.last().0,
                ) => Some(reason),
                _ => self.accepted_reason(steps.drop_last()),
            }
        }
    }
}

/// A service terminates at most once, and keeps the reason that it was given
/// then: later requests to terminate change nothing. A run is under way exactly
/// while the service runs.
pub proof fn first_reason_is_kept(
    name: Seq<char>,
    watch: Stopwatch,
    born: Duration,
    steps: Seq<(Transition, Duration)>,
)
    ensures
        ({
            let fresh = LifecycleView::fresh(name, watch, born);
            let lc = fresh.asked_all(steps);
            &&& lc.reason == fresh.accepted_reason(steps)
            &&& lc.reason is Some <==> lc.phase == ServicePhase::Terminated
            &&& fresh.times_entered(steps, ServicePhase::Terminated) == (if lc.phase
                == ServicePhase::Terminated {
                1nat
            } else {
                0nat
            })
            &&& lc.running_since is Some <==> lc.phase == ServicePhase::Running
        }),
    decreases steps.len(),
{
    if steps.len() > 0 {
        first_reason_is_kept(name, watch, born, steps.drop_last());
    }
}

/// Failures and starts hang together: each counts the transitions that it
/// stands for, a service that starts or runs has failed once less than it
/// started, one that backs off as often, and the last error is that of the
/// latest failure.
pub proof fn failures_follow_starts(
    name: Seq<char>,
    watch: Stopwatch,
    born: Duration,
    steps: Seq<(Transition, Duration)>,
)
    requires
        steps.len() < u32::MAX,
    ensures
        ({
            let fresh = LifecycleView::fresh(name, watch, born);
            let lc = fresh.asked_all(steps);
            &&& lc.is_sound()
            &&& lc.failures == fresh.times_entered(steps, ServicePhase::BackingOff)
            &&& lc.starts == 1 + fresh.times_entered(steps, ServicePhase::Starting)
            &&& lc.phase == ServicePhase::Starting || lc.phase == ServicePhase::Running
                ==> lc.failures == lc.starts - 1
            &&& lc.phase == ServicePhase::BackingOff ==> lc.failures == lc.starts
            &&& lc.last_error == fresh.latest_failure(steps)
            &&& lc.last_error is Some <==> lc.failures > 0
        }),
{
    tallies_follow(LifecycleView::fresh(name, watch, born), steps);
}

proof fn tallies_follow(fresh: LifecycleView, steps: Seq<(Transition, Duration)>)
    requires
        fresh == LifecycleView::fresh(fresh.name, fresh.watch, fresh.created_at),
        steps.len() < u32::MAX,
    ensures
        ({
            let lc = fresh.asked_all(steps);
            let failures = fresh.times_entered(steps, ServicePhase::BackingOff);
            let restarts = fresh.times_entered(steps, ServicePhase::Starting);
            &&& lc.is_sound()
            &&& failures + restarts <= steps.len()
            &&& lc.failures == failures
            &&& lc.starts == 1 + restarts
            &&& lc.phase == ServicePhase::Starting || lc.phase == ServicePhase::Running
                ==> failures == restarts
            &&& lc.phase == ServicePhase::BackingOff ==> failures == 1 + restarts
            &&& lc.last_error == fresh.latest_failure(steps)
            &&& lc.last_error is Some <==> failures > 0
        }),
    decreases steps.len(),
{
    if steps.len() > 0 {
        tallies_follow(fresh, steps.drop_last());
    }
}

/// Whether times never go back, from `start` on and up to `end`.
pub open spec fn times_grow(start: Duration, steps: Seq<(Transition, Duration)>, end: Duration) -> bool {
    &&& start@ <= end@
    &&& forall|i: int| 0 <= i < steps.len() ==> start@ <= (#[trigger] steps[i]).1@ <= end@
    &&& forall|i: int, j: int|
        0 <= i <= j < steps.len() ==> (#[trigger] steps[i]).1@ <= (#[trigger] steps[j]).1@
}

impl LifecycleView {
    /// The time spent running fits between the beginning of the lifecycle and
    /// the current run, or `now` where none is under way.
    spec fn fits_before(self, now: Duration) -> bool {
        match self.running_since {
            Some(since) => self.created_at@ + self.ran@ <= since@ <= now@,
            None => self.created_at@ + self.ran@ <= now@,
        }
    }
}

proof fn running_time_fits(fresh: LifecycleView, steps: Seq<(Transition, Duration)>, now: Duration)
    requires
        fresh == LifecycleView::fresh(fresh.name, fresh.watch, fresh.created_at),
        times_grow(fresh.created_at, steps, now),
    ensures
        ({
            let lc = fresh.asked_all(steps);
            &&& lc.created_at == fresh.created_at
            &&& lc.running_since is Some <==> lc.phase == ServicePhase::Running
            &&& lc.fits_before(now)
            &&& fresh.times_entered(steps, ServicePhase::Running) == 0 ==> lc.ran@ == 0
                && lc.running_since is None
        }),
    decreases steps.len(),
{
    if steps.len() > 0 {
        let rest = steps.drop_last();
        let at = steps.last().1;
        assert(forall|i: int| 0 <= i < rest.len() ==> rest[i] == steps[i]);
        assert(steps.last() == steps[steps.len() - 1]);
        running_time_fits(fresh, rest, at);
    }
}

/// Of two readings of the running time, with no transition in between, the
/// later is longer by the time between them while the service runs, and the
/// same otherwise. Until the service first runs the running time is zero, and
/// it never exceeds the age.
pub proof fn running_time_follows_the_clock(
    name: Seq<char>,
    watch: Stopwatch,
    born: Duration,
    steps: Seq<(Transition, Duration)>,
    now: Duration,
    later: Duration,
)
    requires
        times_grow(born, steps, now),
        now@ <= later@,
    ensures
        ({
            let fresh = LifecycleView::fresh(name, watch, born);
            let lc = fresh.asked_all(steps);
            &&& lc.phase == ServicePhase::Running ==> lc.total_ran(later)@ - lc.total_ran(now)@
                == later@ - now@
            &&& lc.phase != ServicePhase::Running ==> lc.total_ran(later) == lc.total_ran(now)
            &&& fresh.times_entered(steps, ServicePhase::Running) == 0 ==> lc.total_ran(now)@ == 0
            &&& lc.total_ran(now)@ <= Duration::spec_since(now@, lc.created_at@)
            &&& lc.total_ran(now)@ <= Duration::spec_since(later@, lc.created_at@)
        }),
{
    running_time_fits(LifecycleView::fresh(name, watch, born), steps, now);
}

/// A transition leaves the running time read at its moment as it is.
pub proof fn transitions_keep_running_time(lc: LifecycleView, transition: Transition, now: Duration)
    requires
        lc.running_since is Some ==> lc.phase == ServicePhase::Running,
    ensures
        lc.asked(transition, now).total_ran(now) == lc.total_ran(now),
{
}

/// The moves that a service may make: from starting to anything else; from
/// running to backing off; from backing off to starting again; from either of
/// them to stopping; and from everything but the end to the end.
pub proof fn moves_are_these(from: ServicePhase, to: ServicePhase)
    ensures
        may_follow(from, to) ==> from != to && from != ServicePhase::Terminated,
        to == ServicePhase::Terminated ==> (may_follow(from, to) <==> from
            != ServicePhase::Terminated),
        to == ServicePhase::Stopping ==> (may_follow(from, to) <==> from == ServicePhase::Starting
            || from == ServicePhase::Running || from == ServicePhase::BackingOff),
        to == ServicePhase::BackingOff ==> (may_follow(from, to) <==> from
            == ServicePhase::Starting || from == ServicePhase::Running),
        to == ServicePhase::Running ==> (may_follow(from, to) <==> from == ServicePhase::Starting),
        to == ServicePhase::Starting ==> (may_follow(from, to) <==> from
            == ServicePhase::BackingOff),
        from.spec_is_alive() <==> from != ServicePhase::Stopping && from
            != ServicePhase::Terminated,
{
}

/// Each move enters its phase at its own time. Beginning to run starts a run,
/// and every other move but a restart ends the run under way and books it.
/// A failure is counted with its message, a restart as a start, and the end has
/// its reason. Nothing else changes: neither the name, nor the beginning, nor
/// the stopwatch.
pub proof fn moves_change_what_they_say(
    lc: LifecycleView,
    error: Seq<char>,
    reason: ReasonView,
    now: Duration,
)
    requires
        lc.starts < u32::MAX,
        lc.failures < u32::MAX,
    ensures
        ({
            let (a, b, c) = (lc.running(now), lc.backing_off(error, now), lc.restarting(now));
            let (d, e) = (lc.stopping(now), lc.terminated(reason, now));
            &&& a == LifecycleView {
                phase: ServicePhase::Running,
                entered_at: now,
                running_since: Some(now),
                ..lc
            }
            &&& c == LifecycleView {
                phase: ServicePhase::Starting,
                entered_at: now,
                starts: (lc.starts + 1) as u32,
                ..lc
            }
            &&& b == LifecycleView {
                phase: ServicePhase::BackingOff,
                entered_at: now,
                failures: (lc.failures + 1) as u32,
                last_error: Some(error),
                ran: b.ran,
                running_since: None,
                ..lc
            }
            &&& d == LifecycleView {
                phase: ServicePhase::Stopping,
                entered_at: now,
                ran: b.ran,
                running_since: None,
                ..lc
            }
            &&& e == LifecycleView {
                phase: ServicePhase::Terminated,
                entered_at: now,
                reason: Some(reason),
                ran: b.ran,
                running_since: None,
                ..lc
            }
            &&& lc.running_since is None ==> b.ran == lc.ran
            &&& lc.running_since matches Some(since) ==> {
                &&& now@ >= since@ && lc.ran@ + (now@ - since@) <= u128::MAX ==> b.ran@ == lc.ran@ + (
                now@ - since@)
                &&& now@ < since@ ==> b.ran@ == lc.ran@
            }
        }),
{
}

/// The time spent running is that of the earlier runs and, while the service
/// runs, the time since the current run began.
pub proof fn running_time_is_the_sum_of_runs(lc: LifecycleView, now: Duration)
    ensures
        lc.running_since is None ==> lc.total_ran(now) == lc.ran,
        lc.running_since matches Some(since) ==> {
            &&& now@ >= since@ && lc.ran@ + (now@ - since@) <= u128::MAX ==> lc.total_ran(now)@
                == lc.ran@ + (now@ - since@)
            &&& now@ < since@ ==> lc.total_ran(now)@ == lc.ran@
        },
{
}

/// A service is born starting, for the first time, with nothing behind it.
pub proof fn services_are_born_starting(name: Seq<char>, watch: Stopwatch, now: Duration)
    ensures
        ({
            let lc = LifecycleView::fresh(name, watch, now);
            &&& lc.name == name && lc.watch == watch
            &&& lc.phase == ServicePhase::Starting
            &&& lc.created_at == now && lc.entered_at == now
            &&& lc.starts == 1 && lc.failures == 0
            &&& lc.last_error is None && lc.reason is None
            &&& lc.ran@ == 0 && lc.running_since is None
        }),
{
}

/// No two phases have the same name.
pub proof fn phase_names_are_distinct(a: ServicePhase, b: ServicePhase)
    ensures
        a.spec_name() == b.spec_name() <==> a == b,
{
    reveal_strlit("starting");
    reveal_strlit("running");
    reveal_strlit("backing_off");
    reveal_strlit("stopping");
    reveal_strlit("terminated");
    if a != b && a.spec_name() == b.spec_name() {
        assert(a.spec_name().len() == b.spec_name().len());
        assert(a.spec_name()[1] == b.spec_name()[1]);
        assert(a.spec_name()[2] == b.spec_name()[2]);
    }
}

/// A snapshot shows the service's name, phase, counters, last error and reason
/// as they stand, and its age, the time in its phase and the time spent running
/// at the moment it was taken.
pub proof fn snapshots_show_the_moment(
    snapshot: ServiceLifecycleSnapshot,
    lc: LifecycleView,
    now: Duration,
)
    requires
        snapshot.shows(lc, now),
        lc.created_at@ <= now@,
        lc.entered_at@ <= now@,
    ensures
        snapshot.service_name@ == lc.name,
        snapshot.phase == lc.phase,
        snapshot.start_count == lc.starts,
        snapshot.total_failures == lc.failures,
        snapshot.age@ == now@ - lc.created_at@,
        snapshot.time_in_phase@ == now@ - lc.entered_at@,
        lc.running_since is None ==> snapshot.cumulative_running == lc.ran,
        lc.running_since matches Some(since) ==> (since@ <= now@ && lc.ran@ + (now@ - since@)
            <= u128::MAX ==> snapshot.cumulative_running@ == lc.ran@ + (now@ - since@)),
        snapshot.last_error is None <==> lc.last_error is None,
        snapshot.last_error is Some ==> snapshot.last_error->0@ == lc.last_error->0,
        snapshot.termination_reason is None <==> lc.reason is None,
        snapshot.termination_reason is Some ==> snapshot.termination_reason->0@
            == lc.reason->0.text(),
{
}

} // verus!
