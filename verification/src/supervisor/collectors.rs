//! The metrics that a supervisor exports, and what they are called.

use vstd::prelude::*;

verus! {

/// What an exported metric measures.
#[derive(Clone, Copy, Debug, PartialEq, Eq, Structural)]
pub enum CollectorKind {
    /// A count that only grows.
    Counter,
    /// A value that goes up and down.
    Gauge,
    /// A distribution, by service.
    Histogram,
}

/// A metric that a supervisor exports.
#[derive(Clone, Copy, Debug, PartialEq, Eq, Structural)]
pub enum Collector {
    /// Restarts of any service.
    Restarts,
    /// Services that are not terminated.
    Active,
    /// Services ever spawned.
    Spawned,
    /// Services that have terminated.
    Terminated,
    /// Times a circuit breaker has tripped.
    Trips,
    /// Running time of a service at its termination.
    Uptime,
}

impl Collector {
    /// The metric's name.
    pub open spec fn spec_name(self) -> Seq<char> {
        match self {
            Collector::Restarts => "rustrade_supervisor_restarts_total"@,
            Collector::Active => "rustrade_supervisor_active_services"@,
            Collector::Spawned => "rustrade_supervisor_spawned_total"@,
            Collector::Terminated => "rustrade_supervisor_terminated_total"@,
            Collector::Trips => "rustrade_supervisor_circuit_breaker_trips_total"@,
            Collector::Uptime => "rustrade_supervisor_uptime_seconds"@,
        }
    }

    /// The name that the metric is registered under.
    pub fn name(self) -> (r: &'static str)
        ensures
            r@ == self.spec_name(),
    {
        match self {
            Collector::Restarts => "rustrade_supervisor_restarts_total",
            Collector::Active => "rustrade_supervisor_active_services",
            Collector::Spawned => "rustrade_supervisor_spawned_total",
            Collector::Terminated => "rustrade_supervisor_terminated_total",
            Collector::Trips => "rustrade_supervisor_circuit_breaker_trips_total",
            Collector::Uptime => "rustrade_supervisor_uptime_seconds",
        }
    }

    /// The metric's description.
    pub open spec fn spec_help(self) -> Seq<char> {
        match self {
            Collector::Restarts => "Total number of service restarts across all services"@,
            Collector::Active => "Number of services currently in a non-terminal phase"@,
            Collector::Spawned => "Total number of services ever spawned (including restarts)"@,
            Collector::Terminated => "Total number of services that have terminated"@,
            Collector::Trips => "Total number of circuit breaker trips across all services"@,
            Collector::Uptime => "Cumulative running time of a service at termination, in seconds"@,
        }
    }

    /// The description that the metric is registered with.
    pub fn help(self) -> (r: &'static str)
        ensures
            r@ == self.spec_help(),
    {
        match self {
            Collector::Restarts => "Total number of service restarts across all services",
            Collector::Active => "Number of services currently in a non-terminal phase",
            Collector::Spawned => "Total number of services ever spawned (including restarts)",
            Collector::Terminated => "Total number of services that have terminated",
            Collector::Trips => "Total number of circuit breaker trips across all services",
            Collector::Uptime => "Cumulative running time of a service at termination, in seconds",
        }
    }

    /// The metrics in the order in which they are registered.
    pub open spec fn all() -> Seq<Self> {
        seq![
            Collector::Restarts,
            Collector::Active,
            Collector::Spawned,
            Collector::Terminated,
            Collector::Trips,
            Collector::Uptime,
        ]
    }

    /// The metrics that a supervisor exports, in the order in which they are
    /// registered.
    pub fn exported() -> (r: Vec<Self>)
        ensures
            r@ == Self::all(),
    {
        vec![
            Collector::Restarts,
            Collector::Active,
            Collector::Spawned,
            Collector::Terminated,
            Collector::Trips,
            Collector::Uptime,
        ]
    }

    /// The label that a distribution is split by; `None` for a metric that has
    /// one value.
    pub fn label(self) -> (r: Option<&'static str>)
        ensures
            r is Some <==> self == Collector::Uptime,
            r is Some ==> r->0@ == "service"@,
    {
        match self {
            Collector::Uptime => Some("service"),
            _ => None,
        }
    }

    /// What kind of metric it is.
    pub fn kind(self) -> (r: CollectorKind)
        ensures
            r == (match self {
                Collector::Active => CollectorKind::Gauge,
                Collector::Uptime => CollectorKind::Histogram,
                _ => CollectorKind::Counter,
            }),
    {
        match self {
            Collector::Active => CollectorKind::Gauge,
            Collector::Uptime => CollectorKind::Histogram,
            _ => CollectorKind::Counter,
        }
    }
}

/// Every metric is exported, and none twice.
pub proof fn every_collector_is_exported(c: Collector)
    ensures
        Collector::all().contains(c),
        forall|i: int, j: int|
            0 <= i < j < Collector::all().len() ==> Collector::all()[i] != Collector::all()[j],
{
    let at = match c {
        Collector::Restarts => 0int,
        Collector::Active => 1int,
        Collector::Spawned => 2int,
        Collector::Terminated => 3int,
        Collector::Trips => 4int,
        Collector::Uptime => 5int,
    };
    assert(Collector::all()[at] == c);
}

/// No two metrics share a name, so that each can be registered.
pub proof fn collector_names_are_distinct(a: Collector, b: Collector)
    ensures
        a.spec_name() == b.spec_name() <==> a == b,
{
    reveal_strlit("rustrade_supervisor_restarts_total");
    reveal_strlit("rustrade_supervisor_active_services");
    reveal_strlit("rustrade_supervisor_spawned_total");
    reveal_strlit("rustrade_supervisor_terminated_total");
    reveal_strlit("rustrade_supervisor_circuit_breaker_trips_total");
    reveal_strlit("rustrade_supervisor_uptime_seconds");
    if a != b && a.spec_name() == b.spec_name() {
        assert(a.spec_name().len() == b.spec_name().len());
        assert(a.spec_name()[20] == b.spec_name()[20]);
    }
}

} // verus!
