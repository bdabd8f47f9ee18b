//! Counters of a supervisor.

use vstd::prelude::*;

verus! {

/// Counters of a supervisor. They wrap round at the end of their range.
#[derive(Clone, Copy, Debug, PartialEq, Eq, Structural)]
pub struct SupervisorMetrics {
    /// Restarts of any service.
    pub restarts_total: u64,
    /// Services that are not terminated.
    pub active_services: u64,
    /// Services ever spawned.
    pub spawned_total: u64,
    /// Services that have terminated.
    pub terminated_total: u64,
    /// Times a circuit breaker has tripped.
    pub circuit_breaker_trips: u64,
}

/// The counters at one moment.
#[derive(Clone, Copy, Debug, PartialEq, Eq, Structural)]
pub struct MetricsSnapshot {
    /// Restarts of any service.
    pub restarts_total: u64,
    /// Services that are not terminated.
    pub active_services: u64,
    /// Services ever spawned.
    pub spawned_total: u64,
    /// Services that have terminated.
    pub terminated_total: u64,
    /// Times a circuit breaker has tripped.
    pub circuit_breaker_trips: u64,
}

/// The next value of a counter.
pub open spec fn next(count: u64) -> u64 {
    if count == u64::MAX {
        0
    } else {
        (count + 1) as u64
    }
}

fn bump(count: u64) -> (r: u64)
    ensures
        r == next(count),
{
    if count == u64::MAX {
        0
    } else {
        count + 1
    }
}

impl SupervisorMetrics {
    /// The counters after a service was spawned.
    pub open spec fn spawned(self) -> Self {
        SupervisorMetrics {
            spawned_total: next(self.spawned_total),
            active_services: next(self.active_services),
            ..self
        }
    }

    /// The counters after a restart.
    pub open spec fn restarted(self) -> Self {
        SupervisorMetrics { restarts_total: next(self.restarts_total), ..self }
    }

    /// The counters after a service terminated.
    pub open spec fn ended(self) -> Self {
        SupervisorMetrics {
            terminated_total: next(self.terminated_total),
            active_services: if self.active_services == 0 {
                0
            } else {
                (self.active_services - 1) as u64
            },
            ..self
        }
    }

    /// The counters after a circuit breaker tripped.
    pub open spec fn tripped(self) -> Self {
        SupervisorMetrics { circuit_breaker_trips: next(self.circuit_breaker_trips), ..self }
    }

    /// Counters at zero.
    pub fn new() -> (r: Self)
        ensures
            r == Self::zero(),
    {
        SupervisorMetrics {
            restarts_total: 0,
            active_services: 0,
            spawned_total: 0,
            terminated_total: 0,
            circuit_breaker_trips: 0,
        }
    }

    /// Count a spawned service.
    pub fn record_spawn(&mut self)
        ensures
            *final(self) == old(self).spawned(),
    {
        self.spawned_total = bump(self.spawned_total);
        self.active_services = bump(self.active_services);
    }

    /// Count a restart.
    pub fn record_restart(&mut self)
        ensures
            *final(self) == old(self).restarted(),
    {
        self.restarts_total = bump(self.restarts_total);
    }

    /// Count a terminated service. The number of active services stops at
    /// zero.
    pub fn record_termination(&mut self)
        ensures
            *final(self) == old(self).ended(),
    {
        self.terminated_total = bump(self.terminated_total);
        if self.active_services > 0 {
            self.active_services = self.active_services - 1;
        }
    }

    /// Count a tripped circuit breaker.
    pub fn record_circuit_breaker_trip(&mut self)
        ensures
            *final(self) == old(self).tripped(),
    {
        self.circuit_breaker_trips = bump(self.circuit_breaker_trips);
    }

    /// The counters as they stand.
    pub fn snapshot(&self) -> (r: MetricsSnapshot)
        ensures
            r == (MetricsSnapshot {
                restarts_total: self.restarts_total,
                active_services: self.active_services,
                spawned_total: self.spawned_total,
                terminated_total: self.terminated_total,
                circuit_breaker_trips: self.circuit_breaker_trips,
            }),
    {
        MetricsSnapshot {
            restarts_total: self.restarts_total,
            active_services: self.active_services,
            spawned_total: self.spawned_total,
            terminated_total: self.terminated_total,
            circuit_breaker_trips: self.circuit_breaker_trips,
        }
    }
}

impl Default for SupervisorMetrics {
    fn default() -> (r: Self)
        ensures
            r == Self::zero(),
    {
        Self::new()
    }
}

impl SupervisorMetrics {
    /// Every spawned service is either active or terminated.
    pub open spec fn balanced(self) -> bool {
        self.active_services + self.terminated_total == self.spawned_total
    }
}

/// As long as no counter wraps and no service terminates twice, every spawned
/// service is either active or terminated.
pub proof fn spawns_are_accounted_for(m: SupervisorMetrics)
    requires
        m.balanced(),
        m.spawned_total < u64::MAX,
    ensures
        m.spawned().balanced(),
        m.active_services > 0 ==> m.ended().balanced(),
        m.restarted().balanced(),
        m.tripped().balanced(),
{
}

/// A call that counts something.
pub enum CountedCall {
    /// A service was spawned.
    Spawn,
    /// A service was restarted.
    Restart,
    /// A service terminated.
    Termination,
    /// A circuit breaker tripped.
    Trip,
}

impl SupervisorMetrics {
    /// The counters after a call.
    pub open spec fn after(self, call: CountedCall) -> Self {
        match call {
            CountedCall::Spawn => self.spawned(),
            CountedCall::Restart => self.restarted(),
            CountedCall::Termination => self.ended(),
            CountedCall::Trip => self.tripped(),
        }
    }

    /// The counters after a sequence of calls.
    pub open spec fn after_all(self, calls: Seq<CountedCall>) -> Self
        decreases calls.len(),
    {
        if calls.len() == 0 {
            self
        } else {
            self.after_all(calls.drop_last()).after(calls.last())
        }
    }

    /// Counters at zero.
    pub open spec fn zero() -> Self {
        SupervisorMetrics {
            restarts_total: 0,
            active_services: 0,
            spawned_total: 0,
            terminated_total: 0,
            circuit_breaker_trips: 0,
        }
    }
}

/// How often a call occurs among others.
pub open spec fn times_called(calls: Seq<CountedCall>, call: CountedCall) -> nat
    decreases calls.len(),
{
    if calls.len() == 0 {
        0
    } else {
        times_called(calls.drop_last(), call) + (if calls.last() == call {
            1nat
        } else {
            0nat
        })
    }
}

/// Whether at no point more services have terminated than were spawned.
pub open spec fn spawned_before_ended(calls: Seq<CountedCall>) -> bool {
    forall|i: int|
        0 <= i <= calls.len() ==> times_called(#[trigger] calls.take(i), CountedCall::Termination)
            <= times_called(calls.take(i), CountedCall::Spawn)
}

/// Each counter that starts at zero holds the number of the calls that it
/// counts, and the number of active services is that of the spawned ones less
/// the terminated ones, whatever the order of the calls.
pub proof fn counters_count_calls(calls: Seq<CountedCall>)
    requires
        calls.len() <= u64::MAX,
        spawned_before_ended(calls),
    ensures
        ({
            let m = SupervisorMetrics::zero().after_all(calls);
            let spawns = times_called(calls, CountedCall::Spawn);
            let ends = times_called(calls, CountedCall::Termination);
            &&& m.spawned_total == spawns
            &&& m.terminated_total == ends
            &&& m.restarts_total == times_called(calls, CountedCall::Restart)
            &&& m.circuit_breaker_trips == times_called(calls, CountedCall::Trip)
            &&& ends <= spawns
            &&& m.active_services == spawns - ends
        }),
        times_called(calls, CountedCall::Spawn) + times_called(calls, CountedCall::Restart)
            + times_called(calls, CountedCall::Termination) + times_called(calls, CountedCall::Trip)
            == calls.len(),
    decreases calls.len(),
{
    assert(calls.take(calls.len() as int) =~= calls);
    if calls.len() > 0 {
        let rest = calls.drop_last();
        assert forall|i: int| 0 <= i <= rest.len() implies times_called(
            #[trigger] rest.take(i),
            CountedCall::Termination,
        ) <= times_called(rest.take(i), CountedCall::Spawn) by {
            assert(rest.take(i) =~= calls.take(i));
        }
        counters_count_calls(rest);
    }
}

/// A restart leaves the spawned and the active services as they are.
pub proof fn restarts_spawn_nothing(m: SupervisorMetrics)
    ensures
        m.restarted().spawned_total == m.spawned_total,
        m.restarted().active_services == m.active_services,
{
}

/// Each call moves its own counters by one and no other.
pub proof fn calls_move_their_own_counters(m: SupervisorMetrics)
    requires
        m.spawned_total < u64::MAX,
        m.active_services < u64::MAX,
        m.restarts_total < u64::MAX,
        m.terminated_total < u64::MAX,
        m.circuit_breaker_trips < u64::MAX,
    ensures
        m.spawned() == (SupervisorMetrics {
            spawned_total: (m.spawned_total + 1) as u64,
            active_services: (m.active_services + 1) as u64,
            ..m
        }),
        m.restarted() == (SupervisorMetrics { restarts_total: (m.restarts_total + 1) as u64, ..m }),
        m.tripped() == (SupervisorMetrics {
            circuit_breaker_trips: (m.circuit_breaker_trips + 1) as u64,
            ..m
        }),
        m.active_services > 0 ==> m.ended() == (SupervisorMetrics {
            terminated_total: (m.terminated_total + 1) as u64,
            active_services: (m.active_services - 1) as u64,
            ..m
        }),
        m.active_services == 0 ==> m.ended() == (SupervisorMetrics {
            terminated_total: (m.terminated_total + 1) as u64,
            ..m
        }),
{
}

} // verus!
