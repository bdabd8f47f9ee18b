//! Spans of time, and a stopwatch that measures them.

use vstd::prelude::*;

verus! {

/// Nanoseconds in a millisecond.
pub const NANOS_PER_MILLI: u128 = 1_000_000;

/// Nanoseconds in a second.
pub const NANOS_PER_SEC: u128 = 1_000_000_000;

/// A span of time, in whole nanoseconds.
#[derive(Clone, Copy, Debug, PartialEq, Eq, PartialOrd, Ord, Hash, Structural)]
pub struct Duration {
    /// Length of the span.
    pub nanos: u128,
}

impl View for Duration {
    type V = nat;

    open spec fn view(&self) -> nat {
        self.nanos as nat
    }
}

impl Duration {
    /// The span of no length.
    pub fn zero() -> (r: Self)
        ensures
            r@ == 0,
    {
        Duration { nanos: 0 }
    }

    /// A span of whole seconds.
    pub fn from_secs(secs: u64) -> (r: Self)
        ensures
            r@ == secs * NANOS_PER_SEC,
    {
        Duration { nanos: secs as u128 * NANOS_PER_SEC }
    }

    /// A span of whole milliseconds.
    pub fn from_millis(millis: u64) -> (r: Self)
        ensures
            r@ == millis * NANOS_PER_MILLI,
    {
        Duration { nanos: millis as u128 * NANOS_PER_MILLI }
    }

    /// A span of whole nanoseconds.
    pub fn from_nanos(nanos: u64) -> (r: Self)
        ensures
            r@ == nanos,
    {
        Duration { nanos: nanos as u128 }
    }

    /// Whole milliseconds in the span, rounded down.
    pub fn as_millis(self) -> (r: u128)
        ensures
            r == self@ / (NANOS_PER_MILLI as nat),
    {
        self.nanos / NANOS_PER_MILLI
    }

    /// Whole seconds in the span, rounded down.
    pub fn as_secs(self) -> (r: u128)
        ensures
            r == self@ / (NANOS_PER_SEC as nat),
    {
        self.nanos / NANOS_PER_SEC
    }

    /// Whether this span is strictly shorter than another.
    pub fn shorter_than(self, other: Self) -> (r: bool)
        ensures
            r == (self@ < other@),
    {
        self.nanos < other.nanos
    }

    /// The length of the first span followed by the second, or the longest
    /// representable span where that is longer still.
    pub open spec fn spec_plus(self, other: Self) -> nat {
        if self@ + other@ > u128::MAX {
            u128::MAX as nat
        } else {
            self@ + other@
        }
    }

    /// One span followed by another.
    pub fn plus(self, other: Self) -> (r: Self)
        ensures
            r@ == self.spec_plus(other),
    {
        if self.nanos > u128::MAX - other.nanos {
            Duration { nanos: u128::MAX }
        } else {
            Duration { nanos: self.nanos + other.nanos }
        }
    }

    /// What is left of `a` when `b` is taken away, and nothing where `b` is
    /// the longer one.
    pub open spec fn spec_since(a: nat, b: nat) -> nat {
        if a < b {
            0
        } else {
            (a - b) as nat
        }
    }

    /// The time from `earlier` to this point, and zero where `earlier` is
    /// later.
    pub fn since(self, earlier: Self) -> (r: Self)
        ensures
            r@ == Self::spec_since(self@, earlier@),
    {
        if self.nanos < earlier.nanos {
            Duration { nanos: 0 }
        } else {
            Duration { nanos: self.nanos - earlier.nanos }
        }
    }
}

/// A point on the monotonic clock.
#[verifier::external_type_specification]
#[verifier::external_body]
pub struct ExInstant(std::time::Instant);

/// Reads the monotonic clock with `std::time::Instant::now`. Nothing is
/// claimed of the reading.
#[verifier::external_body]
fn instant_now() -> (r: std::time::Instant) {
    std::time::Instant::now()
}

/// Measures the time since a point with `std::time::Instant::elapsed`, in
/// nanoseconds. Nothing is claimed of the reading.
#[verifier::external_body]
fn nanos_since(start: &std::time::Instant) -> (r: u128) {
    start.elapsed().as_nanos()
}

/// Measures the time since it was started.
#[derive(Clone, Copy, Debug)]
pub struct Stopwatch {
    start: std::time::Instant,
}

impl Stopwatch {
    /// Whether the stopwatch starts from a reading of the monotonic clock.
    pub closed spec fn was_started(self) -> bool {
        call_ensures(instant_now, (), self.start)
    }

    /// Whether a span is one that the monotonic clock gives for the time since
    /// this stopwatch's start.
    pub closed spec fn may_show(self, span: Duration) -> bool {
        call_ensures(nanos_since, (&self.start,), span.nanos)
    }

    /// A stopwatch that starts now.
    pub fn started() -> (r: Self)
        ensures
            r.was_started(),
    {
        Stopwatch { start: instant_now() }
    }

    /// The time since the start. Two readings may differ, and nothing is
    /// known of either but that it was measured from this start.
    pub fn read(&self) -> (r: Duration)
        ensures
            self.may_show(r),
    {
        Duration { nanos: nanos_since(&self.start) }
    }
}

/// Milliseconds survive the trip through a span and back.
pub proof fn millis_round_trip(millis: u64)
    ensures
        (millis * NANOS_PER_MILLI) / (NANOS_PER_MILLI as int) == millis,
{
}

/// Taking away a span that was put on gives the first span back, as long as the
/// sum can be represented. What is taken away from less leaves nothing.
pub proof fn spans_add_and_subtract(a: Duration, b: Duration)
    ensures
        a@ + b@ <= u128::MAX ==> a.spec_plus(b) == a@ + b@ && Duration::spec_since(
            a.spec_plus(b),
            b@,
        ) == a@,
        a@ + b@ > u128::MAX ==> a.spec_plus(b) == u128::MAX,
        a@ <= b@ ==> Duration::spec_since(a@, b@) == 0,
        b@ <= a@ ==> Duration::spec_since(a@, b@) + b@ == a@,
{
}

} // verus!
