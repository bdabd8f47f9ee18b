//! Wall-clock time for the risk gates, behind a trait so that it can be
//! replaced by a clock that is advanced by hand.

use std::sync::Arc;
use std::sync::atomic::{AtomicU64, Ordering};
use vstd::prelude::*;

verus! {

/// Seconds in a day.
pub const SECS_PER_DAY: u64 = 86_400;

/// The number of whole days from the UNIX epoch to a time.
pub open spec fn day_of(unix_secs: u64) -> u64 {
    unix_secs / SECS_PER_DAY
}

/// The number of whole days since the UNIX epoch.
pub fn utc_day(unix_secs: u64) -> (r: u64)
    ensures
        r == day_of(unix_secs),
{
    unix_secs / SECS_PER_DAY
}

/// Source of wall-clock time, in whole UNIX seconds.
///
/// Nothing is promised of the readings: two of them may come in any order.
pub trait Clock: core::fmt::Debug + Send + Sync + 'static {
    /// Current time in seconds since the UNIX epoch.
    fn now_unix_secs(&self) -> u64;

    /// Whole days since the UNIX epoch: unless a clock defines it otherwise, the
    /// day of what the clock shows.
    fn utc_day_number(&self) -> (r: u64)
        default_ensures
            exists|now: u64|
                call_ensures(Self::now_unix_secs, (self,), now) && r == #[trigger] day_of(now),
    {
        utc_day(self.now_unix_secs())
    }
}

/// The default clock, which reads the operating system's wall clock.
#[derive(Clone, Copy, Debug, Default)]
pub struct SystemClock;

/// Reads the wall clock with `std::time::SystemTime::elapsed` on the UNIX
/// epoch, in whole seconds; `None` where the clock stands before the epoch.
/// Nothing is claimed of the reading.
#[verifier::external_body]
fn secs_since_epoch() -> (r: Option<u64>) {
    match std::time::UNIX_EPOCH.elapsed() {
        Ok(span) => Some(span.as_secs()),
        Err(_) => None,
    }
}

/// What a clock shows for a time since the epoch: 0 for a time before it.
pub open spec fn shown_for(elapsed: Option<u64>) -> u64 {
    match elapsed {
        Some(secs) => secs,
        None => 0,
    }
}

impl SystemClock {
    /// Whether a time since the epoch is one that the wall clock gives.
    pub closed spec fn may_read(self, elapsed: Option<u64>) -> bool {
        call_ensures(secs_since_epoch, (), elapsed)
    }
}

impl Clock for SystemClock {
    /// Seconds since the UNIX epoch; 0 while the system clock is set before it.
    fn now_unix_secs(&self) -> (r: u64)
        ensures
            exists|elapsed: Option<u64>| #[trigger] self.may_read(elapsed) && r == shown_for(elapsed),
    {
        let elapsed = secs_since_epoch();
        assert(self.may_read(elapsed));
        match elapsed {
            Some(secs) => secs,
            None => 0,
        }
    }
}

/// A clock that is set and advanced by hand.
///
/// The time lies in an atomic cell, so that one clock can be shared between a
/// harness and the gates that read it.
#[derive(Debug, Default)]
pub struct ManualClock {
    now: AtomicU64,
}

impl ManualClock {
    /// Whether the cell was made with the given UNIX seconds in it.
    pub closed spec fn was_made_with(self, unix_secs: u64) -> bool {
        call_ensures(AtomicU64::new, (unix_secs,), self.now)
    }

    /// Whether the given UNIX seconds were stored in the cell.
    pub closed spec fn was_set_to(self, unix_secs: u64) -> bool {
        call_ensures(AtomicU64::store, (&self.now, unix_secs, Ordering::SeqCst), ())
    }

    /// Whether a load of the cell may give the given UNIX seconds.
    pub closed spec fn may_show(self, unix_secs: u64) -> bool {
        call_ensures(AtomicU64::load, (&self.now, Ordering::SeqCst), unix_secs)
    }

    /// Whether adding `secs` to the cell may give back `before` as the time
    /// that it held.
    pub closed spec fn may_advance_from(self, before: u64, secs: u64) -> bool {
        call_ensures(AtomicU64::fetch_add, (&self.now, secs, Ordering::SeqCst), before)
    }

    /// A clock that shows the given UNIX seconds. Other holders of the clock
    /// can change what it shows, so that nothing is known of a later reading.
    pub fn new(start_unix_secs: u64) -> (r: Self)
        ensures
            r.was_made_with(start_unix_secs),
    {
        ManualClock { now: AtomicU64::new(start_unix_secs) }
    }

    /// Set the clock to an absolute time.
    pub fn set(&self, unix_secs: u64)
        ensures
            self.was_set_to(unix_secs),
    {
        self.now.store(unix_secs, Ordering::SeqCst);
    }

    /// Move the clock forward by `secs`. Returns the new time: that which the
    /// cell held before, and `secs` more, with wrapping as in the cell itself.
    pub fn advance_secs(&self, secs: u64) -> (r: u64)
        ensures
            exists|before: u64| #[trigger]
                self.may_advance_from(before, secs) && r == before.wrapping_add(secs),
    {
        let before: u64 = self.now.fetch_add(secs, Ordering::SeqCst);
        assert(self.may_advance_from(before, secs));
        before.wrapping_add(secs)
    }
}

impl Clock for ManualClock {
    fn now_unix_secs(&self) -> (r: u64)
        ensures
            self.may_show(r),
    {
        self.now.load(Ordering::SeqCst)
    }
}

impl<C: Clock + ?Sized> Clock for Arc<C> {
    /// What the shared clock shows.
    fn now_unix_secs(&self) -> (r: u64)
        ensures
            call_ensures(C::now_unix_secs, (&**self,), r),
    {
        (**self).now_unix_secs()
    }

    /// The day number of the shared clock.
    fn utc_day_number(&self) -> (r: u64)
        ensures
            call_ensures(C::utc_day_number, (&**self,), r),
    {
        (**self).utc_day_number()
    }
}

/// A day number counts the whole days up to a time.
pub proof fn days_are_whole(unix_secs: u64)
    ensures
        day_of(unix_secs) * 86_400 <= unix_secs < (day_of(unix_secs) + 1) * 86_400,
{
}

} // verus!
