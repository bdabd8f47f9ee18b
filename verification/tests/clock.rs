//! Wall clocks.

use rustrade::risk::clock::{utc_day, Clock, ManualClock, SystemClock};
use std::sync::Arc;

#[test]
fn system_clock_is_past_the_year_2020() {
    assert!(SystemClock.now_unix_secs() > 1_577_836_800);
    assert_eq!(utc_day(86_399), 0);
    assert_eq!(utc_day(86_400), 1);
}

#[test]
fn manual_clock_set_and_advance() {
    let c = ManualClock::new(100);
    assert_eq!(c.now_unix_secs(), 100);

    let after = c.advance_secs(50);
    assert_eq!(after, 150);
    assert_eq!(c.now_unix_secs(), 150);

    c.set(1_000);
    assert_eq!(c.now_unix_secs(), 1_000);
}

#[test]
fn manual_clock_default_day_number() {
    let c = ManualClock::new(86_400 * 3 + 42);
    assert_eq!(c.utc_day_number(), 3);
}

#[test]
fn arc_clock_delegates() {
    let c = Arc::new(ManualClock::new(500));
    assert_eq!(c.now_unix_secs(), 500);
    c.advance_secs(1);
    // Calling Clock methods on the Arc directly:
    assert_eq!(Clock::now_unix_secs(&c), 501);
}