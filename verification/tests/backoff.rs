//! Backoff with jitter, cooldown and circuit breaker.

use rustrade::supervisor::backoff::{BackoffAction, BackoffConfig, BackoffState};
use rustrade::time::Duration;

#[test]
fn test_default_config() {
    let cfg = BackoffConfig::default();
    assert_eq!(cfg.base_delay, Duration::from_millis(100));
    assert_eq!(cfg.max_delay, Duration::from_secs(60));
    assert_eq!(cfg.cooldown_period, Duration::from_secs(300));
    assert_eq!(cfg.max_retries, 10);
    assert_eq!(cfg.circuit_breaker_window, Duration::from_secs(600));
}

#[test]
fn test_builder_pattern() {
    let cfg = BackoffConfig::new(Duration::from_millis(200), Duration::from_secs(30))
        .with_cooldown(Duration::from_secs(120))
        .with_circuit_breaker(5, Duration::from_secs(60));

    assert_eq!(cfg.base_delay, Duration::from_millis(200));
    assert_eq!(cfg.max_delay, Duration::from_secs(30));
    assert_eq!(cfg.cooldown_period, Duration::from_secs(120));
    assert_eq!(cfg.max_retries, 5);
    assert_eq!(cfg.circuit_breaker_window, Duration::from_secs(60));
}

#[test]
fn test_without_circuit_breaker() {
    let cfg = BackoffConfig::default().without_circuit_breaker();
    assert_eq!(cfg.max_retries, 0);
}

#[test]
fn test_exponential_growth_is_capped() {
    let cfg = BackoffConfig::new(Duration::from_millis(100), Duration::from_secs(5))
        .without_circuit_breaker();
    let state = BackoffState::new(cfg);

    let mut s = state.clone();
    s.attempt = 0;
    assert_eq!(s.compute_exponential_delay(), Duration::from_millis(100));

    s.attempt = 5;
    assert_eq!(s.compute_exponential_delay(), Duration::from_millis(3200));

    s.attempt = 10;
    assert_eq!(s.compute_exponential_delay(), Duration::from_secs(5)); // capped
}

#[test]
fn test_exponential_no_overflow_at_high_attempts() {
    let cfg = BackoffConfig::default().without_circuit_breaker();
    let mut state = BackoffState::new(cfg);
    state.attempt = 100;
    assert_eq!(state.compute_exponential_delay(), Duration::from_secs(60));
}

#[test]
fn test_jitter_stays_within_bounds() {
    let cfg = BackoffConfig::new(Duration::from_millis(100), Duration::from_secs(60))
        .without_circuit_breaker();
    let state = BackoffState::new(cfg);
    for _ in 0..1000 {
        let jittered = state.add_jitter(Duration::from_millis(1000));
        assert!(jittered <= Duration::from_millis(1000));
    }
}

#[test]
fn test_jitter_zero_base() {
    let cfg = BackoffConfig::default();
    let state = BackoffState::new(cfg);
    assert_eq!(state.add_jitter(Duration::zero()), Duration::zero());
}

#[test]
fn test_next_backoff_increments_attempt() {
    let cfg = BackoffConfig::default().without_circuit_breaker();
    let mut state = BackoffState::new(cfg);
    assert_eq!(state.attempt(), 0);
    assert!(matches!(state.next_backoff(), BackoffAction::Retry(_)));
    assert_eq!(state.attempt(), 1);
    assert!(matches!(state.next_backoff(), BackoffAction::Retry(_)));
    assert_eq!(state.attempt(), 2);
}

#[test]
fn backoff_test_circuit_breaker_trips() {
    let cfg = BackoffConfig::default().with_circuit_breaker(3, Duration::from_secs(600));
    let mut state = BackoffState::new(cfg);

    assert!(matches!(state.next_backoff(), BackoffAction::Retry(_)));
    assert!(matches!(state.next_backoff(), BackoffAction::Retry(_)));

    assert!(matches!(
        state.next_backoff(),
        BackoffAction::CircuitOpen {
            failures: 3,
            max_retries: 3
        }
    ));
}

#[test]
fn test_reset_clears_state() {
    let cfg = BackoffConfig::default().without_circuit_breaker();
    let mut state = BackoffState::new(cfg);
    state.next_backoff();
    state.next_backoff();
    assert_eq!(state.attempt(), 2);
    assert_eq!(state.recent_failures(), 2);

    state.reset();
    assert_eq!(state.attempt(), 0);
    assert_eq!(state.recent_failures(), 0);
}

#[test]
fn test_cooldown_resets_attempt() {
    let cfg = BackoffConfig::default()
        .with_cooldown(Duration::from_millis(50))
        .without_circuit_breaker();
    let mut state = BackoffState::new(cfg);

    state.next_backoff();
    state.next_backoff();
    assert_eq!(state.attempt(), 2);

    // The service started when the stopwatch did, at least 100 ms ago.
    state.last_start = Some(Duration::zero());
    while state.now().as_millis() < 100 {}

    state.maybe_reset_on_cooldown();
    assert_eq!(state.attempt(), 0);
    assert_eq!(state.recent_failures(), 0);
}

#[test]
fn test_cooldown_does_not_reset_if_too_early() {
    let cfg = BackoffConfig::default()
        .with_cooldown(Duration::from_secs(300))
        .without_circuit_breaker();
    let mut state = BackoffState::new(cfg);

    state.next_backoff();
    state.next_backoff();
    state.record_start();

    state.maybe_reset_on_cooldown();
    assert_eq!(state.attempt(), 2);
}

#[test]
fn test_backoff_delay_increases_monotonically_ignoring_jitter() {
    let cfg = BackoffConfig::new(Duration::from_millis(100), Duration::from_secs(60))
        .without_circuit_breaker();
    let mut state = BackoffState::new(cfg);

    let delays: Vec<Duration> = (0..8)
        .map(|_| {
            let _ = state.next_backoff();
            state.compute_exponential_delay()
        })
        .collect();

    for window in delays.windows(2) {
        assert!(window[1] >= window[0], "{:?} < {:?}", window[1], window[0]);
    }
}

#[test]
fn test_attempt_saturates() {
    let cfg = BackoffConfig::default().without_circuit_breaker();
    let mut state = BackoffState::new(cfg);
    state.attempt = u32::MAX;

    assert!(matches!(state.next_backoff(), BackoffAction::Retry(_)));
    assert_eq!(state.attempt(), u32::MAX);
}
