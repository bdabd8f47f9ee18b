//! Session profit and loss.

use rustrade::num::Binary64;
use rustrade::risk::clock::{Clock, ManualClock};
use rustrade::risk::session_pnl::{Outcome, SessionClose, SessionPnl, SessionPnlConfig};
use std::sync::Arc;

fn b(x: f64) -> Binary64 {
    Binary64::from_bits(x.to_bits())
}

fn f(x: Binary64) -> f64 {
    f64::from_bits(x.to_bits())
}

/// Books a close with a gross result and a fee.
fn close<C: Clock>(p: &mut SessionPnl<C>, gross: f64, fee: f64) {
    let before = p.snapshot();
    let realised = f(before.realised) + gross;
    let fees = f(before.fees) + fee;
    p.record_close(SessionClose {
        net: b(gross - fee),
        realised: b(realised),
        fees: b(fees),
        session_net: b(realised - fees),
    });
}

fn net_pnl<C: Clock>(p: &SessionPnl<C>) -> f64 {
    let s = p.snapshot();
    f(s.realised) - f(s.fees)
}

fn win_rate<C: Clock>(p: &SessionPnl<C>) -> f64 {
    f64::from(p.snapshot().wins) / p.decided() as f64
}

fn cfg(limit: f64) -> SessionPnlConfig {
    SessionPnlConfig { loss_limit: b(limit) }
}

#[test]
fn classifies_on_net_not_gross() {
    let mut p = SessionPnl::new("TEST", cfg(-1000.0));
    close(&mut p, 1.0, 3.0); // net = -2 → loss
    assert_eq!(p.snapshot().losses, 1);
    assert_eq!(p.snapshot().wins, 0);
}

#[test]
fn halts_when_limit_breached() {
    let mut p = SessionPnl::new("TEST", cfg(-10.0));
    close(&mut p, -5.0, 1.0); // net = -6, above limit
    assert!(!p.is_session_halted());
    close(&mut p, -5.0, 1.0); // net = -12, below limit
    assert!(p.is_session_halted());
}

#[test]
fn reset_clears_halt_and_totals() {
    let mut p = SessionPnl::new("TEST", cfg(-10.0));
    close(&mut p, -20.0, 0.0);
    assert!(p.is_session_halted());
    p.reset_session();
    assert!(!p.is_session_halted());
    assert_eq!(p.snapshot().trades, 0);
    assert!((net_pnl(&p)).abs() < 1e-9);
}

#[test]
fn win_rate_excludes_breakevens() {
    let mut p = SessionPnl::new("TEST", cfg(-1000.0));
    close(&mut p, 10.0, 1.0); // win
    close(&mut p, -5.0, 1.0); // loss
    close(&mut p, 1.0, 1.0); // breakeven
    assert!((win_rate(&p) - 0.5).abs() < 1e-9);
}

#[test]
fn utc_rollover_resets_session_via_tick() {
    // Start at midnight UTC on day 100. Halt the session within the
    // day, advance past midnight, then verify tick() rolls over.
    let day = 100u64;
    let clock = Arc::new(ManualClock::new(day * 86_400));
    let mut p = SessionPnl::with_clock("TEST", cfg(-10.0), clock.clone());

    // Take a halting loss intra-day.
    clock.advance_secs(3_600); // +1 h, still day 100
    close(&mut p, -20.0, 0.0);
    assert!(p.is_session_halted());
    assert_eq!(p.snapshot().trades, 1);

    // Tick before midnight — no rollover yet.
    clock.advance_secs(3_600); // +1 h more, still day 100
    p.tick();
    assert!(
        p.is_session_halted(),
        "should still be halted before midnight"
    );

    // Cross midnight into day 101 and tick — should reset cleanly.
    clock.set((day + 1) * 86_400 + 5);
    p.tick();
    assert!(!p.is_session_halted(), "rollover must clear the halt");
    assert_eq!(p.snapshot().trades, 0);
    assert!((net_pnl(&p)).abs() < 1e-9);
}

#[test]
fn tick_within_same_day_is_a_noop() {
    let clock = Arc::new(ManualClock::new(100 * 86_400 + 10));
    let mut p = SessionPnl::with_clock("TEST", cfg(-1000.0), clock.clone());

    close(&mut p, 5.0, 1.0); // net +4
    let before = net_pnl(&p);

    clock.advance_secs(60 * 60 * 12); // +12 h, still day 100
    p.tick();
    assert!(
        (net_pnl(&p) - before).abs() < 1e-9,
        "intra-day tick must not reset session totals"
    );
    assert_eq!(p.snapshot().trades, 1);
}

#[test]
fn snapshot_restore_roundtrips_state() {
    let mut p = SessionPnl::new("TEST", cfg(-100.0));
    close(&mut p, 10.0, 1.0); // win
    close(&mut p, -30.0, 2.0); // loss
    let snap = p.snapshot();

    // Restore into a fresh instance (same config) and compare totals.
    let mut q = SessionPnl::new("TEST", cfg(-100.0));
    q.restore(snap.clone());
    assert_eq!(q.snapshot(), snap);
    assert!((net_pnl(&q) - net_pnl(&p)).abs() < 1e-9);
    assert_eq!(q.snapshot().trades, 2);
    assert_eq!(q.snapshot().wins, 1);
    assert_eq!(q.snapshot().losses, 1);
}

#[test]
fn restore_preserves_halt_within_same_day() {
    // Snapshot a halted session, restore on the *same* UTC day, tick:
    // the halt must survive (a restart must not reopen a halted day).
    let clock = Arc::new(ManualClock::new(200 * 86_400 + 100));
    let mut p = SessionPnl::with_clock("TEST", cfg(-10.0), clock.clone());
    close(&mut p, -20.0, 0.0);
    assert!(p.is_session_halted());
    let snap = p.snapshot();

    let mut q = SessionPnl::with_clock("TEST", cfg(-10.0), clock.clone());
    q.restore(snap);
    q.tick(); // same day → no rollover
    assert!(
        q.is_session_halted(),
        "halt must survive a same-day restore"
    );
}

#[test]
fn session_pnl_restore_then_tick_rolls_over_stale_day() {
    // Snapshot a halted session on day 300; restore on day 301. A
    // post-restore tick must roll the session over (fresh, un-halted)
    // so a day-old breaker doesn't wrongly block today's trading.
    let day = 300u64;
    let clock = Arc::new(ManualClock::new(day * 86_400 + 100));
    let mut p = SessionPnl::with_clock("TEST", cfg(-10.0), clock.clone());
    close(&mut p, -50.0, 0.0);
    assert!(p.is_session_halted());
    let snap = p.snapshot();

    // Reboot "the next day".
    let next = Arc::new(ManualClock::new((day + 1) * 86_400 + 5));
    let mut q = SessionPnl::with_clock("TEST", cfg(-10.0), next);
    q.restore(snap);
    q.tick();
    assert!(!q.is_session_halted(), "stale day must roll over to fresh");
    assert_eq!(q.snapshot().trades, 0);
    assert!(net_pnl(&q).abs() < 1e-9);
}

#[test]
fn default_loss_limit_is_fifty() {
    assert_eq!(SessionPnlConfig::default(), cfg(-50.0));
}

#[test]
fn outcomes_follow_the_sign() {
    assert_eq!(Outcome::of(b(0.5)), Outcome::Win);
    assert_eq!(Outcome::of(b(-0.5)), Outcome::Loss);
    assert_eq!(Outcome::of(b(-0.0)), Outcome::Breakeven);
    assert_eq!(Outcome::of(b(f64::NAN)), Outcome::Breakeven);
}

#[test]
fn session_carries_its_symbol_and_counts_every_close() {
    let mut p = SessionPnl::new("BTC", cfg(f64::NEG_INFINITY));
    close(&mut p, 1.0, 0.0);
    close(&mut p, -1.0, 0.0);
    close(&mut p, 1.0, 1.0);
    let s = p.snapshot();
    assert_eq!(p.symbol(), "BTC");
    assert_eq!((s.trades, s.wins, s.losses, s.breakevens), (3, 1, 1, 1));
    assert_eq!(p.decided(), 2);
    assert!(!p.is_session_halted());
}
