//! Account-wide entry gates.

use rustrade::num::Binary64;
use rustrade::risk::clock::ManualClock;
use rustrade::risk::portfolio::{
    BlockFigures, PortfolioBlock, PortfolioRisk, PortfolioRiskConfig, PortfolioState,
};
use std::sync::Arc;

fn b(x: f64) -> Binary64 {
    Binary64::from_bits(x.to_bits())
}

fn cfg(loss: f64, max_pos: u32, max_gross: f64) -> PortfolioRiskConfig {
    PortfolioRiskConfig {
        max_daily_loss: b(loss),
        max_concurrent_positions: max_pos,
        max_gross_exposure: b(max_gross),
    }
}

fn state(open: u32, gross: f64, new: f64, already: bool, net: f64) -> PortfolioState {
    PortfolioState {
        open_positions: open,
        gross_exposure: b(gross),
        new_notional: b(new),
        gross_after: b(gross + new),
        symbol_already_open: already,
        account_net_pnl: b(net),
    }
}

#[test]
fn default_config_blocks_nothing() {
    let pf = PortfolioRisk::new(PortfolioRiskConfig::default());
    // Huge exposure, many positions, big loss — all allowed when off.
    assert!(
        pf.check_entry(state(1_000, 1e12, 1e12, false, -1e12))
            .is_ok()
    );
}

#[test]
fn live_daily_loss_blocks_even_before_latch() {
    let pf = PortfolioRisk::new(cfg(-100.0, 0, f64::INFINITY));
    // Not latched yet, but the live net is already past the limit.
    assert!(matches!(
        pf.check_entry(state(0, 0.0, 1.0, false, -150.0)),
        Err(PortfolioBlock::DailyLossHalt { .. })
    ));
    // Comfortably above the limit → allowed.
    assert!(pf.check_entry(state(0, 0.0, 1.0, false, -50.0)).is_ok());
}

#[test]
fn observe_latches_sticky_halt() {
    let mut pf = PortfolioRisk::new(cfg(-100.0, 0, f64::INFINITY));
    pf.observe(b(-60.0));
    assert!(!pf.is_halted());
    pf.observe(b(-120.0)); // breach → latch
    assert!(pf.is_halted());
    // Even if PnL recovers above the limit, the latch holds for the day.
    assert!(matches!(
        pf.check_entry(state(0, 0.0, 1.0, false, 50.0)),
        Err(PortfolioBlock::DailyLossHalt { .. })
    ));
}

#[test]
fn max_concurrent_blocks_new_symbol_only() {
    let pf = PortfolioRisk::new(cfg(f64::NEG_INFINITY, 2, f64::INFINITY));
    assert!(matches!(
        pf.check_entry(state(2, 0.0, 1.0, false, 0.0)),
        Err(PortfolioBlock::MaxConcurrentPositions { open: 2, limit: 2 })
    ));
    // Adding to an already-open symbol consumes no new slot.
    assert!(pf.check_entry(state(2, 0.0, 1.0, true, 0.0)).is_ok());
    // Below the cap a new symbol is fine.
    assert!(pf.check_entry(state(1, 0.0, 1.0, false, 0.0)).is_ok());
}

#[test]
fn gross_exposure_cap_blocks_when_exceeded() {
    let pf = PortfolioRisk::new(cfg(f64::NEG_INFINITY, 0, 10_000.0));
    assert!(
        pf.check_entry(state(1, 8_000.0, 1_500.0, false, 0.0))
            .is_ok()
    );
    assert!(matches!(
        pf.check_entry(state(1, 8_000.0, 2_500.0, false, 0.0)),
        Err(PortfolioBlock::GrossExposureCap { .. })
    ));
}

#[test]
fn halt_takes_precedence_over_other_gates() {
    let pf = PortfolioRisk::new(cfg(-10.0, 1, 100.0));
    // Live breach blocks even an entry that fits concurrency + exposure.
    assert!(matches!(
        pf.check_entry(state(0, 0.0, 1.0, false, -20.0)),
        Err(PortfolioBlock::DailyLossHalt { .. })
    ));
}

#[test]
fn utc_rollover_clears_latch_via_tick() {
    let day = 100u64;
    let clock = Arc::new(ManualClock::new(day * 86_400));
    let mut pf = PortfolioRisk::with_clock(cfg(-10.0, 0, f64::INFINITY), clock.clone());
    pf.observe(b(-20.0));
    assert!(pf.is_halted());

    clock.advance_secs(3_600);
    pf.tick(); // same day → still halted
    assert!(pf.is_halted());

    clock.set((day + 1) * 86_400 + 5);
    pf.tick(); // next UTC day → cleared
    assert!(!pf.is_halted());
}

#[test]
fn snapshot_restore_preserves_latch_same_day() {
    let clock = Arc::new(ManualClock::new(200 * 86_400 + 100));
    let mut pf = PortfolioRisk::with_clock(cfg(-10.0, 0, f64::INFINITY), clock.clone());
    pf.observe(b(-20.0));
    let snap = pf.snapshot();

    let mut q = PortfolioRisk::with_clock(cfg(-10.0, 0, f64::INFINITY), clock.clone());
    q.restore(snap.clone());
    assert_eq!(q.snapshot(), snap);
    q.tick(); // same day → latch survives
    assert!(q.is_halted());
}

#[test]
fn portfolio_restore_then_tick_rolls_over_stale_day() {
    let day = 300u64;
    let clock = Arc::new(ManualClock::new(day * 86_400 + 100));
    let mut pf = PortfolioRisk::with_clock(cfg(-10.0, 0, f64::INFINITY), clock);
    pf.observe(b(-50.0));
    let snap = pf.snapshot();

    let next = Arc::new(ManualClock::new((day + 1) * 86_400 + 5));
    let mut q = PortfolioRisk::with_clock(cfg(-10.0, 0, f64::INFINITY), next);
    q.restore(snap);
    q.tick();
    assert!(!q.is_halted(), "stale halted day must roll over fresh");
}

#[test]
fn blocks_carry_what_they_were_decided_on() {
    let pf = PortfolioRisk::new(cfg(-100.0, 3, 10_000.0));
    assert_eq!(
        pf.check_entry(state(0, 0.0, 1.0, false, -100.0)),
        Err(PortfolioBlock::DailyLossHalt { net_pnl: b(-100.0), limit: b(-100.0) })
    );
    assert_eq!(
        pf.check_entry(state(3, 0.0, 1.0, false, 0.0)),
        Err(PortfolioBlock::MaxConcurrentPositions { open: 3, limit: 3 })
    );
    assert_eq!(
        pf.check_entry(state(1, 9_000.0, 1_500.0, false, 0.0)),
        Err(PortfolioBlock::GrossExposureCap {
            current: b(9_000.0),
            additional: b(1_500.0),
            limit: b(10_000.0),
        })
    );
    assert_eq!(pf.check_entry(state(1, 8_500.0, 1_500.0, false, 0.0)), Ok(()));
}

#[test]
fn blocks_render_their_amounts() {
    let figures = BlockFigures {
        net_pnl: "-120.00".into(),
        current: "9000.00".into(),
        additional: "1500.00".into(),
        limit: "10000.00".into(),
    };
    let (x, y, z) = (b(1.0), b(2.0), b(3.0));
    assert_eq!(
        PortfolioBlock::DailyLossHalt { net_pnl: x, limit: y }.render(&figures),
        "account daily-loss halt (net -120.00 ≤ limit 10000.00)"
    );
    assert_eq!(
        PortfolioBlock::MaxConcurrentPositions { open: 12, limit: 10 }.render(&figures),
        "max concurrent positions reached (12 open ≥ limit 10)"
    );
    assert_eq!(
        PortfolioBlock::GrossExposureCap { current: x, additional: y, limit: z }.render(&figures),
        "gross-exposure cap (current 9000.00 + 1500.00 > limit 10000.00)"
    );
}
