//! Funding schedules, fees and slippage.

use rustrade::backtest::costs::{FeeModel, Shift, SlippageModel};
use rustrade::backtest::funding::{FundingFault, FundingModel, Settlement, EIGHT_HOURS_MS};
use rustrade::domain::market::Side;
use rustrade::num::Binary64;

fn b(x: f64) -> Binary64 {
    Binary64::from_bits(x.to_bits())
}

fn f(x: Binary64) -> f64 {
    f64::from_bits(x.to_bits())
}

fn series(rates: &[(i64, f64)]) -> FundingModel {
    FundingModel::Series(settlements(rates))
}

fn settlements(rates: &[(i64, f64)]) -> Vec<Settlement> {
    rates
        .iter()
        .map(|&(time, rate)| Settlement { time, rate: b(rate) })
        .collect()
}

/// The settlements of a model that is a series.
fn of_series(m: FundingModel) -> Vec<Settlement> {
    match m {
        FundingModel::Series(s) => s,
        other => panic!("unexpected schedule: {other:?}"),
    }
}

/// Price of a fill under a slippage model.
fn slipped(m: SlippageModel, side: Side, reference: f64) -> f64 {
    match m.shift_for(side, true) {
        None => reference,
        Some(s) => {
            let part = f(s.bps) / 10_000.0;
            reference * if s.upward { 1.0 + part } else { 1.0 - part }
        }
    }
}

/// Fee of a fill under a fee model.
fn fee_for(m: FeeModel, price: f64, qty: f64, is_taker: bool) -> f64 {
    match m.rate_for(is_taker) {
        None => 0.0,
        Some(rate) => price * qty * f(rate),
    }
}

#[test]
fn none_yields_no_settlements() {
    assert!(FundingModel::Off.settlements_between(0, i64::MAX).is_empty());
    assert!(!FundingModel::off().is_enabled());
}

#[test]
fn constant_grid_is_entry_exclusive_exit_inclusive() {
    let m = FundingModel::Constant {
        rate: b(0.0001),
        interval_ms: 100,
    };
    // A settlement exactly at `after` is excluded…
    assert_eq!(m.settlements_between(100, 250), settlements(&[(200, 0.0001)]));
    // …and one exactly at `until` is included.
    assert_eq!(
        m.settlements_between(50, 200),
        settlements(&[(100, 0.0001), (200, 0.0001)])
    );
    // Empty / inverted windows yield nothing.
    assert!(m.settlements_between(100, 100).is_empty());
    assert!(m.settlements_between(200, 100).is_empty());
}

#[test]
fn constant_grid_stays_epoch_aligned_across_zero() {
    let m = FundingModel::Constant {
        rate: b(0.5),
        interval_ms: 100,
    };
    assert_eq!(
        m.settlements_between(-150, 100),
        settlements(&[(-100, 0.5), (0, 0.5), (100, 0.5)])
    );
}

#[test]
fn series_window_matches_constant_window_semantics() {
    let m = series(&[(100, 0.1), (200, 0.2), (300, 0.3)]);
    assert_eq!(
        m.settlements_between(100, 300),
        settlements(&[(200, 0.2), (300, 0.3)])
    );
    assert!(m.settlements_between(300, 1_000).is_empty());
}

#[test]
fn validated_sorts_series_and_rejects_duplicates() {
    let m = series(&[(300, 0.3), (100, 0.1)]).validated().unwrap();
    assert_eq!(of_series(m), settlements(&[(100, 0.1), (300, 0.3)]));

    assert!(series(&[(100, 0.1), (100, 0.2)]).validated().is_err());
}

#[test]
fn validated_rejects_bad_constant() {
    assert!(FundingModel::Constant {
        rate: b(f64::NAN),
        interval_ms: 100
    }
    .validated()
    .is_err());
    assert!(FundingModel::Constant {
        rate: b(0.0001),
        interval_ms: 0
    }
    .validated()
    .is_err());
}

#[test]
fn validated_rejects_non_finite_series_rate() {
    assert!(series(&[(100, f64::INFINITY)]).validated().is_err());
}

#[test]
fn schedule_faults_name_their_cause() {
    let constant = |rate: f64, interval_ms: i64| FundingModel::Constant { rate: b(rate), interval_ms };
    assert_eq!(
        constant(f64::INFINITY, 100).validated().unwrap_err(),
        FundingFault::RateNotFinite { rate: b(f64::INFINITY) }
    );
    assert_eq!(
        constant(0.1, -5).validated().unwrap_err(),
        FundingFault::IntervalNotPositive { interval_ms: -5 }
    );
    assert_eq!(
        series(&[(7, 0.1), (9, f64::NEG_INFINITY)]).validated().unwrap_err(),
        FundingFault::SeriesRateNotFinite {
            settlement: Settlement { time: 9, rate: b(f64::NEG_INFINITY) }
        }
    );
    assert_eq!(
        series(&[(7, 0.1), (9, 0.1), (7, 0.2)]).validated().unwrap_err(),
        FundingFault::DuplicateTimestamps
    );
}

#[test]
fn adjoining_windows_settle_like_one() {
    let m = FundingModel::Constant { rate: b(0.1), interval_ms: EIGHT_HOURS_MS };
    let mut two = m.settlements_between(0, 2 * EIGHT_HOURS_MS);
    two.extend(m.settlements_between(2 * EIGHT_HOURS_MS, 5 * EIGHT_HOURS_MS));
    assert_eq!(two, m.settlements_between(0, 5 * EIGHT_HOURS_MS));
    assert_eq!(two.len(), 5);
    let copy = m.clone();
    assert_eq!(copy.settlements_between(0, 5 * EIGHT_HOURS_MS), two);
}

#[test]
fn zero_returns_zero() {
    assert_eq!(fee_for(FeeModel::Zero, 100.0, 1.0, true), 0.0);
}

#[test]
fn flat_proportional_to_notional() {
    let m = FeeModel::Flat(b(0.001));
    assert!((fee_for(m, 100.0, 1.0, true) - 0.1).abs() < 1e-9);
    assert!((fee_for(m, 100.0, 2.0, true) - 0.2).abs() < 1e-9);
    assert!((fee_for(m, 50.0, 4.0, true) - 0.2).abs() < 1e-9);
}

#[test]
fn maker_taker_distinguishes() {
    let m = FeeModel::MakerTaker {
        maker: b(0.0002),
        taker: b(0.0006),
    };
    let maker = fee_for(m, 100.0, 1.0, false);
    let taker = fee_for(m, 100.0, 1.0, true);
    assert!((maker - 0.02).abs() < 1e-9);
    assert!((taker - 0.06).abs() < 1e-9);
}

#[test]
fn zero_returns_reference() {
    assert_eq!(slipped(SlippageModel::Zero, Side::Buy, 100.0), 100.0);
    assert_eq!(slipped(SlippageModel::Zero, Side::Sell, 100.0), 100.0);
}

#[test]
fn fixed_bps_buy_adds() {
    let fill = slipped(SlippageModel::FixedBps(b(10.0)), Side::Buy, 100.0);
    // 10 bps = 0.1% → 100 * 1.001 = 100.1
    assert!((fill - 100.1).abs() < 1e-9);
}

#[test]
fn fixed_bps_sell_subtracts() {
    let fill = slipped(SlippageModel::FixedBps(b(10.0)), Side::Sell, 100.0);
    assert!((fill - 99.9).abs() < 1e-9);
}

#[test]
fn fixed_bps_symmetric_about_reference() {
    let buy = slipped(SlippageModel::FixedBps(b(25.0)), Side::Buy, 1_000.0);
    let sell = slipped(SlippageModel::FixedBps(b(25.0)), Side::Sell, 1_000.0);
    assert!(((buy - 1_000.0) + (sell - 1_000.0)).abs() < 1e-9);
}

#[test]
fn makers_do_not_slip() {
    let m = SlippageModel::FixedBps(b(10.0));
    assert_eq!(m.shift_for(Side::Buy, false), None);
    assert_eq!(m.shift_for(Side::Buy, true), Some(Shift { bps: b(10.0), upward: true }));
    assert_eq!(m.shift_for(Side::Sell, true), Some(Shift { bps: b(10.0), upward: false }));
}
