//! Candle series.

use rustrade::backtest::candles::{
    attach_series, load_rows, merge_series, sort_chronological, validate_candle,
};
use rustrade::backtest::error::{CandleFault, CandleField, Error};
use rustrade::domain::market::Symbol;
use rustrade::domain::types::Candle;
use rustrade::num::Binary64;

fn b(x: f64) -> Binary64 {
    Binary64::from_bits(x.to_bits())
}

fn candle(time: i64, open: f64, high: f64, low: f64, close: f64, volume: f64) -> Candle {
    Candle {
        time,
        open: b(open),
        high: b(high),
        low: b(low),
        close: b(close),
        volume: b(volume),
    }
}

fn good_candle() -> Candle {
    candle(0, 1.0, 2.0, 0.5, 1.5, 10.0)
}

type Row = (i64, f64, f64, f64, f64, f64);

fn load_csv_str(text: &str) -> Result<Vec<Candle>, Error> {
    let mut rdr = csv::ReaderBuilder::new()
        .comment(Some(b'#'))
        .flexible(false)
        .from_reader(text.as_bytes());
    let rows: Vec<Option<Candle>> = rdr
        .deserialize::<Row>()
        .map(|row| row.ok().map(|r| candle(r.0, r.1, r.2, r.3, r.4, r.5)))
        .collect();
    load_rows(&rows)
}

#[test]
fn load_csv_str_basic() {
    let text = "\
time,open,high,low,close,volume
1000,1.0,2.0,0.5,1.5,10.0
2000,1.5,2.5,1.0,2.0,12.0
3000,2.0,3.0,1.8,2.8,8.0
";
    let candles = load_csv_str(text).unwrap();
    assert_eq!(candles.len(), 3);
    assert_eq!(candles[0].time, 1000);
    assert_eq!(candles[0].open, b(1.0));
    assert_eq!(candles[2].close, b(2.8));
}

#[test]
fn load_csv_str_skips_comments_and_blanks() {
    let text = "\
time,open,high,low,close,volume
# top comment
1000,1.0,2.0,0.5,1.5,10.0
# mid comment
2000,1.5,2.5,1.0,2.0,12.0
";
    let candles = load_csv_str(text).unwrap();
    assert_eq!(candles.len(), 2);
}

#[test]
fn load_csv_str_rejects_malformed_row() {
    let text = "\
time,open,high,low,close,volume
1000,not-a-number,2.0,0.5,1.5,10.0
";
    let err = load_csv_str(text).unwrap_err();
    assert!(matches!(err, Error::Unreadable { row: 2 }));
}

#[test]
fn load_csv_str_rejects_non_positive_price() {
    // Structurally valid number, but a zero/negative price is unusable.
    let text = "\
time,open,high,low,close,volume
1000,1.0,2.0,0.5,0.0,10.0
";
    let err = load_csv_str(text).unwrap_err();
    assert!(matches!(err, Error::Row { .. }), "got {err:?}");
}

#[test]
fn load_csv_str_rejects_non_finite_price() {
    // "inf" and "NaN" parse as numbers; validation must reject them.
    let text = "\
time,open,high,low,close,volume
1000,1.0,2.0,0.5,inf,10.0
";
    let err = load_csv_str(text).unwrap_err();
    assert!(matches!(err, Error::Row { .. }), "got {err:?}");
}

#[test]
fn known_adversarial_inputs_never_panic() {
    let cases = [
        "",
        "\n\n\n",
        "time,open,high,low,close,volume",            // header only
        "time,open,high,low,close,volume\n",          // header + empty
        "garbage",                                    // no header match
        "time,open,high,low,close,volume\n,,,,,",     // all-empty fields
        "time,open,high,low,close,volume\n1,1,1,1,1", // short row
        "time,open,high,low,close,volume\n1,1,1,1,1,1,1,1", // long row
        "time,open,high,low,close,volume\nNaN,NaN,NaN,NaN,NaN,NaN",
        "time,open,high,low,close,volume\n0,inf,-inf,1,1,1",
        "time,open,high,low,close,volume\n9223372036854775807,1,1,1,1,1",
        "\u{feff}time,open,high,low,close,volume\n1,1,1,1,1,1", // BOM
        "time,open,high,low,close,volume\n1,1,1,1,1,1\0",       // NUL
    ];
    for text in cases {
        if let Ok(candles) = load_csv_str(text) {
            for c in candles {
                assert!(validate_candle(&c).is_ok());
            }
        }
    }
}

#[test]
fn first_bad_row_is_reported() {
    let bad = candle(3, 1.0, 2.0, -0.5, 0.0, 1.0);
    let rows = vec![Some(good_candle()), Some(good_candle()), Some(bad), None];
    assert_eq!(
        load_rows(&rows),
        Err(Error::Row {
            row: 4,
            fault: CandleFault { field: CandleField::Low, value: b(-0.5) },
        })
    );
    assert_eq!(
        load_rows(&vec![Some(good_candle()), None, Some(bad)]),
        Err(Error::Unreadable { row: 3 })
    );
}

#[test]
fn sort_chronological_reorders_descending_input() {
    let zero = |time: i64| candle(time, 0.0, 0.0, 0.0, 0.0, 0.0);
    let candles = vec![zero(3000), zero(1000), zero(2000)];
    let sorted = sort_chronological(candles);
    assert_eq!(sorted[0].time, 1000);
    assert_eq!(sorted[1].time, 2000);
    assert_eq!(sorted[2].time, 3000);
}

#[test]
fn sorting_keeps_the_order_of_equal_times() {
    let sorted = sort_chronological(vec![
        candle(2, 1.0, 1.0, 1.0, 1.0, 0.0),
        candle(1, 2.0, 2.0, 2.0, 2.0, 0.0),
        candle(2, 3.0, 3.0, 3.0, 3.0, 0.0),
        candle(1, 4.0, 4.0, 4.0, 4.0, 0.0),
    ]);
    let opens: Vec<Binary64> = sorted.iter().map(|c| c.open).collect();
    assert_eq!(opens, vec![b(2.0), b(4.0), b(1.0), b(3.0)]);
}

#[test]
fn merge_series_interleaves_by_timestamp() {
    let flat = |time: i64, price: f64| candle(time, price, price, price, price, 0.0);
    let series = vec![
        (Symbol::from("AAA"), vec![flat(1000, 1.0), flat(3000, 1.0)]),
        (Symbol::from("BBB"), vec![flat(2000, 2.0), flat(3000, 2.0)]),
    ];
    let merged = merge_series(&series);
    let times: Vec<i64> = merged.iter().map(|t| t.candle.time).collect();
    assert_eq!(times, vec![1000, 2000, 3000, 3000]);
    // Tie at t=3000 is broken by series-insertion order — AAA first.
    assert_eq!(series[merged[2].series].0, "AAA");
    assert_eq!(series[merged[3].series].0, "BBB");
}

#[test]
fn validate_candle_accepts_finite_positive() {
    assert!(validate_candle(&good_candle()).is_ok());
    // Zero volume is legitimate (illiquid candle).
    let c = Candle {
        volume: b(0.0),
        ..good_candle()
    };
    assert!(validate_candle(&c).is_ok());
}

#[test]
fn validate_candle_rejects_non_finite_and_non_positive_prices() {
    for bad in [f64::NAN, f64::INFINITY, f64::NEG_INFINITY, 0.0, -1.0] {
        let c = Candle {
            close: b(bad),
            ..good_candle()
        };
        assert!(
            validate_candle(&c).is_err(),
            "close={bad} should be rejected"
        );
    }
}

#[test]
fn validate_candle_rejects_negative_or_nan_volume() {
    for bad in [-1.0, f64::NAN, f64::INFINITY] {
        let c = Candle {
            volume: b(bad),
            ..good_candle()
        };
        assert!(
            validate_candle(&c).is_err(),
            "volume={bad} should be rejected"
        );
    }
}

#[test]
fn attaching_a_symbol_again_replaces_its_series() {
    let mut series = vec![];
    attach_series(&mut series, Symbol::from("A"), vec![good_candle()]);
    attach_series(&mut series, Symbol::from("B"), vec![]);
    attach_series(&mut series, Symbol::from("A"), vec![good_candle(), good_candle()]);
    assert_eq!(series.len(), 2);
    assert_eq!(series[0].0, "B");
    assert_eq!(series[1].0, "A");
    assert_eq!(series[1].1.len(), 2);
}
