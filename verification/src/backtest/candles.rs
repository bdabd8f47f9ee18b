//! Candle series: checking, sorting and merging.

use vstd::prelude::*;

use crate::backtest::chronology::{
    sorting_keeps_ties_in_order, sorting_puts_earlier_records_first, sorts, stable_sort, Tagged, Timed,
};
use crate::backtest::error::{CandleFault, CandleField, Error};
use crate::backtest::fills::is_price;
use crate::domain::market::Symbol;
use crate::domain::types::Candle;
use crate::num::Binary64;

verus! {

/// Whether a volume can be used: finite and at least zero.
pub open spec fn is_volume(v: Binary64) -> bool {
    v.spec_is_finite() && !v.spec_is_negative()
}

/// The first value of a candle that cannot be used, looking at open, high,
/// low, close and volume in this order. How the prices compare with each other
/// is not looked at.
pub open spec fn fault_in(c: Candle) -> Option<CandleFault> {
    if !is_price(c.open) {
        Some(CandleFault { field: CandleField::Open, value: c.open })
    } else if !is_price(c.high) {
        Some(CandleFault { field: CandleField::High, value: c.high })
    } else if !is_price(c.low) {
        Some(CandleFault { field: CandleField::Low, value: c.low })
    } else if !is_price(c.close) {
        Some(CandleFault { field: CandleField::Close, value: c.close })
    } else if !is_volume(c.volume) {
        Some(CandleFault { field: CandleField::Volume, value: c.volume })
    } else {
        None
    }
}

/// Whether a candle can be used.
pub open spec fn is_usable(c: Candle) -> bool {
    is_price(c.open) && is_price(c.high) && is_price(c.low) && is_price(c.close) && is_volume(
        c.volume,
    )
}

fn usable_price(p: Binary64) -> (r: bool)
    ensures
        r == is_price(p),
{
    p.is_finite() && p.is_positive()
}

/// Check that a candle can be used.
pub fn validate_candle(c: &Candle) -> (r: Result<(), CandleFault>)
    ensures
        r == (match fault_in(*c) {
            Some(fault) => Err(fault),
            None => Ok::<(), CandleFault>(()),
        }),
        r is Ok <==> is_usable(*c),
{
    if !usable_price(c.open) {
        return Err(CandleFault { field: CandleField::Open, value: c.open });
    }
    if !usable_price(c.high) {
        return Err(CandleFault { field: CandleField::High, value: c.high });
    }
    if !usable_price(c.low) {
        return Err(CandleFault { field: CandleField::Low, value: c.low });
    }
    if !usable_price(c.close) {
        return Err(CandleFault { field: CandleField::Close, value: c.close });
    }
    if !c.volume.is_finite() || c.volume.is_negative() {
        return Err(CandleFault { field: CandleField::Volume, value: c.volume });
    }
    Ok(())
}

/// The first row of a candle file, counted from zero, that is unreadable or
/// cannot be used, is the one at `i`.
pub open spec fn first_bad_row(rows: Seq<Option<Candle>>, i: int) -> bool {
    &&& 0 <= i < rows.len()
    &&& rows[i] is None || !is_usable(rows[i]->0)
    &&& forall|k: int| 0 <= k < i ==> (#[trigger] rows[k]) is Some && is_usable(rows[k]->0)
}

/// The error for a bad row: its line, one for the header and one because lines
/// count from one, and what is wrong with it.
pub open spec fn row_error(row: Option<Candle>, i: int) -> Error {
    match row {
        None => Error::Unreadable { row: (i + 2) as u128 },
        Some(c) => Error::Row { row: (i + 2) as u128, fault: fault_in(c)->0 },
    }
}

/// Take over the rows of a candle file in order, up to the first that is
/// unreadable or holds a candle that cannot be used.
pub fn load_rows(rows: &Vec<Option<Candle>>) -> (r: Result<Vec<Candle>, Error>)
    ensures
        r is Ok <==> forall|i: int| 0 <= i < rows@.len() ==> (#[trigger] rows@[i]) is Some && is_usable(rows@[i]->0),
        r is Ok ==> r->Ok_0@ == rows@.map_values(|row: Option<Candle>| row->0),
        r is Err ==> exists|i: int| #[trigger]
            first_bad_row(rows@, i) && r->Err_0 == row_error(rows@[i], i),
{
    let mut out: Vec<Candle> = Vec::new();
    let mut i: usize = 0;
    while i < rows.len()
        invariant
            i <= rows@.len(),
            out@ == rows@.take(i as int).map_values(|row: Option<Candle>| row->0),
            forall|k: int| 0 <= k < i ==> (#[trigger] rows@[k]) is Some && is_usable(rows@[k]->0),
        decreases rows@.len() - i,
    {
        match rows[i] {
            None => {
                assert(first_bad_row(rows@, i as int));
                return Err(Error::Unreadable { row: i as u128 + 2 });
            },
            Some(candle) => {
                match validate_candle(&candle) {
                    Err(fault) => {
                        assert(first_bad_row(rows@, i as int));
                        return Err(Error::Row { row: i as u128 + 2, fault });
                    },
                    Ok(()) => {},
                }
                out.push(candle);
            },
        }
        i = i + 1;
        assert(out@ =~= rows@.take(i as int).map_values(|row: Option<Candle>| row->0));
    }
    assert(rows@.take(i as int) =~= rows@);
    Ok(out)
}

/// Sort candles by time; candles that share a time keep their order.
pub fn sort_chronological(candles: Vec<Candle>) -> (r: Vec<Candle>)
    ensures
        sorts(candles@, r@),
{
    stable_sort(candles)
}

/// The candles of one series, with its index.
pub open spec fn tagged(candles: Seq<Candle>, series: usize) -> Seq<Tagged> {
    candles.map_values(|candle: Candle| Tagged { series, candle })
}

/// Series as values: each symbol's text with its candles.
pub open spec fn series_of(entries: Seq<(Symbol, Vec<Candle>)>) -> Seq<(Seq<char>, Seq<Candle>)> {
    entries.map_values(|e: (Symbol, Vec<Candle>)| (e.0@, e.1@))
}

/// The candles of all series, one series after the other.
pub open spec fn all_tagged(series: Seq<(Seq<char>, Seq<Candle>)>) -> Seq<Tagged>
    decreases series.len(),
{
    if series.len() == 0 {
        Seq::empty()
    } else {
        all_tagged(series.drop_last()) + tagged(series.last().1, (series.len() - 1) as usize)
    }
}

/// Merge series into one stream in order of time. Where times are equal, the
/// series that was attached first comes first, and within a series the order
/// is kept.
pub fn merge_series(series: &Vec<(Symbol, Vec<Candle>)>) -> (r: Vec<Tagged>)
    ensures
        sorts(all_tagged(series_of(series@)), r@),
        forall|i: int| 0 <= i < r@.len() ==> (#[trigger] r@[i]).series < series@.len(),
{
    let mut all: Vec<Tagged> = Vec::new();
    let mut s: usize = 0;
    let ghost views = series_of(series@);
    assert(views.take(0) =~= Seq::empty());
    while s < series.len()
        invariant
            s <= series@.len(),
            views == series_of(series@),
            all@ == all_tagged(views.take(s as int)),
            forall|i: int| 0 <= i < all@.len() ==> (#[trigger] all@[i]).series < s,
        decreases series@.len() - s,
    {
        let ghost before = all@;
        let ghost own = views[s as int].1;
        let mut k: usize = 0;
        while k < series[s].1.len()
            invariant
                s < series@.len(),
                own == series@[s as int].1@,
                k <= own.len(),
                all@ == before + tagged(own.take(k as int), s),
                forall|i: int| 0 <= i < all@.len() ==> (#[trigger] all@[i]).series < s + 1,
            decreases own.len() - k,
        {
            let candle = series[s].1[k];
            all.push(Tagged { series: s, candle });
            k = k + 1;
            assert(all@ =~= before + tagged(own.take(k as int), s));
        }
        proof {
            assert(own.take(k as int) =~= own);
            assert(views.take(s + 1).drop_last() =~= views.take(s as int));
            assert(views.take(s + 1).last() == views[s as int]);
        }
        s = s + 1;
    }
    assert(views.take(s as int) =~= views);
    let merged = stable_sort(all);
    proof {
        broadcast use vstd::seq_lib::group_to_multiset_ensures;

        assert forall|i: int| 0 <= i < merged@.len() implies (#[trigger] merged@[i]).series < series@.len() by {
            assert(merged@.to_multiset().contains(merged@[i]));
            assert(all@.to_multiset().contains(merged@[i]));
            assert(all@.contains(merged@[i]));
        }
    }
    merged
}

/// The series without that of the given symbol.
pub open spec fn without(series: Seq<(Seq<char>, Seq<Candle>)>, symbol: Seq<char>) -> Seq<
    (Seq<char>, Seq<Candle>),
> {
    series.filter(|e: (Seq<char>, Seq<Candle>)| e.0 != symbol)
}

/// Attach a series. An earlier series of the same symbol gives way to it, and
/// the new one comes last.
pub fn attach_series(series: &mut Vec<(Symbol, Vec<Candle>)>, symbol: Symbol, candles: Vec<Candle>)
    ensures
        series_of(final(series)@) == without(series_of(old(series)@), symbol@).push(
            (symbol@, candles@),
        ),
{
    let ghost before = series_of(series@);
    let ghost (text, own) = (symbol@, candles@);
    let mut i: usize = 0;
    proof {
        reveal(Seq::filter);
        assert(before.take(0) =~= Seq::empty());
        assert(before.skip(0) =~= before);
        assert(series_of(series@) =~= without(before.take(0), text) + before.skip(0));
    }
    let ghost mut seen: int = 0;
    while i < series.len()
        invariant
            i <= series@.len(),
            0 <= seen <= before.len(),
            text == symbol@,
            own == candles@,
            i == without(before.take(seen), text).len(),
            series_of(series@) == without(before.take(seen), text) + before.skip(seen),
        decreases series@.len() - i,
    {
        let ghost now = series_of(series@);
        proof {
            reveal(Seq::filter);
            assert(before.take(seen + 1).drop_last() =~= before.take(seen));
            assert(before.take(seen + 1).last() == before[seen]);
            assert(now[i as int] == before[seen]);
        }
        if series[i].0 == symbol {
            let _ = series.remove(i);
            assert(series_of(series@) =~= now.remove(i as int));
        } else {
            i = i + 1;
        }
        proof {
            assert(series_of(series@) =~= without(before.take(seen + 1), text) + before.skip(seen + 1));
            seen = seen + 1;
        }
    }
    proof {
        assert(seen == before.len());
        assert(before.take(seen) =~= before);
        assert(before.skip(seen) =~= Seq::empty());
    }
    series.push((symbol, candles));
    assert(series_of(series@) =~= without(before, text).push((text, own)));
}

/// The position of the first bad row is the only one that is: a refused file
/// has one reason.
pub proof fn refused_file_has_one_reason(rows: Seq<Option<Candle>>, i: int, j: int)
    requires
        first_bad_row(rows, i),
        first_bad_row(rows, j),
    ensures
        i == j,
        row_error(rows[i], i) == row_error(rows[j], j),
{
    if i < j {
        assert(is_usable(rows[i]->0));
    } else if j < i {
        assert(is_usable(rows[j]->0));
    }
}

/// A candle can be used exactly where its four prices are finite and above zero
/// and its volume is finite and not below zero.
pub proof fn usable_candles_have_usable_numbers(c: Candle)
    ensures
        is_usable(c) <==> {
            let zero = Binary64::spec_zero();
            &&& c.open.spec_is_finite() && zero.spec_lt(c.open)
            &&& c.high.spec_is_finite() && zero.spec_lt(c.high)
            &&& c.low.spec_is_finite() && zero.spec_lt(c.low)
            &&& c.close.spec_is_finite() && zero.spec_lt(c.close)
            &&& c.volume.spec_is_finite() && zero.spec_le(c.volume)
        },
        fault_in(c) is None <==> is_usable(c),
{
}

/// A fault names the first number of a candle that cannot be used, in the order
/// open, high, low, close, volume, and gives that number.
pub proof fn faults_name_the_first_bad_number(c: Candle)
    ensures
        fault_in(c) matches Some(fault) ==> {
            let zero = Binary64::spec_zero();
            let open = c.open.spec_is_finite() && zero.spec_lt(c.open);
            let high = c.high.spec_is_finite() && zero.spec_lt(c.high);
            let low = c.low.spec_is_finite() && zero.spec_lt(c.low);
            let close = c.close.spec_is_finite() && zero.spec_lt(c.close);
            let volume = c.volume.spec_is_finite() && zero.spec_le(c.volume);
            match fault.field {
                CandleField::Open => !open && fault.value == c.open,
                CandleField::High => open && !high && fault.value == c.high,
                CandleField::Low => open && high && !low && fault.value == c.low,
                CandleField::Close => open && high && low && !close && fault.value == c.close,
                CandleField::Volume => open && high && low && close && !volume && fault.value
                    == c.volume,
            }
        },
{
}

/// A refused file is refused for its first bad row: every row before it is
/// readable and usable, and the error gives the line that the row stands on,
/// with the header as the first line, and what is wrong with it.
pub proof fn refusals_name_the_first_bad_row(rows: Seq<Option<Candle>>, i: int)
    requires
        first_bad_row(rows, i),
        i + 2 <= u128::MAX,
    ensures
        rows[i] is None || fault_in(rows[i]->0) is Some,
        forall|k: int|
            0 <= k < i ==> (#[trigger] rows[k]) is Some && fault_in(rows[k]->0) is None,
        rows[i] is None ==> row_error(rows[i], i) == (Error::Unreadable { row: (i + 2) as u128 }),
        rows[i] is Some ==> row_error(rows[i], i) is Row && row_error(rows[i], i)->Row_row == i + 2
            && Some(row_error(rows[i], i)->Row_fault) == fault_in(rows[i]->0),
{
}

/// The candles of all series together are those of each, under its own index,
/// one series after the other.
pub proof fn tagged_candles_come_from_their_series(series: Seq<(Seq<char>, Seq<Candle>)>, k: int)
    requires
        0 <= k < all_tagged(series).len(),
        series.len() <= usize::MAX,
    ensures
        ({
            let x = all_tagged(series)[k];
            &&& x.series < series.len()
            &&& series[x.series as int].1.contains(x.candle)
            &&& forall|m: int| k <= m < all_tagged(series).len() ==> x.series <= (
            #[trigger] all_tagged(series)[m]).series
        }),
    decreases series.len(),
{
    let rest = series.drop_last();
    let before = all_tagged(rest);
    let own = tagged(series.last().1, (series.len() - 1) as usize);
    assert(all_tagged(series) == before + own);
    if k < before.len() {
        tagged_candles_come_from_their_series(rest, k);
        assert(all_tagged(series)[k] == before[k]);
        assert(rest[before[k].series as int] == series[before[k].series as int]);
        assert forall|m: int| k <= m < all_tagged(series).len() implies before[k].series <= (
        #[trigger] all_tagged(series)[m]).series by {
            if m < before.len() {
                assert(all_tagged(series)[m] == before[m]);
            } else {
                assert(all_tagged(series)[m] == own[m - before.len()]);
            }
        }
    } else {
        let x = own[k - before.len()];
        assert(all_tagged(series)[k] == x);
        assert(series.last().1[k - before.len()] == x.candle);
        assert forall|m: int| k <= m < all_tagged(series).len() implies x.series <= (
        #[trigger] all_tagged(series)[m]).series by {
            assert(all_tagged(series)[m] == own[m - before.len()]);
        }
    }
}

/// One more series adds all of its candles, in order and under the next index,
/// and changes none of the others.
pub proof fn series_are_tagged_in_turn(series: Seq<(Seq<char>, Seq<Candle>)>, more: (Seq<char>, Seq<Candle>))
    requires
        series.len() < usize::MAX,
    ensures
        ({
            let (before, all) = (all_tagged(series), all_tagged(series.push(more)));
            &&& all.len() == before.len() + more.1.len()
            &&& forall|i: int| 0 <= i < before.len() ==> #[trigger] all[i] == before[i]
            &&& forall|i: int|
                0 <= i < more.1.len() ==> all[before.len() + i].candle == #[trigger] more.1[i]
                    && all[before.len() + i].series == series.len()
        }),
{
    assert(series.push(more).drop_last() =~= series);
}

/// A merged stream runs forward in time. Where two candles share a time, the
/// one of the series that was attached first comes first.
pub proof fn merged_streams_run_forward(
    series: Seq<(Seq<char>, Seq<Candle>)>,
    stream: Seq<Tagged>,
    i: int,
    j: int,
)
    requires
        sorts(all_tagged(series), stream),
        series.len() <= usize::MAX,
        0 <= i < j < stream.len(),
    ensures
        stream[i].candle.time <= stream[j].candle.time,
        stream[i].candle.time == stream[j].candle.time ==> stream[i].series <= stream[j].series,
        stream.len() == all_tagged(series).len(),
{
    let all = all_tagged(series);
    sorting_puts_earlier_records_first(all, stream, i, j);
    assert(stream[i].at() == stream[i].candle.time && stream[j].at() == stream[j].candle.time);
    if stream[i].candle.time == stream[j].candle.time {
        sorting_keeps_ties_in_order(all, stream, i, j);
        let (a, b) = choose|a: int, b: int|
            0 <= a < b < all.len() && #[trigger] all[a] == stream[i] && #[trigger] all[b]
                == stream[j];
        tagged_candles_come_from_their_series(series, a);
        assert(all[a].series <= all[b].series);
    }
}

/// Taking a symbol's series away leaves every other series, in order, and none
/// of that symbol.
pub proof fn attached_series_replace_their_own(
    series: Seq<(Seq<char>, Seq<Candle>)>,
    symbol: Seq<char>,
    more: (Seq<char>, Seq<Candle>),
)
    ensures
        without(series.push(more), symbol) == (if more.0 == symbol {
            without(series, symbol)
        } else {
            without(series, symbol).push(more)
        }),
        series.len() == 0 ==> without(series, symbol).len() == 0,
        forall|i: int|
            0 <= i < without(series, symbol).len() ==> (#[trigger] without(series, symbol)[i]).0
                != symbol,
{
    reveal(Seq::filter);
    assert(series.push(more).drop_last() =~= series);
    none_left(series, symbol);
}

proof fn none_left(series: Seq<(Seq<char>, Seq<Candle>)>, symbol: Seq<char>)
    ensures
        forall|i: int|
            0 <= i < without(series, symbol).len() ==> (#[trigger] without(series, symbol)[i]).0
                != symbol,
    decreases series.len(),
{
    reveal(Seq::filter);
    if series.len() > 0 {
        none_left(series.drop_last(), symbol);
    }
}

} // verus!
