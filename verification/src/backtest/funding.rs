//! Funding settlements of perpetual futures.
//!
//! At each settlement an open position pays or receives `rate × notional`; a
//! positive rate means that longs pay. A hold pays the settlements strictly
//! after its entry, up to and including its exit.

use vstd::arithmetic::div_mod::{lemma_fundamental_div_mod, lemma_fundamental_div_mod_converse};
use vstd::prelude::*;

use crate::backtest::chronology::{
    chronological, sorting_keeps_distinctness, sorts, stable_sort, times_distinct, Timed,
};
use crate::num::Binary64;

verus! {

/// Eight hours in milliseconds.
pub const EIGHT_HOURS_MS: i64 = 28_800_000;

/// One funding settlement.
#[derive(Clone, Copy, Debug, PartialEq, Eq, Structural)]
pub struct Settlement {
    /// Milliseconds since the UNIX epoch.
    pub time: i64,
    /// Rate as a fraction of notional; positive means that longs pay.
    pub rate: Binary64,
}

impl Timed for Settlement {
    open spec fn at(&self) -> i64 {
        self.time
    }

    fn time(&self) -> (r: i64) {
        self.time
    }
}

/// Funding-rate schedule.
#[derive(Debug)]
pub enum FundingModel {
    /// No funding.
    Off,
    /// The same rate at every multiple of `interval_ms` since the epoch.
    Constant {
        /// Rate per settlement.
        rate: Binary64,
        /// Milliseconds between settlements; must be above zero.
        interval_ms: i64,
    },
    /// A historical series of settlements.
    Series(Vec<Settlement>),
}

/// What is wrong with a schedule.
#[derive(Clone, Copy, Debug, PartialEq, Eq, Structural)]
pub enum FundingFault {
    /// A constant rate is infinite or a NaN.
    RateNotFinite {
        /// The rate.
        rate: Binary64,
    },
    /// An interval is zero or negative.
    IntervalNotPositive {
        /// The interval.
        interval_ms: i64,
    },
    /// A rate of the series is infinite or a NaN.
    SeriesRateNotFinite {
        /// The first such settlement.
        settlement: Settlement,
    },
    /// Two settlements share a time, and one would be booked twice.
    DuplicateTimestamps,
}

/// A schedule as a value.
#[verifier::ext_equal]
pub enum FundingView {
    /// No funding.
    Off,
    /// A grid.
    Constant {
        /// Rate per settlement.
        rate: Binary64,
        /// Milliseconds between settlements.
        interval_ms: i64,
    },
    /// A series.
    Series(Seq<Settlement>),
}

impl View for FundingModel {
    type V = FundingView;

    open spec fn view(&self) -> FundingView {
        match *self {
            FundingModel::Off => FundingView::Off,
            FundingModel::Constant { rate, interval_ms } => FundingView::Constant {
                rate,
                interval_ms,
            },
            FundingModel::Series(points) => FundingView::Series(points@),
        }
    }
}

/// The first multiple of `interval` strictly after `after`.
pub open spec fn first_on_grid(after: int, interval: int) -> int {
    (after / interval + 1) * interval
}

/// How many multiples of `interval` lie in `(after, until]`.
pub open spec fn grid_count(after: int, until: int, interval: int) -> nat {
    let first = first_on_grid(after, interval);
    if first > until {
        0
    } else {
        ((until - first) / interval + 1) as nat
    }
}

/// The multiples of `interval` in `(after, until]`, ascending.
pub open spec fn grid(rate: Binary64, interval: int, after: int, until: int) -> Seq<Settlement> {
    Seq::new(
        grid_count(after, until, interval),
        |i: int| Settlement { time: (first_on_grid(after, interval) + i * interval) as i64, rate },
    )
}

/// Whether a settlement lies in `(after, until]`.
pub open spec fn in_window(s: Settlement, after: int, until: int) -> bool {
    after < s.time <= until
}

/// The settlements of a series that lie in `(after, until]`.
pub open spec fn window_of(points: Seq<Settlement>, after: int, until: int) -> Seq<Settlement> {
    points.filter(|s: Settlement| in_window(s, after, until))
}

/// Every rate is a finite number.
pub open spec fn rates_finite(points: Seq<Settlement>) -> bool {
    forall|i: int| 0 <= i < points.len() ==> (#[trigger] points[i]).rate.spec_is_finite()
}

impl FundingView {
    /// The settlements in `(after, until]`.
    pub open spec fn between(self, after: int, until: int) -> Seq<Settlement> {
        match self {
            FundingView::Off => Seq::empty(),
            FundingView::Constant { rate, interval_ms } => if interval_ms <= 0 {
                Seq::empty()
            } else {
                grid(rate, interval_ms as int, after, until)
            },
            FundingView::Series(points) => window_of(points, after, until),
        }
    }

    /// Whether the schedule can be used, if need be after sorting.
    pub open spec fn is_valid(self) -> bool {
        match self {
            FundingView::Off => true,
            FundingView::Constant { rate, interval_ms } => rate.spec_is_finite() && interval_ms > 0,
            FundingView::Series(points) => rates_finite(points) && times_distinct(points),
        }
    }

    /// The schedule's series, if it has one, is in order.
    pub open spec fn is_ordered(self) -> bool {
        self matches FundingView::Series(points) ==> chronological(points)
    }

    /// The schedule is valid and in order.
    pub open spec fn is_normal(self) -> bool {
        self.is_valid() && self.is_ordered()
    }
}

proof fn grid_starts_after(after: int, interval: int)
    requires
        interval > 0,
    ensures
        after < first_on_grid(after, interval) <= after + interval,
        first_on_grid(after, interval) == after - after % interval + interval,
        first_on_grid(after, interval) % interval == 0,
{
    lemma_fundamental_div_mod(after, interval);
    let q = after / interval;
    assert((q + 1) * interval == interval * q + interval) by (nonlinear_arith);
    lemma_fundamental_div_mod_converse(first_on_grid(after, interval), interval, q + 1, 0);
}

proof fn grid_point(after: int, until: int, interval: int, i: int)
    requires
        interval > 0,
        0 <= i,
    ensures
        i < grid_count(after, until, interval) <==> first_on_grid(after, interval) + i * interval
            <= until,
        after < first_on_grid(after, interval) + i * interval,
        (first_on_grid(after, interval) + i * interval) % interval == 0,
{
    let first = first_on_grid(after, interval);
    grid_starts_after(after, interval);
    assert(i * interval >= 0) by (nonlinear_arith)
        requires
            i >= 0,
            interval > 0,
    ;
    let q = after / interval;
    assert((q + 1) * interval + i * interval == (q + 1 + i) * interval) by (nonlinear_arith);
    assert((q + 1 + i) * interval == interval * (q + 1 + i)) by (nonlinear_arith);
    lemma_fundamental_div_mod_converse(first + i * interval, interval, q + 1 + i, 0);
    if first <= until {
        let d = until - first;
        lemma_fundamental_div_mod(d, interval);
        let k = d / interval;
        if i <= k {
            assert(i * interval <= interval * k) by (nonlinear_arith)
                requires
                    i <= k,
                    interval > 0,
            ;
        } else {
            assert(i * interval >= interval * k + interval) by (nonlinear_arith)
                requires
                    i >= k + 1,
                    interval > 0,
            ;
        }
    }
}

impl Default for FundingModel {
    fn default() -> (r: Self)
        ensures
            r == FundingModel::Off,
    {
        FundingModel::Off
    }
}

impl Clone for FundingModel {
    fn clone(&self) -> (r: Self)
        ensures
            r@ == self@,
    {
        match self {
            FundingModel::Off => FundingModel::Off,
            FundingModel::Constant { rate, interval_ms } => FundingModel::Constant {
                rate: *rate,
                interval_ms: *interval_ms,
            },
            FundingModel::Series(points) => {
                let mut copy: Vec<Settlement> = Vec::new();
                let mut i: usize = 0;
                while i < points.len()
                    invariant
                        i <= points@.len(),
                        copy@ == points@.take(i as int),
                    decreases points@.len() - i,
                {
                    copy.push(points[i]);
                    i = i + 1;
                    assert(points@.take(i as int) =~= points@.take(i - 1).push(points@[i - 1]));
                }
                assert(points@.take(i as int) =~= points@);
                FundingModel::Series(copy)
            },
        }
    }
}

impl FundingModel {
    /// A schedule without settlements.
    pub fn off() -> (r: Self)
        ensures
            r@ == FundingView::Off,
    {
        FundingModel::Off
    }

    /// Whether the schedule has any settlements to offer.
    pub fn is_enabled(&self) -> (r: bool)
        ensures
            r == !(self@ is Off),
    {
        match self {
            FundingModel::Off => false,
            _ => true,
        }
    }

    /// The settlements in the half-open window `(after, until]`, in the order
    /// of the schedule: a settlement exactly at `after` is out, one exactly at
    /// `until` is in. Ascending where the series is.
    pub fn settlements_between(&self, after: i64, until: i64) -> (r: Vec<Settlement>)
        ensures
            r@ == self@.between(after as int, until as int),
    {
        match self {
            FundingModel::Off => Vec::new(),
            FundingModel::Constant { rate, interval_ms } => {
                if *interval_ms <= 0 {
                    return Vec::new();
                }
                grid_between(*rate, *interval_ms, after, until)
            },
            FundingModel::Series(points) => series_between(points, after, until),
        }
    }

    /// Check a schedule and put its series in order.
    ///
    /// Rejects rates that are not finite, intervals that are not positive and
    /// series with two settlements at one time.
    pub fn validated(self) -> (r: Result<Self, FundingFault>)
        ensures
            r is Ok <==> self@.is_valid(),
            r is Ok ==> r->Ok_0@.is_normal(),
            r is Ok && !(self@ is Series) ==> r->Ok_0@ == self@,
            r is Ok && self@ is Series ==> r->Ok_0@ is Series && sorts(
                self@->Series_0,
                r->Ok_0@->Series_0,
            ),
            r is Err ==> fault_of(self@, r->Err_0),
    {
        match self {
            FundingModel::Off => Ok(FundingModel::Off),
            FundingModel::Constant { rate, interval_ms } => {
                if !rate.is_finite() {
                    return Err(FundingFault::RateNotFinite { rate });
                }
                if interval_ms <= 0 {
                    return Err(FundingFault::IntervalNotPositive { interval_ms });
                }
                Ok(FundingModel::Constant { rate, interval_ms })
            },
            FundingModel::Series(points) => {
                let ghost original = points@;
                let mut i: usize = 0;
                while i < points.len()
                    invariant
                        i <= points@.len(),
                        points@ == original,
                        self@ == FundingView::Series(original),
                        forall|k: int| 0 <= k < i ==> (#[trigger] points@[k]).rate.spec_is_finite(),
                    decreases points@.len() - i,
                {
                    if !points[i].rate.is_finite() {
                        assert(!rates_finite(original));
                        assert(first_bad_rate(original, i as int));
                        return Err(FundingFault::SeriesRateNotFinite { settlement: points[i] });
                    }
                    i = i + 1;
                }
                let sorted = stable_sort(points);
                proof {
                    sorting_keeps_rates(original, sorted@);
                    sorting_keeps_distinctness(original, sorted@);
                }
                let mut k: usize = 1;
                while k < sorted.len()
                    invariant
                        1 <= k,
                        k <= sorted@.len() || sorted@.len() == 0,
                        chronological(sorted@),
                        self@ == FundingView::Series(original),
                        rates_finite(original),
                        times_distinct(original) <==> times_distinct(sorted@),
                        forall|a: int, b: int|
                            0 <= a < b < k && b < sorted@.len() ==> (#[trigger] sorted@[a]).at() != (#[trigger] sorted@[b]).at(),
                    decreases sorted@.len() - k,
                {
                    if sorted[k - 1].time == sorted[k].time {
                        assert(sorted@[k - 1].at() == sorted@[k as int].at());
                        assert(!times_distinct(sorted@));
                        return Err(FundingFault::DuplicateTimestamps);
                    }
                    assert forall|a: int, b: int| 0 <= a < b < k + 1 && b < sorted@.len() implies (#[trigger] sorted@[a]).at()
                        != (#[trigger] sorted@[b]).at() by {
                        if b == k {
                            assert(sorted@[a].at() <= sorted@[k - 1].at());
                            assert(sorted@[k - 1].at() <= sorted@[k as int].at());
                        }
                    }
                    k = k + 1;
                }
                assert(times_distinct(sorted@));
                Ok(FundingModel::Series(sorted))
            },
        }
    }
}

/// Whether the rate at `i` is the first in the series that is not finite.
pub open spec fn first_bad_rate(points: Seq<Settlement>, i: int) -> bool {
    &&& 0 <= i < points.len()
    &&& !points[i].rate.spec_is_finite()
    &&& forall|k: int| 0 <= k < i ==> (#[trigger] points[k]).rate.spec_is_finite()
}

/// Whether a fault is the one that the check of a schedule reports: rates come
/// before intervals, and before duplicate times.
pub open spec fn fault_of(model: FundingView, fault: FundingFault) -> bool {
    match model {
        FundingView::Off => false,
        FundingView::Constant { rate, interval_ms } => if !rate.spec_is_finite() {
            fault == (FundingFault::RateNotFinite { rate })
        } else {
            fault == (FundingFault::IntervalNotPositive { interval_ms }) && interval_ms <= 0
        },
        FundingView::Series(points) => if rates_finite(points) {
            fault == FundingFault::DuplicateTimestamps && !times_distinct(points)
        } else {
            exists|i: int| #[trigger]
                first_bad_rate(points, i) && fault == (FundingFault::SeriesRateNotFinite {
                    settlement: points[i],
                })
        },
    }
}

/// A schedule is refused for one reason only.
pub proof fn fault_is_unique(model: FundingView, f: FundingFault, g: FundingFault)
    requires
        fault_of(model, f),
        fault_of(model, g),
    ensures
        f == g,
        !model.is_valid(),
{
    if let FundingView::Series(points) = model {
        if !rates_finite(points) {
            let i = choose|i: int| #[trigger]
                first_bad_rate(points, i) && f == (FundingFault::SeriesRateNotFinite {
                    settlement: points[i],
                });
            let j = choose|j: int| #[trigger]
                first_bad_rate(points, j) && g == (FundingFault::SeriesRateNotFinite {
                    settlement: points[j],
                });
            if i < j {
                assert(points[i].rate.spec_is_finite());
            } else if j < i {
                assert(points[j].rate.spec_is_finite());
            }
        }
    }
}

fn grid_between(rate: Binary64, interval: i64, after: i64, until: i64) -> (r: Vec<Settlement>)
    requires
        interval > 0,
    ensures
        r@ == grid(rate, interval as int, after as int, until as int),
{
    let ghost first = first_on_grid(after as int, interval as int);
    proof {
        grid_starts_after(after as int, interval as int);
    }
    let rem: i64 = match after.checked_rem_euclid(interval) {
        Some(x) => x,
        None => 0,
    };
    let mut t: i128 = after as i128 - rem as i128 + interval as i128;
    let mut out: Vec<Settlement> = Vec::new();
    assert(0 * interval == 0);
    while t <= until as i128
        invariant
            interval > 0,
            first == first_on_grid(after as int, interval as int),
            t == first + out@.len() * interval,
            t <= i64::MAX + interval,
            after < first,
            out@.len() <= grid_count(after as int, until as int, interval as int),
            forall|i: int|
                0 <= i < out@.len() ==> #[trigger] out@[i] == (Settlement {
                    time: (first + i * interval) as i64,
                    rate,
                }),
        decreases until + interval - t,
    {
        let ghost n = out@.len() as int;
        proof {
            grid_point(after as int, until as int, interval as int, n);
            assert((n + 1) * interval == n * interval + interval) by (nonlinear_arith);
        }
        out.push(Settlement { time: t as i64, rate });
        t = t + interval as i128;
    }
    proof {
        grid_point(after as int, until as int, interval as int, out@.len() as int);
        assert(out@ =~= grid(rate, interval as int, after as int, until as int));
    }
    out
}

fn series_between(points: &Vec<Settlement>, after: i64, until: i64) -> (r: Vec<Settlement>)
    ensures
        r@ == window_of(points@, after as int, until as int),
{
    let mut out: Vec<Settlement> = Vec::new();
    let mut i: usize = 0;
    proof {
        reveal(Seq::filter);
        assert(points@.take(0) =~= Seq::empty());
    }
    while i < points.len()
        invariant
            i <= points@.len(),
            out@ == window_of(points@.take(i as int), after as int, until as int),
        decreases points@.len() - i,
    {
        let s = points[i];
        proof {
            reveal(Seq::filter);
            assert(points@.take(i + 1).drop_last() =~= points@.take(i as int));
        }
        if after < s.time && s.time <= until {
            out.push(s);
        }
        i = i + 1;
    }
    assert(points@.take(i as int) =~= points@);
    out
}

proof fn sorting_keeps_rates(s: Seq<Settlement>, sorted: Seq<Settlement>)
    requires
        sorts(s, sorted),
        rates_finite(s),
    ensures
        rates_finite(sorted),
{
    broadcast use vstd::seq_lib::group_to_multiset_ensures;

    assert forall|i: int| 0 <= i < sorted.len() implies (#[trigger] sorted[i]).rate.spec_is_finite() by {
        assert(sorted.to_multiset().contains(sorted[i]));
        assert(s.to_multiset().contains(sorted[i]));
        assert(s.contains(sorted[i]));
    }
}

/// A grid settles at exactly the multiples of its interval: a time in the
/// window is settled if and only if the interval divides it.
pub proof fn grid_settles_every_multiple(rate: Binary64, interval: i64, after: i64, until: i64, t: i64)
    requires
        interval > 0,
    ensures
        grid(rate, interval as int, after as int, until as int).contains(Settlement { time: t, rate })
            <==> after < t <= until && (t as int) % (interval as int) == 0,
{
    let n = interval as int;
    let points = grid(rate, n, after as int, until as int);
    let first = first_on_grid(after as int, n);
    grid_starts_after(after as int, n);
    if points.contains(Settlement { time: t, rate }) {
        let i = choose|i: int| 0 <= i < points.len() && points[i] == (Settlement { time: t, rate });
        grid_point(after as int, until as int, n, i);
        assert(points[i].time == (first + i * n) as i64);
    }
    if after < t <= until && (t as int) % n == 0 {
        lemma_fundamental_div_mod(t as int, n);
        lemma_fundamental_div_mod(after as int, n);
        let q = (t as int) / n;
        let p = (after as int) / n;
        assert(q > p) by (nonlinear_arith)
            requires
                n * q > n * p,
                n > 0,
        ;
        let i = q - p - 1;
        assert((p + 1) * n + i * n == n * q) by (nonlinear_arith)
            requires
                i == q - p - 1,
        ;
        grid_point(after as int, until as int, n, i);
        assert(points[i] == (Settlement { time: t, rate }));
    }
}

/// The settlements of a window that is cut in two are those of its parts: none
/// is lost and none is booked twice. It takes no more than a series that is in
/// order.
pub proof fn windows_join(model: FundingView, a: i64, b: i64, c: i64)
    requires
        a <= b <= c,
        model.is_ordered(),
    ensures
        model.between(a as int, c as int) == model.between(a as int, b as int) + model.between(
            b as int,
            c as int,
        ),
{
    match model {
        FundingView::Off => {
            assert(model.between(a as int, c as int) =~= model.between(a as int, b as int)
                + model.between(b as int, c as int));
        },
        FundingView::Constant { rate, interval_ms } => {
            if interval_ms > 0 {
                grid_windows_join(rate, interval_ms as int, a as int, b as int, c as int);
            } else {
                assert(model.between(a as int, c as int) =~= model.between(a as int, b as int)
                    + model.between(b as int, c as int));
            }
        },
        FundingView::Series(points) => {
            series_windows_join(points, a as int, b as int, c as int);
        },
    }
}

proof fn grid_windows_join(rate: Binary64, n: int, a: int, b: int, c: int)
    requires
        n > 0,
        a <= b <= c,
    ensures
        grid(rate, n, a, c) == grid(rate, n, a, b) + grid(rate, n, b, c),
{
    let (fa, fb) = (first_on_grid(a, n), first_on_grid(b, n));
    let k = grid_count(a, b, n) as int;
    lemma_fundamental_div_mod(a, n);
    lemma_fundamental_div_mod(b, n);
    grid_starts_after(a, n);
    grid_starts_after(b, n);
    // The first multiple after `b` is `k` steps above the first after `a`.
    grid_point(a, b, n, k);
    if k > 0 {
        grid_point(a, b, n, k - 1);
    }
    let (p, q) = (a / n, b / n);
    assert(fa + k * n == (p + 1 + k) * n) by (nonlinear_arith)
        requires
            fa == (p + 1) * n,
    ;
    assert(k > 0 ==> fa + (k - 1) * n == (p + k) * n) by (nonlinear_arith)
        requires
            fa == (p + 1) * n,
    ;
    assert(p + k == q) by (nonlinear_arith)
        requires
            n > 0,
            b == n * q + b % n,
            a == n * p + a % n,
            0 <= b % n < n,
            0 <= a % n < n,
            a <= b,
            k >= 0,
            (p + 1 + k) * n > b,
            k > 0 ==> (p + k) * n <= b,
    ;
    assert(fb == fa + k * n);
    let whole = grid(rate, n, a, c);
    let parts = grid(rate, n, a, b) + grid(rate, n, b, c);
    let m = grid_count(b, c, n) as int;
    // Membership in the whole, step by step, is membership in one of the parts.
    assert(grid_count(a, c, n) == k + m) by {
        grid_point(a, c, n, k + m);
        grid_point(b, c, n, m);
        assert(fa + (k + m) * n == fb + m * n) by (nonlinear_arith)
            requires
                fb == fa + k * n,
        ;
        if m > 0 {
            grid_point(a, c, n, k + m - 1);
            grid_point(b, c, n, m - 1);
            assert(fa + (k + m - 1) * n == fb + (m - 1) * n) by (nonlinear_arith)
                requires
                    fb == fa + k * n,
            ;
        } else if k > 0 {
            grid_point(a, c, n, k - 1);
        }
    }
    assert forall|i: int| 0 <= i < whole.len() implies whole[i] == parts[i] by {
        if i >= k {
            assert(fa + i * n == fb + (i - k) * n) by (nonlinear_arith)
                requires
                    fb == fa + k * n,
            ;
        }
    }
    assert(whole =~= parts);
}

proof fn series_windows_join(points: Seq<Settlement>, a: int, b: int, c: int)
    requires
        a <= b <= c,
        chronological(points),
    ensures
        window_of(points, a, c) == window_of(points, a, b) + window_of(points, b, c),
    decreases points.len(),
{
    reveal(Seq::filter);
    if points.len() > 0 {
        let prefix = points.drop_last();
        series_windows_join(prefix, a, b, c);
        let last = points.last();
        if in_window(last, a, b) {
            assert forall|i: int| 0 <= i < prefix.len() implies !in_window(#[trigger] prefix[i], b, c) by {
                assert(points[i].at() <= points[points.len() - 1].at());
            }
            none_in_window(prefix, b, c);
        }
        assert(window_of(points, a, c) =~= window_of(points, a, b) + window_of(points, b, c));
    } else {
        assert(window_of(points, a, c) =~= window_of(points, a, b) + window_of(points, b, c));
    }
}

proof fn none_in_window(points: Seq<Settlement>, a: int, b: int)
    requires
        forall|i: int| 0 <= i < points.len() ==> !in_window(#[trigger] points[i], a, b),
    ensures
        window_of(points, a, b) == Seq::<Settlement>::empty(),
    decreases points.len(),
{
    reveal(Seq::filter);
    if points.len() > 0 {
        none_in_window(points.drop_last(), a, b);
    }
}

/// Whatever falls due in a window lies in it.
pub proof fn settlements_lie_in_the_window(model: FundingView, after: i64, until: i64, s: Settlement)
    requires
        model.between(after as int, until as int).contains(s),
    ensures
        in_window(s, after as int, until as int),
{
    let found = model.between(after as int, until as int);
    let i = choose|i: int| 0 <= i < found.len() && found[i] == s;
    match model {
        FundingView::Off => {},
        FundingView::Constant { rate, interval_ms } => {
            assert(s.rate == rate);
            grid_settles_every_multiple(rate, interval_ms, after, until, s.time);
        },
        FundingView::Series(points) => {
            points.lemma_filter_pred(
                |x: Settlement| in_window(x, after as int, until as int),
                i,
            );
        },
    }
}

/// A settlement exactly at the start of a window is not in it, and one exactly
/// at its end is.
pub proof fn window_is_entry_exclusive_exit_inclusive(s: Settlement, after: i64, until: i64)
    requires
        after < until,
    ensures
        s.time == after ==> !in_window(s, after as int, until as int),
        s.time == until ==> in_window(s, after as int, until as int),
{
}

/// Two settlements share a record's time exactly where their times are equal.
pub proof fn times_are_those_of_settlements(points: Seq<Settlement>)
    ensures
        times_distinct(points) <==> forall|i: int, j: int|
            0 <= i < j < points.len() ==> (#[trigger] points[i]).time != (#[trigger] points[j]).time,
        chronological(points) <==> forall|i: int, j: int|
            0 <= i <= j < points.len() ==> (#[trigger] points[i]).time <= (#[trigger] points[j]).time,
{
    assert(forall|i: int| 0 <= i < points.len() ==> (#[trigger] points[i]).at() == points[i].time);
    if forall|i: int, j: int|
        0 <= i < j < points.len() ==> (#[trigger] points[i]).time != (#[trigger] points[j]).time {
        assert forall|i: int, j: int| 0 <= i < j < points.len() implies (#[trigger] points[i]).at()
            != (#[trigger] points[j]).at() by {}
    }
    if times_distinct(points) {
        assert forall|i: int, j: int| 0 <= i < j < points.len() implies (
        #[trigger] points[i]).time != (#[trigger] points[j]).time by {
            assert(points[i].at() != points[j].at());
        }
    }
    if chronological(points) {
        assert forall|i: int, j: int| 0 <= i <= j < points.len() implies (
        #[trigger] points[i]).time <= (#[trigger] points[j]).time by {
            assert(points[i].at() <= points[j].at());
        }
    }
    if forall|i: int, j: int|
        0 <= i <= j < points.len() ==> (#[trigger] points[i]).time <= (#[trigger] points[j]).time {
        assert forall|i: int, j: int| 0 <= i <= j < points.len() implies (#[trigger] points[i]).at()
            <= (#[trigger] points[j]).at() by {}
    }
}

/// What falls due in a window is exactly what the schedule settles strictly
/// after its start and no later than its end: of a grid the multiples of its
/// interval, at its rate, of a series its own settlements, and without funding
/// nothing.
pub proof fn windows_hold_what_they_settle(model: FundingView, after: i64, until: i64, s: Settlement)
    ensures
        model.between(after as int, until as int).contains(s) <==> after < s.time <= until && match model {
            FundingView::Off => false,
            FundingView::Constant { rate, interval_ms } => interval_ms > 0 && s.rate == rate && (
            s.time as int) % (interval_ms as int) == 0,
            FundingView::Series(points) => points.contains(s),
        },
{
    let found = model.between(after as int, until as int);
    match model {
        FundingView::Off => {},
        FundingView::Constant { rate, interval_ms } => {
            if interval_ms > 0 {
                grid_settles_every_multiple(rate, interval_ms, after, until, s.time);
                if found.contains(s) {
                    let i = choose|i: int| 0 <= i < found.len() && found[i] == s;
                    assert(found[i].rate == rate);
                    assert(s == (Settlement { time: s.time, rate }));
                } else if s.rate == rate {
                    assert(s == (Settlement { time: s.time, rate }));
                }
            }
        },
        FundingView::Series(points) => {
            let keep = |x: Settlement| in_window(x, after as int, until as int);
            if found.contains(s) {
                let i = choose|i: int| 0 <= i < found.len() && found[i] == s;
                points.lemma_filter_contains_rev(keep, s);
                points.lemma_filter_pred(keep, i);
            }
            if points.contains(s) && after < s.time <= until {
                let i = choose|i: int| 0 <= i < points.len() && points[i] == s;
                points.lemma_filter_contains(keep, i);
            }
        },
    }
}

/// What falls due comes in order of time where the schedule is in order, and a
/// grid settles no time twice.
pub proof fn settlements_come_in_order(model: FundingView, after: i64, until: i64, i: int, j: int)
    requires
        model.is_ordered(),
        0 <= i < j < model.between(after as int, until as int).len(),
    ensures
        model.between(after as int, until as int)[i].time <= model.between(
            after as int,
            until as int,
        )[j].time,
        model is Constant ==> model.between(after as int, until as int)[i].time < model.between(
            after as int,
            until as int,
        )[j].time,
{
    match model {
        FundingView::Off => {},
        FundingView::Constant { rate, interval_ms } => {
            let n = interval_ms as int;
            grid_point(after as int, until as int, n, i);
            grid_point(after as int, until as int, n, j);
            let first = first_on_grid(after as int, n);
            assert(first + i * n < first + j * n) by (nonlinear_arith)
                requires
                    i < j,
                    n > 0,
            ;
        },
        FundingView::Series(points) => {
            window_keeps_order(points, after as int, until as int, i, j);
        },
    }
}

proof fn window_keeps_order(points: Seq<Settlement>, a: int, b: int, i: int, j: int)
    requires
        chronological(points),
        0 <= i < j < window_of(points, a, b).len(),
    ensures
        window_of(points, a, b)[i].time <= window_of(points, a, b)[j].time,
    decreases points.len(),
{
    reveal(Seq::filter);
    if points.len() > 0 {
        let rest = points.drop_last();
        let inner = window_of(rest, a, b);
        if j < inner.len() {
            window_keeps_order(rest, a, b, i, j);
        } else {
            let keep = |x: Settlement| in_window(x, a, b);
            assert(inner.contains(inner[i]));
            rest.lemma_filter_contains_rev(keep, inner[i]);
            let k = choose|k: int| 0 <= k < rest.len() && rest[k] == inner[i];
            assert(points[k].at() <= points[points.len() - 1].at());
        }
    }
}

/// A schedule can be used exactly where its rates are finite and, for a grid,
/// its interval is positive or, for a series, no two settlements share a time.
pub proof fn usable_schedules(model: FundingView)
    ensures
        model.is_valid() <==> match model {
            FundingView::Off => true,
            FundingView::Constant { rate, interval_ms } => rate.spec_is_finite() && interval_ms > 0,
            FundingView::Series(points) => {
                &&& forall|i: int|
                    0 <= i < points.len() ==> (#[trigger] points[i]).rate.spec_is_finite()
                &&& forall|i: int, j: int|
                    0 <= i < j < points.len() ==> (#[trigger] points[i]).time != (
                    #[trigger] points[j]).time
            },
        },
{
    if let FundingView::Series(points) = model {
        times_are_those_of_settlements(points);
    }
}

/// A fault names what is wrong: a rate that is not finite, and only then an
/// interval that is not positive or two settlements at one time.
pub proof fn faults_name_what_is_wrong(model: FundingView, fault: FundingFault)
    requires
        fault_of(model, fault),
    ensures
        !model.is_valid(),
        match fault {
            FundingFault::RateNotFinite { rate } => model is Constant && model->rate == rate
                && !rate.spec_is_finite(),
            FundingFault::IntervalNotPositive { interval_ms } => model is Constant
                && model->interval_ms == interval_ms && interval_ms <= 0
                && model->rate.spec_is_finite(),
            FundingFault::SeriesRateNotFinite { settlement } => model is Series
                && !settlement.rate.spec_is_finite() && exists|i: int|
                0 <= i < model->Series_0.len() && #[trigger] model->Series_0[i] == settlement && (
                forall|k: int|
                    0 <= k < i ==> (#[trigger] model->Series_0[k]).rate.spec_is_finite()),
            FundingFault::DuplicateTimestamps => model is Series && (forall|k: int|
                0 <= k < model->Series_0.len() ==> (
                #[trigger] model->Series_0[k]).rate.spec_is_finite()) && exists|i: int, j: int|
                0 <= i < j < model->Series_0.len() && (#[trigger] model->Series_0[i]).time == (
                #[trigger] model->Series_0[j]).time,
        },
{
    if let FundingView::Series(points) = model {
        times_are_those_of_settlements(points);
        if rates_finite(points) {
            let (i, j) = choose|i: int, j: int|
                0 <= i < j < points.len() && (#[trigger] points[i]).time == (
                #[trigger] points[j]).time;
            assert(points[i].time == points[j].time);
        }
    }
}

} // verus!
