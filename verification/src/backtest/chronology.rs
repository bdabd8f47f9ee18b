//! Ordering records by time without disturbing the order of those that share a
//! time.

use vstd::prelude::*;

use crate::domain::types::Candle;

verus! {

/// A record with a time, in milliseconds since the UNIX epoch.
pub trait Timed: Copy {
    /// The record's time.
    spec fn at(&self) -> i64;

    /// The record's time.
    fn time(&self) -> (r: i64)
        ensures
            r == self.at(),
    ;
}

impl Timed for Candle {
    open spec fn at(&self) -> i64 {
        self.time
    }

    fn time(&self) -> (r: i64) {
        self.time
    }
}

/// A candle with the index of the series it comes from.
#[derive(Clone, Copy, Debug, PartialEq, Eq, Structural)]
pub struct Tagged {
    /// Index of the series.
    pub series: usize,
    /// The candle.
    pub candle: Candle,
}

impl Timed for Tagged {
    open spec fn at(&self) -> i64 {
        self.candle.time
    }

    fn time(&self) -> (r: i64) {
        self.candle.time
    }
}

/// Times never go back.
pub open spec fn chronological<T: Timed>(s: Seq<T>) -> bool {
    forall|i: int, j: int| 0 <= i <= j < s.len() ==> (#[trigger] s[i]).at() <= (#[trigger] s[j]).at()
}

/// Picks the records of one time.
pub open spec fn of_time<T: Timed>(t: i64) -> spec_fn(T) -> bool {
    |x: T| x.at() == t
}

/// The records of one time, in the order they stand in.
pub open spec fn at_time<T: Timed>(s: Seq<T>, t: i64) -> Seq<T> {
    s.filter(of_time(t))
}

/// No two records share a time.
pub open spec fn times_distinct<T: Timed>(s: Seq<T>) -> bool {
    forall|i: int, j: int| 0 <= i < j < s.len() ==> (#[trigger] s[i]).at() != (#[trigger] s[j]).at()
}

/// Whether `sorted` is `s` put in order of time, with records that share a time
/// left in the order they had.
pub open spec fn sorts<T: Timed>(s: Seq<T>, sorted: Seq<T>) -> bool {
    &&& chronological(sorted)
    &&& forall|t: i64| #[trigger] at_time(sorted, t) == at_time(s, t)
    &&& sorted.to_multiset() == s.to_multiset()
    &&& sorted.len() == s.len()
}

proof fn at_time_push<T: Timed>(s: Seq<T>, x: T, t: i64)
    ensures
        at_time(s.push(x), t) == (if x.at() == t {
            at_time(s, t).push(x)
        } else {
            at_time(s, t)
        }),
{
    reveal(Seq::filter);
    assert(s.push(x).drop_last() =~= s);
}

proof fn at_time_add<T: Timed>(a: Seq<T>, b: Seq<T>, t: i64)
    ensures
        at_time(a + b, t) == at_time(a, t) + at_time(b, t),
{
    Seq::filter_distributes_over_add(a, b, of_time(t));
}

proof fn at_time_empty<T: Timed>(s: Seq<T>, t: i64)
    requires
        forall|i: int| 0 <= i < s.len() ==> (#[trigger] s[i]).at() != t,
    ensures
        at_time(s, t) == Seq::<T>::empty(),
    decreases s.len(),
{
    reveal(Seq::filter);
    if s.len() > 0 {
        at_time_empty(s.drop_last(), t);
    }
}

/// Merge two ordered runs; of two records with one time, that of the first run
/// comes first.
fn merge<T: Timed>(a: &Vec<T>, b: &Vec<T>) -> (r: Vec<T>)
    requires
        chronological(a@),
        chronological(b@),
    ensures
        sorts(a@ + b@, r@),
{
    let mut out: Vec<T> = Vec::new();
    let mut i: usize = 0;
    let mut j: usize = 0;
    proof {
        assert(a@.take(0) =~= Seq::empty());
        assert(b@.take(0) =~= Seq::empty());
        reveal(Seq::filter);
        broadcast use vstd::seq_lib::group_to_multiset_ensures;
        vstd::seq_lib::lemma_multiset_commutative(a@.take(0), b@.take(0));
        assert(a@.take(0) + b@.take(0) =~= Seq::empty());
        assert forall|t: i64| #[trigger] at_time(out@, t) == at_time(a@.take(0), t) + at_time(b@.take(0), t) by {
            assert(at_time(a@.take(0), t) + at_time(b@.take(0), t) =~= Seq::empty());
        }
    }
    while i < a.len() || j < b.len()
        invariant
            chronological(a@),
            chronological(b@),
            i <= a@.len(),
            j <= b@.len(),
            out@.len() == i + j,
            chronological(out@),
            forall|m: int| i < a@.len() && 0 <= m < out@.len() ==> (#[trigger] out@[m]).at() <= a@[i as int].at(),
            forall|m: int| j < b@.len() && 0 <= m < out@.len() ==> (#[trigger] out@[m]).at() <= b@[j as int].at(),
            forall|m: int| i < a@.len() && 0 <= m < j ==> (#[trigger] b@[m]).at() < a@[i as int].at(),
            forall|t: i64| #[trigger]
                at_time(out@, t) == at_time(a@.take(i as int), t) + at_time(b@.take(j as int), t),
            out@.to_multiset() == a@.take(i as int).to_multiset().add(b@.take(j as int).to_multiset()),
        decreases a@.len() - i + b@.len() - j,
    {
        let ghost before = out@;
        let from_a = if i >= a.len() {
            false
        } else if j >= b.len() {
            true
        } else {
            a[i].time() <= b[j].time()
        };
        if from_a {
            let x = a[i];
            out.push(x);
            proof {
                broadcast use vstd::seq_lib::group_to_multiset_ensures;
                assert(a@.take(i + 1) =~= a@.take(i as int).push(x));
                assert forall|t: i64| #[trigger] at_time(out@, t) == at_time(a@.take(i + 1), t) + at_time(b@.take(j as int), t) by {
                    at_time_push(before, x, t);
                    at_time_push(a@.take(i as int), x, t);
                    if x.at() == t {
                        at_time_empty(b@.take(j as int), t);
                    }
                    assert(at_time(out@, t) =~= at_time(a@.take(i + 1), t) + at_time(b@.take(j as int), t));
                }
                assert(out@.to_multiset() =~= a@.take(i + 1).to_multiset().add(b@.take(j as int).to_multiset()));
            }
            i = i + 1;
        } else {
            let x = b[j];
            out.push(x);
            proof {
                broadcast use vstd::seq_lib::group_to_multiset_ensures;
                assert(b@.take(j + 1) =~= b@.take(j as int).push(x));
                assert forall|t: i64| #[trigger] at_time(out@, t) == at_time(a@.take(i as int), t) + at_time(b@.take(j + 1), t) by {
                    at_time_push(before, x, t);
                    at_time_push(b@.take(j as int), x, t);
                    assert(at_time(out@, t) =~= at_time(a@.take(i as int), t) + at_time(b@.take(j + 1), t));
                }
                assert(out@.to_multiset() =~= a@.take(i as int).to_multiset().add(b@.take(j + 1).to_multiset()));
            }
            j = j + 1;
        }
    }
    proof {
        assert(a@.take(i as int) =~= a@);
        assert(b@.take(j as int) =~= b@);
        vstd::seq_lib::lemma_multiset_commutative(a@, b@);
        assert forall|t: i64| #[trigger] at_time(out@, t) == at_time(a@ + b@, t) by {
            at_time_add(a@, b@, t);
        }
    }
    out
}

/// Put records in order of time; records that share a time keep their order.
pub fn stable_sort<T: Timed>(records: Vec<T>) -> (r: Vec<T>)
    ensures
        sorts(records@, r@),
    decreases records@.len(),
{
    if records.len() <= 1 {
        return records;
    }
    let middle: usize = records.len() / 2;
    let mut left: Vec<T> = Vec::new();
    let mut right: Vec<T> = Vec::new();
    let mut k: usize = 0;
    while k < records.len()
        invariant
            k <= records@.len(),
            middle == records@.len() / 2,
            left@ == records@.take(if k <= middle { k as int } else { middle as int }),
            right@ == records@.subrange(middle as int, if k <= middle { middle as int } else { k as int }),
        decreases records@.len() - k,
    {
        if k < middle {
            left.push(records[k]);
            assert(records@.take(k + 1) =~= records@.take(k as int).push(records@[k as int]));
        } else {
            right.push(records[k]);
            assert(records@.subrange(middle as int, k + 1) =~= records@.subrange(
                middle as int,
                k as int,
            ).push(records@[k as int]));
        }
        k = k + 1;
    }
    let ghost (l0, r0) = (left@, right@);
    assert(l0 + r0 =~= records@);
    let l = stable_sort(left);
    let r = stable_sort(right);
    let merged = merge(&l, &r);
    proof {
        vstd::seq_lib::lemma_multiset_commutative(l0, r0);
        vstd::seq_lib::lemma_multiset_commutative(l@, r@);
        assert forall|t: i64| #[trigger] at_time(merged@, t) == at_time(records@, t) by {
            assert(at_time(merged@, t) == at_time(l@ + r@, t));
            at_time_add(l@, r@, t);
            at_time_add(l0, r0, t);
            assert(at_time(l@, t) == at_time(l0, t));
            assert(at_time(r@, t) == at_time(r0, t));
        }
    }
    merged
}

proof fn at_time_of_prefix<T: Timed>(a: Seq<T>, b: Seq<T>, t: i64)
    requires
        chronological(a),
        chronological(b),
        a.len() > 0,
        b.len() > 0,
        forall|u: i64| #[trigger] at_time(a, u) == at_time(b, u),
    ensures
        a.last() == b.last(),
        at_time(a.drop_last(), t) == at_time(b.drop_last(), t),
{
    let ta = a.last().at();
    let tb = b.last().at();
    if ta < tb {
        at_time_empty(a, tb);
        assert(at_time(a, tb) == at_time(b, tb));
        at_time_push(b.drop_last(), b.last(), tb);
        assert(b.drop_last().push(b.last()) =~= b);
    }
    if tb < ta {
        at_time_empty(b, ta);
        assert(at_time(a, ta) == at_time(b, ta));
        at_time_push(a.drop_last(), a.last(), ta);
        assert(a.drop_last().push(a.last()) =~= a);
    }
    assert(a.drop_last().push(a.last()) =~= a);
    assert(b.drop_last().push(b.last()) =~= b);
    at_time_push(a.drop_last(), a.last(), ta);
    at_time_push(b.drop_last(), b.last(), ta);
    assert(at_time(a, ta) == at_time(b, ta));
    assert(at_time(a, ta).last() == a.last());
    assert(at_time(b, ta).last() == b.last());
    at_time_push(a.drop_last(), a.last(), t);
    at_time_push(b.drop_last(), b.last(), t);
    assert(at_time(a, t) == at_time(b, t));
    if t == ta {
        assert(at_time(a, t).drop_last() =~= at_time(a.drop_last(), t));
        assert(at_time(b, t).drop_last() =~= at_time(b.drop_last(), t));
    }
}

/// There is only one way to sort: two results for the same records are equal.
pub proof fn sorting_is_determined<T: Timed>(s: Seq<T>, a: Seq<T>, b: Seq<T>)
    requires
        sorts(s, a),
        sorts(s, b),
    ensures
        a == b,
{
    assert forall|t: i64| #[trigger] at_time(a, t) == at_time(b, t) by {
        assert(at_time(a, t) == at_time(s, t));
        assert(at_time(b, t) == at_time(s, t));
    }
    same_by_times(a, b);
}

proof fn same_by_times<T: Timed>(a: Seq<T>, b: Seq<T>)
    requires
        chronological(a),
        chronological(b),
        a.len() == b.len(),
        forall|t: i64| #[trigger] at_time(a, t) == at_time(b, t),
    ensures
        a == b,
    decreases a.len(),
{
    if a.len() > 0 {
        assert forall|t: i64| #[trigger] at_time(a.drop_last(), t) == at_time(b.drop_last(), t) by {
            at_time_of_prefix(a, b, t);
        }
        at_time_of_prefix(a, b, 0);
        same_by_times(a.drop_last(), b.drop_last());
        assert(a =~= a.drop_last().push(a.last()));
        assert(b =~= b.drop_last().push(b.last()));
    } else {
        assert(a =~= b);
    }
}

proof fn repeats_at<T: Timed>(s: Seq<T>, i: int, j: int)
    requires
        0 <= i < j < s.len(),
        s[i].at() == s[j].at(),
    ensures
        at_time(s, s[i].at()).len() >= 2,
{
    let t = s[i].at();
    let keep = of_time::<T>(t);
    let (a, b) = (s.take(j), s.skip(j));
    assert(s =~= a + b);
    Seq::filter_distributes_over_add(a, b, keep);
    a.lemma_filter_contains(keep, i);
    b.lemma_filter_contains(keep, 0);
    assert(at_time(s, t) == a.filter(keep) + b.filter(keep));
}

proof fn at_most_one_at<T: Timed>(s: Seq<T>, t: i64)
    requires
        times_distinct(s),
    ensures
        at_time(s, t).len() <= 1,
    decreases s.len(),
{
    reveal(Seq::filter);
    if s.len() > 0 {
        let prefix = s.drop_last();
        at_most_one_at(prefix, t);
        if s.last().at() == t {
            let keep = of_time::<T>(t);
            if prefix.filter(keep).len() > 0 {
                let x = prefix.filter(keep)[0];
                prefix.lemma_filter_pred(keep, 0);
                filter_comes_from(prefix, keep, 0);
                let k = choose|k: int| 0 <= k < prefix.len() && prefix[k] == x;
                assert(s[k].at() == s[s.len() - 1].at());
            }
        }
    }
}

proof fn filter_comes_from<T: Timed>(s: Seq<T>, keep: spec_fn(T) -> bool, i: int)
    requires
        0 <= i < s.filter(keep).len(),
    ensures
        exists|k: int| 0 <= k < s.len() && #[trigger] s[k] == s.filter(keep)[i],
    decreases s.len(),
{
    reveal(Seq::filter);
    if s.len() > 0 {
        let prefix = s.drop_last();
        if i < prefix.filter(keep).len() {
            filter_comes_from(prefix, keep, i);
            let k = choose|k: int| 0 <= k < prefix.len() && #[trigger] prefix[k] == prefix.filter(keep)[i];
            assert(s[k] == s.filter(keep)[i]);
        } else {
            assert(s[s.len() - 1] == s.filter(keep)[i]);
        }
    }
}

/// Sorting neither brings records to one time nor takes them apart.
pub proof fn sorting_keeps_distinctness<T: Timed>(s: Seq<T>, sorted: Seq<T>)
    requires
        sorts(s, sorted),
    ensures
        times_distinct(s) <==> times_distinct(sorted),
{
    if times_distinct(s) && !times_distinct(sorted) {
        let (i, j) = choose|i: int, j: int|
            0 <= i < j < sorted.len() && (#[trigger] sorted[i]).at() == (#[trigger] sorted[j]).at();
        repeats_at(sorted, i, j);
        at_most_one_at(s, sorted[i].at());
        assert(at_time(sorted, sorted[i].at()) == at_time(s, sorted[i].at()));
    }
    if times_distinct(sorted) && !times_distinct(s) {
        let (i, j) = choose|i: int, j: int|
            0 <= i < j < s.len() && (#[trigger] s[i]).at() == (#[trigger] s[j]).at();
        repeats_at(s, i, j);
        at_most_one_at(sorted, s[i].at());
        assert(at_time(sorted, s[i].at()) == at_time(s, s[i].at()));
    }
}

/// Records that are in order already stay as they are.
pub proof fn sorted_input_is_unchanged<T: Timed>(s: Seq<T>, sorted: Seq<T>)
    requires
        chronological(s),
        sorts(s, sorted),
    ensures
        sorted == s,
{
    sorting_is_determined(s, sorted, s);
}

/// Sorting loses nothing, adds nothing, and puts earlier records first.
pub proof fn sorting_puts_earlier_records_first<T: Timed>(s: Seq<T>, sorted: Seq<T>, i: int, j: int)
    requires
        sorts(s, sorted),
        0 <= i <= j < sorted.len(),
    ensures
        sorted.len() == s.len(),
        sorted[i].at() <= sorted[j].at(),
        forall|x: T| #[trigger] sorted.contains(x) <==> s.contains(x),
{
    broadcast use vstd::seq_lib::group_to_multiset_ensures;

    assert forall|x: T| #[trigger] sorted.contains(x) <==> s.contains(x) by {
        assert(sorted.to_multiset().contains(x) <==> s.to_multiset().contains(x));
    }
}

proof fn picks_keep_order<T: Timed>(s: Seq<T>, t: i64, i: int, j: int)
    requires
        0 <= i < j < s.len(),
        s[i].at() == t,
        s[j].at() == t,
    ensures
        exists|p: int, q: int|
            0 <= p < q < at_time(s, t).len() && #[trigger] at_time(s, t)[p] == s[i]
                && #[trigger] at_time(s, t)[q] == s[j],
{
    let (a, b) = (s.take(j), s.skip(j));
    let keep = of_time::<T>(t);
    assert(s =~= a + b);
    Seq::filter_distributes_over_add(a, b, keep);
    a.lemma_filter_contains(keep, i);
    b.lemma_filter_contains(keep, 0);
    let (fa, fb) = (a.filter(keep), b.filter(keep));
    assert(at_time(s, t) =~= fa + fb);
    let p = choose|p: int| 0 <= p < fa.len() && fa[p] == a[i];
    let q = choose|q: int| 0 <= q < fb.len() && fb[q] == b[0];
    assert(at_time(s, t)[p] == s[i]);
    assert(at_time(s, t)[fa.len() + q] == s[j]);
}

proof fn picks_come_in_order<T: Timed>(s: Seq<T>, t: i64, p: int, q: int)
    requires
        0 <= p < q < at_time(s, t).len(),
    ensures
        exists|a: int, b: int|
            0 <= a < b < s.len() && #[trigger] s[a] == at_time(s, t)[p] && #[trigger] s[b]
                == at_time(s, t)[q],
    decreases s.len(),
{
    reveal(Seq::filter);
    if s.len() > 0 {
        let rest = s.drop_last();
        let inner = at_time(rest, t);
        if q < inner.len() {
            picks_come_in_order(rest, t, p, q);
            let (a, b) = choose|a: int, b: int|
                0 <= a < b < rest.len() && #[trigger] rest[a] == inner[p] && #[trigger] rest[b]
                    == inner[q];
            assert(s[a] == rest[a] && s[b] == rest[b]);
        } else {
            filter_comes_from(rest, of_time::<T>(t), p);
            let a = choose|a: int| 0 <= a < rest.len() && rest[a] == inner[p];
            assert(s[a] == rest[a]);
            assert(s[s.len() - 1] == at_time(s, t)[q]);
        }
    }
}

/// Records that share a time come out in the order in which they went in.
pub proof fn sorting_keeps_ties_in_order<T: Timed>(s: Seq<T>, sorted: Seq<T>, i: int, j: int)
    requires
        sorts(s, sorted),
        0 <= i < j < sorted.len(),
        sorted[i].at() == sorted[j].at(),
    ensures
        exists|a: int, b: int|
            0 <= a < b < s.len() && #[trigger] s[a] == sorted[i] && #[trigger] s[b] == sorted[j],
{
    let t = sorted[i].at();
    picks_keep_order(sorted, t, i, j);
    assert(at_time(sorted, t) == at_time(s, t));
    let (p, q) = choose|p: int, q: int|
        0 <= p < q < at_time(sorted, t).len() && #[trigger] at_time(sorted, t)[p] == sorted[i]
            && #[trigger] at_time(sorted, t)[q] == sorted[j];
    picks_come_in_order(s, t, p, q);
}

} // verus!
