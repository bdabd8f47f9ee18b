//! Lists of entries under distinct keys, read as maps.

use vstd::prelude::*;

verus! {

/// Whether the entry at `i` is the one for `key`.
pub open spec fn holds_at<V>(entries: Seq<(Seq<char>, V)>, key: Seq<char>, i: int) -> bool {
    0 <= i < entries.len() && entries[i].0 == key
}

/// Whether some entry is the one for `key`.
pub open spec fn holds<V>(entries: Seq<(Seq<char>, V)>, key: Seq<char>) -> bool {
    exists|i: int| #[trigger] holds_at(entries, key, i)
}

/// No key occurs twice.
pub open spec fn distinct<V>(entries: Seq<(Seq<char>, V)>) -> bool {
    forall|i: int, j: int|
        0 <= i < j < entries.len() ==> (#[trigger] entries[i]).0 != (#[trigger] entries[j]).0
}

/// The map that a list of entries stands for.
pub open spec fn contents<V>(entries: Seq<(Seq<char>, V)>) -> Map<Seq<char>, V> {
    Map::new(
        |k: Seq<char>| holds(entries, k),
        |k: Seq<char>| entries[choose|i: int| #[trigger] holds_at(entries, k, i)].1,
    )
}

/// What an entry holds is what the map has under its key.
pub proof fn entry_is_content<V>(entries: Seq<(Seq<char>, V)>, i: int)
    requires
        distinct(entries),
        0 <= i < entries.len(),
    ensures
        contents(entries).dom().contains(entries[i].0),
        contents(entries)[entries[i].0] == entries[i].1,
{
    let key = entries[i].0;
    assert(holds_at(entries, key, i));
    let k = choose|k: int| #[trigger] holds_at(entries, key, k);
    assert(k == i);
}

/// Replacing the entry of a key, or adding one for a new key, inserts into the
/// map.
pub proof fn setting_inserts<V>(
    before: Seq<(Seq<char>, V)>,
    after: Seq<(Seq<char>, V)>,
    key: Seq<char>,
    value: V,
    at: int,
)
    requires
        distinct(before),
        holds_at(before, key, at) && after == before.update(at, (key, value)) || !holds(before, key)
            && at == before.len() && after == before.push((key, value)),
    ensures
        distinct(after),
        contents(after) == contents(before).insert(key, value),
{
    assert(holds_at(after, key, at));
    assert forall|i: int, j: int| 0 <= i < j < after.len() implies (#[trigger] after[i]).0 != (
    #[trigger] after[j]).0 by {
        if at == before.len() && j == at {
            assert(!holds_at(before, key, i));
        }
    }
    let (m, n) = (contents(before).insert(key, value), contents(after));
    assert forall|k: Seq<char>| m.dom().contains(k) <==> n.dom().contains(k) by {
        if k != key {
            if m.dom().contains(k) {
                let i = choose|i: int| #[trigger] holds_at(before, k, i);
                assert(holds_at(after, k, i));
            }
            if n.dom().contains(k) {
                let i = choose|i: int| #[trigger] holds_at(after, k, i);
                assert(holds_at(before, k, i));
            }
        }
    }
    assert forall|k: Seq<char>| m.dom().contains(k) implies m[k] == n[k] by {
        if k == key {
            entry_is_content(after, at);
        } else {
            let i = choose|i: int| #[trigger] holds_at(before, k, i);
            entry_is_content(before, i);
            assert(after[i] == before[i]);
            entry_is_content(after, i);
        }
    }
    assert(m =~= n);
}

/// The map has as many keys as there are entries.
pub proof fn keys_count<V>(entries: Seq<(Seq<char>, V)>)
    requires
        distinct(entries),
    ensures
        contents(entries).dom().finite(),
        contents(entries).dom().len() == entries.len(),
    decreases entries.len(),
{
    let dom = contents(entries).dom();
    if entries.len() == 0 {
        assert(dom =~= Set::<Seq<char>>::empty());
    } else {
        let prefix = entries.drop_last();
        let last = entries.last().0;
        let rest = contents(prefix).dom();
        keys_count(prefix);
        assert(!holds(prefix, last)) by {
            if holds(prefix, last) {
                let i = choose|i: int| #[trigger] holds_at(prefix, last, i);
                assert(entries[i].0 == entries[entries.len() - 1].0);
            }
        }
        assert(entries =~= prefix.push((last, entries.last().1)));
        setting_inserts(prefix, entries, last, entries.last().1, prefix.len() as int);
        assert(dom =~= rest.insert(last));
    }
}

} // verus!
