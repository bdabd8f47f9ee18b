//! A key/value store for state snapshots.

use vstd::prelude::*;

use crate::keyed::{contents, distinct, entry_is_content, holds, holds_at, keys_count, setting_inserts};

verus! {

/// Snapshots by key, held in memory.
#[derive(Debug)]
pub struct InMemoryStore<T> {
    entries: Vec<(String, T)>,
}

spec fn entry_views<T>(entries: Seq<(String, T)>) -> Seq<(Seq<char>, T)> {
    entries.map_values(|e: (String, T)| (e.0@, e.1))
}

impl<T> View for InMemoryStore<T> {
    type V = Map<Seq<char>, T>;

    closed spec fn view(&self) -> Map<Seq<char>, T> {
        contents(entry_views(self.entries@))
    }
}

impl<T> InMemoryStore<T> {
    /// No key occurs twice.
    #[verifier::type_invariant]
    spec fn keys_distinct(self) -> bool {
        distinct(entry_views(self.entries@))
    }

    /// An empty store.
    pub fn new() -> (r: Self)
        ensures
            r@ == Map::<Seq<char>, T>::empty(),
    {
        let store = InMemoryStore { entries: Vec::new() };
        assert(store@ =~= Map::<Seq<char>, T>::empty());
        store
    }

    fn find(&self, key: &str) -> (r: Option<usize>)
        ensures
            match r {
                Some(i) => holds_at(entry_views(self.entries@), key@, i as int),
                None => !holds(entry_views(self.entries@), key@),
            },
    {
        let wanted = key.to_string();
        let mut i: usize = 0;
        while i < self.entries.len()
            invariant
                i <= self.entries@.len(),
                wanted@ == key@,
                forall|k: int|
                    0 <= k < i ==> !#[trigger] holds_at(entry_views(self.entries@), key@, k),
            decreases self.entries@.len() - i,
        {
            if self.entries[i].0 == wanted {
                return Some(i);
            }
            i = i + 1;
        }
        None
    }

    /// The snapshot under `key`; `None` if there is none.
    pub fn load(&self, key: &str) -> (r: Option<&T>)
        ensures
            r is Some <==> self@.dom().contains(key@),
            r is Some ==> *r->0 == self@[key@],
    {
        proof {
            use_type_invariant(self);
        }
        match self.find(key) {
            Some(i) => {
                proof {
                    entry_is_content(entry_views(self.entries@), i as int);
                }
                Some(&self.entries[i].1)
            },
            None => None,
        }
    }

    /// Keep a snapshot under `key`, in place of any earlier one.
    pub fn save(&mut self, key: &str, value: T)
        ensures
            final(self)@ == old(self)@.insert(key@, value),
    {
        proof {
            use_type_invariant(&*self);
        }
        let ghost before = entry_views(self.entries@);
        let ghost kept = value;
        let found = self.find(key);
        let mut entries: Vec<(String, T)> = Vec::new();
        std::mem::swap(&mut entries, &mut self.entries);
        match found {
            Some(i) => {
                entries[i] = (key.to_string(), value);
                assert(entry_views(entries@) =~= before.update(i as int, (key@, kept)));
            },
            None => {
                entries.push((key.to_string(), value));
                assert(entry_views(entries@) =~= before.push((key@, kept)));
            },
        }
        proof {
            let at = match found {
                Some(i) => i as int,
                None => before.len() as int,
            };
            setting_inserts(before, entry_views(entries@), key@, kept, at);
        }
        self.entries = entries;
    }

    /// Number of keys held.
    pub fn len(&self) -> (r: usize)
        ensures
            r == self@.dom().len(),
            self@.dom().finite(),
    {
        proof {
            use_type_invariant(self);
            keys_count(entry_views(self.entries@));
        }
        self.entries.len()
    }

    /// Whether no keys are held.
    pub fn is_empty(&self) -> (r: bool)
        ensures
            r == (self@ == Map::<Seq<char>, T>::empty()),
    {
        proof {
            use_type_invariant(self);
            if self.entries@.len() > 0 {
                entry_is_content(entry_views(self.entries@), 0);
            } else {
                assert(self@ =~= Map::<Seq<char>, T>::empty());
            }
        }
        self.entries.len() == 0
    }
}

impl<T> Default for InMemoryStore<T> {
    /// An empty store.
    fn default() -> (r: Self)
        ensures
            r@ == Map::<Seq<char>, T>::empty(),
    {
        Self::new()
    }
}

/// A load gives back what the last save under the key kept, and a save under
/// one key leaves the others alone.
pub proof fn load_gives_back_what_save_kept<T>(
    store: Map<Seq<char>, T>,
    key: Seq<char>,
    value: T,
    other: Seq<char>,
)
    requires
        other != key,
    ensures
        store.insert(key, value).dom().contains(key),
        store.insert(key, value)[key] == value,
        store.insert(key, value).dom().contains(other) <==> store.dom().contains(other),
        store.dom().contains(other) ==> store.insert(key, value)[other] == store[other],
{
}

} // verus!
