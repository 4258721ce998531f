//! A small map from strings to strings, kept as a list of distinct keys.
//!
//! Used for the per-URL signature cache and for the platform → download URL
//! table of the latest desktop release.

use vstd::prelude::*;
use crate::text::str_eq;

verus! {

/// Whether entry `i` of `entries` has key `k`.
pub open spec fn key_at(entries: Seq<(String, String)>, i: int, k: Seq<char>) -> bool {
    0 <= i < entries.len() && entries[i].0@ == k
}

/// No key occurs twice in `entries`.
pub open spec fn distinct_keys(entries: Seq<(String, String)>) -> bool {
    forall|i: int, j: int|
        0 <= i < entries.len() && 0 <= j < entries.len() && i != j
            ==> (#[trigger] entries[i]).0@ != (#[trigger] entries[j]).0@
}

/// The map described by a list of entries.
pub open spec fn entries_map(entries: Seq<(String, String)>) -> Map<Seq<char>, Seq<char>> {
    Map::new(
        |k: Seq<char>| exists|i: int| key_at(entries, i, k),
        |k: Seq<char>| entries[choose|i: int| key_at(entries, i, k)].1@,
    )
}

proof fn lemma_entry_in_map(entries: Seq<(String, String)>, i: int)
    requires
        distinct_keys(entries),
        0 <= i < entries.len(),
    ensures
        entries_map(entries).contains_key(entries[i].0@),
        entries_map(entries)[entries[i].0@] == entries[i].1@,
{
    let k = entries[i].0@;
    assert(key_at(entries, i, k));
    let j = choose|j: int| key_at(entries, j, k);
    assert(key_at(entries, j, k));
    assert(j == i);
}

/// Replacing or appending the entry for `k` yields the map with `k` updated.
proof fn lemma_map_after_store(
    old_entries: Seq<(String, String)>,
    new_entries: Seq<(String, String)>,
    pos: int,
    k: Seq<char>,
    v: Seq<char>,
)
    requires
        distinct_keys(old_entries),
        distinct_keys(new_entries),
        0 <= pos < new_entries.len(),
        new_entries[pos].0@ == k,
        new_entries[pos].1@ == v,
        new_entries.len() == old_entries.len() || new_entries.len() == old_entries.len() + 1,
        new_entries.len() == old_entries.len() + 1 ==> pos == old_entries.len(),
        forall|j: int| 0 <= j < new_entries.len() && j != pos ==> new_entries[j] == old_entries[j],
        pos < old_entries.len() ==> old_entries[pos].0@ == k,
        pos == old_entries.len() ==> !exists|j: int| key_at(old_entries, j, k),
    ensures
        entries_map(new_entries) == entries_map(old_entries).insert(k, v),
{
    let m = entries_map(new_entries);
    let o = entries_map(old_entries);
    let target = o.insert(k, v);
    assert forall|q: Seq<char>| #[trigger] m.contains_key(q) == target.contains_key(q) by {
        if q == k {
            assert(key_at(new_entries, pos, q));
        } else {
            if exists|j: int| key_at(new_entries, j, q) {
                let j = choose|j: int| key_at(new_entries, j, q);
                assert(j != pos);
                assert(new_entries[j] == old_entries[j]);
                assert(key_at(old_entries, j, q));
            }
            if exists|j: int| key_at(old_entries, j, q) {
                let j = choose|j: int| key_at(old_entries, j, q);
                assert(j != pos);
                assert(new_entries[j] == old_entries[j]);
                assert(key_at(new_entries, j, q));
            }
        }
    }
    assert forall|q: Seq<char>| #[trigger] m.contains_key(q) implies m[q] == target[q] by {
        let j = choose|j: int| key_at(new_entries, j, q);
        assert(key_at(new_entries, j, q));
        lemma_entry_in_map(new_entries, j);
        if q != k {
            assert(j != pos);
            assert(new_entries[j] == old_entries[j]);
            lemma_entry_in_map(old_entries, j);
        }
    }
    assert(m =~= target);
}

/// What is stored under a key is what a later lookup of that key gives back,
/// and storing under one key leaves every other key as it was.
pub proof fn law_lookup_after_store(before: Map<Seq<char>, Seq<char>>, k: Seq<char>, v: Seq<char>, q: Seq<char>)
    ensures
        before.insert(k, v).contains_key(k),
        before.insert(k, v)[k] == v,
        q != k ==> before.insert(k, v).contains_key(q) == before.contains_key(q),
        q != k && before.contains_key(q) ==> before.insert(k, v)[q] == before[q],
{
}

/// Map from text keys to text values; no key occurs twice.
pub struct TextMap {
    entries: Vec<(String, String)>,
}

impl TextMap {
    #[verifier::type_invariant]
    spec fn keys_are_distinct(self) -> bool {
        distinct_keys(self.entries@)
    }

    /// The map this value stands for.
    pub closed spec fn view(&self) -> Map<Seq<char>, Seq<char>> {
        entries_map(self.entries@)
    }

    /// An empty map.
    pub fn new() -> (r: Self)
        ensures
            r@ == Map::<Seq<char>, Seq<char>>::empty(),
    {
        let r = TextMap { entries: Vec::new() };
        assert(r@ =~= Map::<Seq<char>, Seq<char>>::empty());
        r
    }

    /// Whether the map has no entry.
    pub fn is_empty(&self) -> (r: bool)
        ensures
            r == (self@ == Map::<Seq<char>, Seq<char>>::empty()),
    {
        proof {
            use_type_invariant(self);
        }
        if self.entries.len() == 0 {
            assert(self@ =~= Map::<Seq<char>, Seq<char>>::empty());
            true
        } else {
            proof {
                lemma_entry_in_map(self.entries@, 0);
                assert(!Map::<Seq<char>, Seq<char>>::empty().contains_key(self.entries@[0].0@));
            }
            false
        }
    }

    /// Position of `key`, if present.
    fn position(&self, key: &str) -> (r: Option<usize>)
        ensures
            r matches Some(i) ==> key_at(self.entries@, i as int, key@),
            r is None ==> !exists|i: int| key_at(self.entries@, i, key@),
    {
        let mut i: usize = 0;
        while i < self.entries.len()
            invariant
                i <= self.entries@.len(),
                forall|j: int| 0 <= j < i ==> !key_at(self.entries@, j, key@),
            decreases self.entries@.len() - i,
        {
            if str_eq(self.entries[i].0.as_str(), key) {
                return Some(i);
            }
            i = i + 1;
        }
        None
    }

    /// The value stored under `key`.
    pub fn get(&self, key: &str) -> (r: Option<String>)
        ensures
            r is Some == self@.contains_key(key@),
            r matches Some(v) ==> v@ == self@[key@],
    {
        proof {
            use_type_invariant(self);
        }
        match self.position(key) {
            Some(i) => {
                proof {
                    lemma_entry_in_map(self.entries@, i as int);
                }
                Some(self.entries[i].1.clone())
            },
            None => None,
        }
    }

    /// Stores `value` under `key`, replacing any earlier value.
    pub fn insert(&mut self, key: String, value: String)
        ensures
            final(self)@ == old(self)@.insert(key@, value@),
    {
        proof {
            use_type_invariant(&*self);
        }
        let ghost old_entries = self.entries@;
        let ghost k = key@;
        let ghost v = value@;
        let found = self.position(key.as_str());
        let mut entries: Vec<(String, String)> = Vec::new();
        std::mem::swap(&mut entries, &mut self.entries);
        assert(entries@ == old_entries);
        let pos: usize = match found {
            Some(i) => {
                entries.set(i, (key, value));
                i
            },
            None => {
                entries.push((key, value));
                entries.len() - 1
            },
        };
        let ghost new_entries = entries@;
        assert forall|a: int, b: int|
            0 <= a < new_entries.len() && 0 <= b < new_entries.len() && a != b
            implies (#[trigger] new_entries[a]).0@ != (#[trigger] new_entries[b]).0@ by {
            if a != pos && b != pos {
                assert(new_entries[a] == old_entries[a]);
                assert(new_entries[b] == old_entries[b]);
            } else if a == pos {
                assert(new_entries[b] == old_entries[b]);
                assert(!key_at(old_entries, b, k) || pos < old_entries.len());
            } else {
                assert(new_entries[a] == old_entries[a]);
                assert(!key_at(old_entries, a, k) || pos < old_entries.len());
            }
        }
        proof {
            lemma_map_after_store(old_entries, new_entries, pos as int, k, v);
        }
        self.entries = entries;
    }
}

} // verus!
