//! A small map keyed by strings, kept as a list of entries in insertion
//! order. A key stands for its text: two keys with the same characters are
//! the same key.

use crate::text::same_text;
use vstd::prelude::*;
use vstd::string::*;

verus! {

/// A map from strings to `V`, in insertion order.
///
/// The entry that counts for a key is the first one that carries it. Maps
/// built with [`StringMap::new`] and [`StringMap::insert`] never hold a key
/// twice.
#[derive(Debug, Clone, PartialEq, Eq)]
pub struct StringMap<V> {
    pub entries: Vec<(String, V)>,
}

/// Whether some entry carries `key`.
pub open spec fn has_key<V>(entries: Seq<(String, V)>, key: Seq<char>) -> bool {
    exists|i: int| 0 <= i < entries.len() && (#[trigger] entries[i]).0@ == key
}

/// Whether `i` is the first entry that carries `key`.
pub open spec fn is_first_match<V>(entries: Seq<(String, V)>, key: Seq<char>, i: int) -> bool {
    &&& 0 <= i < entries.len()
    &&& entries[i].0@ == key
    &&& forall|j: int| 0 <= j < i ==> (#[trigger] entries[j]).0@ != key
}

/// The index of the first entry that carries `key`, if there is one.
pub open spec fn first_match<V>(entries: Seq<(String, V)>, key: Seq<char>) -> int {
    choose|i: int| is_first_match(entries, key, i)
}

/// The value stored under `key`.
pub open spec fn lookup<V>(entries: Seq<(String, V)>, key: Seq<char>) -> Option<V> {
    if has_key(entries, key) {
        Some(entries[first_match(entries, key)].1)
    } else {
        None
    }
}

/// Whether no key occurs twice.
pub open spec fn distinct_keys<V>(entries: Seq<(String, V)>) -> bool {
    forall|i: int, j: int|
        0 <= i < j < entries.len() ==> (#[trigger] entries[i]).0@ != (#[trigger] entries[j]).0@
}

/// The entries after `value` has been stored under `key`: the first entry
/// with that key gets the new value, or, if there is none, a new entry is
/// added at the end.
pub open spec fn stored<V>(entries: Seq<(String, V)>, key: String, value: V) -> Seq<(String, V)> {
    if has_key(entries, key@) {
        let i = first_match(entries, key@);
        entries.update(i, (entries[i].0, value))
    } else {
        entries.push((key, value))
    }
}

/// The first match is unique: an index that is a first match is the one
/// that [`first_match`] names.
pub proof fn lemma_first_match_unique<V>(entries: Seq<(String, V)>, key: Seq<char>, i: int)
    requires
        is_first_match(entries, key, i),
    ensures
        has_key(entries, key),
        first_match(entries, key) == i,
        lookup(entries, key) == Some(entries[i].1),
{
    let k = first_match(entries, key);
    assert(is_first_match(entries, key, k));
    if k < i {
        assert(entries[k].0@ == key);
    } else if i < k {
        assert(entries[i].0@ == key);
    }
}

/// Where a key occurs at all, it has a first occurrence.
pub proof fn lemma_has_first_match<V>(entries: Seq<(String, V)>, key: Seq<char>)
    requires
        has_key(entries, key),
    ensures
        is_first_match(entries, key, first_match(entries, key)),
{
    let w = choose|i: int| 0 <= i < entries.len() && (#[trigger] entries[i]).0@ == key;
    lemma_first_before(entries, key, w);
}

proof fn lemma_first_before<V>(entries: Seq<(String, V)>, key: Seq<char>, w: int)
    requires
        0 <= w < entries.len(),
        entries[w].0@ == key,
    ensures
        exists|i: int| is_first_match(entries, key, i),
    decreases w,
{
    if exists|j: int| 0 <= j < w && (#[trigger] entries[j]).0@ == key {
        let j = choose|j: int| 0 <= j < w && (#[trigger] entries[j]).0@ == key;
        lemma_first_before(entries, key, j);
    } else {
        assert(is_first_match(entries, key, w));
    }
}

/// Storing a value makes it the value of its key and leaves every other
/// key as it was.
pub proof fn lemma_stored_lookup<V>(entries: Seq<(String, V)>, key: String, value: V, other: Seq<char>)
    ensures
        lookup(stored(entries, key, value), other) == if other == key@ {
            Some(value)
        } else {
            lookup(entries, other)
        },
        has_key(stored(entries, key, value), other) == (other == key@ || has_key(entries, other)),
{
    let after = stored(entries, key, value);
    if has_key(entries, key@) {
        lemma_has_first_match(entries, key@);
        let i = first_match(entries, key@);
        assert(after.len() == entries.len());
        assert forall|j: int| 0 <= j < entries.len() implies (#[trigger] after[j]).0 == entries[j].0 by {}
        if other == key@ {
            assert(is_first_match(after, other, i)) by {
                assert forall|j: int| 0 <= j < i implies (#[trigger] after[j]).0@ != other by {
                    assert(entries[j].0@ != other);
                }
            }
            lemma_first_match_unique(after, other, i);
        } else if has_key(entries, other) {
            lemma_has_first_match(entries, other);
            let k = first_match(entries, other);
            assert(k != i);
            assert(is_first_match(after, other, k)) by {
                assert forall|j: int| 0 <= j < k implies (#[trigger] after[j]).0@ != other by {
                    assert(entries[j].0@ != other);
                }
            }
            lemma_first_match_unique(after, other, k);
        } else {
            if has_key(after, other) {
                let w = choose|w: int| 0 <= w < after.len() && (#[trigger] after[w]).0@ == other;
                assert(entries[w].0@ == other);
            }
        }
    } else {
        let n = entries.len() as int;
        assert(after.len() == n + 1);
        assert forall|j: int| 0 <= j < n implies (#[trigger] after[j]) == entries[j] by {}
        if other == key@ {
            assert(is_first_match(after, other, n)) by {
                assert forall|j: int| 0 <= j < n implies (#[trigger] after[j]).0@ != other by {
                    assert(entries[j].0@ != other);
                }
            }
            lemma_first_match_unique(after, other, n);
        } else if has_key(entries, other) {
            lemma_has_first_match(entries, other);
            let k = first_match(entries, other);
            assert(is_first_match(after, other, k)) by {
                assert forall|j: int| 0 <= j < k implies (#[trigger] after[j]).0@ != other by {
                    assert(entries[j].0@ != other);
                }
            }
            lemma_first_match_unique(after, other, k);
        } else {
            if has_key(after, other) {
                let w = choose|w: int| 0 <= w < after.len() && (#[trigger] after[w]).0@ == other;
                if w < n {
                    assert(entries[w].0@ == other);
                }
            }
        }
    }
}

/// Storing a value keeps the keys distinct.
pub proof fn lemma_stored_distinct<V>(entries: Seq<(String, V)>, key: String, value: V)
    requires
        distinct_keys(entries),
    ensures
        distinct_keys(stored(entries, key, value)),
{
    let after = stored(entries, key, value);
    if has_key(entries, key@) {
        lemma_has_first_match(entries, key@);
        assert forall|i: int, j: int| 0 <= i < j < after.len() implies (#[trigger] after[i]).0@ != (
        #[trigger] after[j]).0@ by {
            assert(after[i].0 == entries[i].0);
            assert(after[j].0 == entries[j].0);
        }
    } else {
        let n = entries.len() as int;
        assert forall|i: int, j: int| 0 <= i < j < after.len() implies (#[trigger] after[i]).0@ != (
        #[trigger] after[j]).0@ by {
            assert(after[i] == entries[i]);
            if j < n {
                assert(after[j] == entries[j]);
            } else {
                assert(entries[i].0@ != key@);
            }
        }
    }
}

/// The index of the first of `entries` that carries `key`.
pub fn position_of<V>(entries: &Vec<(String, V)>, key: &str) -> (found: Option<usize>)
    ensures
        match found {
            Some(i) => is_first_match(entries@, key@, i as int),
            None => !has_key(entries@, key@),
        },
{
    let mut i: usize = 0;
    while i < entries.len()
        invariant
            i <= entries.len(),
            forall|j: int| 0 <= j < i ==> (#[trigger] entries@[j]).0@ != key@,
        decreases entries.len() - i,
    {
        if same_text(entries[i].0.as_str(), key) {
            return Some(i);
        }
        i += 1;
    }
    None
}

/// The value that the first of `entries` with `key` carries.
pub fn find<'a, V>(entries: &'a Vec<(String, V)>, key: &str) -> (value: Option<&'a V>)
    ensures
        match value {
            Some(v) => lookup(entries@, key@) == Some(*v),
            None => lookup(entries@, key@) is None,
        },
{
    match position_of(entries, key) {
        Some(i) => {
            proof {
                lemma_first_match_unique(entries@, key@, i as int);
            }
            Some(&entries[i].1)
        },
        None => None,
    }
}

impl<V> StringMap<V> {
    /// The value stored under `key`.
    pub open spec fn value_of(&self, key: Seq<char>) -> Option<V> {
        lookup(self.entries@, key)
    }

    /// Whether `key` has a value.
    pub open spec fn has(&self, key: Seq<char>) -> bool {
        has_key(self.entries@, key)
    }

    /// An empty map.
    pub fn new() -> (map: Self)
        ensures
            map.entries@.len() == 0,
            distinct_keys(map.entries@),
    {
        StringMap { entries: Vec::new() }
    }

    /// The number of entries.
    pub fn len(&self) -> (n: usize)
        ensures
            n == self.entries@.len(),
    {
        self.entries.len()
    }

    /// Whether the map has no entry.
    pub fn is_empty(&self) -> (empty: bool)
        ensures
            empty == (self.entries@.len() == 0),
    {
        self.entries.len() == 0
    }

    /// The index of the first entry that carries `key`.
    pub fn position(&self, key: &str) -> (found: Option<usize>)
        ensures
            match found {
                Some(i) => is_first_match(self.entries@, key@, i as int),
                None => !has_key(self.entries@, key@),
            },
    {
        position_of(&self.entries, key)
    }

    /// The value stored under `key`, if any.
    pub fn get(&self, key: &str) -> (value: Option<&V>)
        ensures
            match value {
                Some(v) => self.value_of(key@) == Some(*v),
                None => self.value_of(key@) is None,
            },
    {
        find(&self.entries, key)
    }

    /// Whether `key` has a value.
    pub fn contains_key(&self, key: &str) -> (yes: bool)
        ensures
            yes == self.has(key@),
    {
        match self.position(key) {
            Some(i) => {
                proof {
                    lemma_first_match_unique(self.entries@, key@, i as int);
                }
                true
            },
            None => false,
        }
    }

    /// Stores `value` under `key`. An entry that already carries the key
    /// keeps its place and gets the new value; otherwise a new entry is
    /// added at the end.
    pub fn insert(&mut self, key: String, value: V)
        ensures
            final(self).entries@ == stored(old(self).entries@, key, value),
            final(self).value_of(key@) == Some(value),
            forall|other: Seq<char>|
                other != key@ ==> #[trigger] final(self).value_of(other) == old(self).value_of(other),
            forall|other: Seq<char>|
                #[trigger] final(self).has(other) == (other == key@ || old(self).has(other)),
            distinct_keys(old(self).entries@) ==> distinct_keys(final(self).entries@),
    {
        let ghost before = self.entries@;
        proof {
            lemma_stored_lookup(before, key, value, key@);
            assert forall|other: Seq<char>| other != key@ implies lookup(stored(before, key, value), other)
                == lookup(before, other) by {
                lemma_stored_lookup(before, key, value, other);
            }
            assert forall|other: Seq<char>| has_key(stored(before, key, value), other) == (other == key@
                || has_key(before, other)) by {
                lemma_stored_lookup(before, key, value, other);
            }
            if distinct_keys(before) {
                lemma_stored_distinct(before, key, value);
            }
        }
        match self.position(key.as_str()) {
            Some(i) => {
                proof {
                    lemma_first_match_unique(before, key@, i as int);
                }
                let old_key = self.entries[i].0.clone();
                self.entries.set(i, (old_key, value));
            },
            None => {
                self.entries.push((key, value));
            },
        }
    }
}

} // verus!
