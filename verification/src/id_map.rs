//! A small map from identifiers to values.
//!
//! It is meant for the handful of entries that a configuration holds: lookup
//! is a scan, and the entries keep a fixed order.

use vstd::prelude::*;

use crate::text;

verus! {

/// Whether no key occurs twice.
pub open spec fn keys_distinct<V>(entries: Seq<(String, V)>) -> bool {
    forall|i: int, j: int|
        0 <= i < j < entries.len() ==> (#[trigger] entries[i]).0@ != (#[trigger] entries[j]).0@
}

/// The map that a list of entries stands for; a later entry replaces an
/// earlier one with the same key.
pub open spec fn map_of<V>(entries: Seq<(String, V)>) -> Map<Seq<char>, V>
    decreases entries.len(),
{
    if entries.len() == 0 {
        Map::empty()
    } else {
        map_of(entries.drop_last()).insert(entries.last().0@, entries.last().1)
    }
}

/// A key is in the map exactly when an entry has it, and among entries with
/// distinct keys it maps to the value of that entry.
pub proof fn lemma_map_of<V>(entries: Seq<(String, V)>)
    ensures
        forall|k: Seq<char>| #[trigger]
            map_of(entries).contains_key(k) <==> exists|i: int|
                0 <= i < entries.len() && (#[trigger] entries[i]).0@ == k,
        keys_distinct(entries) ==> forall|i: int|
            0 <= i < entries.len() ==> map_of(entries)[(#[trigger] entries[i]).0@] == entries[i].1,
        keys_distinct(entries) ==> map_of(entries).dom().finite() && map_of(entries).dom().len()
            == entries.len(),
    decreases entries.len(),
{
    if entries.len() > 0 {
        let init = entries.drop_last();
        let last = entries.last();
        lemma_map_of(init);
        assert forall|k: Seq<char>| #[trigger]
            map_of(entries).contains_key(k) <==> exists|i: int|
                0 <= i < entries.len() && (#[trigger] entries[i]).0@ == k by {
            if map_of(entries).contains_key(k) {
                if k == last.0@ {
                    assert(entries[entries.len() - 1].0@ == k);
                } else {
                    assert(map_of(init).contains_key(k));
                    let i = choose|i: int| 0 <= i < init.len() && (#[trigger] init[i]).0@ == k;
                    assert(entries[i].0@ == k);
                }
            }
            if exists|i: int| 0 <= i < entries.len() && (#[trigger] entries[i]).0@ == k {
                let i = choose|i: int| 0 <= i < entries.len() && (#[trigger] entries[i]).0@ == k;
                if i < init.len() {
                    assert(init[i].0@ == k);
                    assert(map_of(init).contains_key(k));
                }
            }
        }
        if keys_distinct(entries) {
            assert forall|i: int, j: int| 0 <= i < j < init.len() implies (#[trigger] init[i]).0@ != (
            #[trigger] init[j]).0@ by {
                assert(entries[i].0@ != entries[j].0@);
            }
            assert forall|i: int| 0 <= i < entries.len() implies map_of(entries)[(
            #[trigger] entries[i]).0@] == entries[i].1 by {
                if i < init.len() {
                    assert(init[i] == entries[i]);
                    assert(entries[i].0@ != entries[entries.len() - 1].0@);
                }
            }
            assert(!map_of(init).contains_key(last.0@)) by {
                if map_of(init).contains_key(last.0@) {
                    let i = choose|i: int| 0 <= i < init.len()
                        && (#[trigger] init[i]).0@ == last.0@;
                    assert(entries[i].0@ == entries[entries.len() - 1].0@);
                }
            }
            assert(map_of(entries).dom() =~= map_of(init).dom().insert(last.0@));
        }
    }
}

/// A map from identifiers to values.
#[derive(Debug)]
pub struct IdMap<V> {
    entries: Vec<(String, V)>,
}

impl<V> View for IdMap<V> {
    type V = Map<Seq<char>, V>;

    open spec fn view(&self) -> Map<Seq<char>, V> {
        map_of(self.items())
    }
}

impl<V> IdMap<V> {
    /// The entries, in their order.
    pub closed spec fn items(self) -> Seq<(String, V)> {
        self.entries@
    }

    #[verifier::type_invariant]
    spec fn well_formed(self) -> bool {
        keys_distinct(self.entries@)
    }

    /// The empty map.
    pub fn new() -> (r: Self)
        ensures
            r.items() == Seq::<(String, V)>::empty(),
            r@ == Map::<Seq<char>, V>::empty(),
    {
        IdMap { entries: Vec::new() }
    }

    /// The number of entries.
    pub fn len(&self) -> (r: usize)
        ensures
            r == self.items().len(),
            r == self@.dom().len(),
    {
        proof {
            use_type_invariant(self);
            lemma_map_of(self.entries@);
        }
        self.entries.len()
    }

    /// Whether there are no entries.
    pub fn is_empty(&self) -> (r: bool)
        ensures
            r == (self.items().len() == 0),
            r == (self@ == Map::<Seq<char>, V>::empty()),
    {
        proof {
            use_type_invariant(self);
            lemma_map_of(self.entries@);
            if self.entries@.len() > 0 {
                assert(self@.contains_key(self.entries@.last().0@));
            }
        }
        self.entries.len() == 0
    }

    fn place_of(&self, key: &str) -> (r: Option<usize>)
        ensures
            r matches Some(i) ==> i < self.entries@.len() && self.entries@[i as int].0@ == key@,
            r is None ==> forall|i: int|
                0 <= i < self.entries@.len() ==> (#[trigger] self.entries@[i]).0@ != key@,
    {
        let mut i: usize = 0;
        while i < self.entries.len()
            invariant
                i <= self.entries@.len(),
                forall|j: int| 0 <= j < i ==> (#[trigger] self.entries@[j]).0@ != key@,
            decreases self.entries.len() - i,
        {
            if text::str_eq(self.entries[i].0.as_str(), key) {
                return Some(i);
            }
            i = i + 1;
        }
        None
    }

    /// The value of `key`.
    pub fn get(&self, key: &str) -> (r: Option<&V>)
        ensures
            r is Some <==> self@.contains_key(key@),
            r matches Some(v) ==> *v == self@[key@],
    {
        proof {
            use_type_invariant(self);
            lemma_map_of(self.entries@);
        }
        match self.place_of(key) {
            Some(i) => Some(&self.entries[i].1),
            None => None,
        }
    }

    /// Whether `key` has a value.
    pub fn contains_key(&self, key: &str) -> (r: bool)
        ensures
            r == self@.contains_key(key@),
    {
        self.get(key).is_some()
    }

    /// The value of entry number `i`.
    pub fn value_at(&self, i: usize) -> (r: &V)
        requires
            i < self.items().len(),
        ensures
            *r == self.items()[i as int].1,
    {
        &self.entries[i].1
    }

    /// The key of entry number `i`.
    pub fn key_at(&self, i: usize) -> (r: &str)
        requires
            i < self.items().len(),
        ensures
            r@ == self.items()[i as int].0@,
    {
        self.entries[i].0.as_str()
    }

    /// The entries, in their order.
    pub fn into_entries(self) -> (r: Vec<(String, V)>)
        ensures
            r@ == self.items(),
    {
        self.entries
    }

    /// Sets the value of `key`, and returns the value that it replaces.
    pub fn insert(&mut self, key: String, value: V) -> (r: Option<V>)
        ensures
            final(self)@ == old(self)@.insert(key@, value),
            r is Some <==> old(self)@.contains_key(key@),
            r matches Some(v) ==> v == old(self)@[key@],
            r is None ==> final(self).items() == old(self).items().push((key, value)),
    {
        let ghost before = self.entries@;
        proof {
            use_type_invariant(&*self);
            lemma_map_of(before);
        }
        let place = self.place_of(key.as_str());
        let mut entries: Vec<(String, V)> = Vec::new();
        std::mem::swap(&mut entries, &mut self.entries);
        let old_value = match place {
            Some(i) => {
                let (_, v) = entries.remove(i);
                Some(v)
            },
            None => None,
        };
        let ghost rest = entries@;
        entries.push((key, value));
        proof {
            let after = entries@;
            assert(after.drop_last() =~= rest);
            lemma_map_of(rest);
            assert(keys_distinct(rest)) by {
                assert forall|i: int, j: int| 0 <= i < j < rest.len() implies (
                #[trigger] rest[i]).0@ != (#[trigger] rest[j]).0@ by {
                    if place is Some {
                        let p = place->0 as int;
                        let a = if i < p {
                            i
                        } else {
                            i + 1
                        };
                        let b = if j < p {
                            j
                        } else {
                            j + 1
                        };
                        assert(rest[i] == before[a]);
                        assert(rest[j] == before[b]);
                        assert(before[a].0@ != before[b].0@);
                    }
                }
            }
            assert forall|i: int| 0 <= i < rest.len() implies (#[trigger] rest[i]).0@ != key@ by {
                if place is Some {
                    let p = place->0 as int;
                    if i < p {
                        assert(rest[i] == before[i]);
                        assert(before[i].0@ != before[p].0@);
                    } else {
                        assert(rest[i] == before[i + 1]);
                        assert(before[p].0@ != before[i + 1].0@);
                    }
                }
            }
            assert(keys_distinct(after)) by {
                assert forall|i: int, j: int| 0 <= i < j < after.len() implies (
                #[trigger] after[i]).0@ != (#[trigger] after[j]).0@ by {
                    assert(after[i] == rest[i]);
                    if j < rest.len() {
                        assert(after[j] == rest[j]);
                    }
                }
            }
            assert(map_of(after) =~= map_of(before).insert(key@, value)) by {
                assert forall|k: Seq<char>| k != key@ implies map_of(rest).contains_key(k)
                    == map_of(before).contains_key(k) && (map_of(rest).contains_key(k) ==> map_of(
                    rest,
                )[k] == map_of(before)[k]) by {
                    if place is Some {
                        let p = place->0 as int;
                        if map_of(rest).contains_key(k) {
                            let i = choose|i: int|
                                0 <= i < rest.len() && (#[trigger] rest[i]).0@ == k;
                            let a = if i < p {
                                i
                            } else {
                                i + 1
                            };
                            assert(rest[i] == before[a]);
                            assert(before[a].0@ == k);
                        }
                        if map_of(before).contains_key(k) {
                            let a = choose|a: int|
                                0 <= a < before.len() && (#[trigger] before[a]).0@ == k;
                            let i = if a < p {
                                a
                            } else {
                                a - 1
                            };
                            assert(rest[i] == before[a]);
                            assert(rest[i].0@ == k);
                        }
                    } else {
                        assert(rest =~= before);
                    }
                }
            }
        }
        self.entries = entries;
        old_value
    }
}

impl<V: Clone> Clone for IdMap<V> {
    fn clone(&self) -> (r: Self)
        ensures
            r.items().len() == self.items().len(),
            forall|i: int|
                0 <= i < r.items().len() ==> (#[trigger] r.items()[i]).0 == self.items()[i].0
                    && cloned(self.items()[i].1, r.items()[i].1),
    {
        let mut entries: Vec<(String, V)> = Vec::new();
        let mut i: usize = 0;
        while i < self.entries.len()
            invariant
                i <= self.entries@.len(),
                entries@.len() == i,
                forall|j: int|
                    0 <= j < i ==> (#[trigger] entries@[j]).0 == self.entries@[j].0 && cloned(
                        self.entries@[j].1,
                        entries@[j].1,
                    ),
            decreases self.entries.len() - i,
        {
            let key = self.entries[i].0.clone();
            let value = self.entries[i].1.clone();
            entries.push((key, value));
            i = i + 1;
        }
        proof {
            use_type_invariant(self);
            assert forall|a: int, b: int| 0 <= a < b < entries@.len() implies (
            #[trigger] entries@[a]).0@ != (#[trigger] entries@[b]).0@ by {
                assert(self.entries@[a].0@ != self.entries@[b].0@);
            }
        }
        IdMap { entries }
    }
}

impl<V> Default for IdMap<V> {
    fn default() -> (r: Self)
        ensures
            r.items() == Seq::<(String, V)>::empty(),
    {
        IdMap::new()
    }
}

} // verus!
