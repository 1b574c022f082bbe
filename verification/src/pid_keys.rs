//! Maps with numeric keys, as they are written to JSON.
//!
//! The keys of a JSON object are strings, so a map from packet or program
//! identifiers is written with its keys in decimal and read back from them.

use std::collections::BTreeMap;
use vstd::prelude::*;

use crate::error;
use crate::error::{Checks, ConfigError};
use crate::number;
use crate::text;

verus! {

/// The maps that have numeric keys.
#[derive(Debug, Clone, Copy, PartialEq, Eq, Structural)]
pub enum KeyedMap {
    /// A packet identifier to a packet identifier.
    PidMap,
    /// A source packet identifier to a packet identifier.
    AudioPids,
    /// A program number to that program's overrides.
    PidOverrides,
}

impl KeyedMap {
    /// What a key of the map has to be.
    pub open spec fn key_rule(self) -> Seq<char> {
        match self {
            KeyedMap::PidMap => "pid_map key must be a u16 (0-65535), got "@,
            KeyedMap::AudioPids => "audio_pids key must be a u16 source PID (0-65535), got "@,
            KeyedMap::PidOverrides => "pid_overrides key must be a u16 program_number (0-65535), got "@,
        }
    }

    fn key_rule_text(self) -> (r: &'static str)
        ensures
            r@ == self.key_rule(),
    {
        match self {
            KeyedMap::PidMap => "pid_map key must be a u16 (0-65535), got ",
            KeyedMap::AudioPids => "audio_pids key must be a u16 source PID (0-65535), got ",
            KeyedMap::PidOverrides => "pid_overrides key must be a u16 program_number (0-65535), got ",
        }
    }
}

/// What is wrong with a key.
pub open spec fn key_fault(kind: KeyedMap, key: Seq<char>) -> Option<Seq<char>> {
    error::check(
        number::unsigned_of(key, 65535) is None,
        kind.key_rule() + text::debug_text(key),
    )
}

/// What is wrong with the first key that is no number.
pub open spec fn keys_fault<V>(kind: KeyedMap, entries: Seq<(String, V)>, from: int) -> Option<
    Seq<char>,
>
    decreases entries.len() - from,
{
    if 0 <= from < entries.len() {
        key_fault(kind, entries[from].0@).otherwise(keys_fault(kind, entries, from + 1))
    } else {
        None
    }
}

/// The map that a list of entries stands for. Of two entries with the same
/// number the later one counts.
pub open spec fn keyed<V>(entries: Seq<(String, V)>) -> Map<u16, V>
    decreases entries.len(),
{
    if entries.len() == 0 {
        Map::empty()
    } else {
        let (key, value) = entries.last();
        keyed(entries.drop_last()).insert(number::unsigned_of(key@, 65535)->0 as u16, value)
    }
}

/// Whether `e` is the entry of `m` for the key `k`, with the key in decimal.
pub open spec fn is_entry<V>(m: Map<u16, V>, k: u16, e: (String, V)) -> bool {
    m.contains_key(k) && e.0@ == text::dec(k as nat) && e.1 == m[k]
}

/// Whether `e` is an entry of `m`, with the key in decimal.
pub open spec fn belongs<V>(m: Map<u16, V>, e: (String, V)) -> bool {
    exists|k: u16| is_entry(m, k, e)
}

/// Whether the key `k` of `m` is among `entries`, in decimal.
#[verifier::opaque]
pub open spec fn is_listed<V>(m: Map<u16, V>, entries: Seq<(String, V)>, k: u16) -> bool {
    exists|i: int| 0 <= i < entries.len() && is_entry(m, k, #[trigger] entries[i])
}

/// Whether `entries` are the entries of `m`, each once, with the keys in
/// decimal.
pub open spec fn is_written<V>(m: Map<u16, V>, entries: Seq<(String, V)>) -> bool {
    &&& entries.len() == m.len()
    &&& forall|i: int|
        0 <= i < entries.len() ==> belongs(m, #[trigger] entries[i])
    &&& forall|k: u16| #[trigger] m.contains_key(k) ==> is_listed(m, entries, k)
}

/// Entries whose values are borrowed, as entries.
pub open spec fn owned<V>(entries: Seq<(String, &V)>) -> Seq<(String, V)> {
    Seq::new(entries.len(), |i: int| (entries[i].0, *entries[i].1))
}

/// The entries of a map, with the keys in decimal.
pub fn write_keys<V>(m: &BTreeMap<u16, V>) -> (r: Vec<(String, &V)>)
    ensures
        is_written(m@, owned(r@)),
{
    broadcast use vstd::std_specs::btree::group_btree_axioms;
    let mut r: Vec<(String, &V)> = Vec::new();
    for e in it: m.iter()
        invariant
            r@.len() == it.index(),
            forall|i: int|
                0 <= i < r@.len() ==> (#[trigger] r@[i]).0@ == text::dec(*it.seq()[i].0 as nat)
                    && r@[i].1 == it.seq()[i].1,
    {
        r.push((text::dec_string(*e.0 as u64), e.1));
    }
    proof {
        let pairs = vstd::std_specs::iter::IteratorSpec::remaining(&m.iter());
        let written = owned(r@);
        assert(r@.len() == pairs.len());
        assert forall|i: int| 0 <= i < written.len() implies belongs(m@, #[trigger] written[i]) by {
            assert(is_entry(m@, *pairs[i].0, written[i]));
        }
        assert forall|k: u16| #[trigger] m@.contains_key(k) implies is_listed(m@, written, k) by {
            reveal(is_listed);
            let i = choose|i: int| 0 <= i < pairs.len() && pairs[i] == (&k, &m@[k]);
            assert(is_entry(m@, k, written[i]));
        }
    }
    r
}

/// Reads the entries of a map whose keys are in decimal.
pub fn read_keys<V>(kind: KeyedMap, entries: Vec<(String, V)>) -> (r: Result<
    BTreeMap<u16, V>,
    ConfigError,
>)
    ensures
        match r {
            Ok(m) => keys_fault(kind, entries@, 0) is None && m@ == keyed(entries@),
            Err(e) => keys_fault(kind, entries@, 0) == Some(e.message@),
        },
{
    broadcast use vstd::std_specs::btree::group_btree_axioms;
    let mut r: BTreeMap<u16, V> = BTreeMap::new();
    for e in it: entries
        invariant
            r@ == keyed(entries@.take(it.index())),
            it.seq() == entries@,
            keys_fault(kind, entries@, 0) == keys_fault(kind, entries@, it.index()),
    {
        let ghost i = it.index() as int;
        assert(e == entries@[i]);
        assert(entries@.take(i + 1).drop_last() =~= entries@.take(i));
        assert(keys_fault(kind, entries@, i) == key_fault(kind, entries@[i].0@).otherwise(
            keys_fault(kind, entries@, i + 1),
        ));
        let (key, value) = e;
        match number::parse_unsigned(key.as_str(), 65535) {
            Some(n) => {
                r.insert(n as u16, value);
            },
            None => {
                let quoted = text::debug_string(key.as_str());
                return Err(
                    ConfigError { message: text::cat2(kind.key_rule_text(), quoted.as_str()) },
                );
            },
        }
    }
    assert(entries@.take(entries@.len() as int) =~= entries@);
    Ok(r)
}

/// What holds of the first entries of a written map.
proof fn lemma_written_prefix<V>(m: Map<u16, V>, entries: Seq<(String, V)>, n: int)
    requires
        is_written(m, entries),
        0 <= n <= entries.len(),
    ensures
        keyed(entries.take(n)).submap_of(m),
        forall|i: int, k: u16|
            0 <= i < n && is_entry(m, k, #[trigger] entries[i]) ==> #[trigger] keyed(
                entries.take(n),
            ).contains_key(k),
    decreases n,
{
    if n > 0 {
        lemma_written_prefix(m, entries, n - 1);
        let first = entries.take(n);
        assert(first.drop_last() =~= entries.take(n - 1));
        let e = entries[n - 1];
        assert(belongs(m, e));
        let k = choose|k: u16| is_entry(m, k, e);
        number::lemma_read_back(k as nat, 65535);
        assert forall|k2: u16| is_entry(m, k2, e) implies k2 == k by {
            number::lemma_read_back(k2 as nat, 65535);
        }
    }
}

proof fn lemma_written_keys<V>(kind: KeyedMap, m: Map<u16, V>, entries: Seq<(String, V)>, from: int)
    requires
        is_written(m, entries),
        0 <= from <= entries.len(),
    ensures
        keys_fault(kind, entries, from) is None,
    decreases entries.len() - from,
{
    if from < entries.len() {
        lemma_written_keys(kind, m, entries, from + 1);
        assert(belongs(m, entries[from]));
        let k = choose|k: u16| is_entry(m, k, entries[from]);
        number::lemma_read_back(k as nat, 65535);
    }
}

/// A map that is written and read back is the same map.
pub proof fn lemma_written_reads_back<V>(
    kind: KeyedMap,
    m: Map<u16, V>,
    entries: Seq<(String, V)>,
)
    requires
        is_written(m, entries),
    ensures
        keys_fault(kind, entries, 0) is None,
        keyed(entries) == m,
{
    lemma_written_keys(kind, m, entries, 0);
    lemma_written_prefix(m, entries, entries.len() as int);
    assert(entries.take(entries.len() as int) =~= entries);
    assert forall|k: u16| m.contains_key(k) implies keyed(entries).contains_key(k) by {
        reveal(is_listed);
        let i = choose|i: int| 0 <= i < entries.len() && is_entry(m, k, #[trigger] entries[i]);
        assert(is_entry(m, k, entries[i]));
    }
    assert(keyed(entries) =~= m);
}

/// The keys of a map are accepted exactly when each is a number of at most 65535.
pub proof fn lemma_keys_are_numbers<V>(kind: KeyedMap, entries: Seq<(String, V)>, from: int)
    requires
        0 <= from <= entries.len(),
    ensures
        keys_fault(kind, entries, from) is None <==> forall|i: int|
            from <= i < entries.len() ==> number::unsigned_of(
                (#[trigger] entries[i]).0@,
                65535,
            ) is Some,
    decreases entries.len() - from,
{
    if from < entries.len() {
        lemma_keys_are_numbers(kind, entries, from + 1);
    }
}

/// A map has the value of the last entry under each key, and no key without an entry.
pub proof fn lemma_last_entry_counts<V>(entries: Seq<(String, V)>, key: u16, n: int)
    requires
        0 <= n <= entries.len(),
        forall|i: int|
            n <= i < entries.len() ==> number::unsigned_of((#[trigger] entries[i]).0@, 65535)->0
                as u16 != key,
    ensures
        n == 0 ==> !keyed(entries).contains_key(key),
        n > 0 && number::unsigned_of(entries[n - 1].0@, 65535)->0 as u16 == key ==> keyed(
            entries,
        ).contains_key(key) && keyed(entries)[key] == entries[n - 1].1,
    decreases entries.len(),
{
    if entries.len() > n {
        let init = entries.drop_last();
        assert forall|i: int| n <= i < init.len() implies number::unsigned_of(
            (#[trigger] init[i]).0@,
            65535,
        )->0 as u16 != key by {
            assert(init[i] == entries[i]);
        }
        lemma_last_entry_counts(init, key, n);
        assert(number::unsigned_of(entries[entries.len() - 1].0@, 65535)->0 as u16 != key);
    }
}

} // verus!
