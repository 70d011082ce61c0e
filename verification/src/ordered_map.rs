//! An insertion-ordered map from text to text.
//!
//! The map is `IndexMap` of the indexmap crate. What it holds is named here as
//! a sequence of entries in insertion order, and the operations the library
//! uses are given contracts over that sequence, as indexmap documents them.

use indexmap::IndexMap;
use vstd::prelude::*;

verus! {

/// An entry of the map: a key and its value.
pub type Entry = (Seq<char>, Seq<char>);

/// Trusted: `IndexMap` of the indexmap crate, declared as an outside type
/// of which nothing is known but what the items below state.
#[verifier::external_type_specification]
#[verifier::external_body]
#[verifier::reject_recursive_types(K)]
#[verifier::reject_recursive_types(V)]
#[verifier::reject_recursive_types(S)]
pub struct ExIndexMap<K, V, S>(IndexMap<K, V, S>);

/// The entries of `map`, in the order in which their keys were first
/// inserted.
pub uninterp spec fn entries(map: IndexMap<String, String>) -> Seq<Entry>;

/// Whether `key` is the key of one of `entries`.
pub open spec fn has_key(entries: Seq<Entry>, key: Seq<char>) -> bool {
    exists|i: int| 0 <= i < entries.len() && (#[trigger] entries[i]).0 == key
}

/// Whether no two of `entries` have the same key.
pub open spec fn distinct_keys(entries: Seq<Entry>) -> bool {
    forall|i: int, j: int|
        0 <= i < j < entries.len() ==> (#[trigger] entries[i]).0 != (#[trigger] entries[j]).0
}

/// The place of an entry with `key`, where there is one.
pub open spec fn place_of(entries: Seq<Entry>, key: Seq<char>) -> int {
    choose|i: int| 0 <= i < entries.len() && (#[trigger] entries[i]).0 == key
}

/// The value that `entries` hold for `key`, if they hold one.
pub open spec fn value_of(entries: Seq<Entry>, key: Seq<char>) -> Option<Seq<char>> {
    if has_key(entries, key) {
        Some(entries[place_of(entries, key)].1)
    } else {
        None
    }
}

/// The entries after `value` was put under `key`: in the place of the entry
/// that had the key, or at the end where none had it.
pub open spec fn put(entries: Seq<Entry>, key: Seq<char>, value: Seq<char>) -> Seq<Entry> {
    if has_key(entries, key) {
        entries.update(place_of(entries, key), (key, value))
    } else {
        entries.push((key, value))
    }
}

/// The text of a string that may be absent.
pub open spec fn text_of(r: Option<String>) -> Option<Seq<char>> {
    match r {
        Some(text) => Some(text@),
        None => None,
    }
}

/// The text of a borrowed string that may be absent.
pub open spec fn text_of_ref(r: Option<&String>) -> Option<Seq<char>> {
    match r {
        Some(text) => Some(text@),
        None => None,
    }
}

/// The texts of a borrowed entry that may be absent.
pub open spec fn entry_of(r: Option<(&String, &String)>) -> Option<Entry> {
    match r {
        Some((key, value)) => Some((key@, value@)),
        None => None,
    }
}

/// Trusted: calls `IndexMap::new`, which makes a map without entries.
#[verifier::external_body]
pub(crate) fn new_map() -> (r: IndexMap<String, String>)
    ensures
        entries(r) == Seq::<Entry>::empty(),
{
    IndexMap::new()
}

/// Trusted: calls `IndexMap::insert`. As indexmap documents it: where an
/// equal key is in the map, the entry keeps its place, takes the new value and
/// the old value is returned; where none is, the pair becomes the last entry
/// and nothing is returned.
#[verifier::external_body]
pub(crate) fn insert(map: &mut IndexMap<String, String>, key: String, value: String) -> (r: Option<
    String,
>)
    ensures
        entries(*final(map)) == put(entries(*old(map)), key@, value@),
        text_of(r) == value_of(entries(*old(map)), key@),
{
    map.insert(key, value)
}

/// Trusted: calls `IndexMap::get`, which returns the value stored for the
/// key, if the key is in the map.
#[verifier::external_body]
pub(crate) fn get<'a>(map: &'a IndexMap<String, String>, key: &str) -> (r: Option<&'a String>)
    ensures
        text_of_ref(r) == value_of(entries(*map), key@),
{
    map.get(key)
}

/// Trusted: calls `IndexMap::len`, which returns the number of entries.
#[verifier::external_body]
pub(crate) fn len(map: &IndexMap<String, String>) -> (r: usize)
    ensures
        r == entries(*map).len(),
{
    map.len()
}

/// Trusted: calls `IndexMap::get_index`, which returns the entry at a place
/// in the order, for the places below the number of entries.
#[verifier::external_body]
pub(crate) fn get_index<'a>(map: &'a IndexMap<String, String>, index: usize) -> (r: Option<
    (&'a String, &'a String),
>)
    ensures
        entry_of(r) == if index < entries(*map).len() {
            Some(entries(*map)[index as int])
        } else {
            None
        },
{
    map.get_index(index)
}

/// Putting a value under a key keeps the keys distinct.
pub proof fn lemma_put_keeps_keys_distinct(entries: Seq<Entry>, key: Seq<char>, value: Seq<char>)
    requires
        distinct_keys(entries),
    ensures
        distinct_keys(put(entries, key, value)),
{
    let after = put(entries, key, value);
    if has_key(entries, key) {
        let place = place_of(entries, key);
        assert forall|i: int, j: int| 0 <= i < j < after.len() implies (#[trigger] after[i]).0 != (
        #[trigger] after[j]).0 by {
            assert(after[i].0 == entries[i].0);
            assert(after[j].0 == entries[j].0);
        }
    } else {
        assert forall|i: int, j: int| 0 <= i < j < after.len() implies (#[trigger] after[i]).0 != (
        #[trigger] after[j]).0 by {
            if j == entries.len() {
                assert(entries[i].0 != key);
            }
        }
    }
}

/// What was put under a key is what the key holds afterwards.
pub proof fn lemma_put_then_value(entries: Seq<Entry>, key: Seq<char>, value: Seq<char>)
    requires
        distinct_keys(entries),
    ensures
        value_of(put(entries, key, value), key) == Some(value),
{
    let after = put(entries, key, value);
    lemma_put_keeps_keys_distinct(entries, key, value);
    let place = if has_key(entries, key) {
        place_of(entries, key)
    } else {
        entries.len() as int
    };
    assert(after[place] == (key, value));
    assert(has_key(after, key));
    let found = place_of(after, key);
    assert(found == place) by {
        if found < place {
            assert(after[found].0 != after[place].0);
        } else if place < found {
            assert(after[place].0 != after[found].0);
        }
    }
}

/// Putting a value under one key leaves what the other keys hold.
pub proof fn lemma_put_leaves_others(entries: Seq<Entry>, key: Seq<char>, value: Seq<char>, other: Seq<char>)
    requires
        distinct_keys(entries),
        other != key,
    ensures
        value_of(put(entries, key, value), other) == value_of(entries, other),
{
    let after = put(entries, key, value);
    lemma_put_keeps_keys_distinct(entries, key, value);
    if has_key(entries, other) {
        let place = place_of(entries, other);
        assert(after[place] == entries[place]);
        assert(has_key(after, other));
        let found = place_of(after, other);
        assert(found == place) by {
            if found < place {
                assert(after[found].0 != after[place].0);
            } else if place < found {
                assert(after[place].0 != after[found].0);
            }
        }
    } else {
        if has_key(after, other) {
            let found = place_of(after, other);
            if found < entries.len() {
                assert(after[found].0 == entries[found].0);
                assert(entries[found].0 == other);
            }
        }
    }
}

/// Where the keys are distinct, the entry at `place` has a key that none of
/// the entries before it has: put after them, it goes last.
pub proof fn lemma_fresh_key_goes_last(entries: Seq<Entry>, place: int)
    requires
        distinct_keys(entries),
        0 <= place < entries.len(),
    ensures
        put(entries.take(place), entries[place].0, entries[place].1) == entries.take(place + 1),
{
    let before = entries.take(place);
    if has_key(before, entries[place].0) {
        let found = place_of(before, entries[place].0);
        assert(before[found] == entries[found]);
        assert(entries[found].0 != entries[place].0);
    }
    assert(before.push(entries[place]) =~= entries.take(place + 1));
}

/// Whether two sequences of entries hold the same value for every key,
/// whatever the order of their entries.
pub open spec fn same_values(entries: Seq<Entry>, others: Seq<Entry>) -> bool {
    forall|key: Seq<char>| value_of(entries, key) == value_of(others, key)
}

/// The keys of `entries`, in their order.
pub open spec fn keys_of(entries: Seq<Entry>) -> Seq<Seq<char>> {
    entries.map_values(|entry: Entry| entry.0)
}

/// Where the keys are distinct, the value held for the key of an entry is
/// the value of that entry.
pub proof fn lemma_value_at_place(entries: Seq<Entry>, place: int)
    requires
        distinct_keys(entries),
        0 <= place < entries.len(),
    ensures
        has_key(entries, entries[place].0),
        place_of(entries, entries[place].0) == place,
        value_of(entries, entries[place].0) == Some(entries[place].1),
{
    let key = entries[place].0;
    assert(has_key(entries, key));
    let found = place_of(entries, key);
    if found < place {
        assert(entries[found].0 != entries[place].0);
    } else if place < found {
        assert(entries[place].0 != entries[found].0);
    }
}

/// Where the keys are distinct, there are as many keys as entries, and a key
/// is among them exactly if an entry has it.
pub proof fn lemma_keys_are_counted(entries: Seq<Entry>)
    requires
        distinct_keys(entries),
    ensures
        keys_of(entries).to_set().finite(),
        keys_of(entries).to_set().len() == entries.len(),
        forall|key: Seq<char>| #[trigger] keys_of(entries).to_set().contains(key) <==> has_key(entries, key),
{
    let keys = keys_of(entries);
    assert(keys.no_duplicates()) by {
        assert forall|i: int, j: int| 0 <= i < keys.len() && 0 <= j < keys.len() && i != j implies keys[i]
            != keys[j] by {
            if i < j {
                assert(entries[i].0 != entries[j].0);
            } else {
                assert(entries[j].0 != entries[i].0);
            }
        }
    }
    keys.unique_seq_to_set();
    vstd::seq_lib::seq_to_set_is_finite(keys);
    assert forall|key: Seq<char>| #[trigger] keys.to_set().contains(key) <==> has_key(entries, key) by {
        if keys.to_set().contains(key) {
            let i = choose|i: int| 0 <= i < keys.len() && keys[i] == key;
            assert(entries[i].0 == key);
        }
        if has_key(entries, key) {
            let i = place_of(entries, key);
            assert(keys[i] == key);
        }
    }
}

/// Two sequences with distinct keys that hold the same value for every key
/// have the same number of entries.
pub proof fn lemma_same_values_same_number(entries: Seq<Entry>, others: Seq<Entry>)
    requires
        distinct_keys(entries),
        distinct_keys(others),
        same_values(entries, others),
    ensures
        entries.len() == others.len(),
{
    lemma_keys_are_counted(entries);
    lemma_keys_are_counted(others);
    assert(keys_of(entries).to_set() =~= keys_of(others).to_set()) by {
        assert forall|key: Seq<char>| keys_of(entries).to_set().contains(key) == keys_of(others).to_set().contains(
            key,
        ) by {
            assert(value_of(entries, key) == value_of(others, key));
        }
    }
}

/// Two sequences with distinct keys and the same number of entries hold the
/// same value for every key, where the second holds for the key of each entry
/// of the first the value of that entry.
pub proof fn lemma_covered_means_same(entries: Seq<Entry>, others: Seq<Entry>)
    requires
        distinct_keys(entries),
        distinct_keys(others),
        entries.len() == others.len(),
        forall|i: int|
            0 <= i < entries.len() ==> value_of(others, (#[trigger] entries[i]).0) == Some(entries[i].1),
    ensures
        same_values(entries, others),
{
    lemma_keys_are_counted(entries);
    lemma_keys_are_counted(others);
    let keys = keys_of(entries).to_set();
    let other_keys = keys_of(others).to_set();
    assert(keys.subset_of(other_keys)) by {
        assert forall|key: Seq<char>| keys.contains(key) implies other_keys.contains(key) by {
            let i = place_of(entries, key);
            assert(value_of(others, entries[i].0) is Some);
        }
    }
    vstd::set_lib::lemma_subset_equality(keys, other_keys);
    assert forall|key: Seq<char>| value_of(entries, key) == value_of(others, key) by {
        if has_key(entries, key) {
            let i = place_of(entries, key);
            lemma_value_at_place(entries, i);
        } else {
            assert(!keys.contains(key));
            assert(!other_keys.contains(key));
        }
    }
}

} // verus!
