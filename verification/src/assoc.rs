//! Association lists keyed by text: the members of a JSON object, the
//! queries of a registry.
//!
//! The entries stand in the order in which their keys were first inserted.
//! No key occurs twice, and a value put under a key that is already there
//! replaces the old one and keeps its place.

use vstd::prelude::*;

verus! {

/// Whether some entry has the key `key`.
pub open spec fn has_key<V>(entries: Seq<(Seq<char>, V)>, key: Seq<char>) -> bool {
    exists|i: int| 0 <= i < entries.len() && (#[trigger] entries[i]).0 == key
}

/// The place of an entry with the key `key`, where one exists.
pub open spec fn key_index<V>(entries: Seq<(Seq<char>, V)>, key: Seq<char>) -> int {
    choose|i: int| 0 <= i < entries.len() && (#[trigger] entries[i]).0 == key
}

/// No two entries share a key.
pub open spec fn distinct_keys<V>(entries: Seq<(Seq<char>, V)>) -> bool {
    forall|i: int, j: int|
        0 <= i < j < entries.len() ==> (#[trigger] entries[i]).0 != (#[trigger] entries[j]).0
}

/// The value stored under `key`, if any.
pub open spec fn lookup<V>(entries: Seq<(Seq<char>, V)>, key: Seq<char>) -> Option<V> {
    if has_key(entries, key) {
        Some(entries[key_index(entries, key)].1)
    } else {
        None
    }
}

/// Insertion where the last write wins: under a key that is present the value
/// is replaced in place, a new key goes to the end.
pub open spec fn put<V>(entries: Seq<(Seq<char>, V)>, key: Seq<char>, value: V) -> Seq<
    (Seq<char>, V),
> {
    if has_key(entries, key) {
        entries.update(key_index(entries, key), (key, value))
    } else {
        entries.push((key, value))
    }
}

/// The mapping from keys to values that the entries stand for.
pub open spec fn as_map<V>(entries: Seq<(Seq<char>, V)>) -> Map<Seq<char>, V> {
    Map::new(
        |key: Seq<char>| has_key(entries, key),
        |key: Seq<char>| entries[key_index(entries, key)].1,
    )
}

/// The entries by their views, in order.
pub open spec fn entry_models<V: View>(entries: Seq<(String, V)>) -> Seq<(Seq<char>, V::V)> {
    Seq::new(entries.len(), |i: int| (entries[i].0@, entries[i].1@))
}

/// With distinct keys an entry is found at the one place where its key is.
pub proof fn lemma_key_index<V>(entries: Seq<(Seq<char>, V)>, key: Seq<char>, at: int)
    requires
        distinct_keys(entries),
        0 <= at < entries.len(),
        entries[at].0 == key,
    ensures
        has_key(entries, key),
        key_index(entries, key) == at,
        lookup(entries, key) == Some(entries[at].1),
{
    let found = key_index(entries, key);
    if found < at {
        assert(entries[found].0 != entries[at].0);
    } else if at < found {
        assert(entries[at].0 != entries[found].0);
    }
}

/// Putting a value keeps the keys distinct, stores the value under the key,
/// and leaves every other key as it was.
pub proof fn lemma_put<V>(entries: Seq<(Seq<char>, V)>, key: Seq<char>, value: V)
    requires
        distinct_keys(entries),
    ensures
        distinct_keys(put(entries, key, value)),
        lookup(put(entries, key, value), key) == Some(value),
        forall|other: Seq<char>|
            other != key ==> lookup(put(entries, key, value), other) == lookup(entries, other),
        put(entries, key, value).len() == if has_key(entries, key) {
            entries.len()
        } else {
            entries.len() + 1
        },
{
    let after = put(entries, key, value);
    let at = if has_key(entries, key) {
        key_index(entries, key)
    } else {
        entries.len() as int
    };
    assert(after[at] == (key, value));
    assert forall|i: int, j: int| 0 <= i < j < after.len() implies (#[trigger] after[i]).0 != (
    #[trigger] after[j]).0 by {
        if has_key(entries, key) {
            assert(after[i].0 == entries[i].0);
            assert(after[j].0 == entries[j].0);
        } else {
            if j == entries.len() {
                assert(after[i] == entries[i]);
            } else {
                assert(after[i] == entries[i]);
                assert(after[j] == entries[j]);
            }
        }
    }
    lemma_key_index(after, key, at);
    assert forall|other: Seq<char>| other != key implies lookup(after, other) == lookup(
        entries,
        other,
    ) by {
        if has_key(entries, other) {
            let m = key_index(entries, other);
            assert(after[m] == entries[m]);
            lemma_key_index(after, other, m);
        } else if has_key(after, other) {
            let a = key_index(after, other);
            assert(a != at);
            assert(after[a] == entries[a]);
        }
    }
}

/// Putting a value into the entries is inserting it into the mapping.
pub proof fn lemma_put_as_map<V>(entries: Seq<(Seq<char>, V)>, key: Seq<char>, value: V)
    requires
        distinct_keys(entries),
    ensures
        as_map(put(entries, key, value)) == as_map(entries).insert(key, value),
{
    lemma_put(entries, key, value);
    let after = put(entries, key, value);
    assert forall|other: Seq<char>| #[trigger]
        as_map(after).dom().contains(other) == as_map(entries).insert(key, value).dom().contains(
            other,
        ) by {
        assert(lookup(after, other) is Some == has_key(after, other));
        assert(lookup(entries, other) is Some == has_key(entries, other));
    }
    assert forall|other: Seq<char>| as_map(after).dom().contains(other) implies #[trigger]
        as_map(after)[other] == as_map(entries).insert(key, value)[other] by {
        assert(lookup(after, other) == Some(as_map(after)[other]));
        if other != key {
            assert(lookup(entries, other) == Some(as_map(entries)[other]));
        }
    }
    assert(as_map(after) =~= as_map(entries).insert(key, value));
}

/// The place of the entry with the key `key`, if there is one.
pub fn find_entry<V: View>(entries: &Vec<(String, V)>, key: &str) -> (place: Option<usize>)
    requires
        distinct_keys(entry_models(entries@)),
    ensures
        place is Some == has_key(entry_models(entries@), key@),
        place matches Some(at) ==> at < entries@.len() && at == key_index(
            entry_models(entries@),
            key@,
        ),
{
    let ghost models = entry_models(entries@);
    let wanted = String::from_str(key);
    let mut at: usize = 0;
    while at < entries.len()
        invariant
            at <= entries.len(),
            models == entry_models(entries@),
            distinct_keys(models),
            wanted@ == key@,
            forall|i: int| 0 <= i < at ==> (#[trigger] models[i]).0 != key@,
        decreases entries.len() - at,
    {
        if entries[at].0 == wanted {
            proof {
                lemma_key_index(models, key@, at as int);
            }
            return Some(at);
        }
        assert(models[at as int].0 == entries@[at as int].0@);
        at += 1;
    }
    None
}

/// Puts `value` under `key`: the last write wins, and a key that is already
/// there keeps its place.
pub fn insert_entry<V: View>(entries: &mut Vec<(String, V)>, key: String, value: V)
    requires
        distinct_keys(entry_models(old(entries)@)),
    ensures
        entry_models(final(entries)@) == put(entry_models(old(entries)@), key@, value@),
        distinct_keys(entry_models(final(entries)@)),
{
    let ghost before = entry_models(entries@);
    proof {
        lemma_put(before, key@, value@);
    }
    match find_entry(entries, key.as_str()) {
        Some(at) => {
            entries.set(at, (key, value));
            assert(entry_models(entries@) =~= before.update(at as int, (key@, value@)));
        },
        None => {
            entries.push((key, value));
            assert(entry_models(entries@) =~= before.push((key@, value@)));
        },
    }
}

} // verus!
