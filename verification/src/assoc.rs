//! Lists of keyed entries read as maps.
//!
//! The ledgers keep their entries in vectors and speak of them as maps. This module
//! holds the reading and the facts that keep the two in step.

use vstd::prelude::*;

verus! {

/// No key occurs twice.
pub open spec fn keys_distinct<K, V>(pairs: Seq<(K, V)>) -> bool {
    forall|i: int, j: int|
        0 <= i < j < pairs.len() ==> (#[trigger] pairs[i]).0 != (#[trigger] pairs[j]).0
}

/// Some entry has the key.
pub open spec fn has_key<K, V>(pairs: Seq<(K, V)>, key: K) -> bool {
    exists|i: int| 0 <= i < pairs.len() && (#[trigger] pairs[i]).0 == key
}

/// Where an entry with the key stands, if there is one.
pub open spec fn position<K, V>(pairs: Seq<(K, V)>, key: K) -> int {
    choose|i: int| 0 <= i < pairs.len() && (#[trigger] pairs[i]).0 == key
}

/// The map from each key in the list to the value listed with it.
pub open spec fn as_map<K, V>(pairs: Seq<(K, V)>) -> Map<K, V> {
    Map::new(|key: K| has_key(pairs, key), |key: K| pairs[position(pairs, key)].1)
}

/// An empty list is the empty map.
pub proof fn lemma_empty<K, V>()
    ensures
        as_map(Seq::<(K, V)>::empty()) == Map::<K, V>::empty(),
{
    assert(as_map(Seq::<(K, V)>::empty()) =~= Map::<K, V>::empty());
}

/// Each entry of a list without repeated keys is an entry of the map.
pub proof fn lemma_entry<K, V>(pairs: Seq<(K, V)>, i: int)
    requires
        keys_distinct(pairs),
        0 <= i < pairs.len(),
    ensures
        has_key(pairs, pairs[i].0),
        position(pairs, pairs[i].0) == i,
        as_map(pairs).contains_key(pairs[i].0),
        as_map(pairs)[pairs[i].0] == pairs[i].1,
{
    let key = pairs[i].0;
    assert(has_key(pairs, key));
    let found = position(pairs, key);
    assert(0 <= found < pairs.len() && pairs[found].0 == key);
    assert(found == i) by {
        if found < i {
            assert(pairs[found].0 != pairs[i].0);
        } else if i < found {
            assert(pairs[i].0 != pairs[found].0);
        }
    }
}

/// A key that no entry has is not in the map.
pub proof fn lemma_absent<K, V>(pairs: Seq<(K, V)>, key: K)
    requires
        forall|i: int| 0 <= i < pairs.len() ==> (#[trigger] pairs[i]).0 != key,
    ensures
        !has_key(pairs, key),
        !as_map(pairs).contains_key(key),
{
}

/// Appending an entry under a new key inserts it into the map.
pub proof fn lemma_push<K, V>(pairs: Seq<(K, V)>, key: K, value: V)
    requires
        keys_distinct(pairs),
        !has_key(pairs, key),
    ensures
        keys_distinct(pairs.push((key, value))),
        as_map(pairs.push((key, value))) == as_map(pairs).insert(key, value),
{
    let longer = pairs.push((key, value));
    assert forall|i: int, j: int| 0 <= i < j < longer.len() implies (#[trigger] longer[i]).0 != (
    #[trigger] longer[j]).0 by {
        if j < pairs.len() {
            assert(pairs[i].0 != pairs[j].0);
        } else {
            assert(longer[i] == pairs[i]);
            assert(pairs[i].0 != key);
        }
    }
    assert forall|other: K| #[trigger] has_key(longer, other) <==> (other == key || has_key(pairs, other)) by {
        if has_key(longer, other) {
            let i = position(longer, other);
            if i < pairs.len() {
                assert(pairs[i].0 == other);
            }
        }
        if other == key {
            assert(longer[pairs.len() as int].0 == key);
        }
        if has_key(pairs, other) {
            let i = position(pairs, other);
            assert(longer[i].0 == other);
        }
    }
    assert forall|other: K| has_key(longer, other) implies #[trigger] as_map(longer)[other] == as_map(
        pairs,
    ).insert(key, value)[other] by {
        if other == key {
            lemma_entry(longer, pairs.len() as int);
        } else {
            let i = position(pairs, other);
            assert(longer[i] == pairs[i]);
            lemma_entry(longer, i);
        }
    }
    assert(as_map(longer) =~= as_map(pairs).insert(key, value));
}

/// Replacing the value of one entry replaces it in the map.
pub proof fn lemma_update<K, V>(pairs: Seq<(K, V)>, i: int, value: V)
    requires
        keys_distinct(pairs),
        0 <= i < pairs.len(),
    ensures
        keys_distinct(pairs.update(i, (pairs[i].0, value))),
        as_map(pairs.update(i, (pairs[i].0, value))) == as_map(pairs).insert(pairs[i].0, value),
{
    let key = pairs[i].0;
    let changed = pairs.update(i, (key, value));
    assert forall|a: int, b: int| 0 <= a < b < changed.len() implies (#[trigger] changed[a]).0 != (
    #[trigger] changed[b]).0 by {
        assert(changed[a].0 == pairs[a].0);
        assert(changed[b].0 == pairs[b].0);
    }
    assert forall|other: K| #[trigger] has_key(changed, other) <==> has_key(pairs, other) by {
        if has_key(changed, other) {
            let j = position(changed, other);
            assert(pairs[j].0 == other);
        }
        if has_key(pairs, other) {
            let j = position(pairs, other);
            assert(changed[j].0 == other);
        }
    }
    lemma_entry(pairs, i);
    assert forall|other: K| has_key(changed, other) implies #[trigger] as_map(changed)[other]
        == as_map(pairs).insert(key, value)[other] by {
        if other == key {
            lemma_entry(changed, i);
        } else {
            let j = position(pairs, other);
            assert(changed[j] == pairs[j]);
            lemma_entry(changed, j);
            lemma_entry(pairs, j);
        }
    }
    assert(as_map(changed) =~= as_map(pairs).insert(key, value));
}

} // verus!
