//! Association lists as mathematical maps: a sequence of distinct keys and a
//! sequence of values of the same length stand for the map that sends each key
//! to the value at its position.

use vstd::prelude::*;

verus! {

/// No key occurs at two positions.
pub open spec fn distinct<K>(keys: Seq<K>) -> bool {
    forall|i: int, j: int| 0 <= i < j < keys.len() ==> keys[i] != keys[j]
}

/// The map that sends each key to the value at the key's position.
pub open spec fn assoc_map<K, V>(keys: Seq<K>, values: Seq<V>) -> Map<K, V> {
    Map::new(|key: K| keys.contains(key), |key: K| values[keys.index_of(key)])
}

/// With distinct keys, the key at position `i` is found at `i` and maps to the
/// value at `i`.
pub proof fn lemma_assoc_at<K, V>(keys: Seq<K>, values: Seq<V>, i: int)
    requires
        distinct(keys),
        0 <= i < keys.len(),
    ensures
        keys.contains(keys[i]),
        keys.index_of(keys[i]) == i,
        assoc_map(keys, values).contains_key(keys[i]),
        assoc_map(keys, values)[keys[i]] == values[i],
{
    assert(keys.contains(keys[i]));
    let found = keys.index_of(keys[i]);
    assert(0 <= found < keys.len() && keys[found] == keys[i]);
}

/// Without their last key, distinct keys stay distinct, and the last key is
/// not among them.
pub proof fn lemma_distinct_drop_last<K>(keys: Seq<K>)
    requires
        distinct(keys),
        keys.len() > 0,
    ensures
        distinct(keys.drop_last()),
        !keys.drop_last().contains(keys.last()),
{
    let front = keys.drop_last();
    assert forall|i: int, j: int| 0 <= i < j < front.len() implies front[i] != front[j] by {
        assert(front[i] == keys[i]);
        assert(front[j] == keys[j]);
    }
    if front.contains(keys.last()) {
        let i = front.index_of(keys.last());
        assert(front[i] == keys[i]);
        assert(keys[i] != keys[keys.len() - 1]);
    }
}

/// Appending a key that was absent inserts it into the map.
pub proof fn lemma_assoc_push<K, V>(keys: Seq<K>, values: Seq<V>, key: K, value: V)
    requires
        distinct(keys),
        keys.len() == values.len(),
        !keys.contains(key),
    ensures
        distinct(keys.push(key)),
        assoc_map(keys.push(key), values.push(value)) == assoc_map(keys, values).insert(
            key,
            value,
        ),
{
    let keys2 = keys.push(key);
    let values2 = values.push(value);
    assert forall|i: int, j: int| 0 <= i < j < keys2.len() implies keys2[i] != keys2[j] by {
        assert(keys2[i] == keys[i]);
        assert(keys.contains(keys[i]));
        if j < keys.len() {
            assert(keys2[j] == keys[j]);
        }
    }
    let target = assoc_map(keys, values).insert(key, value);
    assert forall|k: K| assoc_map(keys2, values2).contains_key(k) <==> target.contains_key(
        k,
    ) by {
        if keys2.contains(k) {
            let i = keys2.index_of(k);
            if i < keys.len() {
                assert(keys[i] == k);
            }
        }
        if keys.contains(k) {
            let i = keys.index_of(k);
            assert(keys2[i] == k);
        }
        if k == key {
            assert(keys2[keys.len() as int] == k);
        }
    }
    assert forall|k: K| assoc_map(keys2, values2).contains_key(k) implies assoc_map(
        keys2,
        values2,
    )[k] == target[k] by {
        let i = keys2.index_of(k);
        lemma_assoc_at(keys2, values2, i);
        if i < keys.len() {
            assert(keys2[i] == keys[i]);
            lemma_assoc_at(keys, values, i);
        }
    }
    assert(assoc_map(keys2, values2) =~= target);
}

/// Replacing the value at position `i` overwrites what the key at `i` maps to.
pub proof fn lemma_assoc_update<K, V>(keys: Seq<K>, values: Seq<V>, i: int, value: V)
    requires
        distinct(keys),
        keys.len() == values.len(),
        0 <= i < keys.len(),
    ensures
        assoc_map(keys, values.update(i, value)) == assoc_map(keys, values).insert(
            keys[i],
            value,
        ),
{
    let values2 = values.update(i, value);
    let target = assoc_map(keys, values).insert(keys[i], value);
    lemma_assoc_at(keys, values, i);
    assert forall|k: K| assoc_map(keys, values2).contains_key(k) implies assoc_map(
        keys,
        values2,
    )[k] == target[k] by {
        let a = keys.index_of(k);
        lemma_assoc_at(keys, values2, a);
        lemma_assoc_at(keys, values, a);
    }
    assert(assoc_map(keys, values2) =~= target);
}

/// Taking out position `i` removes the key at `i` from the map.
pub proof fn lemma_assoc_remove<K, V>(keys: Seq<K>, values: Seq<V>, i: int)
    requires
        distinct(keys),
        keys.len() == values.len(),
        0 <= i < keys.len(),
    ensures
        distinct(keys.remove(i)),
        assoc_map(keys.remove(i), values.remove(i)) == assoc_map(keys, values).remove(keys[i]),
{
    let keys2 = keys.remove(i);
    let values2 = values.remove(i);
    assert forall|a: int, b: int| 0 <= a < b < keys2.len() implies keys2[a] != keys2[b] by {
        let a0 = if a < i { a } else { a + 1 };
        let b0 = if b < i { b } else { b + 1 };
        assert(keys2[a] == keys[a0]);
        assert(keys2[b] == keys[b0]);
    }
    let target = assoc_map(keys, values).remove(keys[i]);
    assert forall|k: K| assoc_map(keys2, values2).contains_key(k) <==> target.contains_key(
        k,
    ) by {
        if keys2.contains(k) {
            let a = keys2.index_of(k);
            let a0 = if a < i { a } else { a + 1 };
            assert(keys2[a] == keys[a0]);
            assert(keys.contains(k));
        }
        if keys.contains(k) && k != keys[i] {
            let a0 = keys.index_of(k);
            let a = if a0 < i { a0 } else { a0 - 1 };
            assert(keys2[a] == keys[a0]);
        }
    }
    assert forall|k: K| assoc_map(keys2, values2).contains_key(k) implies assoc_map(
        keys2,
        values2,
    )[k] == target[k] by {
        let a = keys2.index_of(k);
        let a0 = if a < i { a } else { a + 1 };
        lemma_assoc_at(keys2, values2, a);
        assert(keys2[a] == keys[a0]);
        assert(values2[a] == values[a0]);
        lemma_assoc_at(keys, values, a0);
    }
    assert(assoc_map(keys2, values2) =~= target);
}

/// With distinct keys, the map has one key for each position.
pub proof fn lemma_assoc_len<K, V>(keys: Seq<K>, values: Seq<V>)
    requires
        distinct(keys),
        keys.len() == values.len(),
    ensures
        assoc_map(keys, values).dom().finite(),
        assoc_map(keys, values).len() == keys.len(),
    decreases keys.len(),
{
    if keys.len() == 0 {
        assert(assoc_map(keys, values) =~= Map::<K, V>::empty());
    } else {
        lemma_distinct_drop_last(keys);
        lemma_assoc_len(keys.drop_last(), values.drop_last());
        lemma_assoc_push(keys.drop_last(), values.drop_last(), keys.last(), values.last());
        assert(keys =~= keys.drop_last().push(keys.last()));
        assert(values =~= values.drop_last().push(values.last()));
    }
}

/// A map without positions is empty.
pub proof fn lemma_assoc_empty<K, V>(keys: Seq<K>, values: Seq<V>)
    requires
        keys.len() == 0,
    ensures
        assoc_map(keys, values) == Map::<K, V>::empty(),
{
    assert(assoc_map(keys, values) =~= Map::<K, V>::empty());
}

} // verus!
