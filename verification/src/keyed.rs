//! Maps kept as sequences of key/value pairs with distinct keys.
use vstd::prelude::*;

verus! {

/// No key occurs twice.
pub open spec fn keys_distinct<K, V>(entries: Seq<(K, V)>) -> bool {
    forall|i: int, j: int| 0 <= i < j < entries.len() ==> (#[trigger] entries[i]).0 != (#[trigger] entries[j]).0
}

/// The map the pairs describe.
pub open spec fn pairs_map<K, V>(entries: Seq<(K, V)>) -> Map<K, V> {
    Map::new(
        |k: K| exists|i: int| 0 <= i < entries.len() && (#[trigger] entries[i]).0 == k,
        |k: K| entries[choose|i: int| 0 <= i < entries.len() && (#[trigger] entries[i]).0 == k].1,
    )
}

/// Each pair is an entry of the map.
pub proof fn lemma_pairs_map_at<K, V>(entries: Seq<(K, V)>, i: int)
    requires
        keys_distinct(entries),
        0 <= i < entries.len(),
    ensures
        pairs_map(entries).contains_key(entries[i].0),
        pairs_map(entries)[entries[i].0] == entries[i].1,
{
    let k = entries[i].0;
    assert(pairs_map(entries).contains_key(k));
    let c = choose|j: int| 0 <= j < entries.len() && (#[trigger] entries[j]).0 == k;
    assert(c == i);
}

/// No pair carries a key absent from the map.
pub proof fn lemma_pairs_map_absent<K, V>(entries: Seq<(K, V)>, k: K)
    requires
        forall|i: int| 0 <= i < entries.len() ==> (#[trigger] entries[i]).0 != k,
    ensures
        !pairs_map(entries).contains_key(k),
{
}

/// Appending a pair with a new key adds that entry to the map.
pub proof fn lemma_pairs_map_push<K, V>(entries: Seq<(K, V)>, k: K, v: V)
    requires
        keys_distinct(entries),
        !pairs_map(entries).contains_key(k),
    ensures
        keys_distinct(entries.push((k, v))),
        pairs_map(entries.push((k, v))) == pairs_map(entries).insert(k, v),
{
    let pushed = entries.push((k, v));
    let n = entries.len() as int;
    assert forall|a: int, b: int| 0 <= a < b < pushed.len() implies (#[trigger] pushed[a]).0 != (#[trigger] pushed[b]).0 by {
        assert(pushed[a] == entries[a]);
        if b < n {
            assert(pushed[b] == entries[b]);
        } else {
            assert(pairs_map(entries).contains_key(entries[a].0));
        }
    }
    assert forall|key: K| #![auto] pairs_map(pushed).contains_key(key) == pairs_map(entries).insert(k, v).contains_key(key) by {
        if pairs_map(entries).contains_key(key) {
            let j = choose|j: int| 0 <= j < entries.len() && (#[trigger] entries[j]).0 == key;
            assert(pushed[j].0 == key);
        }
        if pairs_map(pushed).contains_key(key) && key != k {
            let j = choose|j: int| 0 <= j < pushed.len() && (#[trigger] pushed[j]).0 == key;
            assert(entries[j].0 == key);
        }
        if key == k {
            assert(pushed[n].0 == key);
        }
    }
    assert forall|key: K| #[trigger] pairs_map(pushed).contains_key(key) implies pairs_map(pushed)[key] == pairs_map(entries).insert(k, v)[key] by {
        let j = choose|j: int| 0 <= j < pushed.len() && (#[trigger] pushed[j]).0 == key;
        lemma_pairs_map_at(pushed, j);
        if j < n {
            assert(pushed[j] == entries[j]);
            lemma_pairs_map_at(entries, j);
        }
    }
    assert(pairs_map(pushed) =~= pairs_map(entries).insert(k, v));
}

} // verus!
