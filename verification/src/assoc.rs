//! Association lists read as maps: a later entry replaces an earlier one with
//! the same key.

use vstd::prelude::*;

verus! {

/// The map that a list of key-value pairs stands for.
pub open spec fn pairs_to_map<K, V>(pairs: Seq<(K, V)>) -> Map<K, V>
    decreases pairs.len(),
{
    if pairs.len() == 0 {
        Map::empty()
    } else {
        pairs_to_map(pairs.drop_last()).insert(pairs.last().0, pairs.last().1)
    }
}

/// The last entry with a given key decides the value under that key.
pub proof fn lemma_last_entry_wins<K, V>(pairs: Seq<(K, V)>, i: int, key: K)
    requires
        0 <= i < pairs.len(),
        pairs[i].0 == key,
        forall|j: int| i < j < pairs.len() ==> pairs[j].0 != key,
    ensures
        pairs_to_map(pairs).contains_key(key),
        pairs_to_map(pairs)[key] == pairs[i].1,
    decreases pairs.len(),
{
    if i < pairs.len() - 1 {
        lemma_last_entry_wins(pairs.drop_last(), i, key);
    }
}

/// A key that no entry carries is absent from the map.
pub proof fn lemma_no_entry_no_key<K, V>(pairs: Seq<(K, V)>, key: K)
    requires
        forall|j: int| 0 <= j < pairs.len() ==> pairs[j].0 != key,
    ensures
        !pairs_to_map(pairs).contains_key(key),
    decreases pairs.len(),
{
    if pairs.len() > 0 {
        lemma_no_entry_no_key(pairs.drop_last(), key);
    }
}

/// Every value of the map is the value of some entry under that key.
pub proof fn lemma_value_has_entry<K, V>(pairs: Seq<(K, V)>, key: K)
    requires
        pairs_to_map(pairs).contains_key(key),
    ensures
        exists|i: int|
            0 <= i < pairs.len() && (#[trigger] pairs[i]).0 == key && pairs[i].1
                == pairs_to_map(pairs)[key],
    decreases pairs.len(),
{
    if pairs.len() > 0 && pairs.last().0 != key {
        lemma_value_has_entry(pairs.drop_last(), key);
    }
}

} // verus!
