//! Finite maps built from sequences of entries.

use vstd::prelude::*;

verus! {

/// The map that a sequence of entries describes; a later entry overrides an earlier one with the
/// same key.
pub open spec fn map_of<K, V>(entries: Seq<(K, V)>) -> Map<K, V>
    decreases entries.len(),
{
    if entries.len() == 0 {
        Map::empty()
    } else {
        map_of(entries.drop_last()).insert(entries.last().0, entries.last().1)
    }
}

/// No two entries share a key.
pub open spec fn keys_distinct<K, V>(entries: Seq<(K, V)>) -> bool {
    forall|i: int, j: int| 0 <= i < j < entries.len() ==> entries[i].0 != entries[j].0
}

/// Some entry has the key `k`.
pub open spec fn has_key<K, V>(entries: Seq<(K, V)>, k: K) -> bool {
    exists|i: int| 0 <= i < entries.len() && entries[i].0 == k
}

/// The keys of `map_of(entries)` are the keys of the entries, and where no two entries share a
/// key, each key maps to the value of its entry.
pub proof fn lemma_map_of<K, V>(entries: Seq<(K, V)>)
    ensures
        forall|k: K| #[trigger] map_of(entries).contains_key(k) <==> has_key(entries, k),
        keys_distinct(entries) ==> forall|i: int|
            0 <= i < entries.len() ==> #[trigger] map_of(entries)[entries[i].0] == entries[i].1,
        map_of(entries).dom().finite(),
    decreases entries.len(),
{
    if entries.len() > 0 {
        let prefix = entries.drop_last();
        lemma_map_of(prefix);
        assert forall|k: K| #[trigger] map_of(entries).contains_key(k) <==> has_key(entries, k) by {
            if has_key(entries, k) {
                let i = choose|i: int| 0 <= i < entries.len() && entries[i].0 == k;
                if i < entries.len() - 1 {
                    assert(prefix[i].0 == k);
                }
            }
            if map_of(prefix).contains_key(k) {
                let i = choose|i: int| 0 <= i < prefix.len() && prefix[i].0 == k;
                assert(entries[i].0 == k);
            }
        }
        if keys_distinct(entries) {
            assert(keys_distinct(prefix));
            assert forall|i: int| 0 <= i < entries.len() implies #[trigger] map_of(entries)[entries[i].0]
                == entries[i].1 by {
                if i < entries.len() - 1 {
                    assert(prefix[i] == entries[i]);
                    assert(entries[i].0 != entries.last().0);
                }
            }
        }
    }
}

/// Where no two entries share a key, the map has exactly as many keys as there are entries.
pub proof fn lemma_map_of_len<K, V>(entries: Seq<(K, V)>)
    requires
        keys_distinct(entries),
    ensures
        map_of(entries).dom().len() == entries.len(),
    decreases entries.len(),
{
    if entries.len() > 0 {
        let prefix = entries.drop_last();
        assert(keys_distinct(prefix));
        lemma_map_of_len(prefix);
        lemma_map_of(prefix);
        assert(!has_key(prefix, entries.last().0)) by {
            if has_key(prefix, entries.last().0) {
                let i = choose|i: int| 0 <= i < prefix.len() && prefix[i].0 == entries.last().0;
                assert(entries[i].0 == entries[entries.len() - 1].0);
            }
        }
    }
}

} // verus!
