//! The mathematical model shared by the two stores: a list of entries whose
//! keys are pairwise distinct, read as a map from key to identity.

use vstd::prelude::*;
use crate::types::AccountId;

verus! {

/// No key occurs in two entries.
pub open spec fn distinct_keys(entries: Seq<(Seq<u8>, AccountId)>) -> bool {
    forall|i: int, j: int| 0 <= i < j < entries.len() ==> entries[i].0 != entries[j].0
}

/// No entry has the key `key`.
pub open spec fn key_absent(entries: Seq<(Seq<u8>, AccountId)>, key: Seq<u8>) -> bool {
    forall|i: int| 0 <= i < entries.len() ==> (#[trigger] entries[i]).0 != key
}

/// The map that a list of entries stands for.
pub open spec fn to_map(entries: Seq<(Seq<u8>, AccountId)>) -> Map<Seq<u8>, AccountId>
    decreases entries.len(),
{
    if entries.len() == 0 {
        Map::empty()
    } else {
        to_map(entries.drop_last()).insert(entries.last().0, entries.last().1)
    }
}

/// Appending an entry inserts it into the map.
pub proof fn lemma_to_map_push(entries: Seq<(Seq<u8>, AccountId)>, key: Seq<u8>, who: AccountId)
    ensures
        to_map(entries.push((key, who))) == to_map(entries).insert(key, who),
{
    assert(entries.push((key, who)).drop_last() =~= entries);
}

/// A key that no entry has is not in the map.
pub proof fn lemma_to_map_absent(entries: Seq<(Seq<u8>, AccountId)>, key: Seq<u8>)
    requires
        key_absent(entries, key),
    ensures
        !to_map(entries).contains_key(key),
    decreases entries.len(),
{
    if entries.len() > 0 {
        lemma_to_map_absent(entries.drop_last(), key);
    }
}

/// Among distinct keys, the map sends the key of each entry to that entry's
/// identity.
pub proof fn lemma_to_map_at(entries: Seq<(Seq<u8>, AccountId)>, i: int)
    requires
        distinct_keys(entries),
        0 <= i < entries.len(),
    ensures
        to_map(entries).contains_key(entries[i].0),
        to_map(entries)[entries[i].0] == entries[i].1,
    decreases entries.len(),
{
    if i < entries.len() - 1 {
        lemma_to_map_at(entries.drop_last(), i);
    }
}

/// A key outside the map is the key of no entry.
pub proof fn lemma_absent_keys(entries: Seq<(Seq<u8>, AccountId)>, key: Seq<u8>)
    requires
        !to_map(entries).contains_key(key),
    ensures
        key_absent(entries, key),
    decreases entries.len(),
{
    if entries.len() > 0 {
        lemma_absent_keys(entries.drop_last(), key);
        assert forall|i: int| 0 <= i < entries.len() implies (#[trigger] entries[i]).0 != key by {
            if i < entries.len() - 1 {
                assert(entries.drop_last()[i] == entries[i]);
            }
        }
    }
}

/// Appending an entry with a new key keeps the keys distinct.
pub proof fn lemma_push_distinct(entries: Seq<(Seq<u8>, AccountId)>, key: Seq<u8>, who: AccountId)
    requires
        distinct_keys(entries),
        key_absent(entries, key),
    ensures
        distinct_keys(entries.push((key, who))),
{
    let longer = entries.push((key, who));
    assert forall|i: int, j: int| 0 <= i < j < longer.len() implies longer[i].0 != longer[j].0 by {
        assert(longer[i] == entries[i]);
        if j < entries.len() {
            assert(longer[j] == entries[j]);
        }
    }
}

} // verus!
