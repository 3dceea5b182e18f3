//! Records filed under keys: the map that a sequence of keyed entries stands
//! for, and what appending to or overwriting in the sequence does to it.

use vstd::prelude::*;

verus! {

/// The map that `entries` stands for. A later entry overrides an earlier one
/// with the same key; where the keys are distinct no entry is overridden.
pub open spec fn filed<K, V>(entries: Seq<(K, V)>) -> Map<K, V>
    decreases entries.len(),
{
    if entries.len() == 0 {
        Map::empty()
    } else {
        filed(entries.drop_last()).insert(entries.last().0, entries.last().1)
    }
}

/// No key occurs twice in `entries`.
pub open spec fn distinct_keys<K, V>(entries: Seq<(K, V)>) -> bool {
    forall|i: int, j: int| 0 <= i < j < entries.len() ==> entries[i].0 != entries[j].0
}

/// A key that no entry has is not in the map.
pub proof fn lemma_filed_absent<K, V>(entries: Seq<(K, V)>, key: K)
    requires
        forall|i: int| 0 <= i < entries.len() ==> entries[i].0 != key,
    ensures
        !filed(entries).contains_key(key),
    decreases entries.len(),
{
    if entries.len() > 0 {
        lemma_filed_absent(entries.drop_last(), key);
    }
}

/// Where the keys are distinct, each entry is found under its key.
pub proof fn lemma_filed_present<K, V>(entries: Seq<(K, V)>, at: int)
    requires
        distinct_keys(entries),
        0 <= at < entries.len(),
    ensures
        filed(entries).contains_key(entries[at].0),
        filed(entries)[entries[at].0] == entries[at].1,
    decreases entries.len(),
{
    if at < entries.len() - 1 {
        lemma_filed_present(entries.drop_last(), at);
    }
}

/// Appending an entry inserts it.
pub proof fn lemma_filed_push<K, V>(entries: Seq<(K, V)>, entry: (K, V))
    ensures
        filed(entries.push(entry)) == filed(entries).insert(entry.0, entry.1),
{
    assert(entries.push(entry).drop_last() =~= entries);
}

/// Where the keys are distinct, overwriting an entry with one of the same
/// key replaces what is filed under that key and nothing else.
pub proof fn lemma_filed_update<K, V>(entries: Seq<(K, V)>, at: int, entry: (K, V))
    requires
        distinct_keys(entries),
        0 <= at < entries.len(),
        entries[at].0 == entry.0,
    ensures
        distinct_keys(entries.update(at, entry)),
        filed(entries.update(at, entry)) == filed(entries).insert(entry.0, entry.1),
    decreases entries.len(),
{
    let updated = entries.update(at, entry);
    if at == entries.len() - 1 {
        assert(updated.drop_last() =~= entries.drop_last());
        assert(filed(updated) =~= filed(entries).insert(entry.0, entry.1));
    } else {
        assert(updated.drop_last() =~= entries.drop_last().update(at, entry));
        lemma_filed_update(entries.drop_last(), at, entry);
        assert(filed(updated) =~= filed(entries).insert(entry.0, entry.1));
    }
}

} // verus!
