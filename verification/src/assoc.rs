//! Lists of named entries read as maps: where a name occurs more than
//! once, the last entry with that name is the one that counts.

use vstd::prelude::*;

verus! {

/// The map that a list of named entries amounts to.
pub open spec fn assoc_map<V>(entries: Seq<(Seq<char>, V)>) -> Map<Seq<char>, V>
    decreases entries.len(),
{
    if entries.len() == 0 {
        Map::empty()
    } else {
        assoc_map(entries.drop_last()).insert(entries.last().0, entries.last().1)
    }
}

/// A name that no entry has is not in the map.
pub proof fn lemma_assoc_absent<V>(entries: Seq<(Seq<char>, V)>, name: Seq<char>)
    requires
        forall|j: int| 0 <= j < entries.len() ==> (#[trigger] entries[j]).0 != name,
    ensures
        !assoc_map(entries).contains_key(name),
    decreases entries.len(),
{
    if entries.len() > 0 {
        let rest = entries.drop_last();
        assert forall|j: int| 0 <= j < rest.len() implies (#[trigger] rest[j]).0 != name by {
            assert(rest[j] == entries[j]);
        }
        lemma_assoc_absent(rest, name);
    }
}

/// The map gives a name the value of the last entry that has it.
pub proof fn lemma_assoc_last<V>(entries: Seq<(Seq<char>, V)>, name: Seq<char>, i: int)
    requires
        0 <= i < entries.len(),
        entries[i].0 == name,
        forall|j: int| i < j < entries.len() ==> (#[trigger] entries[j]).0 != name,
    ensures
        assoc_map(entries).contains_key(name),
        assoc_map(entries)[name] == entries[i].1,
    decreases entries.len(),
{
    if i < entries.len() - 1 {
        let rest = entries.drop_last();
        assert(rest[i] == entries[i]);
        assert forall|j: int| i < j < rest.len() implies (#[trigger] rest[j]).0 != name by {
            assert(rest[j] == entries[j]);
        }
        assert(entries.last().0 != name);
        lemma_assoc_last(rest, name, i);
    }
}

/// Adding an entry at the end sets its name in the map and leaves the
/// other names as they were.
pub proof fn lemma_assoc_push<V>(entries: Seq<(Seq<char>, V)>, name: Seq<char>, value: V)
    ensures
        assoc_map(entries.push((name, value))) == assoc_map(entries).insert(name, value),
{
    assert(entries.push((name, value)).drop_last() == entries);
}

} // verus!
