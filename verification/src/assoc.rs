//! Keyed entry lists.
//!
//! Boundary values carry their keyed collections as ordered entry lists,
//! which keeps the conversion between the two runtimes structurally lossless.
//! This module gives every such list one lookup discipline: the first entry
//! whose key matches wins, as the interpreter's own dictionaries would have
//! it when keys are unique.

use vstd::prelude::*;

verus! {

/// The value bound to `key`, taking the first entry whose key matches.
pub open spec fn assoc_lookup<V>(entries: Seq<(Seq<char>, V)>, key: Seq<char>) -> Option<V>
    decreases entries.len(),
{
    if entries.len() == 0 {
        Option::None
    } else if entries[0].0 == key {
        Option::Some(entries[0].1)
    } else {
        assoc_lookup(entries.skip(1), key)
    }
}

/// An entry list whose entries all miss `key` looks the key up to nothing.
pub proof fn lemma_assoc_lookup_none<V>(entries: Seq<(Seq<char>, V)>, key: Seq<char>)
    requires
        forall|j: int| 0 <= j < entries.len() ==> (#[trigger] entries[j]).0 != key,
    ensures
        assoc_lookup(entries, key) is None,
    decreases entries.len(),
{
    if entries.len() > 0 {
        assert(entries[0].0 != key);
        lemma_assoc_lookup_none(entries.skip(1), key);
    }
}

/// If the first entry matching `key` stands at position `i`, the lookup
/// yields that entry's value.
pub proof fn lemma_assoc_lookup_first<V>(entries: Seq<(Seq<char>, V)>, key: Seq<char>, i: int)
    requires
        0 <= i < entries.len(),
        entries[i].0 == key,
        forall|j: int| 0 <= j < i ==> (#[trigger] entries[j]).0 != key,
    ensures
        assoc_lookup(entries, key) == Option::Some(entries[i].1),
    decreases i,
{
    if i == 0 {
    } else {
        assert(entries[0].0 != key);
        lemma_assoc_lookup_first(entries.skip(1), key, i - 1);
    }
}

/// Finds the position of the first entry whose key equals `key`.
pub fn find_key<V>(entries: &Vec<(String, V)>, key: &String) -> (r: Option<usize>)
    ensures
        match r {
            Option::Some(i) => 0 <= i < entries@.len() && entries@[i as int].0@ == key@ && forall|
                j: int,
            | 0 <= j < i ==> (#[trigger] entries@[j]).0@ != key@,
            Option::None => forall|j: int|
                0 <= j < entries@.len() ==> (#[trigger] entries@[j]).0@ != key@,
        },
{
    let mut i: usize = 0;
    while i < entries.len()
        invariant
            0 <= i <= entries@.len(),
            forall|j: int| 0 <= j < i ==> (#[trigger] entries@[j]).0@ != key@,
        decreases entries@.len() - i,
    {
        if entries[i].0.eq(key) {
            return Option::Some(i);
        }
        i = i + 1;
    }
    Option::None
}

} // verus!
