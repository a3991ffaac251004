//! Name-indexed association lists.
//!
//! The character keeps several small name-keyed tables (proficiency
//! overrides, arbitrary numeric bonuses, feature flags). They are plain
//! lists of pairs searched front to back; the first entry with a matching
//! name wins.

use vstd::prelude::*;

use crate::text::str_eq;

verus! {

/// The value under the first entry whose name matches `key`, if any.
pub open spec fn spec_assoc_find<V>(entries: Seq<(String, V)>, key: Seq<char>) -> Option<V>
    decreases entries.len(),
{
    if entries.len() == 0 {
        None
    } else if entries[0].0@ == key {
        Some(entries[0].1)
    } else {
        spec_assoc_find(entries.drop_first(), key)
    }
}

/// A first match at position `i` settles the search.
proof fn lemma_assoc_find_hit<V>(entries: Seq<(String, V)>, key: Seq<char>, i: int)
    requires
        0 <= i < entries.len(),
        entries[i].0@ == key,
        forall|j: int| 0 <= j < i ==> entries[j].0@ != key,
    ensures
        spec_assoc_find(entries, key) == Some(entries[i].1),
    decreases i,
{
    if i > 0 {
        lemma_assoc_find_hit(entries.drop_first(), key, i - 1);
    }
}

/// No matching name anywhere means no result.
proof fn lemma_assoc_find_miss<V>(entries: Seq<(String, V)>, key: Seq<char>)
    requires
        forall|j: int| 0 <= j < entries.len() ==> entries[j].0@ != key,
    ensures
        spec_assoc_find(entries, key) is None,
    decreases entries.len(),
{
    if entries.len() > 0 {
        lemma_assoc_find_miss(entries.drop_first(), key);
    }
}

/// Searches an association list front to back for the first entry whose
/// name holds the characters of `key`.
pub fn assoc_find<'a, V>(entries: &'a Vec<(String, V)>, key: &str) -> (r: Option<&'a V>)
    ensures
        match r {
            Some(v) => spec_assoc_find(entries@, key@) == Some(*v),
            None => spec_assoc_find(entries@, key@) is None,
        },
{
    let n = entries.len();
    let mut i: usize = 0;
    while i < n
        invariant
            n == entries@.len(),
            i <= n,
            forall|j: int| 0 <= j < i ==> entries@[j].0@ != key@,
        decreases n - i,
    {
        if str_eq(entries[i].0.as_str(), key) {
            proof {
                lemma_assoc_find_hit(entries@, key@, i as int);
            }
            return Some(&entries[i].1);
        }
        i = i + 1;
    }
    proof {
        lemma_assoc_find_miss(entries@, key@);
    }
    None
}

} // verus!
