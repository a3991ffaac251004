//! Selectable tactics.
//!
//! A tactic is opaque reference data: the core only stores it, counts the
//! selected ones and flips selections. The cap on how many may be selected
//! at once is enforced by the interactive collaborator, not here.

use vstd::prelude::*;

verus! {

/// One selectable tactic. Its descriptive text is owned by reference-data
/// collaborators; the core never interprets it.
#[derive(Clone, Debug, PartialEq, Eq)]
pub struct Tactic {
    pub name: String,
    pub actions: i32,
    pub selected: bool,
    pub traits: Vec<String>,
    pub description: String,
}

} // verus!
