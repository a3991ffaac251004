//! Active conditions.
//!
//! Conditions are opaque references into a collaborator's lookup table;
//! the core stores them verbatim and never interprets them.

use vstd::prelude::*;

verus! {

/// One active condition on a character.
#[derive(Clone, Debug, PartialEq, Eq)]
pub struct Condition {
    pub name: String,
    pub description: String,
}

} // verus!
