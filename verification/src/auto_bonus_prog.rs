//! Arbitrary numeric bonuses.
//!
//! A character may carry a table of extra numeric bonuses keyed by stat
//! name (automatic bonus progression and similar effects). A stat whose
//! name has no entry gets no extra bonus.

use vstd::prelude::*;

use crate::assoc::assoc_find;
use crate::assoc::spec_assoc_find;

verus! {

/// The extra bonus stored under a stat name, or zero without an entry.
pub open spec fn spec_abp_bonus(entries: Seq<(String, i32)>, name: Seq<char>) -> int {
    match spec_assoc_find(entries, name) {
        Some(v) => v as int,
        None => 0,
    }
}

/// The bonus table: stat name to extra bonus, first entry wins.
#[derive(Clone, Debug, PartialEq, Eq)]
pub struct AbpData {
    pub bonuses: Vec<(String, i32)>,
}

impl AbpData {
    /// An empty table: no stat gets an extra bonus.
    pub fn new() -> (r: AbpData)
        ensures
            r.bonuses@.len() == 0,
    {
        AbpData { bonuses: Vec::new() }
    }

    /// The extra bonus for a stat name; zero without an entry.
    pub fn bonus_for(&self, name: &str) -> (r: i32)
        ensures
            r == spec_abp_bonus(self.bonuses@, name@),
    {
        match assoc_find(&self.bonuses, name) {
            Some(v) => *v,
            None => 0,
        }
    }
}

impl Default for AbpData {
    /// The default table is empty.
    fn default() -> (r: AbpData)
        ensures
            r.bonuses@.len() == 0,
    {
        AbpData::new()
    }
}

} // verus!
