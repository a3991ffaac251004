//! Owned gear items.
//!
//! Gear is opaque reference data annotated with which items are weapons.
//! The core stores it verbatim; descriptive text resolution belongs to the
//! reference-data collaborators.

use vstd::prelude::*;

verus! {

/// Whether a gear item is a weapon.
#[derive(Clone, Copy, Debug, PartialEq, Eq, Structural)]
pub enum GearType {
    Weapon,
    Other,
}

/// One owned item. A weapon may carry a damage die size and the name of
/// the proficiency line it attacks with.
#[derive(Clone, Debug, PartialEq, Eq)]
pub struct Gear {
    pub name: String,
    pub g_type: GearType,
    pub damage: Option<i32>,
    pub proficiency: Option<String>,
    pub traits: Vec<String>,
    pub description: String,
}

} // verus!
