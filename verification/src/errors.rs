//! Typed configuration errors.
//!
//! The vocabulary of save names, skill names and proficiency labels is
//! closed; a persisted record that steps outside it is malformed. Such a
//! record is reported through these variants instead of being silently
//! coerced.

use vstd::prelude::*;

verus! {

/// A fatal configuration error: the operation is aborted, nothing is mutated.
#[derive(Clone, Copy, Debug, PartialEq, Eq, Structural)]
pub enum CharError {
    /// A save-type stat carries a name outside {Fortitude, Reflex, Will}.
    UnknownSave,
    /// A skill-type stat carries a name outside the sixteen fixed skills.
    UnknownSkill,
    /// A proficiency rank label that none of the five ranks prints.
    UnknownProficiencyLabel,
    /// A persisted attribute list whose length is not exactly six.
    WrongAttributeCount,
}

impl CharError {
    /// A short human-readable description of the error.
    pub fn message(&self) -> (r: String)
        ensures
            r@ == self.spec_message(),
    {
        match self {
            CharError::UnknownSave => String::from_str("this save does not exist"),
            CharError::UnknownSkill => String::from_str("this skill does not exist"),
            CharError::UnknownProficiencyLabel => String::from_str(
                "this proficiency label does not exist",
            ),
            CharError::WrongAttributeCount => String::from_str(
                "an attribute list must hold exactly six values",
            ),
        }
    }

    /// The characters that `message` returns for each variant.
    pub open spec fn spec_message(&self) -> Seq<char> {
        match self {
            CharError::UnknownSave => "this save does not exist"@,
            CharError::UnknownSkill => "this skill does not exist"@,
            CharError::UnknownProficiencyLabel => "this proficiency label does not exist"@,
            CharError::WrongAttributeCount => "an attribute list must hold exactly six values"@,
        }
    }
}

} // verus!
