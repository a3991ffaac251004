//! Proficiency ranks and their level-scaled bonus.
//!
//! A rank is one of five ordered tiers. An untrained rank contributes
//! nothing; every other rank contributes the character's level plus twice
//! the rank's ordinal. The five canonical labels form a closed vocabulary
//! that round-trips through `label` and `from_label`.

use vstd::prelude::*;

use crate::errors::CharError;
use crate::text::str_eq;

verus! {

/// A skill-mastery tier, ordered Untrained < Trained < Expert < Master < Legendary.
#[derive(Clone, Copy, Debug, PartialEq, Eq, Structural)]
pub enum ProficiencyLevel {
    Untrained,
    Trained,
    Expert,
    Master,
    Legendary,
}

/// The position of a rank in the tier order, Untrained being 0.
pub open spec fn spec_rank_ordinal(p: ProficiencyLevel) -> int {
    match p {
        ProficiencyLevel::Untrained => 0,
        ProficiencyLevel::Trained => 1,
        ProficiencyLevel::Expert => 2,
        ProficiencyLevel::Master => 3,
        ProficiencyLevel::Legendary => 4,
    }
}

/// The bonus a rank contributes at a given level: 0 when untrained,
/// otherwise the level plus twice the rank ordinal.
pub open spec fn spec_rank_bonus(p: ProficiencyLevel, level: int) -> int {
    if p == ProficiencyLevel::Untrained {
        0
    } else {
        level + 2 * spec_rank_ordinal(p)
    }
}

/// The canonical label of a rank.
pub open spec fn spec_rank_label(p: ProficiencyLevel) -> Seq<char> {
    match p {
        ProficiencyLevel::Untrained => "Untrained"@,
        ProficiencyLevel::Trained => "Trained"@,
        ProficiencyLevel::Expert => "Expert"@,
        ProficiencyLevel::Master => "Master"@,
        ProficiencyLevel::Legendary => "Legendary"@,
    }
}

/// The rank whose canonical label a string holds, if any.
pub open spec fn spec_parse_rank_label(s: Seq<char>) -> Option<ProficiencyLevel> {
    if s == "Untrained"@ {
        Some(ProficiencyLevel::Untrained)
    } else if s == "Trained"@ {
        Some(ProficiencyLevel::Trained)
    } else if s == "Expert"@ {
        Some(ProficiencyLevel::Expert)
    } else if s == "Master"@ {
        Some(ProficiencyLevel::Master)
    } else if s == "Legendary"@ {
        Some(ProficiencyLevel::Legendary)
    } else {
        None
    }
}

impl ProficiencyLevel {
    /// The bonus this rank contributes at `level`. An untrained rank never
    /// scales with the level; every other rank scales with it one to one.
    pub fn get_bonus(&self, level: i32) -> (r: i32)
        requires
            level as int + 8 <= i32::MAX as int,
        ensures
            r == spec_rank_bonus(*self, level as int),
    {
        match self {
            ProficiencyLevel::Untrained => 0,
            ProficiencyLevel::Trained => level + 2,
            ProficiencyLevel::Expert => level + 4,
            ProficiencyLevel::Master => level + 6,
            ProficiencyLevel::Legendary => level + 8,
        }
    }

    /// The canonical textual label of this rank.
    pub fn label(&self) -> (r: String)
        ensures
            r@ == spec_rank_label(*self),
    {
        match self {
            ProficiencyLevel::Untrained => String::from_str("Untrained"),
            ProficiencyLevel::Trained => String::from_str("Trained"),
            ProficiencyLevel::Expert => String::from_str("Expert"),
            ProficiencyLevel::Master => String::from_str("Master"),
            ProficiencyLevel::Legendary => String::from_str("Legendary"),
        }
    }

    /// Parses a canonical label back into a rank. The label vocabulary is
    /// closed: anything but the five canonical labels is rejected.
    pub fn from_label(s: &str) -> (r: Result<ProficiencyLevel, CharError>)
        ensures
            match r {
                Ok(p) => spec_parse_rank_label(s@) == Some(p),
                Err(e) => spec_parse_rank_label(s@) is None && e
                    == CharError::UnknownProficiencyLabel,
            },
    {
        if str_eq(s, "Untrained") {
            Ok(ProficiencyLevel::Untrained)
        } else if str_eq(s, "Trained") {
            Ok(ProficiencyLevel::Trained)
        } else if str_eq(s, "Expert") {
            Ok(ProficiencyLevel::Expert)
        } else if str_eq(s, "Master") {
            Ok(ProficiencyLevel::Master)
        } else if str_eq(s, "Legendary") {
            Ok(ProficiencyLevel::Legendary)
        } else {
            Err(CharError::UnknownProficiencyLabel)
        }
    }
}

/// An untrained rank contributes no bonus at any level.
pub proof fn lemma_untrained_bonus_is_zero(level: int)
    ensures
        spec_rank_bonus(ProficiencyLevel::Untrained, level) == 0,
{
}

/// At a fixed level of at least -1, the bonus is strictly increasing in
/// rank order. (At level -2 and below a trained bonus no longer exceeds an
/// untrained one, so such levels are left out.)
pub proof fn lemma_rank_bonus_strictly_increasing(
    lo: ProficiencyLevel,
    hi: ProficiencyLevel,
    level: int,
)
    requires
        spec_rank_ordinal(lo) < spec_rank_ordinal(hi),
        level >= -1,
    ensures
        spec_rank_bonus(lo, level) < spec_rank_bonus(hi, level),
{
}

/// Every rank's canonical label parses back to that rank: the textual form
/// is lossless.
pub proof fn lemma_rank_label_round_trip(p: ProficiencyLevel)
    ensures
        spec_parse_rank_label(spec_rank_label(p)) == Some(p),
{
    reveal_strlit("Untrained");
    reveal_strlit("Trained");
    reveal_strlit("Expert");
    reveal_strlit("Master");
    reveal_strlit("Legendary");
    assert("Untrained"@.len() == 9);
    assert("Trained"@.len() == 7);
    assert("Expert"@.len() == 6);
    assert("Master"@.len() == 6);
    assert("Legendary"@.len() == 9);
    assert("Master"@[0] == 'M' && "Expert"@[0] == 'E');
    assert("Legendary"@[0] == 'L' && "Untrained"@[0] == 'U');
}

} // verus!
