//! Named bonus lines and the closed skill vocabulary.
//!
//! A calculated stat binds a name to a proficiency category, the governing
//! ability score derived from the fixed vocabulary table, and a rank. Save
//! and skill names come from a closed vocabulary; lore names are freeform
//! and always governed by intelligence; the remaining categories map to a
//! fixed attribute regardless of name.

use vstd::prelude::*;

use crate::assoc::assoc_find;
use crate::assoc::spec_assoc_find;
use crate::attributes::spec_attribute;
use crate::auto_bonus_prog::spec_abp_bonus;
use crate::character::spec_find_prof;
use crate::character::Character;
use crate::errors::CharError;
use crate::proficiency::spec_rank_bonus;
use crate::proficiency::ProficiencyLevel;

verus! {

/// The category of a bonus line. It selects the governing-attribute rule
/// and decides whether the name is held to a closed vocabulary (saves and
/// skills) or accepted freeform (lore).
#[derive(Clone, Copy, Debug, PartialEq, Eq, Structural)]
pub enum ProficiencyType {
    Save,
    Skill,
    Lore,
    Armor,
    Weapon,
    Spell,
    ClassDC,
    Perception,
}

/// The governing attribute of a skill name, per the fixed sixteen-entry
/// table; an unlisted name has none.
pub open spec fn spec_skill_attribute(name: Seq<char>) -> Option<Seq<char>> {
    if name == "Acrobatics"@ {
        Some("dex"@)
    } else if name == "Arcana"@ {
        Some("int"@)
    } else if name == "Athletics"@ {
        Some("str"@)
    } else if name == "Crafting"@ {
        Some("int"@)
    } else if name == "Deception"@ {
        Some("cha"@)
    } else if name == "Diplomacy"@ {
        Some("cha"@)
    } else if name == "Intimidation"@ {
        Some("cha"@)
    } else if name == "Medicine"@ {
        Some("wis"@)
    } else if name == "Nature"@ {
        Some("wis"@)
    } else if name == "Occultism"@ {
        Some("int"@)
    } else if name == "Performance"@ {
        Some("cha"@)
    } else if name == "Religion"@ {
        Some("wis"@)
    } else if name == "Society"@ {
        Some("int"@)
    } else if name == "Stealth"@ {
        Some("dex"@)
    } else if name == "Survival"@ {
        Some("wis"@)
    } else if name == "Thievery"@ {
        Some("dex"@)
    } else {
        None
    }
}

/// The governing attribute assigned by the fixed vocabulary table to a
/// (category, name) pair, or nothing when the name falls outside a closed
/// vocabulary. Spell and class-DC lines map to the "key" placeholder,
/// which is not itself an attribute id: it must be redirected through the
/// character's override table before the line can be computed.
pub open spec fn spec_governing_attribute(p_type: ProficiencyType, name: Seq<char>) -> Option<
    Seq<char>,
> {
    match p_type {
        ProficiencyType::Save => {
            if name == "Fortitude"@ {
                Some("con"@)
            } else if name == "Reflex"@ {
                Some("dex"@)
            } else if name == "Will"@ {
                Some("wis"@)
            } else {
                None
            }
        },
        ProficiencyType::Skill => spec_skill_attribute(name),
        ProficiencyType::Lore => Some("int"@),
        ProficiencyType::Armor => Some("dex"@),
        ProficiencyType::Weapon => Some("str"@),
        ProficiencyType::Spell => Some("key"@),
        ProficiencyType::ClassDC => Some("key"@),
        ProficiencyType::Perception => Some("wis"@),
    }
}

/// The error a failed vocabulary lookup reports for a category.
pub open spec fn spec_vocabulary_error(p_type: ProficiencyType) -> CharError {
    if p_type == ProficiencyType::Save {
        CharError::UnknownSave
    } else {
        CharError::UnknownSkill
    }
}

/// One named bonus line of a character.
#[derive(Debug, PartialEq, Eq)]
pub struct CalculatedStat {
    pub p_type: ProficiencyType,
    pub attribute: String,
    pub name: String,
    pub proficiency: ProficiencyLevel,
}

/// The attribute id a stat is effectively governed by: the character's
/// override entry for this stat's name when present, else the stored
/// derived attribute.
pub open spec fn spec_effective_attribute(
    stat: CalculatedStat,
    overrides: Seq<(String, String)>,
) -> Seq<char> {
    match spec_assoc_find(overrides, stat.name@) {
        Some(redirect) => redirect@,
        None => stat.attribute@,
    }
}

/// The total bonus of a stat on a character: the effective governing
/// attribute's value, plus the rank bonus at the character's level, plus
/// any arbitrary bonus stored under the stat's name. Meaningful only when
/// the effective attribute resolves.
pub open spec fn spec_stat_total(stat: CalculatedStat, c: Character) -> int {
    match spec_attribute(c.attributes, spec_effective_attribute(stat, c.override_prof@)) {
        Some(value) => value + spec_rank_bonus(stat.proficiency, c.level as int) + spec_abp_bonus(
            c.abp_data.bonuses@,
            stat.name@,
        ),
        None => 0,
    }
}

impl Clone for CalculatedStat {
    /// An exact copy, so that a cloned stat carries the same contract.
    fn clone(&self) -> (r: Self)
        ensures
            r == *self,
    {
        CalculatedStat {
            p_type: self.p_type,
            attribute: self.attribute.clone(),
            name: self.name.clone(),
            proficiency: self.proficiency,
        }
    }
}

impl CalculatedStat {
    /// The construction-time invariant: the stored governing attribute is
    /// exactly what the vocabulary table derives for the name and category.
    pub open spec fn well_formed(&self) -> bool {
        spec_governing_attribute(self.p_type, self.name@) == Some(self.attribute@)
    }

    /// Binds a line whose governing attribute the caller has already
    /// derived from the vocabulary table; it is derived data, never
    /// independently authored.
    pub fn new(
        p_type: ProficiencyType,
        attribute: &str,
        name: String,
        proficiency: ProficiencyLevel,
    ) -> (r: CalculatedStat)
        requires
            spec_governing_attribute(p_type, name@) == Some(attribute@),
        ensures
            r.p_type == p_type,
            r.attribute@ == attribute@,
            r.name == name,
            r.proficiency == proficiency,
            r.well_formed(),
    {
        CalculatedStat { p_type, attribute: String::from_str(attribute), name, proficiency }
    }

    /// Builds a line from its persisted triple, deriving the governing
    /// attribute from the vocabulary table. A save or skill name outside
    /// the closed vocabulary is a fatal configuration error.
    pub fn build(p_type: ProficiencyType, name: String, proficiency: ProficiencyLevel) -> (r:
        Result<CalculatedStat, CharError>)
        ensures
            match r {
                Ok(stat) => {
                    &&& spec_governing_attribute(p_type, name@) is Some
                    &&& stat.p_type == p_type
                    &&& stat.name == name
                    &&& stat.proficiency == proficiency
                    &&& stat.well_formed()
                },
                Err(e) => {
                    &&& spec_governing_attribute(p_type, name@) is None
                    &&& e == spec_vocabulary_error(p_type)
                },
            },
    {
        let attribute = match Character::get_attribute_and_lore_flag_from_skill_name(
            name.as_str(),
            &p_type,
        ) {
            Ok(attribute) => attribute,
            Err(e) => {
                return Err(e);
            },
        };
        Ok(CalculatedStat::new(p_type, attribute.as_str(), name, proficiency))
    }

    /// The total bonus of this line on a character: effective attribute
    /// value, plus the rank bonus at the character's level, plus the
    /// character's arbitrary bonus for this name. The effective attribute
    /// must resolve — a character without it is misconfigured — and the
    /// total must fit the machine integer.
    pub fn calculate_stat(&self, c: &Character) -> (r: i32)
        requires
            spec_attribute(
                c.attributes,
                spec_effective_attribute(*self, c.override_prof@),
            ) is Some,
            c.level as int + 8 <= i32::MAX as int,
            i32::MIN as int <= spec_stat_total(*self, *c) <= i32::MAX as int,
        ensures
            r == spec_stat_total(*self, *c),
    {
        let attr_value: i32 = match assoc_find(&c.override_prof, self.name.as_str()) {
            Some(redirect) => c.attributes.get_stat_val(redirect.as_str()).unwrap(),
            None => c.attributes.get_stat_val(self.attribute.as_str()).unwrap(),
        };
        let rank_bonus = self.proficiency.get_bonus(c.level);
        let extra = c.abp_data.bonus_for(self.name.as_str());
        let total: i64 = attr_value as i64 + rank_bonus as i64 + extra as i64;
        total as i32
    }

    /// The full untrained stat block a blank character starts with: class
    /// DC, perception, the three saves, the sixteen skills, one weapon
    /// group and the "Medium" armor group that the armor-class formula
    /// requires.
    #[verifier::rlimit(60)]
    pub fn default_array() -> (r: Vec<CalculatedStat>)
        ensures
            spec_default_stats(r@),
    {
        proof {
            lemma_vocabulary_names_distinct();
        }
        let u = ProficiencyLevel::Untrained;
        let mut r: Vec<CalculatedStat> = Vec::new();
        r.push(CalculatedStat::new(ProficiencyType::ClassDC, "key", String::from_str("Class DC"), u));
        r.push(
            CalculatedStat::new(ProficiencyType::Perception, "wis", String::from_str("Perception"), u),
        );
        r.push(CalculatedStat::new(ProficiencyType::Save, "con", String::from_str("Fortitude"), u));
        r.push(CalculatedStat::new(ProficiencyType::Save, "dex", String::from_str("Reflex"), u));
        r.push(CalculatedStat::new(ProficiencyType::Save, "wis", String::from_str("Will"), u));
        r.push(CalculatedStat::new(ProficiencyType::Skill, "dex", String::from_str("Acrobatics"), u));
        r.push(CalculatedStat::new(ProficiencyType::Skill, "int", String::from_str("Arcana"), u));
        r.push(CalculatedStat::new(ProficiencyType::Skill, "str", String::from_str("Athletics"), u));
        r.push(CalculatedStat::new(ProficiencyType::Skill, "int", String::from_str("Crafting"), u));
        r.push(CalculatedStat::new(ProficiencyType::Skill, "cha", String::from_str("Deception"), u));
        r.push(CalculatedStat::new(ProficiencyType::Skill, "cha", String::from_str("Diplomacy"), u));
        r.push(
            CalculatedStat::new(ProficiencyType::Skill, "cha", String::from_str("Intimidation"), u),
        );
        r.push(CalculatedStat::new(ProficiencyType::Skill, "wis", String::from_str("Medicine"), u));
        r.push(CalculatedStat::new(ProficiencyType::Skill, "wis", String::from_str("Nature"), u));
        r.push(CalculatedStat::new(ProficiencyType::Skill, "int", String::from_str("Occultism"), u));
        r.push(
            CalculatedStat::new(ProficiencyType::Skill, "cha", String::from_str("Performance"), u),
        );
        r.push(CalculatedStat::new(ProficiencyType::Skill, "wis", String::from_str("Religion"), u));
        r.push(CalculatedStat::new(ProficiencyType::Skill, "int", String::from_str("Society"), u));
        r.push(CalculatedStat::new(ProficiencyType::Skill, "dex", String::from_str("Stealth"), u));
        r.push(CalculatedStat::new(ProficiencyType::Skill, "wis", String::from_str("Survival"), u));
        r.push(CalculatedStat::new(ProficiencyType::Skill, "dex", String::from_str("Thievery"), u));
        r.push(CalculatedStat::new(ProficiencyType::Weapon, "str", String::from_str("Martial"), u));
        r.push(CalculatedStat::new(ProficiencyType::Armor, "dex", String::from_str("Medium"), u));
        proof {
            assert forall|j: int| 0 <= j < 22 implies (#[trigger] r@[j]).name@ != "Medium"@ by {}
            crate::character::lemma_find_prof_hit(r@, "Medium"@, 22);
        }
        r
    }
}

/// The stat block a blank character starts with: class DC, perception, the
/// three saves, the sixteen skills, one weapon group and the "Medium"
/// armor group, in this order, all untrained and all carrying the
/// construction-time invariant.
pub open spec fn spec_default_stats(profs: Seq<CalculatedStat>) -> bool {
    &&& profs.len() == 23
    &&& profs[0].p_type == ProficiencyType::ClassDC && profs[0].name@ == "Class DC"@
        && profs[0].attribute@ == "key"@
    &&& profs[1].p_type == ProficiencyType::Perception && profs[1].name@ == "Perception"@
        && profs[1].attribute@ == "wis"@
    &&& profs[2].p_type == ProficiencyType::Save && profs[2].name@ == "Fortitude"@
        && profs[2].attribute@ == "con"@
    &&& profs[3].p_type == ProficiencyType::Save && profs[3].name@ == "Reflex"@
        && profs[3].attribute@ == "dex"@
    &&& profs[4].p_type == ProficiencyType::Save && profs[4].name@ == "Will"@
        && profs[4].attribute@ == "wis"@
    &&& profs[5].p_type == ProficiencyType::Skill && profs[5].name@ == "Acrobatics"@
        && profs[5].attribute@ == "dex"@
    &&& profs[6].p_type == ProficiencyType::Skill && profs[6].name@ == "Arcana"@
        && profs[6].attribute@ == "int"@
    &&& profs[7].p_type == ProficiencyType::Skill && profs[7].name@ == "Athletics"@
        && profs[7].attribute@ == "str"@
    &&& profs[8].p_type == ProficiencyType::Skill && profs[8].name@ == "Crafting"@
        && profs[8].attribute@ == "int"@
    &&& profs[9].p_type == ProficiencyType::Skill && profs[9].name@ == "Deception"@
        && profs[9].attribute@ == "cha"@
    &&& profs[10].p_type == ProficiencyType::Skill && profs[10].name@ == "Diplomacy"@
        && profs[10].attribute@ == "cha"@
    &&& profs[11].p_type == ProficiencyType::Skill && profs[11].name@ == "Intimidation"@
        && profs[11].attribute@ == "cha"@
    &&& profs[12].p_type == ProficiencyType::Skill && profs[12].name@ == "Medicine"@
        && profs[12].attribute@ == "wis"@
    &&& profs[13].p_type == ProficiencyType::Skill && profs[13].name@ == "Nature"@
        && profs[13].attribute@ == "wis"@
    &&& profs[14].p_type == ProficiencyType::Skill && profs[14].name@ == "Occultism"@
        && profs[14].attribute@ == "int"@
    &&& profs[15].p_type == ProficiencyType::Skill && profs[15].name@ == "Performance"@
        && profs[15].attribute@ == "cha"@
    &&& profs[16].p_type == ProficiencyType::Skill && profs[16].name@ == "Religion"@
        && profs[16].attribute@ == "wis"@
    &&& profs[17].p_type == ProficiencyType::Skill && profs[17].name@ == "Society"@
        && profs[17].attribute@ == "int"@
    &&& profs[18].p_type == ProficiencyType::Skill && profs[18].name@ == "Stealth"@
        && profs[18].attribute@ == "dex"@
    &&& profs[19].p_type == ProficiencyType::Skill && profs[19].name@ == "Survival"@
        && profs[19].attribute@ == "wis"@
    &&& profs[20].p_type == ProficiencyType::Skill && profs[20].name@ == "Thievery"@
        && profs[20].attribute@ == "dex"@
    &&& profs[21].p_type == ProficiencyType::Weapon && profs[21].name@ == "Martial"@
        && profs[21].attribute@ == "str"@
    &&& profs[22].p_type == ProficiencyType::Armor && profs[22].name@ == "Medium"@
        && profs[22].attribute@ == "dex"@
    &&& forall|i: int|
        0 <= i < 23 ==> (#[trigger] profs[i]).proficiency == ProficiencyLevel::Untrained
            && profs[i].well_formed()
    &&& spec_find_prof(profs, "Medium"@) == Some(profs[22])
}

/// Pins down enough of the closed vocabulary's literals — their lengths
/// and a distinguishing character where two names share a length — for the
/// table to evaluate on each of them.
proof fn lemma_vocabulary_names_distinct()
    ensures
        spec_governing_attribute(ProficiencyType::Save, "Fortitude"@) == Some("con"@),
        spec_governing_attribute(ProficiencyType::Save, "Reflex"@) == Some("dex"@),
        spec_governing_attribute(ProficiencyType::Save, "Will"@) == Some("wis"@),
        spec_skill_attribute("Acrobatics"@) == Some("dex"@),
        spec_skill_attribute("Arcana"@) == Some("int"@),
        spec_skill_attribute("Athletics"@) == Some("str"@),
        spec_skill_attribute("Crafting"@) == Some("int"@),
        spec_skill_attribute("Deception"@) == Some("cha"@),
        spec_skill_attribute("Diplomacy"@) == Some("cha"@),
        spec_skill_attribute("Intimidation"@) == Some("cha"@),
        spec_skill_attribute("Medicine"@) == Some("wis"@),
        spec_skill_attribute("Nature"@) == Some("wis"@),
        spec_skill_attribute("Occultism"@) == Some("int"@),
        spec_skill_attribute("Performance"@) == Some("cha"@),
        spec_skill_attribute("Religion"@) == Some("wis"@),
        spec_skill_attribute("Society"@) == Some("int"@),
        spec_skill_attribute("Stealth"@) == Some("dex"@),
        spec_skill_attribute("Survival"@) == Some("wis"@),
        spec_skill_attribute("Thievery"@) == Some("dex"@),
        "Class DC"@.len() == 8 && "Perception"@.len() == 10,
        "Fortitude"@.len() == 9 && "Reflex"@.len() == 6 && "Will"@.len() == 4,
        "Acrobatics"@.len() == 10 && "Arcana"@.len() == 6 && "Athletics"@.len() == 9,
        "Crafting"@.len() == 8 && "Deception"@.len() == 9 && "Diplomacy"@.len() == 9,
        "Intimidation"@.len() == 12 && "Medicine"@.len() == 8 && "Nature"@.len() == 6,
        "Occultism"@.len() == 9 && "Performance"@.len() == 11 && "Religion"@.len() == 8,
        "Society"@.len() == 7 && "Stealth"@.len() == 7 && "Survival"@.len() == 8,
        "Thievery"@.len() == 8 && "Martial"@.len() == 7 && "Medium"@.len() == 6,
        "Medium"@[0] == 'M' && "Reflex"@[0] == 'R' && "Arcana"@[0] == 'A' && "Nature"@[0] == 'N',
        "Crafting"@[0] == 'C' && "Medicine"@[0] == 'M' && "Religion"@[0] == 'R' && "Survival"@[0]
            == 'S' && "Thievery"@[0] == 'T',
        "Deception"@[1] == 'e' && "Diplomacy"@[1] == 'i',
        "Athletics"@[0] == 'A' && "Occultism"@[0] == 'O' && "Deception"@[0] == 'D' && "Diplomacy"@[0]
            == 'D',
        "Society"@[1] == 'o' && "Stealth"@[1] == 't',
{
    reveal_strlit("Class DC");
    reveal_strlit("Perception");
    reveal_strlit("Fortitude");
    reveal_strlit("Reflex");
    reveal_strlit("Will");
    reveal_strlit("Acrobatics");
    reveal_strlit("Arcana");
    reveal_strlit("Athletics");
    reveal_strlit("Crafting");
    reveal_strlit("Deception");
    reveal_strlit("Diplomacy");
    reveal_strlit("Intimidation");
    reveal_strlit("Medicine");
    reveal_strlit("Nature");
    reveal_strlit("Occultism");
    reveal_strlit("Performance");
    reveal_strlit("Religion");
    reveal_strlit("Society");
    reveal_strlit("Stealth");
    reveal_strlit("Survival");
    reveal_strlit("Thievery");
    reveal_strlit("Martial");
    reveal_strlit("Medium");
    assert("Class DC"@.len() == 8 && "Perception"@.len() == 10);
    assert("Fortitude"@.len() == 9 && "Reflex"@.len() == 6 && "Will"@.len() == 4);
    assert("Acrobatics"@.len() == 10 && "Arcana"@.len() == 6 && "Athletics"@.len() == 9);
    assert("Crafting"@.len() == 8 && "Deception"@.len() == 9 && "Diplomacy"@.len() == 9);
    assert("Intimidation"@.len() == 12 && "Medicine"@.len() == 8 && "Nature"@.len() == 6);
    assert("Occultism"@.len() == 9 && "Performance"@.len() == 11 && "Religion"@.len() == 8);
    assert("Society"@.len() == 7 && "Stealth"@.len() == 7 && "Survival"@.len() == 8);
    assert("Thievery"@.len() == 8 && "Martial"@.len() == 7 && "Medium"@.len() == 6);
    assert("Medium"@[0] == 'M' && "Reflex"@[0] == 'R' && "Arcana"@[0] == 'A' && "Nature"@[0]
        == 'N');
    assert("Crafting"@[0] == 'C' && "Medicine"@[0] == 'M' && "Religion"@[0] == 'R' && "Survival"@[0]
        == 'S' && "Thievery"@[0] == 'T');
    assert("Deception"@[1] == 'e' && "Diplomacy"@[1] == 'i');
    assert("Athletics"@[0] == 'A' && "Occultism"@[0] == 'O' && "Deception"@[0] == 'D'
        && "Diplomacy"@[0] == 'D');
    assert("Society"@[1] == 'o' && "Stealth"@[1] == 't');
}

} // verus!
