//! The character aggregate and its persisted form.
//!
//! A `Character` owns one attribute set, two hit-point pools (its own and
//! its mount's), one shield, its level and its named bonus lines, plus
//! opaque reference data. A `SimpleCharacter` is the compact persisted
//! form of the same content: attributes as a positional list of six
//! integers and each bonus line as a (name, category, rank) triple, with
//! every derived field dropped and re-derived on load.

use vstd::prelude::*;

use crate::assoc::assoc_find;
use crate::assoc::spec_assoc_find;
use crate::attributes::spec_attribute;
use crate::attributes::spec_attribute_or_zero;
use crate::attributes::spec_set_attribute;
use crate::attributes::Attributes;
use crate::auto_bonus_prog::AbpData;
use crate::conditions::Condition;
use crate::errors::CharError;
use crate::gear::Gear;
use crate::hp::spec_max_hp;
use crate::hp::HpInfo;
use crate::hp::ShieldInfo;
use crate::proficiency::spec_rank_bonus;
use crate::proficiency::ProficiencyLevel;
use crate::stats::spec_default_stats;
use crate::stats::spec_governing_attribute;
use crate::stats::spec_vocabulary_error;
use crate::stats::CalculatedStat;
use crate::stats::ProficiencyType;
use crate::tactics::Tactic;
use crate::text::str_eq;

verus! {

/// The aggregate root: the single unit of mutation and persistence. No
/// sub-object is shared with another character.
#[derive(Clone, Debug, PartialEq, Eq)]
pub struct Character {
    pub name: String,
    pub hp_info: HpInfo,
    pub shield_info: ShieldInfo,
    pub level: i32,
    pub attributes: Attributes,
    pub text: String,
    pub background: String,
    pub class: String,
    pub proficiencies: Vec<CalculatedStat>,
    pub tactics: Vec<Tactic>,
    pub feats: Vec<String>,
    pub conditions: Vec<Condition>,
    pub gear_list: Vec<Gear>,
    pub horse_hp_info: HpInfo,
    pub override_prof: Vec<(String, String)>,
    pub abp_data: AbpData,
    pub flags: Vec<(String, bool)>,
}

/// The persisted form: the same logical content with attributes as a
/// positional list and bonus lines as plain triples. It carries no derived
/// data — the governing attribute of each line is recomputed on load.
#[derive(Clone, Debug, PartialEq, Eq)]
pub struct SimpleCharacter {
    pub name: String,
    pub level: i32,
    pub hp_info: HpInfo,
    pub attributes: Vec<i32>,
    pub text: String,
    pub background: String,
    pub class: String,
    pub tactics: Vec<Tactic>,
    pub proficiencies: Vec<(String, ProficiencyType, ProficiencyLevel)>,
    pub feats: Vec<String>,
    pub conditions: Vec<Condition>,
    pub gear_list: Vec<Gear>,
    pub shield_info: ShieldInfo,
    pub horse_hp_info: HpInfo,
    pub override_prof: Vec<(String, String)>,
    pub abp_data: AbpData,
    pub flags: Vec<(String, bool)>,
}

/// The first bonus line with a given name, searched front to back.
pub open spec fn spec_find_prof(profs: Seq<CalculatedStat>, name: Seq<char>) -> Option<
    CalculatedStat,
>
    decreases profs.len(),
{
    if profs.len() == 0 {
        None
    } else if profs[0].name@ == name {
        Some(profs[0])
    } else {
        spec_find_prof(profs.drop_first(), name)
    }
}

/// A first match at position `i` settles the search.
pub(crate) proof fn lemma_find_prof_hit(profs: Seq<CalculatedStat>, name: Seq<char>, i: int)
    requires
        0 <= i < profs.len(),
        profs[i].name@ == name,
        forall|j: int| 0 <= j < i ==> profs[j].name@ != name,
    ensures
        spec_find_prof(profs, name) == Some(profs[i]),
    decreases i,
{
    if i > 0 {
        lemma_find_prof_hit(profs.drop_first(), name, i - 1);
    }
}

/// No matching name anywhere means no result.
proof fn lemma_find_prof_miss(profs: Seq<CalculatedStat>, name: Seq<char>)
    requires
        forall|j: int| 0 <= j < profs.len() ==> profs[j].name@ != name,
    ensures
        spec_find_prof(profs, name) is None,
    decreases profs.len(),
{
    if profs.len() > 0 {
        lemma_find_prof_miss(profs.drop_first(), name);
    }
}

/// The dexterity contribution to armor class: the dexterity value capped
/// at the fixed cap of 1, whatever armor is equipped.
pub open spec fn spec_ac_dex(dexterity: int) -> int {
    if dexterity < 1 {
        dexterity
    } else {
        1
    }
}

/// The armor class of a character: 10, plus capped dexterity, plus the
/// rank bonus of the bonus line named "Medium" at the character's level,
/// plus a fixed item bonus of 4, plus 2 while the shield is raised.
/// Meaningful only when a line named "Medium" exists.
pub open spec fn spec_ac(c: Character) -> int {
    match spec_find_prof(c.proficiencies@, "Medium"@) {
        Some(stat) => 10 + spec_ac_dex(c.attributes.dexterity as int) + spec_rank_bonus(
            stat.proficiency,
            c.level as int,
        ) + 4 + if c.shield_info.raised {
            2int
        } else {
            0int
        },
        None => 0,
    }
}

/// Whether a persisted record can load: exactly six attributes, and every
/// triple's name inside its category's vocabulary.
pub open spec fn spec_load_ok(s: SimpleCharacter) -> bool {
    &&& s.attributes@.len() == 6
    &&& forall|i: int|
        0 <= i < s.proficiencies@.len() ==> spec_governing_attribute(
            #[trigger] s.proficiencies@[i].1,
            s.proficiencies@[i].0@,
        ) is Some
}

/// The error reported for the first unresolvable triple, front to back.
pub open spec fn spec_triples_error(
    triples: Seq<(String, ProficiencyType, ProficiencyLevel)>,
) -> Option<CharError>
    decreases triples.len(),
{
    if triples.len() == 0 {
        None
    } else if spec_governing_attribute(triples[0].1, triples[0].0@) is None {
        Some(spec_vocabulary_error(triples[0].1))
    } else {
        spec_triples_error(triples.drop_first())
    }
}

/// A first unresolvable triple at position `k` settles the error.
proof fn lemma_triples_error_at(
    triples: Seq<(String, ProficiencyType, ProficiencyLevel)>,
    k: int,
)
    requires
        0 <= k < triples.len(),
        forall|j: int|
            0 <= j < k ==> spec_governing_attribute(
                #[trigger] triples[j].1,
                triples[j].0@,
            ) is Some,
        spec_governing_attribute(triples[k].1, triples[k].0@) is None,
    ensures
        spec_triples_error(triples) == Some(spec_vocabulary_error(triples[k].1)),
    decreases k,
{
    if k > 0 {
        lemma_triples_error_at(triples.drop_first(), k - 1);
    }
}

/// How a loaded character relates to the record it was loaded from: every
/// opaque field copied verbatim, the six attributes read positionally, and
/// one well-formed bonus line per triple, in input order, with the
/// governing attribute freshly derived.
pub open spec fn spec_loads_to(s: SimpleCharacter, c: Character) -> bool {
    &&& c.name == s.name
    &&& c.level == s.level
    &&& c.hp_info == s.hp_info
    &&& c.shield_info == s.shield_info
    &&& c.horse_hp_info == s.horse_hp_info
    &&& c.text == s.text
    &&& c.background == s.background
    &&& c.class == s.class
    &&& c.tactics == s.tactics
    &&& c.feats == s.feats
    &&& c.conditions == s.conditions
    &&& c.gear_list == s.gear_list
    &&& c.override_prof == s.override_prof
    &&& c.abp_data == s.abp_data
    &&& c.flags == s.flags
    &&& s.attributes@.len() == 6
    &&& c.attributes.strength == s.attributes@[0]
    &&& c.attributes.dexterity == s.attributes@[1]
    &&& c.attributes.constitution == s.attributes@[2]
    &&& c.attributes.intelligence == s.attributes@[3]
    &&& c.attributes.wisdom == s.attributes@[4]
    &&& c.attributes.charisma == s.attributes@[5]
    &&& c.proficiencies@.len() == s.proficiencies@.len()
    &&& forall|i: int|
        0 <= i < c.proficiencies@.len() ==> {
            &&& (#[trigger] c.proficiencies@[i]).name == s.proficiencies@[i].0
            &&& c.proficiencies@[i].p_type == s.proficiencies@[i].1
            &&& c.proficiencies@[i].proficiency == s.proficiencies@[i].2
            &&& c.proficiencies@[i].well_formed()
        }
}

/// How a saved record relates to the character it projects: every opaque
/// field copied verbatim, attributes flattened positionally, and each
/// bonus line reduced to its (name, category, rank) triple with the
/// derived attribute discarded.
pub open spec fn spec_saves_to(c: Character, s: SimpleCharacter) -> bool {
    &&& s.name == c.name
    &&& s.level == c.level
    &&& s.hp_info == c.hp_info
    &&& s.shield_info == c.shield_info
    &&& s.horse_hp_info == c.horse_hp_info
    &&& s.text == c.text
    &&& s.background == c.background
    &&& s.class == c.class
    &&& s.tactics == c.tactics
    &&& s.feats == c.feats
    &&& s.conditions == c.conditions
    &&& s.gear_list == c.gear_list
    &&& s.override_prof == c.override_prof
    &&& s.abp_data == c.abp_data
    &&& s.flags == c.flags
    &&& s.attributes@ == seq![
        c.attributes.strength,
        c.attributes.dexterity,
        c.attributes.constitution,
        c.attributes.intelligence,
        c.attributes.wisdom,
        c.attributes.charisma,
    ]
    &&& s.proficiencies@.len() == c.proficiencies@.len()
    &&& forall|i: int|
        0 <= i < s.proficiencies@.len() ==> {
            &&& (#[trigger] s.proficiencies@[i]).0 == c.proficiencies@[i].name
            &&& s.proficiencies@[i].1 == c.proficiencies@[i].p_type
            &&& s.proficiencies@[i].2 == c.proficiencies@[i].proficiency
        }
}

/// The index of the first bonus line with a given name.
pub open spec fn spec_prof_index(profs: Seq<CalculatedStat>, name: Seq<char>) -> Option<int>
    decreases profs.len(),
{
    if profs.len() == 0 {
        None
    } else if profs[0].name@ == name {
        Some(0)
    } else {
        match spec_prof_index(profs.drop_first(), name) {
            Some(i) => Some(i + 1),
            None => None,
        }
    }
}

/// A first match at position `i` settles the index search.
proof fn lemma_prof_index_hit(profs: Seq<CalculatedStat>, name: Seq<char>, i: int)
    requires
        0 <= i < profs.len(),
        profs[i].name@ == name,
        forall|j: int| 0 <= j < i ==> profs[j].name@ != name,
    ensures
        spec_prof_index(profs, name) == Some(i),
    decreases i,
{
    if i > 0 {
        lemma_prof_index_hit(profs.drop_first(), name, i - 1);
    }
}

/// No matching name anywhere means no index.
proof fn lemma_prof_index_miss(profs: Seq<CalculatedStat>, name: Seq<char>)
    requires
        forall|j: int| 0 <= j < profs.len() ==> profs[j].name@ != name,
    ensures
        spec_prof_index(profs, name) is None,
    decreases profs.len(),
{
    if profs.len() > 0 {
        lemma_prof_index_miss(profs.drop_first(), name);
    }
}

/// The index of the first tactic with a given name.
pub open spec fn spec_tactic_index(tactics: Seq<Tactic>, name: Seq<char>) -> Option<int>
    decreases tactics.len(),
{
    if tactics.len() == 0 {
        None
    } else if tactics[0].name@ == name {
        Some(0)
    } else {
        match spec_tactic_index(tactics.drop_first(), name) {
            Some(i) => Some(i + 1),
            None => None,
        }
    }
}

/// A first match at position `i` settles the tactic search.
proof fn lemma_tactic_index_hit(tactics: Seq<Tactic>, name: Seq<char>, i: int)
    requires
        0 <= i < tactics.len(),
        tactics[i].name@ == name,
        forall|j: int| 0 <= j < i ==> tactics[j].name@ != name,
    ensures
        spec_tactic_index(tactics, name) == Some(i),
    decreases i,
{
    if i > 0 {
        lemma_tactic_index_hit(tactics.drop_first(), name, i - 1);
    }
}

/// No matching tactic name anywhere means no index.
proof fn lemma_tactic_index_miss(tactics: Seq<Tactic>, name: Seq<char>)
    requires
        forall|j: int| 0 <= j < tactics.len() ==> tactics[j].name@ != name,
    ensures
        spec_tactic_index(tactics, name) is None,
    decreases tactics.len(),
{
    if tactics.len() > 0 {
        lemma_tactic_index_miss(tactics.drop_first(), name);
    }
}

/// How many tactics are currently selected.
pub open spec fn spec_count_selected(tactics: Seq<Tactic>) -> int
    decreases tactics.len(),
{
    if tactics.len() == 0 {
        0
    } else {
        (if tactics[0].selected {
            1int
        } else {
            0int
        }) + spec_count_selected(tactics.drop_first())
    }
}

/// The value of a feature flag; an absent flag reads as off.
pub open spec fn spec_flag(flags: Seq<(String, bool)>, name: Seq<char>) -> bool {
    match spec_assoc_find(flags, name) {
        Some(b) => b,
        None => false,
    }
}

impl Character {
    /// Resolves a name and category against the fixed vocabulary table.
    /// A save or skill name outside its closed vocabulary is a fatal
    /// configuration error; every other category maps to a fixed id
    /// regardless of name (lore lines always to "int", spell and class-DC
    /// lines to the "key" placeholder).
    pub fn get_attribute_and_lore_flag_from_skill_name(skill_name: &str, p_type: &ProficiencyType)
        -> (r: Result<String, CharError>)
        ensures
            match r {
                Ok(id) => spec_governing_attribute(*p_type, skill_name@) == Some(id@),
                Err(e) => {
                    &&& spec_governing_attribute(*p_type, skill_name@) is None
                    &&& e == spec_vocabulary_error(*p_type)
                },
            },
    {
        match p_type {
            ProficiencyType::Save => {
                if str_eq(skill_name, "Fortitude") {
                    Ok(String::from_str("con"))
                } else if str_eq(skill_name, "Reflex") {
                    Ok(String::from_str("dex"))
                } else if str_eq(skill_name, "Will") {
                    Ok(String::from_str("wis"))
                } else {
                    Err(CharError::UnknownSave)
                }
            },
            ProficiencyType::Skill => {
                if str_eq(skill_name, "Acrobatics") {
                    Ok(String::from_str("dex"))
                } else if str_eq(skill_name, "Arcana") {
                    Ok(String::from_str("int"))
                } else if str_eq(skill_name, "Athletics") {
                    Ok(String::from_str("str"))
                } else if str_eq(skill_name, "Crafting") {
                    Ok(String::from_str("int"))
                } else if str_eq(skill_name, "Deception") {
                    Ok(String::from_str("cha"))
                } else if str_eq(skill_name, "Diplomacy") {
                    Ok(String::from_str("cha"))
                } else if str_eq(skill_name, "Intimidation") {
                    Ok(String::from_str("cha"))
                } else if str_eq(skill_name, "Medicine") {
                    Ok(String::from_str("wis"))
                } else if str_eq(skill_name, "Nature") {
                    Ok(String::from_str("wis"))
                } else if str_eq(skill_name, "Occultism") {
                    Ok(String::from_str("int"))
                } else if str_eq(skill_name, "Performance") {
                    Ok(String::from_str("cha"))
                } else if str_eq(skill_name, "Religion") {
                    Ok(String::from_str("wis"))
                } else if str_eq(skill_name, "Society") {
                    Ok(String::from_str("int"))
                } else if str_eq(skill_name, "Stealth") {
                    Ok(String::from_str("dex"))
                } else if str_eq(skill_name, "Survival") {
                    Ok(String::from_str("wis"))
                } else if str_eq(skill_name, "Thievery") {
                    Ok(String::from_str("dex"))
                } else {
                    Err(CharError::UnknownSkill)
                }
            },
            ProficiencyType::Lore => Ok(String::from_str("int")),
            ProficiencyType::Armor => Ok(String::from_str("dex")),
            ProficiencyType::Weapon => Ok(String::from_str("str")),
            ProficiencyType::Spell => Ok(String::from_str("key")),
            ProficiencyType::ClassDC => Ok(String::from_str("key")),
            ProficiencyType::Perception => Ok(String::from_str("wis")),
        }
    }

    /// The index of the first bonus line with this exact name; a missing
    /// name is a soft absence, the caller decides whether it is fatal.
    pub fn get_prof_indx_from_name(&self, skill_name: &str) -> (r: Option<usize>)
        ensures
            match r {
                Some(i) => {
                    &&& i < self.proficiencies@.len()
                    &&& self.proficiencies@[i as int].name@ == skill_name@
                    &&& forall|j: int| 0 <= j < i ==> self.proficiencies@[j].name@ != skill_name@
                    &&& spec_prof_index(self.proficiencies@, skill_name@) == Some(i as int)
                    &&& spec_find_prof(self.proficiencies@, skill_name@) == Some(
                        self.proficiencies@[i as int],
                    )
                },
                None => spec_find_prof(self.proficiencies@, skill_name@) is None
                    && spec_prof_index(self.proficiencies@, skill_name@) is None,
            },
    {
        let n = self.proficiencies.len();
        let mut i: usize = 0;
        while i < n
            invariant
                n == self.proficiencies@.len(),
                i <= n,
                forall|j: int| 0 <= j < i ==> self.proficiencies@[j].name@ != skill_name@,
            decreases n - i,
        {
            if str_eq(self.proficiencies[i].name.as_str(), skill_name) {
                proof {
                    lemma_find_prof_hit(self.proficiencies@, skill_name@, i as int);
                    lemma_prof_index_hit(self.proficiencies@, skill_name@, i as int);
                }
                return Some(i);
            }
            i = i + 1;
        }
        proof {
            lemma_find_prof_miss(self.proficiencies@, skill_name@);
            lemma_prof_index_miss(self.proficiencies@, skill_name@);
        }
        None
    }

    /// A copy of the first bonus line with this exact name; a missing name
    /// is a soft absence.
    pub fn get_prof_obj_from_name(&self, skill_name: &str) -> (r: Option<CalculatedStat>)
        ensures
            r == spec_find_prof(self.proficiencies@, skill_name@),
    {
        match self.get_prof_indx_from_name(skill_name) {
            Some(i) => Some(self.proficiencies[i].clone()),
            None => None,
        }
    }

    /// The armor class. The character must carry a bonus line named
    /// "Medium" (the equipped armor category) — a character without one is
    /// misconfigured — and the total must fit the machine integer.
    pub fn calculate_ac(&self) -> (r: i32)
        requires
            spec_find_prof(self.proficiencies@, "Medium"@) is Some,
            self.level as int + 8 <= i32::MAX as int,
            i32::MIN as int <= spec_ac(*self) <= i32::MAX as int,
        ensures
            r == spec_ac(*self),
    {
        let calc_stat = self.get_prof_obj_from_name("Medium").unwrap();
        let dex_cap: i32 = 1;
        let item_bonus: i32 = 4;
        let prof_bonus = calc_stat.proficiency.get_bonus(self.level);
        let raised_bonus: i32 = if self.shield_info.raised {
            2
        } else {
            0
        };
        let dex = self.attributes.dexterity;
        let capped_dex: i32 = if dex < dex_cap {
            dex
        } else {
            dex_cap
        };
        let total: i64 = 10i64 + capped_dex as i64 + prof_bonus as i64 + item_bonus as i64
            + raised_bonus as i64;
        total as i32
    }

    /// Loads a character from its persisted record: opaque fields are
    /// copied verbatim, the six positional attributes become the named set,
    /// and each (name, category, rank) triple becomes a bonus line whose
    /// governing attribute is re-derived from the vocabulary table. A
    /// record with a wrong attribute count or a name outside a closed
    /// vocabulary is rejected with its typed error, nothing constructed.
    #[verifier::loop_isolation(false)]
    pub fn from_simple(simple: SimpleCharacter) -> (r: Result<Character, CharError>)
        ensures
            match r {
                Ok(c) => spec_load_ok(simple) && spec_loads_to(simple, c),
                Err(e) => {
                    &&& !spec_load_ok(simple)
                    &&& if simple.attributes@.len() != 6 {
                        e == CharError::WrongAttributeCount
                    } else {
                        spec_triples_error(simple.proficiencies@) == Some(e)
                    }
                },
            },
    {
        let SimpleCharacter {
            name,
            level,
            hp_info,
            attributes,
            text,
            background,
            class,
            tactics,
            proficiencies,
            feats,
            conditions,
            gear_list,
            shield_info,
            horse_hp_info,
            override_prof,
            abp_data,
            flags,
        } = simple;
        let attribute_set = match Attributes::from_number_vec(&attributes) {
            Some(a) => a,
            None => {
                return Err(CharError::WrongAttributeCount);
            },
        };
        let ghost all_triples = proficiencies@;
        let mut triples = proficiencies;
        let mut profs: Vec<CalculatedStat> = Vec::new();
        while triples.len() > 0
            invariant
                profs@.len() + triples@.len() == all_triples.len(),
                triples@ == all_triples.skip(profs@.len() as int),
                forall|i: int|
                    0 <= i < profs@.len() ==> spec_governing_attribute(
                        #[trigger] all_triples[i].1,
                        all_triples[i].0@,
                    ) is Some,
                forall|i: int|
                    0 <= i < profs@.len() ==> {
                        &&& (#[trigger] profs@[i]).name == all_triples[i].0
                        &&& profs@[i].p_type == all_triples[i].1
                        &&& profs@[i].proficiency == all_triples[i].2
                        &&& profs@[i].well_formed()
                    },
            decreases triples@.len(),
        {
            let ghost k = profs@.len() as int;
            let t = triples.remove(0);
            proof {
                assert(t == all_triples[k]);
                assert(triples@ =~= all_triples.skip(k + 1));
            }
            let attribute = match Character::get_attribute_and_lore_flag_from_skill_name(
                t.0.as_str(),
                &t.1,
            ) {
                Ok(attribute) => attribute,
                Err(e) => {
                    proof {
                        lemma_triples_error_at(all_triples, k);
                    }
                    return Err(e);
                },
            };
            profs.push(CalculatedStat::new(t.1, attribute.as_str(), t.0, t.2));
        }
        Ok(
            Character {
                name,
                hp_info,
                shield_info,
                level,
                attributes: attribute_set,
                text,
                background,
                class,
                proficiencies: profs,
                tactics,
                feats,
                conditions,
                gear_list,
                horse_hp_info,
                override_prof,
                abp_data,
                flags,
            },
        )
    }

    /// Projects a character down to its persisted record: opaque fields
    /// verbatim, attributes flattened to the fixed positional order, each
    /// bonus line reduced to its triple. The derived governing attribute is
    /// deliberately dropped; loading re-derives it.
    #[verifier::loop_isolation(false)]
    pub fn to_simple(self) -> (r: SimpleCharacter)
        ensures
            spec_saves_to(self, r),
    {
        let Character {
            name,
            hp_info,
            shield_info,
            level,
            attributes,
            text,
            background,
            class,
            proficiencies,
            tactics,
            feats,
            conditions,
            gear_list,
            horse_hp_info,
            override_prof,
            abp_data,
            flags,
        } = self;
        let attribute_list = attributes.as_number_vec();
        let ghost all_profs = proficiencies@;
        let mut stats = proficiencies;
        let mut triples: Vec<(String, ProficiencyType, ProficiencyLevel)> = Vec::new();
        while stats.len() > 0
            invariant
                triples@.len() + stats@.len() == all_profs.len(),
                stats@ == all_profs.skip(triples@.len() as int),
                forall|i: int|
                    0 <= i < triples@.len() ==> {
                        &&& (#[trigger] triples@[i]).0 == all_profs[i].name
                        &&& triples@[i].1 == all_profs[i].p_type
                        &&& triples@[i].2 == all_profs[i].proficiency
                    },
            decreases stats@.len(),
        {
            let ghost k = triples@.len() as int;
            let stat = stats.remove(0);
            proof {
                assert(stat == all_profs[k]);
                assert(stats@ =~= all_profs.skip(k + 1));
            }
            let CalculatedStat { p_type, attribute: _, name: stat_name, proficiency } = stat;
            triples.push((stat_name, p_type, proficiency));
        }
        SimpleCharacter {
            name,
            level,
            hp_info,
            attributes: attribute_list,
            text,
            background,
            class,
            tactics,
            proficiencies: triples,
            feats,
            conditions,
            gear_list,
            shield_info,
            horse_hp_info,
            override_prof,
            abp_data,
            flags,
        }
    }
}

impl Character {
    /// A blank level-1 character: zeroed pools and attributes, the default
    /// untrained stat block, the fixed starting shield and nothing else.
    pub fn zero() -> (r: Character)
        ensures
            r.name@.len() == 0,
            r.text@.len() == 0,
            r.hp_info == (HpInfo {
                ancestry_hp: 0,
                class_hp: 0,
                max_hp: 0,
                current_hp: 0,
                temp_hp: 0,
            }),
            r.horse_hp_info == (HpInfo {
                ancestry_hp: 0,
                class_hp: 0,
                max_hp: 0,
                current_hp: 0,
                temp_hp: 0,
            }),
            r.shield_info == (ShieldInfo { max_hp: 20, current_hp: 18, hardness: 5, raised: false }),
            r.level == 1,
            r.attributes == (Attributes {
                strength: 0,
                dexterity: 0,
                constitution: 0,
                intelligence: 0,
                wisdom: 0,
                charisma: 0,
            }),
            r.background@ == "Squire"@,
            r.class@ == "Commander"@,
            spec_default_stats(r.proficiencies@),
            r.feats@.len() == 0,
            r.conditions@.len() == 0,
            r.tactics@.len() == 0,
            r.gear_list@.len() == 0,
            r.override_prof@.len() == 0,
            r.abp_data.bonuses@.len() == 0,
            r.flags@.len() == 0,
    {
        proof {
            reveal_strlit("");
        }
        Character {
            name: String::from_str(""),
            hp_info: HpInfo::new(0, 0, 1, 0),
            horse_hp_info: HpInfo::new(0, 0, 1, 0),
            shield_info: ShieldInfo::new(20, 18, 5, false),
            level: 1,
            text: String::from_str(""),
            attributes: Attributes::zero(),
            background: String::from_str("Squire"),
            class: String::from_str("Commander"),
            proficiencies: CalculatedStat::default_array(),
            feats: Vec::new(),
            conditions: Vec::new(),
            tactics: Vec::new(),
            gear_list: Vec::new(),
            override_prof: Vec::new(),
            abp_data: AbpData::new(),
            flags: Vec::new(),
        }
    }

    /// Reads a feature flag; an absent flag reads as off.
    pub fn check_flag(&self, name: &str) -> (r: bool)
        ensures
            r == spec_flag(self.flags@, name@),
    {
        match assoc_find(&self.flags, name) {
            Some(b) => *b,
            None => false,
        }
    }

    /// How many tactics are currently selected. The cap on selections is
    /// the interactive collaborator's to enforce, not the core's.
    #[verifier::loop_isolation(false)]
    pub fn count_selected_tactics(&self) -> (r: usize)
        ensures
            r == spec_count_selected(self.tactics@),
    {
        proof {
            assert(self.tactics@.skip(0) =~= self.tactics@);
        }
        let n = self.tactics.len();
        let mut count: usize = 0;
        let mut i: usize = 0;
        while i < n
            invariant
                i <= n,
                count <= i,
                count + spec_count_selected(self.tactics@.skip(i as int)) == spec_count_selected(
                    self.tactics@,
                ),
            decreases n - i,
        {
            proof {
                assert(self.tactics@.skip(i as int).drop_first() =~= self.tactics@.skip(
                    i as int + 1,
                ));
            }
            if self.tactics[i].selected {
                count = count + 1;
            }
            i = i + 1;
        }
        count
    }

    /// Flips the selection of the first tactic with this exact name and
    /// reports whether one was found.
    pub fn toggle_tactic(&mut self, name: &str) -> (r: bool)
        ensures
            match spec_tactic_index(old(self).tactics@, name@) {
                Some(i) => r && final(self).tactics@ == old(self).tactics@.update(
                    i,
                    (Tactic { selected: !old(self).tactics@[i].selected, ..old(self).tactics@[i] }),
                ),
                None => !r && final(self).tactics@ == old(self).tactics@,
            },
            *final(self) == (Character { tactics: final(self).tactics, ..*old(self) }),
    {
        let n = self.tactics.len();
        let mut i: usize = 0;
        while i < n
            invariant
                n == self.tactics@.len(),
                i <= n,
                forall|j: int| 0 <= j < i ==> self.tactics@[j].name@ != name@,
                *self == *old(self),
            decreases n - i,
        {
            if str_eq(self.tactics[i].name.as_str(), name) {
                proof {
                    lemma_tactic_index_hit(self.tactics@, name@, i as int);
                }
                let mut chosen = self.tactics.remove(i);
                chosen.selected = !chosen.selected;
                self.tactics.insert(i, chosen);
                proof {
                    assert(self.tactics@ =~= old(self).tactics@.update(
                        i as int,
                        (Tactic {
                            selected: !old(self).tactics@[i as int].selected,
                            ..old(self).tactics@[i as int]
                        }),
                    ));
                }
                return true;
            }
            i = i + 1;
        }
        proof {
            lemma_tactic_index_miss(self.tactics@, name@);
        }
        false
    }

    /// Sets the rank of the first bonus line with this exact name and
    /// reports whether one was found. Only the rank changes: the name, the
    /// category and the derived attribute stay, so the line keeps its
    /// construction-time invariant.
    pub fn set_proficiency_rank(&mut self, name: &str, rank: ProficiencyLevel) -> (r: bool)
        ensures
            match spec_prof_index(old(self).proficiencies@, name@) {
                Some(i) => r && final(self).proficiencies@ == old(self).proficiencies@.update(
                    i,
                    (CalculatedStat { proficiency: rank, ..old(self).proficiencies@[i] }),
                ),
                None => !r && final(self).proficiencies@ == old(self).proficiencies@,
            },
            *final(self) == (Character { proficiencies: final(self).proficiencies, ..*old(self) }),
    {
        let n = self.proficiencies.len();
        let mut i: usize = 0;
        while i < n
            invariant
                n == self.proficiencies@.len(),
                i <= n,
                forall|j: int| 0 <= j < i ==> self.proficiencies@[j].name@ != name@,
                *self == *old(self),
            decreases n - i,
        {
            if str_eq(self.proficiencies[i].name.as_str(), name) {
                proof {
                    lemma_prof_index_hit(self.proficiencies@, name@, i as int);
                }
                let mut chosen = self.proficiencies.remove(i);
                chosen.proficiency = rank;
                self.proficiencies.insert(i, chosen);
                proof {
                    assert(self.proficiencies@ =~= old(self).proficiencies@.update(
                        i as int,
                        (CalculatedStat {
                            proficiency: rank,
                            ..old(self).proficiencies@[i as int]
                        }),
                    ));
                }
                return true;
            }
            i = i + 1;
        }
        proof {
            lemma_prof_index_miss(self.proficiencies@, name@);
        }
        false
    }

    /// Adds a signed amount to one attribute and recomputes the rider
    /// pool's maximum with the (possibly changed) constitution, leaving the
    /// current total alone. The attribute must exist and the results must
    /// fit the machine integers.
    pub fn update_attribute(&mut self, id: &str, delta: i32)
        requires
            spec_attribute(old(self).attributes, id@) is Some,
            i32::MIN as int <= spec_attribute_or_zero(old(self).attributes, id@) + delta
                <= i32::MAX as int,
            ({
                let changed = spec_set_attribute(
                    old(self).attributes,
                    id@,
                    (spec_attribute_or_zero(old(self).attributes, id@) + delta) as i32,
                );
                i32::MIN as int <= spec_max_hp(
                    old(self).hp_info.ancestry_hp as int,
                    old(self).hp_info.class_hp as int,
                    changed.constitution as int,
                    old(self).level as int,
                ) <= i32::MAX as int
            }),
        ensures
            final(self).attributes == spec_set_attribute(
                old(self).attributes,
                id@,
                (spec_attribute_or_zero(old(self).attributes, id@) + delta) as i32,
            ),
            final(self).hp_info.max_hp == spec_max_hp(
                old(self).hp_info.ancestry_hp as int,
                old(self).hp_info.class_hp as int,
                final(self).attributes.constitution as int,
                old(self).level as int,
            ),
            final(self).hp_info == (HpInfo { max_hp: final(self).hp_info.max_hp, ..old(self).hp_info }),
            *final(self) == (Character {
                attributes: final(self).attributes,
                hp_info: final(self).hp_info,
                ..*old(self)
            }),
    {
        let old_val = self.attributes.get_stat_val(id).unwrap();
        let new_val: i32 = ((old_val as i64) + (delta as i64)) as i32;
        self.attributes.set_stat(id, new_val);
        let con = self.attributes.constitution;
        self.hp_info.calculate_max_hp(self.level, con);
    }

    /// Adds a signed amount to the level and recomputes both pool maxima:
    /// the rider's with the live constitution, the mount's with its fixed
    /// constitution contribution of 2. Neither pool's current total is
    /// re-clamped. The new level and both maxima must fit the machine
    /// integers.
    pub fn change_level(&mut self, delta: i32)
        requires
            i32::MIN as int <= old(self).level + delta <= i32::MAX as int,
            i32::MIN as int <= spec_max_hp(
                old(self).hp_info.ancestry_hp as int,
                old(self).hp_info.class_hp as int,
                old(self).attributes.constitution as int,
                old(self).level + delta,
            ) <= i32::MAX as int,
            i32::MIN as int <= spec_max_hp(
                old(self).horse_hp_info.ancestry_hp as int,
                old(self).horse_hp_info.class_hp as int,
                2,
                old(self).level + delta,
            ) <= i32::MAX as int,
        ensures
            final(self).level == old(self).level + delta,
            final(self).hp_info.max_hp == spec_max_hp(
                old(self).hp_info.ancestry_hp as int,
                old(self).hp_info.class_hp as int,
                old(self).attributes.constitution as int,
                old(self).level + delta,
            ),
            final(self).hp_info == (HpInfo { max_hp: final(self).hp_info.max_hp, ..old(self).hp_info }),
            final(self).horse_hp_info.max_hp == spec_max_hp(
                old(self).horse_hp_info.ancestry_hp as int,
                old(self).horse_hp_info.class_hp as int,
                2,
                old(self).level + delta,
            ),
            final(self).horse_hp_info == (HpInfo {
                max_hp: final(self).horse_hp_info.max_hp,
                ..old(self).horse_hp_info
            }),
            *final(self) == (Character {
                level: final(self).level,
                hp_info: final(self).hp_info,
                horse_hp_info: final(self).horse_hp_info,
                ..*old(self)
            }),
    {
        let new_level: i32 = ((self.level as i64) + (delta as i64)) as i32;
        self.level = new_level;
        let con = self.attributes.constitution;
        self.hp_info.calculate_max_hp(new_level, con);
        self.horse_hp_info.calculate_max_hp(new_level, 2);
    }

    /// Overwrites the free-text notes field.
    pub fn set_text(&mut self, value: String)
        ensures
            final(self).text == value,
            *final(self) == (Character { text: final(self).text, ..*old(self) }),
    {
        self.text = value;
    }
}

/// Law: loading a well-formed persisted record and saving the result
/// reproduces the record — no information is lost across the boundary.
pub proof fn lemma_load_save_round_trip(s: SimpleCharacter, c: Character, s2: SimpleCharacter)
    requires
        spec_load_ok(s),
        spec_loads_to(s, c),
        spec_saves_to(c, s2),
    ensures
        s2.name == s.name,
        s2.level == s.level,
        s2.hp_info == s.hp_info,
        s2.shield_info == s.shield_info,
        s2.horse_hp_info == s.horse_hp_info,
        s2.text == s.text,
        s2.background == s.background,
        s2.class == s.class,
        s2.tactics == s.tactics,
        s2.feats == s.feats,
        s2.conditions == s.conditions,
        s2.gear_list == s.gear_list,
        s2.override_prof == s.override_prof,
        s2.abp_data == s.abp_data,
        s2.flags == s.flags,
        s2.attributes@ == s.attributes@,
        s2.proficiencies@ == s.proficiencies@,
{
    assert(s2.attributes@ =~= s.attributes@);
    assert forall|i: int| 0 <= i < s2.proficiencies@.len() implies #[trigger] s2.proficiencies@[i]
        == s.proficiencies@[i] by {
        assert(s2.proficiencies@[i].0 == s.proficiencies@[i].0);
        assert(s2.proficiencies@[i].1 == s.proficiencies@[i].1);
        assert(s2.proficiencies@[i].2 == s.proficiencies@[i].2);
    }
    assert(s2.proficiencies@ =~= s.proficiencies@);
}

/// Law: a record saved from a character whose bonus lines carry their
/// construction-time invariant always loads.
pub proof fn lemma_saved_record_loads(c: Character, s: SimpleCharacter)
    requires
        forall|i: int|
            0 <= i < c.proficiencies@.len() ==> (#[trigger] c.proficiencies@[i]).well_formed(),
        spec_saves_to(c, s),
    ensures
        spec_load_ok(s),
{
}

/// Law: saving a character whose bonus lines carry their invariant and
/// loading the record back reproduces the character; the one field that is
/// re-derived rather than copied, each line's governing attribute, comes
/// back holding the same characters.
pub proof fn lemma_save_load_round_trip(c: Character, s: SimpleCharacter, c2: Character)
    requires
        forall|i: int|
            0 <= i < c.proficiencies@.len() ==> (#[trigger] c.proficiencies@[i]).well_formed(),
        spec_saves_to(c, s),
        spec_loads_to(s, c2),
    ensures
        c2.name == c.name,
        c2.level == c.level,
        c2.hp_info == c.hp_info,
        c2.shield_info == c.shield_info,
        c2.horse_hp_info == c.horse_hp_info,
        c2.text == c.text,
        c2.background == c.background,
        c2.class == c.class,
        c2.tactics == c.tactics,
        c2.feats == c.feats,
        c2.conditions == c.conditions,
        c2.gear_list == c.gear_list,
        c2.override_prof == c.override_prof,
        c2.abp_data == c.abp_data,
        c2.flags == c.flags,
        c2.attributes == c.attributes,
        c2.proficiencies@.len() == c.proficiencies@.len(),
        forall|i: int|
            0 <= i < c.proficiencies@.len() ==> {
                &&& (#[trigger] c2.proficiencies@[i]).name == c.proficiencies@[i].name
                &&& c2.proficiencies@[i].p_type == c.proficiencies@[i].p_type
                &&& c2.proficiencies@[i].proficiency == c.proficiencies@[i].proficiency
                &&& c2.proficiencies@[i].attribute@ == c.proficiencies@[i].attribute@
            },
{
}

} // verus!
