use char_sheet::attributes::Attributes;
use char_sheet::character::Character;
use char_sheet::errors::CharError;
use char_sheet::proficiency::ProficiencyLevel;
use char_sheet::stats::{CalculatedStat, ProficiencyType};

#[test]
fn save_names_map_to_their_attributes() {
    let table = [("Fortitude", "con"), ("Reflex", "dex"), ("Will", "wis")];
    for (name, attr) in table {
        let got =
            Character::get_attribute_and_lore_flag_from_skill_name(name, &ProficiencyType::Save);
        assert_eq!(got, Ok(String::from(attr)));
    }
}

#[test]
fn skill_names_map_to_their_attributes() {
    let table = [
        ("Acrobatics", "dex"),
        ("Arcana", "int"),
        ("Athletics", "str"),
        ("Crafting", "int"),
        ("Deception", "cha"),
        ("Diplomacy", "cha"),
        ("Intimidation", "cha"),
        ("Medicine", "wis"),
        ("Nature", "wis"),
        ("Occultism", "int"),
        ("Performance", "cha"),
        ("Religion", "wis"),
        ("Society", "int"),
        ("Stealth", "dex"),
        ("Survival", "wis"),
        ("Thievery", "dex"),
    ];
    for (name, attr) in table {
        let got =
            Character::get_attribute_and_lore_flag_from_skill_name(name, &ProficiencyType::Skill);
        assert_eq!(got, Ok(String::from(attr)));
    }
}

#[test]
fn fixed_categories_ignore_the_name() {
    let table = [
        (ProficiencyType::Lore, "int"),
        (ProficiencyType::Armor, "dex"),
        (ProficiencyType::Weapon, "str"),
        (ProficiencyType::Spell, "key"),
        (ProficiencyType::ClassDC, "key"),
        (ProficiencyType::Perception, "wis"),
    ];
    for (p_type, attr) in table {
        let got = Character::get_attribute_and_lore_flag_from_skill_name("Anything", &p_type);
        assert_eq!(got, Ok(String::from(attr)));
    }
}

#[test]
fn unknown_save_and_skill_names_are_fatal() {
    assert_eq!(
        Character::get_attribute_and_lore_flag_from_skill_name("Juggling", &ProficiencyType::Save),
        Err(CharError::UnknownSave)
    );
    assert_eq!(
        Character::get_attribute_and_lore_flag_from_skill_name("Juggling", &ProficiencyType::Skill),
        Err(CharError::UnknownSkill)
    );
    // the vocabulary is case-sensitive
    assert_eq!(
        Character::get_attribute_and_lore_flag_from_skill_name("stealth", &ProficiencyType::Skill),
        Err(CharError::UnknownSkill)
    );
}

#[test]
fn skill_stat_outside_the_vocabulary_is_rejected() {
    let bad = CalculatedStat::build(
        ProficiencyType::Skill,
        String::from("Juggling"),
        ProficiencyLevel::Trained,
    );
    assert_eq!(bad, Err(CharError::UnknownSkill));
    let lore = CalculatedStat::build(
        ProficiencyType::Lore,
        String::from("Juggling"),
        ProficiencyLevel::Trained,
    )
    .unwrap();
    assert_eq!(lore.attribute, "int");
    assert_eq!(lore.name, "Juggling");
}

#[test]
fn lore_names_are_freeform() {
    for name in ["", "Warfare Lore", "Kriegsführung"] {
        let stat = CalculatedStat::build(
            ProficiencyType::Lore,
            String::from(name),
            ProficiencyLevel::Untrained,
        )
        .unwrap();
        assert_eq!(stat.attribute, "int");
    }
}

#[test]
fn build_derives_the_governing_attribute() {
    let stat = CalculatedStat::build(
        ProficiencyType::Skill,
        String::from("Stealth"),
        ProficiencyLevel::Expert,
    )
    .unwrap();
    assert_eq!(stat.attribute, "dex");
    assert_eq!(stat.p_type, ProficiencyType::Skill);
    assert_eq!(stat.proficiency, ProficiencyLevel::Expert);
}

fn character_with(stat: CalculatedStat) -> Character {
    let mut c = Character::zero();
    c.proficiencies = vec![stat];
    c
}

#[test]
fn calculate_stat_adds_attribute_and_rank_bonus() {
    let stat = CalculatedStat::build(
        ProficiencyType::Save,
        String::from("Fortitude"),
        ProficiencyLevel::Trained,
    )
    .unwrap();
    let mut c = character_with(stat);
    c.level = 2;
    c.attributes.constitution = 3;
    let line = c.get_prof_obj_from_name("Fortitude").unwrap();
    // 3 (con) + 2 (level) + 2 (trained) + 0 (no extra bonus)
    assert_eq!(line.calculate_stat(&c), 7);
}

#[test]
fn calculate_stat_reads_the_override_and_bonus_tables() {
    let stat = CalculatedStat::build(
        ProficiencyType::Skill,
        String::from("Athletics"),
        ProficiencyLevel::Untrained,
    )
    .unwrap();
    let mut c = character_with(stat);
    c.attributes.strength = 4;
    c.attributes.charisma = 1;
    let line = c.get_prof_obj_from_name("Athletics").unwrap();
    assert_eq!(line.calculate_stat(&c), 4);
    // a feat redirects the skill to charisma
    c.override_prof.push((String::from("Athletics"), String::from("cha")));
    assert_eq!(line.calculate_stat(&c), 1);
    // an arbitrary numeric bonus keyed by the stat's name is added on top
    c.abp_data.bonuses.push((String::from("Athletics"), 2));
    assert_eq!(line.calculate_stat(&c), 3);
}

#[test]
fn default_array_holds_the_fixed_stat_block() {
    let profs = CalculatedStat::default_array();
    assert_eq!(profs.len(), 23);
    assert!(profs.iter().all(|p| p.proficiency == ProficiencyLevel::Untrained));
    assert_eq!(profs[0].name, "Class DC");
    assert_eq!(profs[0].attribute, "key");
    assert_eq!(profs[22].name, "Medium");
    assert_eq!(profs[22].p_type, ProficiencyType::Armor);
    assert_eq!(profs[22].attribute, "dex");
}

#[test]
fn attributes_get_set_by_id() {
    let mut a = Attributes::zero();
    assert_eq!(a.get_stat_val("dex"), Some(0));
    a.set_stat("dex", 4);
    assert_eq!(a.get_stat_val("dex"), Some(4));
    assert_eq!(a.get_stat_val("luck"), None);
    // case-sensitive exact matches only
    assert_eq!(a.get_stat_val("DEX"), None);
    // setting an unknown id changes nothing
    a.set_stat("luck", 9);
    assert_eq!(a.as_number_vec(), vec![0, 4, 0, 0, 0, 0]);
}

#[test]
fn attribute_list_round_trips_positionally() {
    let values = vec![1, 2, 3, 4, 5, 6];
    let a = Attributes::from_number_vec(&values).unwrap();
    assert_eq!(a.strength, 1);
    assert_eq!(a.charisma, 6);
    assert_eq!(a.as_number_vec(), values);
    assert!(Attributes::from_number_vec(&vec![1, 2, 3]).is_none());
    assert!(Attributes::from_number_vec(&vec![1, 2, 3, 4, 5, 6, 7]).is_none());
}
