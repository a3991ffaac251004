use char_sheet::auto_bonus_prog::AbpData;
use char_sheet::character::{Character, SimpleCharacter};
use char_sheet::conditions::Condition;
use char_sheet::errors::CharError;
use char_sheet::gear::{Gear, GearType};
use char_sheet::hp::{HpInfo, ShieldInfo};
use char_sheet::proficiency::ProficiencyLevel;
use char_sheet::stats::ProficiencyType;
use char_sheet::tactics::Tactic;

fn sample_record() -> SimpleCharacter {
    SimpleCharacter {
        name: String::from("Ketra"),
        level: 5,
        hp_info: HpInfo { ancestry_hp: 8, class_hp: 10, max_hp: 73, current_hp: 60, temp_hp: 4 },
        attributes: vec![1, 2, 3, 0, 1, -1],
        text: String::from("notes"),
        background: String::from("Squire"),
        class: String::from("Commander"),
        tactics: vec![Tactic {
            name: String::from("Strike Hard"),
            actions: 2,
            selected: true,
            traits: vec![String::from("visual")],
            description: String::from("hit it very hard"),
        }],
        proficiencies: vec![
            (String::from("Fortitude"), ProficiencyType::Save, ProficiencyLevel::Expert),
            (String::from("Stealth"), ProficiencyType::Skill, ProficiencyLevel::Trained),
            (String::from("Warfare Lore"), ProficiencyType::Lore, ProficiencyLevel::Trained),
            (String::from("Medium"), ProficiencyType::Armor, ProficiencyLevel::Trained),
            (String::from("Class DC"), ProficiencyType::ClassDC, ProficiencyLevel::Trained),
        ],
        feats: vec![String::from("Shield Block")],
        conditions: vec![Condition {
            name: String::from("Frightened"),
            description: String::from("shaken"),
        }],
        gear_list: vec![Gear {
            name: String::from("Longsword"),
            g_type: GearType::Weapon,
            damage: Some(8),
            proficiency: Some(String::from("Martial")),
            traits: vec![String::from("versatile")],
            description: String::from("a sword"),
        }],
        shield_info: ShieldInfo { max_hp: 20, current_hp: 18, hardness: 5, raised: false },
        horse_hp_info: HpInfo { ancestry_hp: 6, class_hp: 8, max_hp: 56, current_hp: 56, temp_hp: 0 },
        override_prof: vec![(String::from("Class DC"), String::from("cha"))],
        abp_data: AbpData { bonuses: vec![(String::from("Stealth"), 1)] },
        flags: vec![(String::from("incred_init"), true)],
    }
}

#[test]
fn load_derives_the_governing_attributes() {
    let c = Character::from_simple(sample_record()).unwrap();
    assert_eq!(c.name, "Ketra");
    assert_eq!(c.level, 5);
    assert_eq!(c.attributes.strength, 1);
    assert_eq!(c.attributes.charisma, -1);
    assert_eq!(c.proficiencies.len(), 5);
    assert_eq!(c.proficiencies[0].attribute, "con");
    assert_eq!(c.proficiencies[1].attribute, "dex");
    assert_eq!(c.proficiencies[2].attribute, "int");
    assert_eq!(c.proficiencies[3].attribute, "dex");
    assert_eq!(c.proficiencies[4].attribute, "key");
    assert_eq!(c.proficiencies[1].proficiency, ProficiencyLevel::Trained);
    assert_eq!(c.tactics, sample_record().tactics);
    assert_eq!(c.gear_list, sample_record().gear_list);
}

#[test]
fn save_after_load_reproduces_the_record() {
    let original = sample_record();
    let loaded = Character::from_simple(original.clone()).unwrap();
    let saved = loaded.to_simple();
    assert_eq!(saved, original);
}

#[test]
fn load_save_load_is_stable() {
    let first = Character::from_simple(sample_record()).unwrap();
    let second = Character::from_simple(first.clone().to_simple()).unwrap();
    assert_eq!(second, first);
}

#[test]
fn wrong_attribute_count_is_rejected() {
    let mut record = sample_record();
    record.attributes = vec![1, 2, 3];
    assert_eq!(Character::from_simple(record), Err(CharError::WrongAttributeCount));
}

#[test]
fn unknown_names_in_a_record_are_rejected() {
    let mut record = sample_record();
    record.proficiencies.push((
        String::from("Juggling"),
        ProficiencyType::Skill,
        ProficiencyLevel::Trained,
    ));
    assert_eq!(Character::from_simple(record), Err(CharError::UnknownSkill));
    let mut record = sample_record();
    record.proficiencies.insert(
        0,
        (String::from("Dodge"), ProficiencyType::Save, ProficiencyLevel::Trained),
    );
    assert_eq!(Character::from_simple(record), Err(CharError::UnknownSave));
}

#[test]
fn zero_character_round_trips() {
    let c = Character::zero();
    let again = Character::from_simple(c.clone().to_simple()).unwrap();
    assert_eq!(again, c);
}

#[test]
fn calculated_stat_after_load_uses_the_override() {
    let c = Character::from_simple(sample_record()).unwrap();
    // "Class DC" is governed by the "key" placeholder and must be redirected;
    // the override table maps it to charisma: -1 (cha) + 5 + 2 (trained)
    let class_dc = c.get_prof_obj_from_name("Class DC").unwrap();
    assert_eq!(class_dc.calculate_stat(&c), 6);
    // "Stealth" picks up the arbitrary +1 bonus: 2 (dex) + 7 (trained at 5) + 1
    let stealth = c.get_prof_obj_from_name("Stealth").unwrap();
    assert_eq!(stealth.calculate_stat(&c), 10);
}
