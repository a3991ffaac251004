use char_sheet::character::Character;
use char_sheet::proficiency::ProficiencyLevel;
use char_sheet::tactics::Tactic;

#[test]
fn zero_character_matches_the_fixed_start() {
    let c = Character::zero();
    assert_eq!(c.name, "");
    assert_eq!(c.level, 1);
    assert_eq!(c.background, "Squire");
    assert_eq!(c.class, "Commander");
    assert_eq!(c.hp_info.get_max_hp(), 0);
    assert_eq!(c.shield_info.max_hp, 20);
    assert_eq!(c.shield_info.current_hp, 18);
    assert_eq!(c.shield_info.hardness, 5);
    assert!(!c.shield_info.raised);
    assert_eq!(c.proficiencies.len(), 23);
    assert!(c.feats.is_empty());
    assert!(c.tactics.is_empty());
    assert!(c.gear_list.is_empty());
}

#[test]
fn prof_lookup_finds_the_first_match() {
    let c = Character::zero();
    assert_eq!(c.get_prof_indx_from_name("Fortitude"), Some(2));
    assert_eq!(c.get_prof_indx_from_name("Medium"), Some(22));
    assert_eq!(c.get_prof_indx_from_name("Juggling"), None);
    let stat = c.get_prof_obj_from_name("Stealth").unwrap();
    assert_eq!(stat.attribute, "dex");
    assert!(c.get_prof_obj_from_name("stealth").is_none());
}

#[test]
fn ac_formula_with_trained_medium_armor() {
    let mut c = Character::zero();
    c.level = 5;
    c.attributes.dexterity = 2;
    assert!(c.set_proficiency_rank("Medium", ProficiencyLevel::Trained));
    // 10 + min(dex, 1) + (5 + 2) + 4
    assert_eq!(c.calculate_ac(), 22);
    c.shield_info.raised = true;
    assert_eq!(c.calculate_ac(), 24);
}

#[test]
fn ac_dex_contribution_is_capped_at_one() {
    let mut c = Character::zero();
    c.attributes.dexterity = 4;
    // 10 + 1 + 0 (untrained) + 4
    assert_eq!(c.calculate_ac(), 15);
    c.attributes.dexterity = -2;
    assert_eq!(c.calculate_ac(), 12);
}

#[test]
fn rank_set_by_name_touches_one_line() {
    let mut c = Character::zero();
    assert!(c.set_proficiency_rank("Stealth", ProficiencyLevel::Master));
    let stealth = c.get_prof_obj_from_name("Stealth").unwrap();
    assert_eq!(stealth.proficiency, ProficiencyLevel::Master);
    assert_eq!(stealth.attribute, "dex");
    let arcana = c.get_prof_obj_from_name("Arcana").unwrap();
    assert_eq!(arcana.proficiency, ProficiencyLevel::Untrained);
    assert!(!c.set_proficiency_rank("Juggling", ProficiencyLevel::Master));
}

#[test]
fn level_change_recomputes_both_pools() {
    let mut c = Character::zero();
    c.hp_info.ancestry_hp = 8;
    c.hp_info.class_hp = 10;
    c.horse_hp_info.ancestry_hp = 6;
    c.horse_hp_info.class_hp = 8;
    c.attributes.constitution = 3;
    c.change_level(4);
    assert_eq!(c.level, 5);
    assert_eq!(c.hp_info.max_hp, 8 + (10 + 3) * 5);
    // the mount always contributes a fixed constitution of 2
    assert_eq!(c.horse_hp_info.max_hp, 6 + (8 + 2) * 5);
    // a max change never touches the current totals
    assert_eq!(c.hp_info.current_hp, 0);
}

#[test]
fn attribute_update_recomputes_the_rider_pool() {
    let mut c = Character::zero();
    c.hp_info.ancestry_hp = 8;
    c.hp_info.class_hp = 10;
    c.horse_hp_info.ancestry_hp = 6;
    c.update_attribute("con", 2);
    assert_eq!(c.attributes.constitution, 2);
    assert_eq!(c.hp_info.max_hp, 8 + (10 + 2) * 1);
    // the mount's pool is not touched by an attribute edit
    assert_eq!(c.horse_hp_info.max_hp, 0);
    c.update_attribute("con", -1);
    assert_eq!(c.attributes.constitution, 1);
    assert_eq!(c.hp_info.max_hp, 8 + (10 + 1) * 1);
}

#[test]
fn flags_default_to_off() {
    let mut c = Character::zero();
    assert!(!c.check_flag("incred_init"));
    c.flags.push((String::from("incred_init"), true));
    assert!(c.check_flag("incred_init"));
    c.flags.push((String::from("night_owl"), false));
    assert!(!c.check_flag("night_owl"));
}

#[test]
fn first_entry_wins_among_equal_keys() {
    let mut c = Character::zero();
    c.flags.push((String::from("incred_init"), true));
    c.flags.push((String::from("incred_init"), false));
    assert!(c.check_flag("incred_init"));
    c.abp_data.bonuses.push((String::from("Stealth"), 2));
    c.abp_data.bonuses.push((String::from("Stealth"), 5));
    assert_eq!(c.abp_data.bonus_for("Stealth"), 2);
}

fn tactic(name: &str, selected: bool) -> Tactic {
    Tactic {
        name: String::from(name),
        actions: 1,
        selected,
        traits: vec![],
        description: String::new(),
    }
}

#[test]
fn tactic_selection_count_and_toggle() {
    let mut c = Character::zero();
    c.tactics = vec![tactic("Strike Hard", true), tactic("Hold the Line", false)];
    assert_eq!(c.count_selected_tactics(), 1);
    assert!(c.toggle_tactic("Hold the Line"));
    assert_eq!(c.count_selected_tactics(), 2);
    assert!(c.toggle_tactic("Strike Hard"));
    assert_eq!(c.count_selected_tactics(), 1);
    assert!(!c.toggle_tactic("Retreat"));
    assert_eq!(c.count_selected_tactics(), 1);
}

#[test]
fn set_text_overwrites_the_notes() {
    let mut c = Character::zero();
    c.set_text(String::from("met the duke"));
    assert_eq!(c.text, "met the duke");
}
