use char_sheet::errors::CharError;
use char_sheet::proficiency::ProficiencyLevel;

const ALL_RANKS: [ProficiencyLevel; 5] = [
    ProficiencyLevel::Untrained,
    ProficiencyLevel::Trained,
    ProficiencyLevel::Expert,
    ProficiencyLevel::Master,
    ProficiencyLevel::Legendary,
];

#[test]
fn untrained_bonus_is_zero_at_every_level() {
    for level in [-3, 0, 1, 5, 20, 1000] {
        assert_eq!(ProficiencyLevel::Untrained.get_bonus(level), 0);
    }
}

#[test]
fn trained_bonus_scales_one_to_one_with_level() {
    assert_eq!(ProficiencyLevel::Trained.get_bonus(1), 3);
    assert_eq!(ProficiencyLevel::Trained.get_bonus(5), 7);
    assert_eq!(ProficiencyLevel::Expert.get_bonus(5), 9);
    assert_eq!(ProficiencyLevel::Master.get_bonus(5), 11);
    assert_eq!(ProficiencyLevel::Legendary.get_bonus(5), 13);
    assert_eq!(ProficiencyLevel::Legendary.get_bonus(20), 28);
}

#[test]
fn bonus_is_strictly_increasing_in_rank_at_fixed_level() {
    for level in [0, 1, 7, 20] {
        for pair in ALL_RANKS.windows(2) {
            assert!(pair[0].get_bonus(level) < pair[1].get_bonus(level));
        }
    }
}

#[test]
fn labels_round_trip_through_parsing() {
    for rank in ALL_RANKS {
        let label = rank.label();
        assert_eq!(ProficiencyLevel::from_label(&label), Ok(rank));
    }
}

#[test]
fn canonical_labels_are_exact() {
    assert_eq!(ProficiencyLevel::Untrained.label(), "Untrained");
    assert_eq!(ProficiencyLevel::Trained.label(), "Trained");
    assert_eq!(ProficiencyLevel::Expert.label(), "Expert");
    assert_eq!(ProficiencyLevel::Master.label(), "Master");
    assert_eq!(ProficiencyLevel::Legendary.label(), "Legendary");
}

#[test]
fn unknown_label_is_a_fatal_parse_error() {
    assert_eq!(
        ProficiencyLevel::from_label("Grandmaster"),
        Err(CharError::UnknownProficiencyLabel)
    );
    assert_eq!(
        ProficiencyLevel::from_label("untrained"),
        Err(CharError::UnknownProficiencyLabel)
    );
    assert_eq!(ProficiencyLevel::from_label(""), Err(CharError::UnknownProficiencyLabel));
}
