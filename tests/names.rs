use mario_party_tracker::names::{character_type_label, fix_enum_name, group_characters};

#[test]
fn splits_words_and_numbers() {
    assert_eq!(fix_enum_name("MarioParty2".to_string()), "Mario Party 2");
    assert_eq!(fix_enum_name("MarioParty10".to_string()), "Mario Party 10");
    assert_eq!(fix_enum_name("MarioPartyDS".to_string()), "Mario Party DS");
    assert_eq!(fix_enum_name("MarioParty:TheTop100".to_string()), "Mario Party: The Top 100");
    assert_eq!(fix_enum_name("".to_string()), "");
    assert_eq!(fix_enum_name("mario".to_string()), "mario");
}

#[test]
fn labels_character_types() {
    assert_eq!(character_type_label("SuperMarioPartyCharacters"), Some("Super Mario Party".to_string()));
    assert_eq!(character_type_label("MarioParty:IslandTourCharacters"), Some("Mario Party: Island Tour".to_string()));
    assert_eq!(character_type_label("Characters"), Some("".to_string()));
    assert_eq!(character_type_label("Players"), None);
}

#[test]
fn groups_characters_by_edition() {
    let rows = vec![
        ("MarioPartyCharacters".to_string(), "Mario".to_string()),
        ("MarioParty2Characters".to_string(), "Luigi".to_string()),
        ("MarioPartyCharacters".to_string(), "Donkey Kong".to_string()),
        ("Other".to_string(), "Nobody".to_string()),
    ];
    assert_eq!(
        group_characters(rows),
        vec![
            ("Mario Party".to_string(), vec!["Mario".to_string(), "Donkey Kong".to_string()]),
            ("Mario Party 2".to_string(), vec!["Luigi".to_string()]),
        ]
    );
}
