use mario_party_tracker::editions::{get_input_schema, MarioParty10, MarioPartyDS, MarioPartyData};
use mario_party_tracker::generator::Registry;
use mario_party_tracker::schema::flatten_root;
use mario_party_tracker::model::{Field, ListFields, ObjectData};

fn field(name: &str, ty: &str) -> Field {
    Field { name: name.to_string(), ty: ty.to_string() }
}

#[test]
fn edition_record_lists_its_fields() {
    assert_eq!(
        MarioParty10::list_fields(),
        ObjectData::FieldList(vec![
            field("player_name", "String"),
            field("character", "MarioParty10Characters"),
            field("mini_stars", "i32"),
        ])
    );
}

#[test]
fn root_union_lists_every_edition() {
    match MarioPartyData::list_fields() {
        ObjectData::EnumData(e) => {
            assert_eq!(e.name, "MarioPartyData");
            assert_eq!(e.variants.len(), 17);
            assert_eq!(e.variants[0].name, "Mario Party");
            assert_eq!(e.variants[0].ty, "MarioParty");
            assert_eq!(e.variants[11].name, "Mario Party: Island Tour");
            assert_eq!(e.variants[11].ty, "MarioPartyIslandTour");
            assert_eq!(e.variants[9].nested, Some(MarioParty10::list_fields()));
        }
        ObjectData::FieldList(_) => panic!("the root must be a tagged union"),
    }
}

#[test]
fn input_schema_has_one_entry_per_edition() {
    let schema = get_input_schema();
    let names: Vec<&str> = schema.iter().map(|e| e.0.as_str()).collect();
    assert_eq!(
        names,
        vec![
            "Mario Party",
            "Mario Party 2",
            "Mario Party 3",
            "Mario Party 4",
            "Mario Party 5",
            "Mario Party 6",
            "Mario Party 7",
            "Mario Party 8",
            "Mario Party 9",
            "Mario Party 10",
            "Mario Party DS",
            "Mario Party: Island Tour",
            "Mario Party: Star Rush",
            "Mario Party: The Top 100",
            "Super Mario Party",
            "Mario Party Superstars",
            "Mario Party Jamboree",
        ]
    );
    assert_eq!(
        schema[13].1,
        vec![
            field("player_name", "String"),
            field("character", "MarioPartyTop100Characters"),
            field("stars", "i32"),
            field("coins", "i32"),
        ]
    );
    assert_eq!(schema[16].1.len(), 21);
}

#[test]
fn input_schema_is_the_same_every_time() {
    assert_eq!(get_input_schema(), get_input_schema());
}

#[test]
fn parsed_declaration_matches_edition_metadata() {
    let mut reg = Registry::new();
    reg.register(
        "#[derive(Deserialize, ListFields, Clone, Debug)]
        pub struct MarioParty10 {
            pub player_name: String,
            pub character: MarioParty10Characters,
            pub mini_stars: i32
        }",
    )
    .unwrap();
    reg.register(
        "#[derive(Deserialize, ListFields, Clone, Debug)]
        pub struct MarioPartyDS {
            pub player_name: String,
            pub character: MarioPartyDSCharacters,
            pub stars: i32,
            pub coins: i32
        }",
    )
    .unwrap();
    reg.register(
        "#[serde(tag = \"game\", content = \"player_data\")]
        pub enum MarioPartyData {
            #[serde(rename = \"Mario Party 10\")]
            MarioParty10(Vec<MarioParty10>),
            #[serde(rename = \"Mario Party DS\")]
            MarioPartyDS(Vec<MarioPartyDS>)
        }",
    )
    .unwrap();
    assert_eq!(reg.describe("MarioParty10"), Some(MarioParty10::list_fields()));
    assert_eq!(reg.describe("MarioPartyDS"), Some(MarioPartyDS::list_fields()));
    let flat = flatten_root(&reg.describe("MarioPartyData").unwrap());
    let schema = get_input_schema();
    assert_eq!(flat, vec![schema[9].clone(), schema[10].clone()]);
}
