use mario_party_tracker::declaration::DeclError;
use mario_party_tracker::generator::Registry;
use mario_party_tracker::model::{EnumData, Field, ObjectData, Variant};
use mario_party_tracker::schema::flatten_root;

fn field(name: &str, ty: &str) -> Field {
    Field { name: name.to_string(), ty: ty.to_string() }
}

fn edition_fields() -> Vec<Field> {
    vec![field("player_name", "String"), field("score", "Int")]
}

fn registry(root: &str) -> Registry {
    let mut reg = Registry::new();
    reg.register("struct Edition1 { player_name: String, score: Int }").unwrap();
    reg.register(root).unwrap();
    reg
}

#[test]
fn record_describes_its_fields() {
    let reg = registry("enum Root { A(List<Edition1>) }");
    assert_eq!(reg.describe("Edition1"), Some(ObjectData::FieldList(edition_fields())));
}

#[test]
fn root_union_scenario() {
    let reg = registry("enum Root { A(List<Edition1>) }");
    let expected = ObjectData::EnumData(EnumData {
        name: "Root".to_string(),
        variants: vec![Variant {
            name: "A".to_string(),
            ty: "Edition1".to_string(),
            nested: Some(ObjectData::FieldList(edition_fields())),
        }],
    });
    let root = reg.describe("Root").unwrap();
    assert_eq!(root, expected);
    assert_eq!(flatten_root(&root), vec![("A".to_string(), edition_fields())]);
}

#[test]
fn renamed_arm_scenario() {
    let reg = registry("enum Root { #[serde(rename = \"Edition One\")] A(List<Edition1>) }");
    let root = reg.describe("Root").unwrap();
    assert_eq!(flatten_root(&root), vec![("Edition One".to_string(), edition_fields())]);
}

#[test]
fn duplicate_arm_names_fail_registration() {
    let mut reg = Registry::new();
    let r = reg.register(
        "enum Root { #[serde(rename = \"B\")] A(Vec<Edition1>), B(Vec<Edition1>) }",
    );
    assert_eq!(r, Err(DeclError::DuplicateName));
    assert_eq!(reg.describe("Root"), None);
}

#[test]
fn duplicate_field_names_fail_registration() {
    let mut reg = Registry::new();
    assert_eq!(reg.register("struct R { a: X, a: Y }"), Err(DeclError::DuplicateName));
}

#[test]
fn second_declaration_of_a_name_is_refused() {
    let mut reg = registry("enum Root { A(List<Edition1>) }");
    assert_eq!(reg.register("struct Edition1 { other: X }"), Err(DeclError::AlreadyRegistered));
    assert_eq!(reg.describe("Edition1"), Some(ObjectData::FieldList(edition_fields())));
}

#[test]
fn malformed_text_fails_registration() {
    let mut reg = Registry::new();
    assert_eq!(reg.register("struct R { a: X, b: Map<K, V> }"), Err(DeclError::UnsupportedType));
    assert_eq!(reg.register("struct"), Err(DeclError::Malformed));
}

#[test]
fn unknown_type_has_no_description() {
    let reg = registry("enum Root { A(List<Edition1>) }");
    assert_eq!(reg.describe("Missing"), None);
}

#[test]
fn all_arms_participating_give_one_entry_each() {
    let mut reg = Registry::new();
    reg.register("struct E1 { a: i32 }").unwrap();
    reg.register("struct E2 { b: String, c: i32 }").unwrap();
    reg.register("struct E3 { }").unwrap();
    reg.register("enum Root { One(Vec<E1>), Two(Vec<E2>), Three(E3) }").unwrap();
    let flat = flatten_root(&reg.describe("Root").unwrap());
    assert_eq!(
        flat,
        vec![
            ("One".to_string(), vec![field("a", "i32")]),
            ("Two".to_string(), vec![field("b", "String"), field("c", "i32")]),
            ("Three".to_string(), vec![]),
        ]
    );
}

#[test]
fn non_participating_arm_is_omitted() {
    let mut reg = Registry::new();
    reg.register("struct E1 { a: i32 }").unwrap();
    reg.register("struct E3 { c: i32 }").unwrap();
    reg.register("enum Root { One(Vec<E1>), Two(Vec<Unknown>), Three(E3) }").unwrap();
    let root = reg.describe("Root").unwrap();
    match &root {
        ObjectData::EnumData(e) => {
            assert_eq!(e.variants.len(), 3);
            assert_eq!(e.variants[1].name, "Two");
            assert_eq!(e.variants[1].ty, "Unknown");
            assert_eq!(e.variants[1].nested, None);
        }
        ObjectData::FieldList(_) => panic!("root must be a tagged union"),
    }
    let flat = flatten_root(&root);
    assert_eq!(
        flat,
        vec![
            ("One".to_string(), vec![field("a", "i32")]),
            ("Three".to_string(), vec![field("c", "i32")]),
        ]
    );
}

#[test]
fn union_arm_nests_one_level_and_is_skipped() {
    let mut reg = Registry::new();
    reg.register("struct E1 { a: i32 }").unwrap();
    reg.register("enum Inner { X(E1) }").unwrap();
    reg.register("enum Root { Nested(Inner), Plain(E1) }").unwrap();
    let root = reg.describe("Root").unwrap();
    let inner_shallow = ObjectData::EnumData(EnumData {
        name: "Inner".to_string(),
        variants: vec![Variant { name: "X".to_string(), ty: "E1".to_string(), nested: None }],
    });
    match &root {
        ObjectData::EnumData(e) => assert_eq!(e.variants[0].nested, Some(inner_shallow)),
        ObjectData::FieldList(_) => panic!("root must be a tagged union"),
    }
    assert_eq!(flatten_root(&root), vec![("Plain".to_string(), vec![field("a", "i32")])]);
}

#[test]
fn describing_twice_gives_identical_results() {
    let reg = registry("enum Root { #[serde(rename = \"Edition One\")] A(List<Edition1>), B(Other) }");
    let first = reg.describe("Root").unwrap();
    let second = reg.describe("Root").unwrap();
    assert_eq!(first, second);
    assert_eq!(flatten_root(&first), flatten_root(&second));
}

#[test]
fn flatten_keeps_last_binding_of_a_repeated_name() {
    let data = ObjectData::EnumData(EnumData {
        name: "Root".to_string(),
        variants: vec![
            Variant {
                name: "A".to_string(),
                ty: "X".to_string(),
                nested: Some(ObjectData::FieldList(vec![field("x", "i32")])),
            },
            Variant {
                name: "B".to_string(),
                ty: "Y".to_string(),
                nested: Some(ObjectData::FieldList(vec![])),
            },
            Variant {
                name: "A".to_string(),
                ty: "Z".to_string(),
                nested: Some(ObjectData::FieldList(vec![field("z", "u8")])),
            },
        ],
    });
    assert_eq!(
        flatten_root(&data),
        vec![("A".to_string(), vec![field("z", "u8")]), ("B".to_string(), vec![])]
    );
}
