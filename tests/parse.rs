use mario_party_tracker::declaration::{DeclError, DeclKind};
use mario_party_tracker::model::Field;
use mario_party_tracker::parser::parse_declaration;

fn field(name: &str, ty: &str) -> Field {
    Field { name: name.to_string(), ty: ty.to_string() }
}

#[test]
fn parses_record_in_declared_order() {
    let d = parse_declaration("struct Edition1 { player_name: String, score: Int }").unwrap();
    assert_eq!(d.kind, DeclKind::Record);
    assert_eq!(d.name, "Edition1");
    assert_eq!(d.members, vec![field("player_name", "String"), field("score", "Int")]);
}

#[test]
fn skips_attributes_and_visibility() {
    let text = "#[derive(Deserialize, Clone, Debug)]\n#[serde(tag = \"game\")]\npub struct MarioPartyDS {\n    pub player_name: String,\n    pub(crate) character: MarioPartyDSCharacters,\n    stars: i32,\n}";
    let d = parse_declaration(text).unwrap();
    assert_eq!(d.name, "MarioPartyDS");
    assert_eq!(
        d.members,
        vec![
            field("player_name", "String"),
            field("character", "MarioPartyDSCharacters"),
            field("stars", "i32"),
        ]
    );
}

#[test]
fn parses_union_and_unwraps_container() {
    let d = parse_declaration("pub enum Root { A(Vec<Edition1>), B(Edition2) }").unwrap();
    assert_eq!(d.kind, DeclKind::Union);
    assert_eq!(d.name, "Root");
    assert_eq!(d.members, vec![field("A", "Edition1"), field("B", "Edition2")]);
}

#[test]
fn rename_replaces_arm_name() {
    let d = parse_declaration("enum Root { #[serde(rename = \"Edition One\")] A(List<Edition1>), B(X) }")
        .unwrap();
    assert_eq!(d.members, vec![field("Edition One", "Edition1"), field("B", "X")]);
}

#[test]
fn first_rename_wins_and_applies_to_fields() {
    let d = parse_declaration(
        "struct R { #[doc = \"x\"] #[serde(rename = \"Player\")] #[sqlx(rename = \"P\")] player: String }",
    )
    .unwrap();
    assert_eq!(d.members, vec![field("Player", "String")]);
}

#[test]
fn empty_body_and_trailing_comma() {
    let d = parse_declaration("struct Empty {}").unwrap();
    assert!(d.members.is_empty());
    let d = parse_declaration("enum U { A(X), }").unwrap();
    assert_eq!(d.members, vec![field("A", "X")]);
}

#[test]
fn two_type_arguments_are_refused() {
    assert_eq!(
        parse_declaration("enum U { A(HashMap<K, V>) }"),
        Err(DeclError::UnsupportedType)
    );
}

#[test]
fn zero_type_arguments_are_refused() {
    assert_eq!(parse_declaration("struct R { a: Vec<> }"), Err(DeclError::UnsupportedType));
}

#[test]
fn non_path_type_is_refused() {
    assert_eq!(parse_declaration("struct R { a: &str }"), Err(DeclError::UnsupportedType));
    assert_eq!(parse_declaration("enum U { A(Vec<Vec<X>>) }"), Err(DeclError::UnsupportedType));
}

#[test]
fn malformed_declarations_are_refused() {
    assert_eq!(parse_declaration("struct R ( a: X )"), Err(DeclError::Malformed));
    assert_eq!(parse_declaration("struct R { a: X"), Err(DeclError::Malformed));
    assert_eq!(parse_declaration("enum U { A, B }"), Err(DeclError::Malformed));
    assert_eq!(parse_declaration("union U { A(X) }"), Err(DeclError::Malformed));
    assert_eq!(parse_declaration("struct R { a: X } extra"), Err(DeclError::Malformed));
    assert_eq!(parse_declaration("enum U { #[serde(rename = \"open) A(X) }"), Err(DeclError::Malformed));
    assert_eq!(parse_declaration(""), Err(DeclError::Malformed));
}
