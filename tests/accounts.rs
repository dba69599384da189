use mario_party_tracker::accounts::User;

#[test]
fn user_exposes_id_and_hash_bytes() {
    let u = User::new(7, "ann".to_string(), "h4sh".to_string());
    assert_eq!(u.id(), 7);
    assert_eq!(u.username, "ann");
    assert_eq!(u.session_auth_hash(), b"h4sh");
}
