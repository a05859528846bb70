use bbs_core::profile::{bearer, read_i32, Profile};

const ANSWER: &str = r#"{
  "sub": 42, "username": "Alice", "editcount": 1234, "confirmed_email": true,
  "blocked": false, "registered": "20200101000000",
  "groups": ["*", "user", "boardmanager"], "rights": ["read", "edit"],
  "grants": ["basic"], "realname": "", "email": "alice@example.org"
}"#;

fn alice() -> Profile {
    Profile {
        id: 42,
        username: "Alice".to_owned(),
        confirmed_email: true,
        blocked: false,
        groups: vec!["*".to_owned(), "user".to_owned(), "boardmanager".to_owned()],
        rights: vec!["read".to_owned(), "edit".to_owned()],
        email: "alice@example.org".to_owned(),
    }
}

#[test]
fn profile_is_read_from_the_answer() {
    assert_eq!(Profile::from_response(ANSWER), Some(alice()));
}

#[test]
fn every_member_of_the_answer_is_needed() {
    for name in [
        "sub", "username", "editcount", "confirmed_email", "blocked", "registered", "groups",
        "rights", "grants", "realname", "email",
    ] {
        let broken = ANSWER.replace(&format!("\"{}\"", name), "\"other\"");
        assert_eq!(Profile::from_response(&broken), None, "without {}", name);
    }
}

#[test]
fn members_of_wrong_kind_are_refused() {
    for (from, to) in [
        ("\"sub\": 42", "\"sub\": \"42\""),
        ("\"sub\": 42", "\"sub\": 42.5"),
        ("\"sub\": 42", "\"sub\": 2147483648"),
        ("\"editcount\": 1234", "\"editcount\": null"),
        ("\"confirmed_email\": true", "\"confirmed_email\": 1"),
        ("\"blocked\": false", "\"blocked\": \"false\""),
        ("[\"*\", \"user\", \"boardmanager\"]", "\"boardmanager\""),
        ("[\"read\", \"edit\"]", "[\"read\", 5]"),
        ("\"realname\": \"\"", "\"realname\": null"),
    ] {
        assert!(ANSWER.contains(from));
        assert_eq!(Profile::from_response(&ANSWER.replace(from, to)), None, "{}", to);
    }
    assert_eq!(Profile::from_response(""), None);
    assert_eq!(Profile::from_response("[]"), None);
    assert_eq!(Profile::from_response("{}"), None);
    assert_eq!(Profile::from_response("not json"), None);
}

#[test]
fn negative_user_number_is_read() {
    let answer = ANSWER.replace("\"sub\": 42", "\"sub\": -2147483648");
    assert_eq!(Profile::from_response(&answer), Some(Profile { id: i32::MIN, ..alice() }));
    assert_eq!(read_i32(r#"{"n": 17}"#, "n"), Some(17));
    assert_eq!(read_i32(r#"{"n": 17}"#, "m"), None);
    assert_eq!(read_i32(r#"{"n": 1e2}"#, "n"), None);
}

#[test]
fn board_managers_are_admins() {
    assert!(alice().is_admin());
    let mut user = alice();
    user.groups = vec!["*".to_owned(), "user".to_owned()];
    assert!(!user.is_admin());
    user.groups = vec![];
    assert!(!user.is_admin());
    user.groups = vec!["BoardManager".to_owned(), "boardmanagers".to_owned(), "sysop".to_owned()];
    assert!(!user.is_admin());
    user.groups = vec!["boardmanager".to_owned()];
    assert!(user.is_admin());
    user.rights = vec!["boardmanager".to_owned()];
    user.groups = vec![];
    assert!(!user.is_admin());
}

#[test]
fn bearer_header_presents_the_token() {
    assert_eq!(bearer("abc.def.ghi"), "Bearer abc.def.ghi");
    assert_eq!(bearer(""), "Bearer ");
}
