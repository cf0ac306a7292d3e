use gaze::users::{
    sort_template_ids, templates_to_evict, validate_face_name, validate_template_id,
    validate_username, UserDbError,
};

fn ids(v: &[&str]) -> Vec<String> {
    v.iter().map(|s| s.to_string()).collect()
}

#[test]
fn names_must_be_single_safe_components() {
    assert!(validate_username("alice").is_ok());
    assert!(validate_face_name("default").is_ok());
    assert!(validate_template_id("1700000000").is_ok());
    for bad in ["", " alice", "alice ", ".", "..", "a/b", "a\\b", "a\0b", "a\nb"] {
        assert!(validate_username(bad).is_err(), "{bad:?} accepted");
    }
    match validate_face_name(" x") {
        Err(UserDbError::InvalidName(m)) => assert_eq!(
            m,
            "face name cannot be empty or contain leading/trailing whitespace"
        ),
        _ => panic!("expected an invalid name"),
    }
    match validate_template_id("../x") {
        Err(e) => assert_eq!(e.message(), "template id must be a single safe path component"),
        _ => panic!("expected an invalid id"),
    }
}

#[test]
fn error_messages() {
    assert_eq!(
        UserDbError::UserNotFound("bob".to_string()).message(),
        "User 'bob' not found"
    );
    assert_eq!(
        UserDbError::FaceExists("x".to_string()).message(),
        "Face 'x' already exists"
    );
}

#[test]
fn template_ids_sort_by_age_stably() {
    assert_eq!(
        sort_template_ids(ids(&["30", "10", "abc", "20", "10", "x"])),
        ids(&["abc", "x", "10", "10", "20", "30"])
    );
    assert!(sort_template_ids(vec![]).is_empty());
}

#[test]
fn eviction_removes_the_oldest_to_make_room() {
    assert_eq!(templates_to_evict(ids(&["3", "1", "2"]), 2), ids(&["1", "2"]));
    assert_eq!(templates_to_evict(ids(&["3", "1", "2"]), 3), ids(&["1"]));
    assert!(templates_to_evict(ids(&["3", "1"]), 3).is_empty());
    assert!(templates_to_evict(ids(&["3", "1", "2"]), 0).is_empty());
}
