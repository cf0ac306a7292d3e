use gaze::face_index::FaceIndex;
use gaze::users::UserDbError;

fn sorted(mut v: Vec<(String, u32)>) -> Vec<(String, u32)> {
    v.sort();
    v
}

fn pairs(v: &[(&str, u32)]) -> Vec<(String, u32)> {
    v.iter().map(|(n, c)| (n.to_string(), *c)).collect()
}

fn sample() -> FaceIndex {
    let mut index = FaceIndex::new(2);
    index.load_user("bob").unwrap();
    index.load_face("alice", "default", 3).unwrap();
    index.load_face("alice", "glasses", 2).unwrap();
    index
}

#[test]
fn loaded_faces_are_listed_with_their_embeddings() {
    let index = sample();
    assert_eq!(
        sorted(index.list_faces("alice").unwrap()),
        pairs(&[("default", 3), ("glasses", 2)])
    );
    assert_eq!(index.list_faces("bob").unwrap(), Vec::new());
    assert!(matches!(index.list_faces("carol"), Err(UserDbError::UserNotFound(u)) if u == "carol"));
    assert!(matches!(index.list_faces("../x"), Err(UserDbError::InvalidName(_))));
}

#[test]
fn loading_a_face_again_replaces_its_count() {
    let mut index = sample();
    index.load_face("alice", "default", 5).unwrap();
    assert_eq!(
        sorted(index.list_faces("alice").unwrap()),
        pairs(&[("default", 5), ("glasses", 2)])
    );
    assert!(matches!(index.load_face("alice", "a/b", 1), Err(UserDbError::InvalidName(_))));
    assert!(matches!(index.load_face(".", "x", 1), Err(UserDbError::InvalidName(_))));
}

#[test]
fn removing_a_face_reports_what_is_missing() {
    let mut index = sample();
    assert!(matches!(index.remove_face("carol", "x"), Err(UserDbError::UserNotFound(u)) if u == "carol"));
    assert!(matches!(index.remove_face("alice", "x"), Err(UserDbError::FaceNotFound(f)) if f == "x"));
    index.remove_face("alice", "default").unwrap();
    assert_eq!(index.list_faces("alice").unwrap(), pairs(&[("glasses", 2)]));
}

#[test]
fn a_checked_rename_moves_the_embeddings() {
    let mut index = sample();
    assert_eq!(index.check_rename("alice", "default", "default", false, true).unwrap(), false);
    assert_eq!(index.check_rename("alice", "default", "work", false, true).unwrap(), true);
    index.finish_rename("alice", "default", "work", Ok(())).unwrap();
    assert_eq!(
        sorted(index.list_faces("alice").unwrap()),
        pairs(&[("glasses", 2), ("work", 3)])
    );
    index.finish_rename("alice", "work", "default", Ok(())).unwrap();
    assert_eq!(
        sorted(index.list_faces("alice").unwrap()),
        pairs(&[("default", 3), ("glasses", 2)])
    );
}

#[test]
fn refused_renames_say_why() {
    let index = sample();
    assert!(matches!(
        index.check_rename("carol", "a", "b", false, true),
        Err(UserDbError::UserNotFound(u)) if u == "carol"
    ));
    assert!(matches!(
        index.check_rename("alice", "nope", "b", false, true),
        Err(UserDbError::FaceNotFound(f)) if f == "nope"
    ));
    assert!(matches!(
        index.check_rename("alice", "default", "glasses", false, true),
        Err(UserDbError::FaceExists(f)) if f == "glasses"
    ));
    assert!(matches!(
        index.check_rename("alice", "default", "work", true, true),
        Err(UserDbError::FaceExists(f)) if f == "work"
    ));
    assert!(matches!(
        index.check_rename("alice", "default", "work", false, false),
        Err(UserDbError::FaceNotFound(f)) if f == "default"
    ));
    assert!(matches!(
        index.check_rename("alice", "default", "a/b", false, true),
        Err(UserDbError::InvalidName(_))
    ));
}

#[test]
fn a_failed_move_keeps_the_face() {
    let mut index = sample();
    let err = index
        .finish_rename("alice", "default", "work", Err("permission denied".to_string()))
        .unwrap_err();
    assert_eq!(err.message(), "permission denied");
    assert_eq!(
        sorted(index.list_faces("alice").unwrap()),
        pairs(&[("default", 3), ("glasses", 2)])
    );
}

#[test]
fn clearing_a_user_forgets_only_that_user() {
    let mut index = sample();
    index.clear_user("alice").unwrap();
    assert!(matches!(index.list_faces("alice"), Err(UserDbError::UserNotFound(_))));
    assert_eq!(index.list_faces("bob").unwrap(), Vec::new());
    index.clear_user("nobody").unwrap();
    assert!(matches!(index.clear_user(".."), Err(UserDbError::InvalidName(_))));
    index.clear();
    assert!(index.list_faces("bob").is_err());
}

#[test]
fn evictions_follow_the_template_limit() {
    let mut index = FaceIndex::new(2);
    let ids = vec!["30".to_string(), "10".to_string(), "20".to_string()];
    assert_eq!(index.evictions(ids.clone()), vec!["10".to_string(), "20".to_string()]);
    index.set_max_templates(0);
    assert_eq!(index.max_templates(), 0);
    assert!(index.evictions(ids).is_empty());
}

#[test]
fn loading_the_store_skips_unsafe_names() {
    let mut index = FaceIndex::new(2);
    index.load_face("old", "x", 1).unwrap();
    let found = vec![
        ("alice".to_string(), vec![("default".to_string(), 3), ("a/b".to_string(), 1)]),
        ("..".to_string(), vec![("x".to_string(), 1)]),
        ("bob".to_string(), vec![]),
    ];
    index.load_all(&found);
    assert_eq!(index.list_faces("alice").unwrap(), vec![("default".to_string(), 3)]);
    assert_eq!(index.list_faces("bob").unwrap(), Vec::new());
    assert!(index.list_faces("old").is_err());
}
