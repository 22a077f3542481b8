use profile::{authorized, handle, read_reply, FileOp, Profile, ProfileManager, Reply, Request};

fn create_test_manager() -> ProfileManager {
    // A freshly created backing file is empty.
    ProfileManager::new("profile.json", Some(""))
}

fn sample_profile() -> Profile {
    Profile {
        alternate_name: "testuser".to_string(),
        first_name: Some("Test".to_string()),
        last_name: Some("User".to_string()),
        company_name: Some("TestCo".to_string()),
        website: Some("https://test.com".to_string()),
        image_url: Some("https://test.com/avatar.png".to_string()),
    }
}

fn minimal_profile(name: &str) -> Profile {
    Profile {
        alternate_name: name.to_string(),
        first_name: None,
        last_name: None,
        company_name: None,
        website: None,
        image_url: None,
    }
}

#[test]
fn test_create_and_get_profile() {
    let mut manager = create_test_manager();

    // Initially no profile
    assert!(manager.get().is_none());

    // Create a profile
    let profile = sample_profile();
    manager.save(profile.clone());

    // Verify we can retrieve it
    let retrieved = manager.get().unwrap();
    assert_eq!(retrieved, profile);
}

#[test]
fn test_update_profile() {
    let mut manager = create_test_manager();
    let profile = sample_profile();

    manager.save(profile.clone());

    // Update the profile
    let updated_profile = Profile {
        alternate_name: "testuser".to_string(),
        first_name: Some("Updated".to_string()),
        last_name: Some("New".to_string()),
        company_name: None,
        website: None,
        image_url: None,
    };
    manager.save(updated_profile.clone());

    let retrieved = manager.get().unwrap();
    assert_eq!(retrieved, updated_profile);
}

#[test]
fn test_delete_profile() {
    let mut manager = create_test_manager();
    let profile = sample_profile();

    manager.save(profile);
    assert!(manager.get().is_some());

    manager.delete();
    assert!(manager.get().is_none());
}

#[test]
fn test_persistence() {
    let mut manager = create_test_manager();
    let profile = sample_profile();

    // Create and save; the returned text is what the backing file holds
    let text = manager.save(profile.clone());

    // Create new manager with same file
    let manager2 = ProfileManager::new(manager.file_path(), Some(&text));

    // Should load the saved profile
    let retrieved = manager2.get().unwrap();
    assert_eq!(retrieved.first_name, profile.first_name);
}

#[test]
fn absent_without_backing_file() {
    let manager = ProfileManager::new("missing.json", None);
    assert!(manager.get().is_none());
    assert_eq!(manager.file_path(), "missing.json");
}

#[test]
fn reload_gives_every_field_back() {
    let mut manager = create_test_manager();
    for p in [sample_profile(), minimal_profile("solo")] {
        let text = manager.save(p.clone());
        let fresh = ProfileManager::new("profile.json", Some(&text));
        assert_eq!(fresh.get(), Some(p));
    }
}

#[test]
fn overwrite_keeps_no_old_field() {
    let mut manager = create_test_manager();
    manager.save(sample_profile());
    manager.save(minimal_profile("second"));
    assert_eq!(manager.get(), Some(minimal_profile("second")));
}

#[test]
fn last_of_many_puts_wins() {
    let mut manager = create_test_manager();
    let mut last_text = String::new();
    for i in 0..5 {
        last_text = manager.save(minimal_profile(&format!("user{}", i)));
    }
    assert_eq!(manager.get(), Some(minimal_profile("user4")));
    let fresh = ProfileManager::new("profile.json", Some(&last_text));
    assert_eq!(fresh.get(), Some(minimal_profile("user4")));
}

#[test]
fn saved_text_is_pretty_json_without_absent_fields() {
    let mut manager = create_test_manager();
    let text = manager.save(minimal_profile("solo"));
    assert_eq!(text, "{\n  \"alternate_name\": \"solo\"\n}");
    let text = manager
        .save(Profile { first_name: Some("A \"quoted\" name".to_string()), ..minimal_profile("x") });
    assert!(text.contains("\"first_name\": \"A \\\"quoted\\\" name\""));
    assert!(!text.contains("last_name"));
}

#[test]
fn corrupt_file_loads_as_absent() {
    for bad in ["", "not json", "{\"alternate_name\": ", "[1, 2]", "\"text\"", "{}"] {
        let manager = ProfileManager::new("profile.json", Some(bad));
        assert!(manager.get().is_none(), "{}", bad);
    }
}

#[test]
fn field_types_are_checked_on_load() {
    let with_null = "{\"alternate_name\": \"a\", \"first_name\": null, \"extra\": 3}";
    let m = ProfileManager::new("p", Some(with_null));
    assert_eq!(m.get(), Some(minimal_profile("a")));
    let with_number = "{\"alternate_name\": \"a\", \"website\": 7}";
    assert!(ProfileManager::new("p", Some(with_number)).get().is_none());
    let null_name = "{\"alternate_name\": null}";
    assert!(ProfileManager::new("p", Some(null_name)).get().is_none());
}

#[test]
fn saved_members_come_in_name_order() {
    let mut manager = create_test_manager();
    let text = manager.save(sample_profile());
    let order: Vec<usize> = ["alternate_name", "company_name", "first_name", "image_url", "last_name", "website"]
        .iter()
        .map(|k| text.find(&format!("\"{}\"", k)).unwrap())
        .collect();
    assert!(order.windows(2).all(|w| w[0] < w[1]));
}

#[test]
fn read_reply_reports_absence_and_presence() {
    let mut manager = create_test_manager();
    assert_eq!(read_reply(&manager).status(), 404);
    manager.save(minimal_profile("r"));
    assert!(matches!(read_reply(&manager), Reply::Stored { status: 200, profile: Some(ref p) } if *p == minimal_profile("r")));
}

#[test]
fn credential_must_match_exactly() {
    assert!(authorized(Some("secret"), "secret"));
    assert!(!authorized(Some("secret "), "secret"));
    assert!(!authorized(Some(""), "secret"));
    assert!(!authorized(None, "secret"));
}

#[test]
fn unauthorized_change_is_rejected_before_the_store() {
    let mut manager = create_test_manager();
    manager.save(sample_profile());
    for req in [
        Request::Create(minimal_profile("intruder")),
        Request::Update(minimal_profile("intruder")),
        Request::Remove,
    ] {
        let (reply, op) = handle(&mut manager, req, Some("wrong"), "secret");
        assert_eq!(reply.status(), 401);
        assert_eq!(op, FileOp::Keep);
        let (reply, _) = handle(&mut manager, Request::Remove, None, "secret");
        assert_eq!(reply.status(), 401);
        let (reply, op) = handle(&mut manager, Request::Read, None, "secret");
        assert_eq!(op, FileOp::Keep);
        assert!(matches!(reply, Reply::Stored { status: 200, profile: Some(ref p) } if *p == sample_profile()));
    }
}

#[test]
fn authorized_requests_map_to_statuses() {
    let mut manager = ProfileManager::new("profile.json", None);
    let (reply, op) = handle(&mut manager, Request::Read, None, "k");
    assert_eq!(reply.status(), 404);
    assert_eq!(op, FileOp::Keep);

    let (reply, op) = handle(&mut manager, Request::Create(minimal_profile("a")), Some("k"), "k");
    assert_eq!(reply.status(), 201);
    assert_eq!(op, FileOp::Write("{\n  \"alternate_name\": \"a\"\n}".to_string()));

    let (reply, op) = handle(&mut manager, Request::Update(minimal_profile("b")), Some("k"), "k");
    assert_eq!(reply.status(), 200);
    assert!(matches!(op, FileOp::Write(_)));
    assert!(matches!(reply, Reply::Stored { profile: Some(ref p), .. } if *p == minimal_profile("b")));

    let (reply, op) = handle(&mut manager, Request::Remove, Some("k"), "k");
    assert_eq!(reply.status(), 200);
    assert_eq!(op, FileOp::Remove);
    assert!(manager.get().is_none());
}
