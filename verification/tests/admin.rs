use chore_tracker::models::Admin;
use chore_tracker::svc::admin::OidcAdmin;
use chore_tracker::svc::AdminSvc;

#[test]
fn known_administrator_is_the_answer() {
    let known = Admin {
        id: Some(3),
        uuid: "admin-3".to_string(),
        name: "OIDC Admin".to_string(),
        email: "oidc@test.com".to_string(),
        oidc_subject: "test-oidc-12345".to_string(),
        created_at: None,
        updated_at: None,
    };
    match AdminSvc::get_or_create_by_oidc(
        Some(known),
        "test-oidc-12345",
        "Different Name",
        "different@email.com",
    ) {
        OidcAdmin::Known(admin) => {
            assert_eq!(admin.id, Some(3));
            assert_eq!(admin.uuid, "admin-3");
            assert_eq!(admin.name, "OIDC Admin");
            assert_eq!(admin.email, "oidc@test.com");
            assert_eq!(admin.oidc_subject, "test-oidc-12345");
        }
        other => panic!("unexpected answer {:?}", other),
    }
}

#[test]
fn unknown_administrator_is_made() {
    match AdminSvc::get_or_create_by_oidc(None, "test-oidc-12345", "OIDC Admin", "oidc@test.com") {
        OidcAdmin::New(admin) => {
            assert_eq!(admin.id, None);
            assert_eq!(admin.name, "OIDC Admin");
            assert_eq!(admin.email, "oidc@test.com");
            assert_eq!(admin.oidc_subject, "test-oidc-12345");
            assert_eq!(admin.created_at, None);
            assert_eq!(admin.updated_at, None);
            assert_eq!(admin.uuid.len(), 36);
            // The version of a random identifier.
            assert_eq!(admin.uuid.as_bytes()[14], b'4');
        }
        other => panic!("unexpected answer {:?}", other),
    }
}

#[test]
fn new_administrators_get_different_identifiers() {
    let first = AdminSvc::get_or_create_by_oidc(None, "s", "n", "e");
    let second = AdminSvc::get_or_create_by_oidc(None, "s", "n", "e");
    match (first, second) {
        (OidcAdmin::New(a), OidcAdmin::New(b)) => assert_ne!(a.uuid, b.uuid),
        other => panic!("unexpected answers {:?}", other),
    }
}

fn get_or_create_in(store: &mut Vec<Admin>, oidc_subject: &str, name: &str, email: &str) -> usize {
    let at = store.iter().position(|a| a.oidc_subject == oidc_subject);
    let found = at.map(|at| store.remove(at));
    let admin = match AdminSvc::get_or_create_by_oidc(found, oidc_subject, name, email) {
        OidcAdmin::Known(admin) => admin,
        OidcAdmin::New(admin) => admin,
    };
    let at = at.unwrap_or(store.len());
    store.insert(at, admin);
    at
}

#[test]
fn test_get_or_create_by_oidc() {
    let mut store: Vec<Admin> = Vec::new();

    let oidc_subject = "test-oidc-12345";
    let name = "OIDC Admin";
    let email = "oidc@test.com";

    // First call should create a new admin
    let at = get_or_create_in(&mut store, oidc_subject, name, email);
    let admin1_uuid = store[at].uuid.clone();
    assert_eq!(store[at].name, name);
    assert_eq!(store[at].email, email);
    assert_eq!(store[at].oidc_subject, oidc_subject);

    // Second call should return the existing admin
    let at = get_or_create_in(
        &mut store,
        oidc_subject,
        "Different Name",
        "different@email.com",
    );
    let admin2 = &store[at];
    assert_eq!(admin2.uuid, admin1_uuid); // Same admin
    assert_eq!(admin2.name, name); // Original name preserved
    assert_eq!(admin2.email, email); // Original email preserved

    // Verify only one admin was created
    assert_eq!(store.len(), 1);
}
