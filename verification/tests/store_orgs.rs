use crm_core::errors::ServiceError;
use crm_core::ids::{PrefixedUuid, ResourceTag};
use crm_core::models::User;
use crm_core::roles::UserRole;
use crm_core::store::Backend;

fn user(email: &str) -> User {
    User::from_details(email.to_string(), None)
}

#[test]
fn create_org_links_creator_as_owner() {
    let mut store = Backend::new();
    let u = store
        .create_user_query(PrefixedUuid::create(ResourceTag::User), "a@b.c".to_string(), None)
        .unwrap();
    let org = store.create_org_query("Acme".to_string(), &u).unwrap();
    assert_eq!(org.name, "Acme");
    assert_eq!(org.id.prefix, ResourceTag::Org);
    let link = store.get_org_user_link_query(u.id, org.id).unwrap();
    assert_eq!(link.role, 2);
    assert_eq!(link.user_id, u.id);
    assert_eq!(link.org_id, org.id);
}

#[test]
fn duplicate_membership_is_rejected_as_already_linked() {
    let mut store = Backend::new();
    let u = store
        .create_user_query(PrefixedUuid::create(ResourceTag::User), "a@b.c".to_string(), None)
        .unwrap();
    let org = store.create_org_query("Acme".to_string(), &u).unwrap();
    // Creating the org already linked the creator; a second link of the
    // same pair must fail with the uniqueness error.
    let again = store.add_user_to_org_query(u.id, org.id, UserRole::User);
    assert_eq!(
        again,
        Err(ServiceError::BadRequest(
            "User and organization already linked".to_string()
        ))
    );
}

#[test]
fn distinct_pairs_may_link() {
    let mut store = Backend::new();
    let u1 = store
        .create_user_query(PrefixedUuid::create(ResourceTag::User), "a@b.c".to_string(), None)
        .unwrap();
    let u2 = store
        .create_user_query(PrefixedUuid::create(ResourceTag::User), "d@e.f".to_string(), None)
        .unwrap();
    let org = store.create_org_query("Acme".to_string(), &u1).unwrap();
    let link = store.add_user_to_org_query(u2.id, org.id, UserRole::Admin).unwrap();
    assert_eq!(link.role, 1);
}

#[test]
fn duplicate_email_is_rejected() {
    let mut store = Backend::new();
    store
        .create_user_query(PrefixedUuid::create(ResourceTag::User), "a@b.c".to_string(), None)
        .unwrap();
    let again = store.create_user_query(
        PrefixedUuid::create(ResourceTag::User),
        "a@b.c".to_string(),
        None,
    );
    assert_eq!(
        again,
        Err(ServiceError::BadRequest(
            "Error creating user for create_user_query".to_string()
        ))
    );
}

#[test]
fn lookup_users_by_id_and_email() {
    let mut store = Backend::new();
    let u = store
        .create_user_query(
            PrefixedUuid::create(ResourceTag::User),
            "a@b.c".to_string(),
            Some("Ada".to_string()),
        )
        .unwrap();
    assert_eq!(store.get_user_by_id_query(u.id).unwrap(), u);
    assert_eq!(store.get_user_by_email_query("a@b.c").unwrap(), u);
    assert!(store.get_user_by_email_query("missing@b.c").is_err());
    assert!(store.get_user_by_id_query(PrefixedUuid::create(ResourceTag::User)).is_err());
}

#[test]
fn remove_user_from_org_is_idempotent() {
    let mut store = Backend::new();
    let u = store
        .create_user_query(PrefixedUuid::create(ResourceTag::User), "a@b.c".to_string(), None)
        .unwrap();
    let org = store.create_org_query("Acme".to_string(), &u).unwrap();
    store.remove_user_from_org_query(org.id, u.id).unwrap();
    assert!(store.get_org_user_link_query(u.id, org.id).is_err());
    // Removing again still succeeds.
    store.remove_user_from_org_query(org.id, u.id).unwrap();
}

#[test]
fn delete_org_cascades_to_children() {
    let mut store = Backend::new();
    let u = store
        .create_user_query(PrefixedUuid::create(ResourceTag::User), "a@b.c".to_string(), None)
        .unwrap();
    let org = store.create_org_query("Acme".to_string(), &u).unwrap();
    let other = store.create_org_query("Beta".to_string(), &u).unwrap();
    let note = store.create_note_query("minutes".to_string(), org.id).unwrap();
    let kept_note = store.create_note_query("keep".to_string(), other.id).unwrap();
    let contact = store
        .create_contact_query(org.id, "Ada".to_string(), "Lovelace".to_string())
        .unwrap();
    store.delete_org_query(org.id).unwrap();
    assert!(store.get_note_by_id_query(note.id).is_err());
    assert!(store.get_contact_by_id(contact.id).is_err());
    assert!(store.get_org_user_link_query(u.id, org.id).is_err());
    // The other organization's rows stay.
    assert_eq!(store.get_note_by_id_query(kept_note.id).unwrap(), kept_note);
    assert!(store.get_org_user_link_query(u.id, other.id).is_ok());
    // Deleting again succeeds and changes nothing.
    store.delete_org_query(org.id).unwrap();
}

#[test]
fn update_org_requires_existing_record() {
    let mut store = Backend::new();
    let ghost_org = crm_core::models::Org::from_details("Ghost".to_string());
    assert_eq!(store.update_org_query(ghost_org), Err(ServiceError::NotFound));
}

#[test]
fn update_org_replaces_record() {
    let mut store = Backend::new();
    let u = store
        .create_user_query(PrefixedUuid::create(ResourceTag::User), "a@b.c".to_string(), None)
        .unwrap();
    let org = store.create_org_query("Acme".to_string(), &u).unwrap();
    let renamed = crm_core::models::Org::from_details_with_id(org.id, "Acme, Inc.".to_string());
    let updated = store.update_org_query(renamed).unwrap();
    assert_eq!(updated.name, "Acme, Inc.");
    let fetched = store.user_in_org_query(org.id, u.id).unwrap().unwrap();
    assert_eq!(fetched.name, "Acme, Inc.");
}

#[test]
fn org_listing_pages_with_defaults() {
    let mut store = Backend::new();
    let u = user("a@b.c");
    let u = store.create_user_query(u.id, u.email, u.name).unwrap();
    for i in 0..12 {
        store.create_org_query(format!("org{}", i), &u).unwrap();
    }
    // Default page: ten from the start.
    let page = store.get_orgs_for_user_query(u.id, None, None).unwrap();
    assert_eq!(page.len(), 10);
    assert_eq!(page[0].name, "org0");
    assert_eq!(page[9].name, "org9");
    // Offset walks forward.
    let rest = store.get_orgs_for_user_query(u.id, None, Some(10)).unwrap();
    assert_eq!(rest.len(), 2);
    assert_eq!(rest[0].name, "org10");
    // Limit clamps.
    let some = store.get_orgs_for_user_query(u.id, Some(3), Some(1)).unwrap();
    assert_eq!(some.len(), 3);
    assert_eq!(some[0].name, "org1");
    // Past the end: empty.
    let none = store.get_orgs_for_user_query(u.id, Some(5), Some(100)).unwrap();
    assert!(none.is_empty());
    // Another user sees nothing.
    let u2 = store
        .create_user_query(PrefixedUuid::create(ResourceTag::User), "x@y.z".to_string(), None)
        .unwrap();
    assert!(store.get_orgs_for_user_query(u2.id, None, None).unwrap().is_empty());
}

#[test]
fn user_in_org_query_reports_membership() {
    let mut store = Backend::new();
    let u = store
        .create_user_query(PrefixedUuid::create(ResourceTag::User), "a@b.c".to_string(), None)
        .unwrap();
    let u2 = store
        .create_user_query(PrefixedUuid::create(ResourceTag::User), "d@e.f".to_string(), None)
        .unwrap();
    let org = store.create_org_query("Acme".to_string(), &u).unwrap();
    assert_eq!(store.user_in_org_query(org.id, u.id).unwrap().unwrap().id, org.id);
    assert!(store.user_in_org_query(org.id, u2.id).unwrap().is_none());
}

#[test]
fn org_listing_extreme_bounds() {
    let mut store = Backend::new();
    let u = store
        .create_user_query(PrefixedUuid::create(ResourceTag::User), "a@b.c".to_string(), None)
        .unwrap();
    for i in 0..3 {
        store.create_org_query(format!("org{}", i), &u).unwrap();
    }
    // A huge limit returns everything.
    let all = store.get_orgs_for_user_query(u.id, Some(i64::MAX), Some(0)).unwrap();
    assert_eq!(all.len(), 3);
    // A negative offset reads from the start.
    let from_start = store.get_orgs_for_user_query(u.id, Some(2), Some(-5)).unwrap();
    assert_eq!(from_start.len(), 2);
    assert_eq!(from_start[0].name, "org0");
    // A negative limit yields nothing.
    let none = store.get_orgs_for_user_query(u.id, Some(-1), Some(0)).unwrap();
    assert!(none.is_empty());
    // Zero limit yields nothing.
    let zero = store.get_orgs_for_user_query(u.id, Some(0), Some(1)).unwrap();
    assert!(zero.is_empty());
}

#[test]
fn colliding_identifiers_are_rejected_exactly() {
    let mut store = Backend::new();
    let u = store
        .create_user_query(PrefixedUuid::create(ResourceTag::User), "a@b.c".to_string(), None)
        .unwrap();

    // The same organization record twice: the second insert trips the
    // key uniqueness with the creation error.
    let org = crm_core::models::Org::from_details("Acme".to_string());
    store.insert_org(org.clone()).unwrap();
    assert_eq!(
        store.insert_org(org.clone()),
        Err(ServiceError::InternalServerError(
            "Error creating org for create_org_query".to_string()
        ))
    );

    // The same membership identifier twice: the uniqueness error even
    // for a different pair.
    let link = crm_core::models::OrgUserLink::from_details(u.id, org.id, UserRole::Owner);
    store.insert_org_user_link(link).unwrap();
    assert_eq!(
        store.insert_org_user_link(link),
        Err(ServiceError::BadRequest(
            "User and organization already linked".to_string()
        ))
    );

    // The same note identifier twice.
    let note = crm_core::models::Note::from_title("minutes".to_string(), org.id);
    store.insert_note(note.clone()).unwrap();
    assert_eq!(
        store.insert_note(note),
        Err(ServiceError::InternalServerError(
            "Error creating note for create_note_query".to_string()
        ))
    );

    // The same key identifier twice.
    let key = crm_core::models::ApiKey::from_details(
        u.id,
        "laptop".to_string(),
        crm_core::api_keys::hash_api_key("tr-example"),
    );
    store.insert_api_key(key.clone()).unwrap();
    assert_eq!(
        store.insert_api_key(key),
        Err(ServiceError::BadRequest(
            "Error creating api key for create_api_key_query".to_string()
        ))
    );
}
