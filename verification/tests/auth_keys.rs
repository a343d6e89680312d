use crm_core::api_keys::{generate_api_key, hash_api_key};
use crm_core::auth::{
    require_member, require_role, require_user, resolve_membership, resolve_user,
};
use crm_core::errors::ServiceError;
use crm_core::ids::{PrefixedUuid, ResourceTag};
use crm_core::roles::UserRole;
use crm_core::store::Backend;

#[test]
fn generated_keys_have_the_documented_shape() {
    let key = generate_api_key();
    assert_eq!(key.len(), 35);
    assert!(key.starts_with("tr-"));
    assert!(key[3..].chars().all(|c| c.is_ascii_alphanumeric()));
}

#[test]
fn generated_keys_differ() {
    assert_ne!(generate_api_key(), generate_api_key());
}

#[test]
fn hashing_is_deterministic_and_one_way_shaped() {
    let h1 = hash_api_key("tr-somekey");
    let h2 = hash_api_key("tr-somekey");
    assert_eq!(h1, h2);
    assert_eq!(h1.len(), 64);
    assert!(h1.chars().all(|c| c.is_ascii_hexdigit()));
    assert_ne!(h1, "tr-somekey");
    assert_ne!(h1, hash_api_key("tr-otherkey"));
}

#[test]
fn api_key_resolves_its_owner() {
    let mut store = Backend::new();
    let u = store
        .create_user_query(PrefixedUuid::create(ResourceTag::User), "a@b.c".to_string(), None)
        .unwrap();
    let raw = store.create_api_key_query(u.id, "laptop".to_string()).unwrap();
    let resolved = store.get_user_from_api_key_query(&raw).unwrap();
    assert_eq!(resolved, u);
}

#[test]
fn wrong_api_key_fails_closed() {
    let mut store = Backend::new();
    let u = store
        .create_user_query(PrefixedUuid::create(ResourceTag::User), "a@b.c".to_string(), None)
        .unwrap();
    let raw = store.create_api_key_query(u.id, "laptop".to_string()).unwrap();
    let mut other = raw.clone();
    // Flip the final character to any different alphanumeric one.
    let last = other.pop().unwrap();
    other.push(if last == 'a' { 'b' } else { 'a' });
    assert!(store.get_user_from_api_key_query(&other).is_err());
    assert!(store.get_user_from_api_key_query("tr-unknownunknownunknownunknown0").is_err());
}

#[test]
fn session_identity_wins_over_api_key() {
    let mut store = Backend::new();
    let u = store
        .create_user_query(PrefixedUuid::create(ResourceTag::User), "a@b.c".to_string(), None)
        .unwrap();
    let u2 = store
        .create_user_query(PrefixedUuid::create(ResourceTag::User), "d@e.f".to_string(), None)
        .unwrap();
    let raw = store.create_api_key_query(u.id, "laptop".to_string()).unwrap();
    // Session present: the session user, regardless of the header.
    let got = resolve_user(&store, Some(u2.clone()), Some(&raw));
    assert_eq!(got, Some(u2));
    // Session absent: the key's owner.
    let got = resolve_user(&store, None, Some(&raw));
    assert_eq!(got, Some(u));
    // Neither: nobody.
    assert_eq!(resolve_user(&store, None, None), None);
    // A bad key resolves nobody.
    assert_eq!(resolve_user(&store, None, Some("garbage")), None);
}

#[test]
fn membership_resolution_parses_the_header() {
    let mut store = Backend::new();
    let u = store
        .create_user_query(PrefixedUuid::create(ResourceTag::User), "a@b.c".to_string(), None)
        .unwrap();
    let org = store.create_org_query("Acme".to_string(), &u).unwrap();
    let header = org.id.format();
    let link = resolve_membership(&store, u.id, Some(&header)).unwrap();
    assert_eq!(link.org_id, org.id);
    assert_eq!(link.user_id, u.id);
    // Missing, malformed, or foreign headers attach nothing.
    assert!(resolve_membership(&store, u.id, None).is_none());
    assert!(resolve_membership(&store, u.id, Some("not-an-id")).is_none());
    let other = PrefixedUuid::create(ResourceTag::Org).format();
    assert!(resolve_membership(&store, u.id, Some(&other)).is_none());
    // A user identifier in the organization header is rejected.
    let confused = u.id.format();
    assert!(resolve_membership(&store, u.id, Some(&confused)).is_none());
}

#[test]
fn guards_fail_closed() {
    assert_eq!(require_user(None), Err(ServiceError::Unauthorized));
    assert_eq!(require_member(None), Err(ServiceError::Unauthorized));
    assert_eq!(require_role(None, UserRole::Admin), Err(ServiceError::Unauthorized));

    let link = crm_core::models::OrgUserLink::from_details(
        PrefixedUuid::create(ResourceTag::User),
        PrefixedUuid::create(ResourceTag::Org),
        UserRole::Admin,
    );
    assert_eq!(require_member(Some(link)), Ok(link));
    assert_eq!(require_role(Some(link), UserRole::User), Ok(link));
    assert_eq!(require_role(Some(link), UserRole::Admin), Ok(link));
    assert_eq!(require_role(Some(link), UserRole::Owner), Err(ServiceError::Forbidden));
}

#[test]
fn callback_finds_or_creates_the_account() {
    let mut store = Backend::new();
    let subject = PrefixedUuid::create(ResourceTag::User);
    let created = crm_core::auth::login_callback_user(
        &mut store,
        subject,
        "a@b.c".to_string(),
        "Ada".to_string(),
    )
    .unwrap();
    assert_eq!(created.id, subject);
    assert_eq!(created.name.as_deref(), Some("Ada"));
    // A second callback with the same subject finds the same account.
    let found = crm_core::auth::login_callback_user(
        &mut store,
        subject,
        "ignored@b.c".to_string(),
        "Ignored".to_string(),
    )
    .unwrap();
    assert_eq!(found, created);
}

#[test]
fn redirect_choice_and_logout_url() {
    assert_eq!(
        crm_core::auth::choose_redirect(Some("https://app".to_string()), Some("/ref".to_string())),
        "https://app"
    );
    assert_eq!(
        crm_core::auth::choose_redirect(None, Some("/ref".to_string())),
        "/ref"
    );
    assert_eq!(crm_core::auth::choose_redirect(None, None), "/");
    assert_eq!(
        crm_core::auth::logout_url("https://issuer", "client1", "https://app"),
        "https://issuer/protocol/openid-connect/logout?post_logout_redirect_uri=https://app&client_id=client1"
    );
}
