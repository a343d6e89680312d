use crm_core::errors::ServiceError;
use crm_core::ids::{PrefixedUuid, ResourceTag};
use crm_core::store::Backend;
use crm_core::validate::{is_valid_email, is_valid_phone};

fn org(store: &mut Backend) -> PrefixedUuid {
    let u = store
        .create_user_query(PrefixedUuid::create(ResourceTag::User), "a@b.c".to_string(), None)
        .unwrap();
    store.create_org_query("Acme".to_string(), &u).unwrap().id
}

#[test]
fn email_rule_cases() {
    assert!(is_valid_email("a@b"));
    assert!(is_valid_email("developers@trieve.ai"));
    assert!(is_valid_email("first.last+tag@sub-domain.example anything after"));
    assert!(!is_valid_email(""));
    assert!(!is_valid_email("@b.c"));
    assert!(!is_valid_email("a@"));
    assert!(!is_valid_email("no-at-sign"));
    assert!(!is_valid_email("spaced name@b.c"));
    assert!(!is_valid_email("a@_b"));
}

#[test]
fn phone_rule_cases() {
    assert!(is_valid_phone("+12345678"));
    assert!(is_valid_phone("123456789"));
    assert!(!is_valid_phone("12345678"));
    assert!(!is_valid_phone(""));
}

#[test]
fn email_records_are_validated() {
    let mut store = Backend::new();
    let org_id = org(&mut store);
    let bad = store.create_email_query(org_id, "nope".to_string());
    assert_eq!(bad, Err(ServiceError::BadRequest("Invalid email".to_string())));
    let good = store.create_email_query(org_id, "x@y.z".to_string()).unwrap();
    assert_eq!(good.email, "x@y.z");
    let worse = store.update_email_query(good.id, "also bad@".to_string());
    assert_eq!(worse, Err(ServiceError::BadRequest("Invalid email".to_string())));
    let better = store.update_email_query(good.id, "new@y.z".to_string()).unwrap();
    assert_eq!(better.email, "new@y.z");
    assert_eq!(store.get_email_by_id(good.id).unwrap().email, "new@y.z");
}

#[test]
fn phone_records_are_validated() {
    let mut store = Backend::new();
    let org_id = org(&mut store);
    let bad = store.create_phone_query(org_id, "123".to_string());
    assert_eq!(bad, Err(ServiceError::BadRequest("Invalid phone number".to_string())));
    let good = store.create_phone_query(org_id, "+15551234567".to_string()).unwrap();
    let renum = store.update_phone_query(good.id, "+15557654321".to_string()).unwrap();
    assert_eq!(renum.number, "+15557654321");
    store.delete_phone_query(good.id).unwrap();
    assert_eq!(store.get_phone_by_id(good.id), Err(ServiceError::NotFound));
}

#[test]
fn contact_update_keeps_missing_fields() {
    let mut store = Backend::new();
    let org_id = org(&mut store);
    let c = store
        .create_contact_query(org_id, "Ada".to_string(), "Lovelace".to_string())
        .unwrap();
    let updated = store
        .update_contact_query(c.id, None, Some("Byron".to_string()))
        .unwrap();
    assert_eq!(updated.first_name, "Ada");
    assert_eq!(updated.last_name, "Byron");
    assert_eq!(updated.created_at, c.created_at);
    let missing = store.update_contact_query(
        PrefixedUuid::create(ResourceTag::Contact),
        Some("X".to_string()),
        None,
    );
    assert_eq!(
        missing,
        Err(ServiceError::InternalServerError("Error updating contact".to_string()))
    );
}

#[test]
fn deal_size_keeps_float_bits() {
    let mut store = Backend::new();
    let org_id = org(&mut store);
    let bits = 4.0f32.to_bits();
    let d = store
        .create_deal_query(org_id, Some("big".to_string()), Some(bits), true)
        .unwrap();
    assert_eq!(d.size_bits, Some(bits));
    assert_eq!(f32::from_bits(d.size_bits.unwrap()), 4.0f32);
    let updated = store
        .update_deal_query(d.id, None, Some(2.5f32.to_bits()), Some(false))
        .unwrap();
    assert_eq!(updated.name.as_deref(), Some("big"));
    assert_eq!(f32::from_bits(updated.size_bits.unwrap()), 2.5f32);
    assert!(!updated.active);
}

#[test]
fn link_crud_round_trip() {
    let mut store = Backend::new();
    let org_id = org(&mut store);
    let l = store
        .create_link_query("https://example.com".to_string(), org_id)
        .unwrap();
    assert_eq!(store.get_link_by_id(l.id).unwrap(), l);
    let updated = store
        .update_link_query(l.id, "https://example.org".to_string())
        .unwrap();
    assert_eq!(updated.link, "https://example.org");
    store.delete_link_query(l.id).unwrap();
    assert_eq!(store.get_link_by_id(l.id), Err(ServiceError::NotFound));
    // Deleting again still succeeds.
    store.delete_link_query(l.id).unwrap();
}

#[test]
fn notes_list_pages_per_org() {
    let mut store = Backend::new();
    let org_id = org(&mut store);
    for i in 0..12 {
        store.create_note_query(format!("n{}", i), org_id).unwrap();
    }
    let page = store.get_notes_for_org_query(org_id, None, None).unwrap();
    assert_eq!(page.len(), 10);
    assert_eq!(page[0].title, "n0");
    let tail = store.get_notes_for_org_query(org_id, Some(5), Some(10)).unwrap();
    assert_eq!(tail.len(), 2);
    assert_eq!(tail[0].title, "n10");
}

#[test]
fn invitations_and_plans_round_trip() {
    let mut store = Backend::new();
    let org_id = org(&mut store);
    let inv = store
        .create_invitation_query("d@e.f".to_string(), org_id, 1)
        .unwrap();
    assert!(!inv.used);
    assert_eq!(store.get_invitation_by_id_query(inv.id).unwrap(), inv);
    assert_eq!(store.get_invitations_for_organization_query(org_id).unwrap(), vec![
        inv.clone()
    ]);
    store.delete_invitation_by_id_query(inv.id).unwrap();
    assert_eq!(store.get_invitation_by_id_query(inv.id), Err(ServiceError::NotFound));

    let plan = store
        .create_plan_query("stripe_1".to_string(), 5, 10, 99)
        .unwrap();
    let updated = store
        .update_plan_query(plan.id, None, Some(6), None, Some(120))
        .unwrap();
    assert_eq!(updated.num_users, 6);
    assert_eq!(updated.num_deals, 10);
    assert_eq!(updated.price_per_month, 120);
    store.delete_plan_query(plan.id).unwrap();
    assert_eq!(store.get_plan_by_id(plan.id), Err(ServiceError::NotFound));
}
