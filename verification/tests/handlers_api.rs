use crm_core::errors::ServiceError;
use crm_core::handlers::{
    CreateApiKeyReqPayload, CreateContactReqPayload, CreateNoteReqPayload, CreateOrgReqPayload,
    GetMyOrgsReqQuery, InvitationData, UpdateContactReqPayload, UpdateNoteReqPayload,
    UpdateOrgReqPayload, UpdateTaskReqPayload,
};
use crm_core::ids::{PrefixedUuid, ResourceTag};
use crm_core::models::User;
use crm_core::store::Backend;

fn signed_up(store: &mut Backend, email: &str) -> User {
    store
        .create_user_query(PrefixedUuid::create(ResourceTag::User), email.to_string(), None)
        .unwrap()
}

#[test]
fn org_scenario_end_to_end() {
    let mut store = Backend::new();
    let u = signed_up(&mut store, "a@b.c");
    let u2 = signed_up(&mut store, "d@e.f");

    // POST /api/orgs as U: 201 with the organization.
    let reply = store
        .create_org(CreateOrgReqPayload { name: "Acme".to_string() }, &u)
        .unwrap();
    assert_eq!(reply.status, 201);
    let org = reply.body;
    assert_eq!(org.name, "Acme");

    // The creator's membership carries the Owner role.
    let link = store.get_org_user_link_query(u.id, org.id).unwrap();
    assert_eq!(link.role, 2);

    // GET /api/orgs/{id} as U: 200 with the organization.
    let got = store.get_org(org.id, &u).unwrap();
    assert_eq!(got.status, 200);
    assert_eq!(got.body.unwrap(), org);

    // As U2, who is no member: 401 and no body.
    let denied = store.get_org(org.id, &u2).unwrap();
    assert_eq!(denied.status, 401);
    assert!(denied.body.is_none());
}

#[test]
fn delete_org_requires_membership() {
    let mut store = Backend::new();
    let u = signed_up(&mut store, "a@b.c");
    let u2 = signed_up(&mut store, "d@e.f");
    let org = store
        .create_org(CreateOrgReqPayload { name: "Acme".to_string() }, &u)
        .unwrap()
        .body;
    // A stranger's deletion is refused with 401 and nothing changes.
    assert_eq!(store.delete_org(&u2, org.id).unwrap().status, 401);
    assert_eq!(store.get_org(org.id, &u).unwrap().status, 200);
    // A member's deletion replies 204 and the organization is gone.
    assert_eq!(store.delete_org(&u, org.id).unwrap().status, 204);
    assert_eq!(store.get_org(org.id, &u).unwrap().status, 401);
}

#[test]
fn update_org_keeps_creation_time() {
    let mut store = Backend::new();
    let u = signed_up(&mut store, "a@b.c");
    let org = store
        .create_org(CreateOrgReqPayload { name: "Acme".to_string() }, &u)
        .unwrap()
        .body;
    let reply = store
        .update_org(UpdateOrgReqPayload { name: "Acme, Inc.".to_string() }, org.id, &u)
        .unwrap();
    assert_eq!(reply.status, 200);
    let renamed = reply.body.unwrap();
    assert_eq!(renamed.name, "Acme, Inc.");
    assert_eq!(renamed.created_at, org.created_at);
}

#[test]
fn org_listing_handler_pages() {
    let mut store = Backend::new();
    let u = signed_up(&mut store, "a@b.c");
    for i in 0..3 {
        store
            .create_org(CreateOrgReqPayload { name: format!("org{}", i) }, &u)
            .unwrap();
    }
    let reply = store
        .get_orgs_for_authed_user(GetMyOrgsReqQuery { limit: Some(2), offset: Some(1) }, &u)
        .unwrap();
    assert_eq!(reply.status, 200);
    assert_eq!(reply.body.len(), 2);
    assert_eq!(reply.body[0].name, "org1");
}

#[test]
fn api_key_handler_returns_working_key() {
    let mut store = Backend::new();
    let u = signed_up(&mut store, "a@b.c");
    let reply = store
        .create_api_key(&u, CreateApiKeyReqPayload { name: "laptop".to_string() })
        .unwrap();
    assert_eq!(reply.status, 201);
    let resolved = store.get_user_from_api_key_query(&reply.body.api_key).unwrap();
    assert_eq!(resolved, u);
}

fn invitation(org: PrefixedUuid, email: &str, role: i32) -> InvitationData {
    InvitationData {
        organization_id: org,
        user_role: role,
        email: email.to_string(),
        app_url: "http://localhost:8090/api".to_string(),
        redirect_uri: "http://localhost:8090/api/auth/whoami".to_string(),
    }
}

#[test]
fn invitation_rejects_invalid_email() {
    let mut store = Backend::new();
    let u = signed_up(&mut store, "a@b.c");
    let org = store
        .create_org(CreateOrgReqPayload { name: "Acme".to_string() }, &u)
        .unwrap()
        .body;
    let caller = store.get_org_user_link_query(u.id, org.id).unwrap();
    let r = store.post_invitation(invitation(org.id, "not an email", 0), &caller);
    assert_eq!(r.unwrap_err(), ServiceError::BadRequest("Invalid email".to_string()));
}

#[test]
fn invitation_rejects_role_above_callers() {
    let mut store = Backend::new();
    let owner = signed_up(&mut store, "a@b.c");
    let invitee = signed_up(&mut store, "d@e.f");
    let org = store
        .create_org(CreateOrgReqPayload { name: "Acme".to_string() }, &owner)
        .unwrap()
        .body;
    // Give the invitee an Admin membership; an Admin may not grant Owner.
    store
        .add_user_to_org_query(invitee.id, org.id, crm_core::roles::UserRole::Admin)
        .unwrap();
    let admin = store.get_org_user_link_query(invitee.id, org.id).unwrap();
    let third = signed_up(&mut store, "g@h.i");
    let _ = third;
    let r = store.post_invitation(invitation(org.id, "g@h.i", 2), &admin);
    assert_eq!(
        r.unwrap_err(),
        ServiceError::BadRequest("Can not invite user with higher role than yours".to_string())
    );
}

#[test]
fn invitation_links_and_builds_registration_url() {
    let mut store = Backend::new();
    let owner = signed_up(&mut store, "a@b.c");
    let invitee = signed_up(&mut store, "d@e.f");
    let org = store
        .create_org(CreateOrgReqPayload { name: "Acme".to_string() }, &owner)
        .unwrap()
        .body;
    let caller = store.get_org_user_link_query(owner.id, org.id).unwrap();
    let reply = store
        .post_invitation(invitation(org.id, "d@e.f", 1), &caller)
        .unwrap();
    assert_eq!(reply.status, 204);
    let url = reply.body.registration_url;
    assert!(url.starts_with("http://localhost:8090/api/auth?inv_code="));
    assert!(url.contains(&format!("&organization_id={}", org.id.format())));
    assert!(url.ends_with("&redirect_uri=http://localhost:8090/api/auth/whoami"));
    // The invitee is now an admin member.
    let link = store.get_org_user_link_query(invitee.id, org.id).unwrap();
    assert_eq!(link.role, 1);
    // Inviting the same member again trips membership uniqueness.
    let again = store.post_invitation(invitation(org.id, "d@e.f", 1), &caller);
    assert_eq!(
        again.unwrap_err(),
        ServiceError::BadRequest("User and organization already linked".to_string())
    );
}

#[test]
fn invitation_requires_known_account() {
    let mut store = Backend::new();
    let owner = signed_up(&mut store, "a@b.c");
    let org = store
        .create_org(CreateOrgReqPayload { name: "Acme".to_string() }, &owner)
        .unwrap()
        .body;
    let caller = store.get_org_user_link_query(owner.id, org.id).unwrap();
    let r = store.post_invitation(invitation(org.id, "nobody@e.f", 0), &caller);
    assert_eq!(
        r.unwrap_err(),
        ServiceError::BadRequest("Error loading user for get_user_by_email_query".to_string())
    );
}

#[test]
fn note_handlers_cover_cross_org_access() {
    let mut store = Backend::new();
    let u = signed_up(&mut store, "a@b.c");
    let org = store
        .create_org(CreateOrgReqPayload { name: "Acme".to_string() }, &u)
        .unwrap()
        .body;
    let other = store
        .create_org(CreateOrgReqPayload { name: "Beta".to_string() }, &u)
        .unwrap()
        .body;
    let member = store.get_org_user_link_query(u.id, org.id).unwrap();
    let other_member = store.get_org_user_link_query(u.id, other.id).unwrap();

    let created = store
        .create_note(CreateNoteReqPayload { title: "minutes".to_string() }, &member)
        .unwrap();
    assert_eq!(created.status, 201);
    let note = created.body;
    assert_eq!(note.body, "");

    let updated = store
        .update_note(UpdateNoteReqPayload { body: "hello".to_string() }, note.id, &member)
        .unwrap();
    assert_eq!(updated.status, 200);
    assert_eq!(updated.body.body, "hello");

    // Reading it through a membership of another organization: 401.
    let foreign = store.get_note_by_id(note.id, &other_member).unwrap();
    assert_eq!(foreign.status, 401);
    let own = store.get_note_by_id(note.id, &member).unwrap();
    assert_eq!(own.status, 200);
    assert_eq!(own.body.unwrap().body, "hello");

    assert_eq!(store.delete_note(&member, note.id).unwrap().status, 204);
    assert_eq!(
        store.get_note_by_id(note.id, &member),
        Err(ServiceError::NotFound)
    );
}

#[test]
fn whoami_and_health() {
    let mut store = Backend::new();
    let u = signed_up(&mut store, "a@b.c");
    let me = crm_core::handlers::whoami(u.clone()).unwrap();
    assert_eq!(me.status, 200);
    assert_eq!(me.body, u);
    assert_eq!(crm_core::handlers::health_check().unwrap().status, 200);
}

#[test]
fn org_scoped_reads_refuse_foreign_resources() {
    let mut store = Backend::new();
    let u = signed_up(&mut store, "a@b.c");
    let home = store
        .create_org(CreateOrgReqPayload { name: "Home".to_string() }, &u)
        .unwrap()
        .body;
    let away = store
        .create_org(CreateOrgReqPayload { name: "Away".to_string() }, &u)
        .unwrap()
        .body;
    let home_member = store.get_org_user_link_query(u.id, home.id).unwrap();
    let away_member = store.get_org_user_link_query(u.id, away.id).unwrap();

    let contact = store
        .create_contact_query(home.id, "Ada".to_string(), "Lovelace".to_string())
        .unwrap();
    let deal = store.create_deal_query(home.id, None, None, true).unwrap();
    let email = store.create_email_query(home.id, "x@y.z".to_string()).unwrap();
    let phone = store.create_phone_query(home.id, "+15551234567".to_string()).unwrap();
    let link = store.create_link_query("https://example.com".to_string(), home.id).unwrap();
    let task = store.create_task_query(home.id, None, None, None).unwrap();

    // The owning organization's member reads each with 200.
    assert_eq!(store.get_contact(contact.id, &home_member).unwrap().status, 200);
    assert_eq!(store.get_deal(deal.id, &home_member).unwrap().status, 200);
    assert_eq!(store.get_email(email.id, &home_member).unwrap().status, 200);
    assert_eq!(store.get_phone(phone.id, &home_member).unwrap().status, 200);
    assert_eq!(store.get_link(link.id, &home_member).unwrap().status, 200);
    assert_eq!(store.get_task(task.id, &home_member).unwrap().status, 200);

    // A membership of another organization gets 401 and no body.
    for reply_status_body in [
        {
            let r = store.get_contact(contact.id, &away_member).unwrap();
            (r.status, r.body.is_none())
        },
        {
            let r = store.get_deal(deal.id, &away_member).unwrap();
            (r.status, r.body.is_none())
        },
        {
            let r = store.get_email(email.id, &away_member).unwrap();
            (r.status, r.body.is_none())
        },
        {
            let r = store.get_phone(phone.id, &away_member).unwrap();
            (r.status, r.body.is_none())
        },
        {
            let r = store.get_link(link.id, &away_member).unwrap();
            (r.status, r.body.is_none())
        },
        {
            let r = store.get_task(task.id, &away_member).unwrap();
            (r.status, r.body.is_none())
        },
    ] {
        assert_eq!(reply_status_body, (401, true));
    }

    // An absent record is 404 with no body.
    store.delete_contact_query(contact.id).unwrap();
    let gone = store.get_contact(contact.id, &home_member).unwrap();
    assert_eq!(gone.status, 404);
    assert!(gone.body.is_none());
}

#[test]
fn org_scoped_updates_and_deletes_refuse_foreign_resources() {
    let mut store = Backend::new();
    let u = signed_up(&mut store, "a@b.c");
    let home = store
        .create_org(CreateOrgReqPayload { name: "Home".to_string() }, &u)
        .unwrap()
        .body;
    let away = store
        .create_org(CreateOrgReqPayload { name: "Away".to_string() }, &u)
        .unwrap()
        .body;
    let home_member = store.get_org_user_link_query(u.id, home.id).unwrap();
    let away_member = store.get_org_user_link_query(u.id, away.id).unwrap();

    let contact = store
        .create_contact(
            CreateContactReqPayload {
                first_name: "Ada".to_string(),
                last_name: "Lovelace".to_string(),
            },
            &home_member,
        )
        .unwrap()
        .body;
    let note = store
        .create_note(CreateNoteReqPayload { title: "minutes".to_string() }, &home_member)
        .unwrap()
        .body;
    let task = store.create_task_query(home.id, None, None, None).unwrap();

    // A foreign membership may neither update nor delete.
    let denied = store.update_contact(
        UpdateContactReqPayload { first_name: Some("Eve".to_string()), last_name: None },
        contact.id,
        &away_member,
    );
    assert_eq!(denied.unwrap_err(), ServiceError::Unauthorized);
    assert_eq!(
        store.delete_contact(&away_member, contact.id).unwrap_err(),
        ServiceError::Unauthorized
    );
    assert_eq!(
        store
            .update_note(UpdateNoteReqPayload { body: "stolen".to_string() }, note.id,
                &away_member)
            .unwrap_err(),
        ServiceError::Unauthorized
    );
    assert_eq!(
        store.delete_note(&away_member, note.id).unwrap_err(),
        ServiceError::Unauthorized
    );
    assert_eq!(
        store
            .update_task(
                UpdateTaskReqPayload { description: None, deadline: None, contact_id: None },
                task.id,
                &away_member,
            )
            .unwrap_err(),
        ServiceError::Unauthorized
    );
    assert_eq!(
        store.delete_task(&away_member, task.id).unwrap_err(),
        ServiceError::Unauthorized
    );

    // Everything is untouched and still owned by the home organization.
    assert_eq!(store.get_contact(contact.id, &home_member).unwrap().status, 200);
    let kept = store.get_note_by_id(note.id, &home_member).unwrap();
    assert_eq!(kept.status, 200);
    assert_eq!(kept.body.unwrap().body, "");

    // The owning member updates and deletes as before.
    let renamed = store
        .update_contact(
            UpdateContactReqPayload { first_name: Some("Eve".to_string()), last_name: None },
            contact.id,
            &home_member,
        )
        .unwrap();
    assert_eq!(renamed.status, 200);
    assert_eq!(renamed.body.first_name, "Eve");
    assert_eq!(store.delete_contact(&home_member, contact.id).unwrap().status, 204);
    assert_eq!(store.delete_note(&home_member, note.id).unwrap().status, 204);
    assert_eq!(store.delete_task(&home_member, task.id).unwrap().status, 204);
}
