use crm_core::errors::ServiceError;
use crm_core::handlers::{GetTaskResourceQuery, TaskResType, TaskResource, TaskResourceList};
use crm_core::ids::{PrefixedUuid, ResourceTag};
use crm_core::store::Backend;

fn org(store: &mut Backend) -> PrefixedUuid {
    let u = store
        .create_user_query(PrefixedUuid::create(ResourceTag::User), "a@b.c".to_string(), None)
        .unwrap();
    store.create_org_query("Acme".to_string(), &u).unwrap().id
}

#[test]
fn task_crud_round_trip() {
    let mut store = Backend::new();
    let org_id = org(&mut store);
    let t = store
        .create_task_query(org_id, None, Some("call Ada".to_string()), Some(1_700_000_000))
        .unwrap();
    assert_eq!(store.get_task_by_id(t.id).unwrap(), t);
    let updated = store
        .update_task_query(t.id, Some("call Byron".to_string()), None, None)
        .unwrap();
    assert_eq!(updated.description.as_deref(), Some("call Byron"));
    assert_eq!(updated.deadline, Some(1_700_000_000));
    store.delete_task_query(t.id).unwrap();
    assert_eq!(store.get_task_by_id(t.id), Err(ServiceError::NotFound));
}

#[test]
fn associations_join_and_page() {
    let mut store = Backend::new();
    let org_id = org(&mut store);
    let task = store.create_task_query(org_id, None, None, None).unwrap();
    let d1 = store
        .create_deal_query(org_id, Some("one".to_string()), None, true)
        .unwrap();
    let d2 = store
        .create_deal_query(org_id, Some("two".to_string()), None, true)
        .unwrap();
    let d3 = store
        .create_deal_query(org_id, Some("three".to_string()), None, true)
        .unwrap();
    store.create_deal_for_task_query(task.id, d1.id).unwrap();
    store.create_deal_for_task_query(task.id, d3.id).unwrap();

    let (deals, total) = store.list_deals_by_task_id(task.id, None, None).unwrap();
    assert_eq!(total, 2);
    assert_eq!(deals.len(), 2);
    assert_eq!(deals[0].id, d1.id);
    assert_eq!(deals[1].id, d3.id);
    assert!(!deals.iter().any(|d| d.id == d2.id));

    // Dropping the association removes the deal from the join but not
    // the deal itself.
    store.delete_deal_from_task_query(task.id, d1.id).unwrap();
    let (deals, total) = store.list_deals_by_task_id(task.id, None, None).unwrap();
    assert_eq!(total, 1);
    assert_eq!(deals[0].id, d3.id);
    assert!(store.get_deal_by_id(d1.id).is_ok());

    // A deleted deal leaves a dangling association that joins to
    // nothing.
    store.delete_deal_query(d3.id).unwrap();
    let (deals, total) = store.list_deals_by_task_id(task.id, None, None).unwrap();
    assert_eq!(total, 0);
    assert!(deals.is_empty());

    // Listing for an unknown task is NotFound.
    store.delete_task_query(task.id).unwrap();
    assert_eq!(
        store.list_deals_by_task_id(task.id, None, None),
        Err(ServiceError::NotFound)
    );
}

#[test]
fn task_resource_dispatch_parses_typed_ids() {
    let mut store = Backend::new();
    let org_id = org(&mut store);
    let task = store.create_task_query(org_id, None, None, None).unwrap();
    let link = store
        .create_link_query("https://example.com".to_string(), org_id)
        .unwrap();

    // A link identifier under the link kind: accepted.
    let reply = store
        .create_task_resource(task.id, TaskResType::Link, &link.id.format())
        .unwrap();
    assert_eq!(reply.status, 201);
    match reply.body {
        TaskResource::Link(row) => {
            assert_eq!(row.task_id, task.id);
            assert_eq!(row.link_id, link.id);
        }
        _ => panic!("expected a link association"),
    }

    // The same identifier under the deal kind: rejected as a bad id.
    let confused = store.create_task_resource(task.id, TaskResType::Deal, &link.id.format());
    assert_eq!(
        confused.unwrap_err(),
        ServiceError::BadRequest("Invalid UUID".to_string())
    );

    let listed = store
        .list_task_resource(
            task.id,
            TaskResType::Link,
            GetTaskResourceQuery { limit: None, offset: None },
        )
        .unwrap();
    assert_eq!(listed.status, 200);
    assert_eq!(listed.body.total, 1);
    match listed.body.data {
        TaskResourceList::Link(links) => assert_eq!(links[0].id, link.id),
        _ => panic!("expected links"),
    }

    let dropped = store
        .delete_task_resource(task.id, TaskResType::Link, &link.id.format())
        .unwrap();
    assert_eq!(dropped.status, 204);
    let listed = store
        .list_task_resource(
            task.id,
            TaskResType::Link,
            GetTaskResourceQuery { limit: None, offset: None },
        )
        .unwrap();
    assert_eq!(listed.body.total, 0);
}

#[test]
fn user_associations_join_users() {
    let mut store = Backend::new();
    let u = store
        .create_user_query(PrefixedUuid::create(ResourceTag::User), "a@b.c".to_string(), None)
        .unwrap();
    let org_id = store.create_org_query("Acme".to_string(), &u).unwrap().id;
    let task = store.create_task_query(org_id, None, None, None).unwrap();
    store.create_user_for_task_query(task.id, u.id).unwrap();
    let (users, total) = store.list_users_by_task_id(task.id, None, None).unwrap();
    assert_eq!(total, 1);
    assert_eq!(users[0].id, u.id);
    store.delete_user_from_task_query(task.id, u.id).unwrap();
    let (users, total) = store.list_users_by_task_id(task.id, None, None).unwrap();
    assert_eq!(total, 0);
    assert!(users.is_empty());
}
