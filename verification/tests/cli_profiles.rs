use crm_core::cli::{
    delete_profile, reduce_option, switch_profile, transform_option, upsert_profile,
    ActixTemplateConfiguration, ActixTemplateProfile, ActixTemplateProfileInner, DefaultError,
};

fn profile(name: &str, selected: bool) -> ActixTemplateProfileInner {
    ActixTemplateProfileInner {
        name: name.to_string(),
        settings: ActixTemplateConfiguration {
            api_key: format!("key-{}", name),
            org_id: String::new(),
            api_url: "http://localhost:8090".to_string(),
        },
        selected,
    }
}

#[test]
fn defaults_point_at_the_local_server() {
    let cfg = ActixTemplateConfiguration::default();
    assert_eq!(cfg.api_url, "http://localhost:8090");
    assert!(cfg.api_key.is_empty());
    assert!(cfg.org_id.is_empty());
    let profiles = ActixTemplateProfile::default();
    assert_eq!(profiles.inner.len(), 1);
    assert_eq!(profiles.inner[0].name, "default");
}

#[test]
fn switching_selects_exactly_the_named_profile() {
    let profiles = vec![profile("work", true), profile("home", false)];
    let switched = switch_profile(profiles, "home").unwrap();
    assert!(!switched[0].selected);
    assert!(switched[1].selected);
    assert_eq!(switched[0].name, "work");
    assert_eq!(switched[1].settings.api_key, "key-home");
}

#[test]
fn switching_to_a_missing_profile_fails() {
    let profiles = vec![profile("work", true)];
    let err = switch_profile(profiles, "nope").unwrap_err();
    assert_eq!(err, DefaultError::new("Profile 'nope' not found."));
}

#[test]
fn deleting_moves_selection_to_the_first_remaining() {
    let profiles = vec![profile("work", true), profile("home", false)];
    let rest = delete_profile(profiles, "work").unwrap();
    assert_eq!(rest.len(), 1);
    assert_eq!(rest[0].name, "home");
    assert!(rest[0].selected);
}

#[test]
fn deleting_an_unselected_profile_keeps_selection() {
    let profiles = vec![profile("work", true), profile("home", false)];
    let rest = delete_profile(profiles, "home").unwrap();
    assert_eq!(rest.len(), 1);
    assert_eq!(rest[0].name, "work");
    assert!(rest[0].selected);
}

#[test]
fn deleting_the_last_selected_profile_fails() {
    let profiles = vec![profile("only", true)];
    let err = delete_profile(profiles, "only").unwrap_err();
    assert_eq!(err, DefaultError::new("Cannot delete the last profile."));
}

#[test]
fn deleting_a_missing_profile_fails() {
    let profiles = vec![profile("work", false)];
    let err = delete_profile(profiles, "nope").unwrap_err();
    assert_eq!(err, DefaultError::new("Profile 'nope' not found."));
}

#[test]
fn upsert_replaces_and_selects() {
    let profiles = vec![profile("work", true), profile("home", false)];
    let settings = ActixTemplateConfiguration {
        api_key: "fresh".to_string(),
        org_id: "org".to_string(),
        api_url: "http://localhost:8090".to_string(),
    };
    let saved = upsert_profile(profiles, "work".to_string(), settings);
    assert_eq!(saved.len(), 2);
    assert_eq!(saved[0].name, "home");
    assert!(!saved[0].selected);
    assert_eq!(saved[1].name, "work");
    assert!(saved[1].selected);
    assert_eq!(saved[1].settings.api_key, "fresh");
}

#[test]
fn option_helpers() {
    assert_eq!(transform_option(Some(3)), Some(Some(3)));
    assert_eq!(transform_option::<i32>(None), None);
    assert_eq!(reduce_option(Some(Some("x".to_string()))), "x");
    assert_eq!(reduce_option(Some(None)), "");
    assert_eq!(reduce_option(None), "");
}

#[test]
fn default_error_carries_its_message() {
    let e = DefaultError::new("boom");
    assert_eq!(e.message, "boom");
}

#[test]
fn client_task_deal_shape() {
    let td = crm_core::client::TaskDeal::new(
        "2021-01-01T00:00:00".to_string(),
        "deal-00000000-0000-0000-0000-000000000000".to_string(),
        "00000000-0000-0000-0000-000000000001".to_string(),
        "task-00000000-0000-0000-0000-000000000002".to_string(),
        "2021-01-02T00:00:00".to_string(),
    );
    assert_eq!(td.deal_id, "deal-00000000-0000-0000-0000-000000000000");
    assert_eq!(td.task_id, "task-00000000-0000-0000-0000-000000000002");
}
