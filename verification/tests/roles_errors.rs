use crm_core::errors::ServiceError;
use crm_core::roles::UserRole;

#[test]
fn role_integers_round_trip() {
    assert_eq!(UserRole::User.as_i32(), 0);
    assert_eq!(UserRole::Admin.as_i32(), 1);
    assert_eq!(UserRole::Owner.as_i32(), 2);
    assert_eq!(UserRole::from_i32(0), UserRole::User);
    assert_eq!(UserRole::from_i32(1), UserRole::Admin);
    assert_eq!(UserRole::from_i32(2), UserRole::Owner);
}

#[test]
fn unknown_role_integers_fall_back_to_user() {
    assert_eq!(UserRole::from_i32(-1), UserRole::User);
    assert_eq!(UserRole::from_i32(3), UserRole::User);
    assert_eq!(UserRole::from_i32(i32::MAX), UserRole::User);
}

#[test]
fn role_order_is_user_below_admin_below_owner() {
    assert!(UserRole::Admin.at_least(&UserRole::User));
    assert!(UserRole::Owner.at_least(&UserRole::Admin));
    assert!(UserRole::Owner.at_least(&UserRole::User));
    assert!(!UserRole::User.at_least(&UserRole::Admin));
    assert!(!UserRole::User.at_least(&UserRole::Owner));
    assert!(!UserRole::Admin.at_least(&UserRole::Owner));
    assert!(UserRole::User.at_least(&UserRole::User));
    assert!(UserRole::Admin.at_least(&UserRole::Admin));
    assert!(UserRole::Owner.at_least(&UserRole::Owner));
}

#[test]
fn status_codes_match_taxonomy() {
    assert_eq!(ServiceError::InternalServerError("x".to_string()).status_code(), 500);
    assert_eq!(ServiceError::BadRequest("x".to_string()).status_code(), 400);
    assert_eq!(ServiceError::Unauthorized.status_code(), 401);
    assert_eq!(ServiceError::Forbidden.status_code(), 403);
    assert_eq!(ServiceError::NotFound.status_code(), 404);
}

#[test]
fn error_payload_messages() {
    assert_eq!(
        ServiceError::BadRequest("broken".to_string()).to_payload().message,
        "broken"
    );
    assert_eq!(ServiceError::Unauthorized.to_payload().message, "Unauthorized");
    assert_eq!(ServiceError::Forbidden.to_payload().message, "Forbidden");
    assert_eq!(ServiceError::NotFound.to_payload().message, "Record not found");
}

#[test]
fn id_parse_error_maps_to_bad_request() {
    let e = ServiceError::from_id_parse_error(crm_core::ids::IdParseError::WrongTag);
    assert_eq!(e, ServiceError::BadRequest("Invalid UUID".to_string()));
    assert_eq!(e.status_code(), 400);
}
