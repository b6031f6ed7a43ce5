use user_api::boundary::{
    classify_storage_error, map_error, CreateUserReq, ListUsersQuery, UpdateUserReq,
};
use user_api::domain::DomainError;
use user_api::validate::{email_has_at, username_blank};

#[test]
fn status_mapping_is_fixed() {
    assert_eq!(map_error(&DomainError::NotFound), (404, "user not found".to_owned()));
    assert_eq!(map_error(&DomainError::Conflict("dup".to_owned())), (409, "dup".to_owned()));
    assert_eq!(map_error(&DomainError::Validation("bad".to_owned())), (400, "bad".to_owned()));
    assert_eq!(map_error(&DomainError::Unexpected("boom".to_owned())), (500, "boom".to_owned()));
}

#[test]
fn error_messages_render_kind_and_detail() {
    assert_eq!(DomainError::NotFound.message(), "not found");
    assert_eq!(DomainError::Conflict("dup".to_owned()).message(), "conflict: dup");
    assert_eq!(DomainError::Validation("bad".to_owned()).message(), "validation: bad");
    assert_eq!(DomainError::Unexpected("boom".to_owned()).message(), "unexpected: boom");
}

#[test]
fn unique_violation_code_becomes_conflict() {
    match classify_storage_error(Some("23505".to_owned()), "detail".to_owned()) {
        DomainError::Conflict(m) => assert_eq!(m, "duplicate value (likely email)"),
        _ => panic!("expected Conflict"),
    }
}

#[test]
fn other_driver_errors_become_unexpected() {
    match classify_storage_error(Some("40001".to_owned()), "serialization".to_owned()) {
        DomainError::Unexpected(m) => assert_eq!(m, "serialization"),
        _ => panic!("expected Unexpected"),
    }
    match classify_storage_error(None, "io error".to_owned()) {
        DomainError::Unexpected(m) => assert_eq!(m, "io error"),
        _ => panic!("expected Unexpected"),
    }
}

#[test]
fn request_shapes_hold_their_fields() {
    let c = CreateUserReq {
        username: "alice".to_owned(),
        email: "a@x.com".to_owned(),
        active: None,
    };
    assert!(!username_blank(&c.username));
    assert!(email_has_at(&c.email));
    let u = UpdateUserReq { username: None, email: Some("b@x.com".to_owned()), active: Some(true) };
    assert!(u.username.is_none());
    assert_eq!(u.email.as_deref(), Some("b@x.com"));
    let q = ListUsersQuery { active: Some(false), limit: Some(10), offset: None };
    assert_eq!(q.limit, Some(10));
    assert_eq!(q.active, Some(false));
    assert!(q.offset.is_none());
}

#[test]
fn blankness_follows_trim_semantics() {
    assert!(username_blank(""));
    assert!(username_blank("\u{a0}\u{2003}"));
    assert!(!username_blank(" a "));
    assert!(!email_has_at(""));
    assert!(email_has_at("@"));
}
