use user_api::domain::{DomainError, User};
use user_api::memory::InMemoryUserRepo;
use user_api::service::{default_active, found_or_not_found, removed_or_not_found, UserService};

fn fresh() -> UserService<InMemoryUserRepo> {
    UserService::new(InMemoryUserRepo::new())
}

#[test]
fn create_rejects_blank_username() {
    let mut svc = fresh();
    for name in ["", " ", "   ", " \t\n "] {
        let r = svc.create_user(name.to_owned(), "a@x.com".to_owned(), None);
        match r {
            Err(DomainError::Validation(m)) => assert_eq!(m, "username is required"),
            _ => panic!("blank username accepted"),
        }
    }
    // no repository call was made: the store is still empty
    let listed = svc.list_users(None, None, None).unwrap();
    assert!(listed.is_empty());
}

#[test]
fn create_rejects_email_without_at() {
    let mut svc = fresh();
    let r = svc.create_user("alice".to_owned(), "not-an-email".to_owned(), None);
    match r {
        Err(DomainError::Validation(m)) => assert_eq!(m, "email is invalid"),
        _ => panic!("bad email accepted"),
    }
}

#[test]
fn update_rejects_email_without_at() {
    let mut svc = fresh();
    let u = svc.create_user("alice".to_owned(), "a@x.com".to_owned(), None).unwrap();
    let r = svc.update_user(u.id, None, Some("nope".to_owned()), None);
    match r {
        Err(DomainError::Validation(m)) => assert_eq!(m, "email is invalid"),
        _ => panic!("bad email accepted on update"),
    }
}

#[test]
fn create_defaults_active_to_true() {
    let mut svc = fresh();
    let u = svc.create_user("alice".to_owned(), "a@x.com".to_owned(), None).unwrap();
    assert!(u.active);
    assert_eq!(u.username, "alice");
    assert_eq!(u.email, "a@x.com");
    assert_eq!(u.created_at, u.updated_at);
}

#[test]
fn create_respects_explicit_active() {
    let mut svc = fresh();
    let u = svc.create_user("bob".to_owned(), "b@x.com".to_owned(), Some(false)).unwrap();
    assert!(!u.active);
}

#[test]
fn get_missing_is_not_found() {
    let svc = fresh();
    match svc.get_user(12345) {
        Err(DomainError::NotFound) => {}
        _ => panic!("expected NotFound"),
    }
}

#[test]
fn get_after_create_returns_same_fields() {
    let mut svc = fresh();
    let u = svc.create_user("alice".to_owned(), "a@x.com".to_owned(), None).unwrap();
    let w = svc.get_user(u.id).unwrap();
    assert_eq!(w.id, u.id);
    assert_eq!(w.username, "alice");
    assert_eq!(w.email, "a@x.com");
    assert!(w.active);
}

#[test]
fn list_orders_most_recent_first() {
    let mut svc = fresh();
    let a = svc.create_user("a".to_owned(), "a@x.com".to_owned(), None).unwrap();
    let b = svc.create_user("b".to_owned(), "b@x.com".to_owned(), None).unwrap();
    let c = svc.create_user("c".to_owned(), "c@x.com".to_owned(), None).unwrap();
    let all = svc.list_users(None, None, None).unwrap();
    assert_eq!(all.len(), 3);
    assert_eq!(all[0].id, c.id);
    assert_eq!(all[1].id, b.id);
    assert_eq!(all[2].id, a.id);
}

#[test]
fn list_filters_by_active() {
    let mut svc = fresh();
    svc.create_user("a".to_owned(), "a@x.com".to_owned(), Some(true)).unwrap();
    let b = svc.create_user("b".to_owned(), "b@x.com".to_owned(), Some(false)).unwrap();
    let inactive = svc.list_users(Some(false), None, None).unwrap();
    assert_eq!(inactive.len(), 1);
    assert_eq!(inactive[0].id, b.id);
    let active = svc.list_users(Some(true), None, None).unwrap();
    assert_eq!(active.len(), 1);
    assert_eq!(active[0].username, "a");
}

#[test]
fn list_clamps_large_limit_to_200() {
    let mut svc = fresh();
    for i in 0..3 {
        svc.create_user(format!("u{i}"), format!("u{i}@x.com"), None).unwrap();
    }
    let all = svc.list_users(None, Some(500), None).unwrap();
    assert_eq!(all.len(), 3);
}

#[test]
fn list_clamps_zero_limit_to_1() {
    let mut svc = fresh();
    for i in 0..3 {
        svc.create_user(format!("u{i}"), format!("u{i}@x.com"), None).unwrap();
    }
    let one = svc.list_users(None, Some(0), None).unwrap();
    assert_eq!(one.len(), 1);
    assert_eq!(one[0].username, "u2");
}

#[test]
fn list_floors_negative_offset_at_0() {
    let mut svc = fresh();
    for i in 0..3 {
        svc.create_user(format!("u{i}"), format!("u{i}@x.com"), None).unwrap();
    }
    let all = svc.list_users(None, None, Some(-5)).unwrap();
    assert_eq!(all.len(), 3);
    assert_eq!(all[0].username, "u2");
}

#[test]
fn list_applies_offset_window() {
    let mut svc = fresh();
    for i in 0..5 {
        svc.create_user(format!("u{i}"), format!("u{i}@x.com"), None).unwrap();
    }
    let window = svc.list_users(None, Some(2), Some(1)).unwrap();
    assert_eq!(window.len(), 2);
    assert_eq!(window[0].username, "u3");
    assert_eq!(window[1].username, "u2");
}

#[test]
fn update_active_only_changes_active_and_advances_updated_at() {
    let mut svc = fresh();
    let u = svc.create_user("alice".to_owned(), "a@x.com".to_owned(), None).unwrap();
    let w = svc.update_user(u.id, None, None, Some(false)).unwrap();
    assert_eq!(w.id, u.id);
    assert_eq!(w.username, u.username);
    assert_eq!(w.email, u.email);
    assert!(!w.active);
    assert_eq!(w.created_at, u.created_at);
    assert!(w.updated_at > u.updated_at);
}

#[test]
fn update_replaces_supplied_fields() {
    let mut svc = fresh();
    let u = svc.create_user("alice".to_owned(), "a@x.com".to_owned(), None).unwrap();
    let w = svc
        .update_user(u.id, Some("alicia".to_owned()), Some("alicia@x.com".to_owned()), None)
        .unwrap();
    assert_eq!(w.username, "alicia");
    assert_eq!(w.email, "alicia@x.com");
    assert!(w.active);
    assert_eq!(w.created_at, u.created_at);
}

#[test]
fn update_missing_is_not_found() {
    let mut svc = fresh();
    match svc.update_user(999, None, None, Some(true)) {
        Err(DomainError::NotFound) => {}
        _ => panic!("expected NotFound"),
    }
}

#[test]
fn update_to_taken_email_conflicts() {
    let mut svc = fresh();
    svc.create_user("a".to_owned(), "a@x.com".to_owned(), None).unwrap();
    let b = svc.create_user("b".to_owned(), "b@x.com".to_owned(), None).unwrap();
    match svc.update_user(b.id, None, Some("a@x.com".to_owned()), None) {
        Err(DomainError::Conflict(_)) => {}
        _ => panic!("expected Conflict"),
    }
    // updating to an email the record already owns is no conflict
    let same = svc.update_user(b.id, None, Some("b@x.com".to_owned()), None).unwrap();
    assert_eq!(same.email, "b@x.com");
}

#[test]
fn delete_then_get_is_not_found() {
    let mut svc = fresh();
    let u = svc.create_user("alice".to_owned(), "a@x.com".to_owned(), None).unwrap();
    svc.delete_user(u.id).unwrap();
    match svc.get_user(u.id) {
        Err(DomainError::NotFound) => {}
        _ => panic!("expected NotFound after delete"),
    }
}

#[test]
fn delete_already_deleted_is_not_found() {
    let mut svc = fresh();
    let u = svc.create_user("alice".to_owned(), "a@x.com".to_owned(), None).unwrap();
    assert!(svc.delete_user(u.id).is_ok());
    match svc.delete_user(u.id) {
        Err(DomainError::NotFound) => {}
        _ => panic!("second delete must fail, not succeed"),
    }
}

#[test]
fn default_active_is_true_only_when_omitted() {
    assert!(default_active(None));
    assert!(default_active(Some(true)));
    assert!(!default_active(Some(false)));
}

#[test]
fn absence_becomes_not_found() {
    match found_or_not_found(None) {
        Err(DomainError::NotFound) => {}
        _ => panic!("absence must become NotFound"),
    }
    let u = User {
        id: 7,
        username: "alice".to_owned(),
        email: "a@x.com".to_owned(),
        active: true,
        created_at: 1,
        updated_at: 1,
    };
    match found_or_not_found(Some(u)) {
        Ok(w) => {
            assert_eq!(w.id, 7);
            assert_eq!(w.username, "alice");
        }
        _ => panic!("a found record must pass through"),
    }
}

#[test]
fn nothing_removed_becomes_not_found() {
    assert!(removed_or_not_found(true).is_ok());
    match removed_or_not_found(false) {
        Err(DomainError::NotFound) => {}
        _ => panic!("nothing removed must become NotFound"),
    }
}

#[test]
fn duplicate_email_exactly_one_succeeds() {
    let mut svc = fresh();
    let first = svc.create_user("a".to_owned(), "same@x.com".to_owned(), None);
    let second = svc.create_user("b".to_owned(), "same@x.com".to_owned(), None);
    assert!(first.is_ok());
    match second {
        Err(DomainError::Conflict(m)) => assert_eq!(m, "duplicate value (likely email)"),
        _ => panic!("expected Conflict for the duplicate email"),
    }
}
