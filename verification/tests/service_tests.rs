use user_service::service::{
    find_by_name, prepare_registration, register, settle_lookup, settle_registration, LookupError,
    RegisterError, RegistrationResult,
};
use user_service::store::{InMemoryStore, StoreError, User};
use user_service::validate::{Payload, ValidationError};

fn payload(email: Option<&str>, name: Option<&str>, password: Option<&str>) -> Payload {
    Payload {
        email: email.map(|s| s.to_string()),
        name: name.map(|s| s.to_string()),
        password: password.map(|s| s.to_string()),
    }
}

fn user(email: &str, name: Option<&str>, password: &str) -> User {
    User {
        email: email.to_string(),
        name: name.map(|s| s.to_string()),
        password: password.to_string(),
    }
}

#[test]
fn register_missing_email_persists_nothing() {
    let mut store = InMemoryStore::new();
    let r = register(&mut store, &payload(None, Some("A"), Some("p")));
    assert!(matches!(
        r,
        RegistrationResult::Failure {
            error: RegisterError::Validation(ValidationError::MissingEmail)
        }
    ));
    assert_eq!(store.users.len(), 0);
}

#[test]
fn register_malformed_email_is_rejected() {
    let mut store = InMemoryStore::new();
    let r = register(&mut store, &payload(Some("not-an-address"), Some("A"), Some("p")));
    assert!(matches!(
        r,
        RegistrationResult::Failure {
            error: RegisterError::Validation(ValidationError::InvalidEmail)
        }
    ));
    assert_eq!(store.users.len(), 0);
}

#[test]
fn register_success_returns_public_fields() {
    let mut store = InMemoryStore::new();
    let r = register(&mut store, &payload(Some("a@b.com"), Some("A"), Some("p")));
    match r {
        RegistrationResult::Success { email, name } => {
            assert_eq!(email, "a@b.com");
            assert_eq!(name.as_deref(), Some("A"));
        },
        RegistrationResult::Failure { .. } => panic!("registration should succeed"),
    }
    assert_eq!(store.users.len(), 1);
    assert!(store.exists_by_email("a@b.com"));
}

#[test]
fn second_registration_of_same_email_is_duplicate() {
    let mut store = InMemoryStore::new();
    let first = register(&mut store, &payload(Some("a@b.com"), Some("A"), Some("p")));
    assert!(matches!(first, RegistrationResult::Success { .. }));
    let second = register(&mut store, &payload(Some("a@b.com"), Some("B"), Some("q")));
    assert!(matches!(
        second,
        RegistrationResult::Failure { error: RegisterError::DuplicateEmail }
    ));
    // Exactly one record with that address is persisted.
    let with_email = store.users.iter().filter(|u| u.email == "a@b.com").count();
    assert_eq!(with_email, 1);
    assert_eq!(store.users.len(), 1);
}

#[test]
fn same_email_from_two_callers_exactly_one_succeeds() {
    let mut store = InMemoryStore::new();
    let caller_one = register(&mut store, &payload(Some("x@y.zz"), Some("one"), Some("p1")));
    let caller_two = register(&mut store, &payload(Some("x@y.zz"), Some("two"), Some("p2")));
    let successes = [&caller_one, &caller_two]
        .iter()
        .filter(|r| matches!(r, RegistrationResult::Success { .. }))
        .count();
    assert_eq!(successes, 1);
    assert!(matches!(
        caller_two,
        RegistrationResult::Failure { error: RegisterError::DuplicateEmail }
    ));
}

#[test]
fn round_trip_register_then_find_by_name() {
    let mut store = InMemoryStore::new();
    let r = register(&mut store, &payload(Some("a@b.com"), Some("A"), Some("p")));
    assert!(matches!(r, RegistrationResult::Success { .. }));
    let found = find_by_name(&store, "A").expect("the new account should be found");
    assert_eq!(found.email, "a@b.com");
    assert_eq!(found.name.as_deref(), Some("A"));
    // PublicUser carries e-mail and name only; there is no password field.
    let user_service::service::PublicUser { email: _, name: _ } = found;
}

#[test]
fn find_by_empty_name_is_bad_request() {
    let mut store = InMemoryStore::new();
    register(&mut store, &payload(Some("a@b.com"), Some("A"), Some("p")));
    assert_eq!(find_by_name(&store, "").unwrap_err(), LookupError::BadRequest);
}

#[test]
fn find_by_unknown_name_is_not_found() {
    let mut store = InMemoryStore::new();
    register(&mut store, &payload(Some("a@b.com"), Some("A"), Some("p")));
    assert_eq!(find_by_name(&store, "nonexistent").unwrap_err(), LookupError::NotFound);
}

#[test]
fn find_by_name_returns_the_first_match() {
    let mut store = InMemoryStore::new();
    register(&mut store, &payload(Some("a@b.com"), Some("A"), Some("p")));
    register(&mut store, &payload(Some("c@d.com"), Some("A"), Some("q")));
    let found = find_by_name(&store, "A").unwrap();
    assert_eq!(found.email, "a@b.com");
}

#[test]
fn store_put_rejects_duplicate_email_itself() {
    // Defense in depth: the store refuses a second record with the same
    // address even when no caller checked first.
    let mut store = InMemoryStore::new();
    assert_eq!(store.put(user("a@b.com", Some("A"), "p")), Ok(()));
    assert_eq!(store.put(user("a@b.com", Some("B"), "q")), Err(StoreError::Conflict));
    assert_eq!(store.users.len(), 1);
}

#[test]
fn store_get_by_name_returns_absent_not_error() {
    let store = InMemoryStore::new();
    assert!(store.get_by_name("anyone").is_none());
}

#[test]
fn prepare_registration_builds_the_record() {
    let u = prepare_registration(&payload(Some("a@b.com"), Some("A"), Some("p"))).unwrap();
    assert_eq!(u.email, "a@b.com");
    assert_eq!(u.name.as_deref(), Some("A"));
    assert_eq!(u.password, "p");
}

#[test]
fn prepare_registration_rejects_like_the_validator() {
    let r = prepare_registration(&payload(Some("a@b.com"), Some("A"), None));
    assert_eq!(r.unwrap_err(), ValidationError::MissingPassword);
}

#[test]
fn settle_registration_maps_conflict_to_duplicate() {
    // A write that lost the race comes back as Conflict and is reported as
    // a duplicate, exactly as if the duplicate check had caught it.
    let r = settle_registration("a@b.com".to_string(), None, Err(StoreError::Conflict));
    assert!(matches!(
        r,
        RegistrationResult::Failure { error: RegisterError::DuplicateEmail }
    ));
}

#[test]
fn settle_registration_maps_unavailable_store() {
    let r = settle_registration("a@b.com".to_string(), None, Err(StoreError::Unavailable));
    assert!(matches!(
        r,
        RegistrationResult::Failure { error: RegisterError::StoreUnavailable }
    ));
}

#[test]
fn settle_lookup_maps_store_outcomes() {
    let fetched = settle_lookup(Ok(Some(user("a@b.com", Some("A"), "p")))).unwrap();
    assert_eq!(fetched.email, "a@b.com");
    assert_eq!(fetched.name.as_deref(), Some("A"));
    assert_eq!(settle_lookup(Ok(None)).unwrap_err(), LookupError::NotFound);
    assert_eq!(
        settle_lookup(Err(StoreError::Unavailable)).unwrap_err(),
        LookupError::StoreUnavailable
    );
}
