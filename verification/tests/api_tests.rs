use user_service::api::{api_document, lookup_status, register_status, HttpMethod};
use user_service::service::{LookupError, PublicUser, RegisterError, RegistrationResult};
use user_service::validate::ValidationError;

#[test]
fn document_lists_exactly_the_two_operations() {
    let doc = api_document();
    assert_eq!(doc.operations.len(), 2);

    let lookup = &doc.operations[0];
    assert_eq!(lookup.method, HttpMethod::Get);
    assert_eq!(lookup.path, "/user/:name");
    assert!(lookup.request_body.is_none());
    assert_eq!(lookup.statuses, vec![200u16, 400, 404, 503]);

    let register = &doc.operations[1];
    assert_eq!(register.method, HttpMethod::Post);
    assert_eq!(register.path, "/create/user");
    assert_eq!(register.request_body.as_deref(), Some("User"));
    assert_eq!(register.statuses, vec![200u16, 400, 409, 503]);
}

#[test]
fn document_lists_the_component_schemas() {
    let doc = api_document();
    assert_eq!(doc.schemas, vec!["User".to_string(), "Success".to_string()]);
}

#[test]
fn registration_outcomes_map_to_their_status_codes() {
    let success = RegistrationResult::Success {
        email: "a@b.com".to_string(),
        name: Some("A".to_string()),
    };
    assert_eq!(register_status(&success), 200);
    let invalid = RegistrationResult::Failure {
        error: RegisterError::Validation(ValidationError::InvalidEmail),
    };
    assert_eq!(register_status(&invalid), 400);
    let duplicate = RegistrationResult::Failure { error: RegisterError::DuplicateEmail };
    assert_eq!(register_status(&duplicate), 409);
    let unavailable = RegistrationResult::Failure { error: RegisterError::StoreUnavailable };
    assert_eq!(register_status(&unavailable), 503);
}

#[test]
fn lookup_outcomes_map_to_their_status_codes() {
    let found: Result<PublicUser, LookupError> = Ok(PublicUser {
        email: "a@b.com".to_string(),
        name: Some("A".to_string()),
    });
    assert_eq!(lookup_status(&found), 200);
    assert_eq!(lookup_status(&Err(LookupError::BadRequest)), 400);
    assert_eq!(lookup_status(&Err(LookupError::NotFound)), 404);
    assert_eq!(lookup_status(&Err(LookupError::StoreUnavailable)), 503);
}

#[test]
fn every_reachable_status_is_documented() {
    let doc = api_document();
    let lookup_codes = &doc.operations[0].statuses;
    let register_codes = &doc.operations[1].statuses;

    for code in [
        register_status(&RegistrationResult::Success {
            email: "a@b.com".to_string(),
            name: None,
        }),
        register_status(&RegistrationResult::Failure {
            error: RegisterError::Validation(ValidationError::MissingPassword),
        }),
        register_status(&RegistrationResult::Failure { error: RegisterError::DuplicateEmail }),
        register_status(&RegistrationResult::Failure { error: RegisterError::StoreUnavailable }),
    ] {
        assert!(register_codes.contains(&code));
    }

    for code in [
        lookup_status(&Ok(PublicUser { email: "a@b.com".to_string(), name: None })),
        lookup_status(&Err(LookupError::BadRequest)),
        lookup_status(&Err(LookupError::NotFound)),
        lookup_status(&Err(LookupError::StoreUnavailable)),
    ] {
        assert!(lookup_codes.contains(&code));
    }
}
