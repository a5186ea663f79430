//! The API surface: the two operations the service exposes, the status code
//! each outcome is reported with, and the machine-readable schema document
//! describing both operations. The document is a pure function of the
//! declared operation shapes and plays no part in request handling.

use vstd::prelude::*;
use crate::service::{
    LookupError, PublicUser, PublicUserView, RegisterError, RegistrationResult,
    RegistrationResultView,
};

verus! {

/// HTTP method of an operation.
#[derive(Clone, Copy, Debug, PartialEq, Eq, Structural)]
pub enum HttpMethod {
    Get,
    Post,
}

/// One operation of the API surface: its method, its route, the name of its
/// request body schema if it takes one, and the status codes it may answer
/// with.
pub struct ApiOperation {
    pub method: HttpMethod,
    pub path: String,
    pub request_body: Option<String>,
    pub statuses: Vec<u16>,
}

/// Mathematical image of an operation.
#[verifier::ext_equal]
pub struct ApiOperationView {
    pub method: HttpMethod,
    pub path: Seq<char>,
    pub request_body: Option<Seq<char>>,
    pub statuses: Seq<u16>,
}

impl View for ApiOperation {
    type V = ApiOperationView;

    open spec fn view(&self) -> ApiOperationView {
        ApiOperationView {
            method: self.method,
            path: self.path@,
            request_body: crate::validate::opt_view(self.request_body),
            statuses: self.statuses@,
        }
    }
}

/// The machine-readable description of the API surface: its operations and
/// the names of the component schemas their bodies refer to.
pub struct SchemaDocument {
    pub operations: Vec<ApiOperation>,
    pub schemas: Vec<String>,
}

/// Mathematical image of the schema document.
#[verifier::ext_equal]
pub struct SchemaDocumentView {
    pub operations: Seq<ApiOperationView>,
    pub schemas: Seq<Seq<char>>,
}

impl View for SchemaDocument {
    type V = SchemaDocumentView;

    open spec fn view(&self) -> SchemaDocumentView {
        SchemaDocumentView {
            operations: self.operations@.map_values(|o: ApiOperation| o@),
            schemas: self.schemas@.map_values(|s: String| s@),
        }
    }
}

/// The declared shape of the lookup operation: `GET /user/:name`, answering
/// 200 on success, 400 for an empty name, 404 for an unknown one, 503 when
/// the store cannot be reached.
pub open spec fn lookup_operation() -> ApiOperationView {
    ApiOperationView {
        method: HttpMethod::Get,
        path: "/user/:name"@,
        request_body: None,
        statuses: seq![200u16, 400u16, 404u16, 503u16],
    }
}

/// The declared shape of the registration operation: `POST /create/user`
/// taking a `User` body, answering 200 on success, 400 for a payload that
/// breaks a validation rule, 409 for a duplicate e-mail address, 503 when
/// the store cannot be reached.
pub open spec fn register_operation() -> ApiOperationView {
    ApiOperationView {
        method: HttpMethod::Post,
        path: "/create/user"@,
        request_body: Some("User"@),
        statuses: seq![200u16, 400u16, 409u16, 503u16],
    }
}

/// What the generated document must hold: exactly the two operations with
/// their declared status codes, and the two component schemas.
pub open spec fn spec_api_document() -> SchemaDocumentView {
    SchemaDocumentView {
        operations: seq![lookup_operation(), register_operation()],
        schemas: seq!["User"@, "Success"@],
    }
}

/// Builds the schema document from the declared operation shapes.
pub fn api_document() -> (d: SchemaDocument)
    ensures
        d@ == spec_api_document(),
{
    let mut lookup_statuses: Vec<u16> = Vec::new();
    lookup_statuses.push(200);
    lookup_statuses.push(400);
    lookup_statuses.push(404);
    lookup_statuses.push(503);
    let mut register_statuses: Vec<u16> = Vec::new();
    register_statuses.push(200);
    register_statuses.push(400);
    register_statuses.push(409);
    register_statuses.push(503);
    let lookup = ApiOperation {
        method: HttpMethod::Get,
        path: String::from_str("/user/:name"),
        request_body: None,
        statuses: lookup_statuses,
    };
    let register = ApiOperation {
        method: HttpMethod::Post,
        path: String::from_str("/create/user"),
        request_body: Some(String::from_str("User")),
        statuses: register_statuses,
    };
    let mut operations: Vec<ApiOperation> = Vec::new();
    operations.push(lookup);
    operations.push(register);
    let mut schemas: Vec<String> = Vec::new();
    schemas.push(String::from_str("User"));
    schemas.push(String::from_str("Success"));
    let d = SchemaDocument { operations, schemas };
    proof {
        assert(d@.operations[0] =~= lookup_operation());
        assert(d@.operations[1] =~= register_operation());
        assert(d@.operations =~= spec_api_document().operations);
        assert(d@.schemas =~= spec_api_document().schemas);
        assert(d@ =~= spec_api_document());
    }
    d
}

/// The status code that reports a registration outcome: 200 on success, 400
/// for a broken validation rule, 409 for a duplicate e-mail address, 503
/// when the store cannot be reached.
pub open spec fn spec_register_status(r: RegistrationResultView) -> u16 {
    match r {
        RegistrationResultView::Success { .. } => 200,
        RegistrationResultView::Failure { error } => match error {
            RegisterError::Validation(_) => 400,
            RegisterError::DuplicateEmail => 409,
            RegisterError::StoreUnavailable => 503,
        },
    }
}

/// Reports a registration outcome as its status code.
pub fn register_status(r: &RegistrationResult) -> (c: u16)
    ensures
        c == spec_register_status(r@),
{
    match r {
        RegistrationResult::Success { .. } => 200,
        RegistrationResult::Failure { error } => match error {
            RegisterError::Validation(_) => 400,
            RegisterError::DuplicateEmail => 409,
            RegisterError::StoreUnavailable => 503,
        },
    }
}

/// The view of a lookup outcome.
pub open spec fn lookup_outcome_view(r: Result<PublicUser, LookupError>) -> Result<
    PublicUserView,
    LookupError,
> {
    match r {
        Ok(u) => Ok(u@),
        Err(e) => Err(e),
    }
}

/// The status code that reports a lookup outcome: 200 on success, 400 for an
/// empty name, 404 for an unknown one, 503 when the store cannot be reached.
pub open spec fn spec_lookup_status(r: Result<PublicUserView, LookupError>) -> u16 {
    match r {
        Ok(_) => 200,
        Err(LookupError::BadRequest) => 400,
        Err(LookupError::NotFound) => 404,
        Err(LookupError::StoreUnavailable) => 503,
    }
}

/// Reports a lookup outcome as its status code.
pub fn lookup_status(r: &Result<PublicUser, LookupError>) -> (c: u16)
    ensures
        c == spec_lookup_status(lookup_outcome_view(*r)),
{
    match r {
        Ok(_) => 200,
        Err(LookupError::BadRequest) => 400,
        Err(LookupError::NotFound) => 404,
        Err(LookupError::StoreUnavailable) => 503,
    }
}

/// Law: every status code an operation can answer with is among the codes
/// the schema document declares for it — the lookup operation's in its
/// entry, the registration operation's in its own.
pub proof fn lemma_statuses_documented(
    rr: RegistrationResultView,
    lr: Result<PublicUserView, LookupError>,
)
    ensures
        spec_api_document().operations[1].statuses.contains(spec_register_status(rr)),
        spec_api_document().operations[0].statuses.contains(spec_lookup_status(lr)),
{
    let reg = register_operation().statuses;
    assert(reg[0] == 200u16 && reg[1] == 400u16 && reg[2] == 409u16 && reg[3] == 503u16);
    let lk = lookup_operation().statuses;
    assert(lk[0] == 200u16 && lk[1] == 400u16 && lk[2] == 404u16 && lk[3] == 503u16);
}

} // verus!
