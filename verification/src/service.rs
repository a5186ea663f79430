//! The two services of the core: registration (validate, reject duplicates,
//! persist) and lookup by display name. Both are specified against a
//! mathematical model of the store, and both return only an account's public
//! fields — never the password.

use vstd::prelude::*;
use crate::store::{
    first_with_name, has_email, lemma_first_with_name_push, store_wf, user_wf, InMemoryStore,
    StoreError, User, UserView,
};
use crate::validate::{
    opt_view, spec_validate, valid_email, validate, Payload, PayloadView, ValidationError,
};

verus! {

/// Why a registration failed.
#[derive(Clone, Copy, Debug, PartialEq, Eq, Structural)]
pub enum RegisterError {
    /// The payload broke a validation rule.
    Validation(ValidationError),
    /// An account with the same e-mail address is already registered.
    DuplicateEmail,
    /// The store cannot be reached.
    StoreUnavailable,
}

/// Outcome of a registration: success carries the new account's public
/// fields — e-mail address and display name, never the password.
pub enum RegistrationResult {
    Success { email: String, name: Option<String> },
    Failure { error: RegisterError },
}

/// Mathematical image of a registration outcome.
pub enum RegistrationResultView {
    Success { email: Seq<char>, name: Option<Seq<char>> },
    Failure { error: RegisterError },
}

impl View for RegistrationResult {
    type V = RegistrationResultView;

    open spec fn view(&self) -> RegistrationResultView {
        match self {
            RegistrationResult::Success { email, name } => RegistrationResultView::Success {
                email: email@,
                name: opt_view(*name),
            },
            RegistrationResult::Failure { error } => RegistrationResultView::Failure {
                error: *error,
            },
        }
    }
}

/// Why a lookup failed.
#[derive(Clone, Copy, Debug, PartialEq, Eq, Structural)]
pub enum LookupError {
    /// The caller passed an empty name: a contract violation, distinct from
    /// an unknown name.
    BadRequest,
    /// No account with the requested display name exists.
    NotFound,
    /// The store cannot be reached.
    StoreUnavailable,
}

/// The public fields of an account, safe to return to any caller: the
/// password is not among them.
#[derive(Debug)]
pub struct PublicUser {
    pub email: String,
    pub name: Option<String>,
}

/// Mathematical image of an account's public fields.
pub struct PublicUserView {
    pub email: Seq<char>,
    pub name: Option<Seq<char>>,
}

impl View for PublicUser {
    type V = PublicUserView;

    open spec fn view(&self) -> PublicUserView {
        PublicUserView { email: self.email@, name: opt_view(self.name) }
    }
}

/// The public fields of a record.
pub open spec fn public_of(u: UserView) -> PublicUserView {
    PublicUserView { email: u.email, name: u.name }
}

/// What registration owes a caller: the outcome and the records persisted
/// afterwards. A payload that breaks a validation rule is rejected with that
/// rule's reason; an e-mail address already present is rejected as
/// `DuplicateEmail`; otherwise the new record is appended and the outcome
/// carries its public fields. On every rejection the store is unchanged.
pub open spec fn spec_register(s: Seq<UserView>, p: PayloadView) -> (RegistrationResultView, Seq<
    UserView,
>) {
    match spec_validate(p) {
        Some(e) => (
            RegistrationResultView::Failure { error: RegisterError::Validation(e) },
            s,
        ),
        None => {
            let email = p.email->Some_0;
            if has_email(s, email) {
                (RegistrationResultView::Failure { error: RegisterError::DuplicateEmail }, s)
            } else {
                (
                    RegistrationResultView::Success { email, name: p.name },
                    s.push(UserView { email, name: p.name, password: p.password->Some_0 }),
                )
            }
        },
    }
}

/// What lookup owes a caller: an empty name is the caller's error, an
/// unknown name is `NotFound`, and otherwise the first record with that
/// display name is returned by its public fields.
pub open spec fn spec_find_by_name(s: Seq<UserView>, name: Seq<char>) -> Result<
    PublicUserView,
    LookupError,
> {
    if name.len() == 0 {
        Err(LookupError::BadRequest)
    } else {
        match first_with_name(s, name) {
            Some(u) => Ok(public_of(u)),
            None => Err(LookupError::NotFound),
        }
    }
}

fn clone_opt_string(o: &Option<String>) -> (r: Option<String>)
    ensures
        opt_view(r) == opt_view(*o),
{
    match o {
        Some(s) => Some(s.clone()),
        None => None,
    }
}

/// Validates a payload and builds the account record to persist: the part of
/// registration that precedes any store access.
pub fn prepare_registration(p: &Payload) -> (r: Result<User, ValidationError>)
    ensures
        match r {
            Ok(u) => spec_validate(p@) is None && user_wf(u@) && u@ == (UserView {
                email: p@.email->Some_0,
                name: p@.name,
                password: p@.password->Some_0,
            }),
            Err(e) => spec_validate(p@) == Some(e),
        },
{
    match validate(p) {
        Err(e) => Err(e),
        Ok(_) => match (&p.email, &p.password) {
            (Some(email), Some(password)) => Ok(
                User {
                    email: email.clone(),
                    name: clone_opt_string(&p.name),
                    password: password.clone(),
                },
            ),
            _ => {
                proof {
                    assert(false);
                }
                Err(ValidationError::MissingEmail)
            },
        },
    }
}

/// Maps the outcome of the store write to the registration outcome: success
/// returns the public fields handed in; a `Conflict` — even one raised by a
/// write that raced this registration between its duplicate check and its
/// own write — becomes `DuplicateEmail`; an unreachable store becomes
/// `StoreUnavailable`.
pub fn settle_registration(email: String, name: Option<String>, outcome: Result<
    (),
    StoreError,
>) -> (r: RegistrationResult)
    ensures
        match outcome {
            Ok(_) => r@ == (RegistrationResultView::Success {
                email: email@,
                name: opt_view(name),
            }),
            Err(StoreError::Conflict) => r@ == (RegistrationResultView::Failure {
                error: RegisterError::DuplicateEmail,
            }),
            Err(StoreError::Unavailable) => r@ == (RegistrationResultView::Failure {
                error: RegisterError::StoreUnavailable,
            }),
        },
{
    match outcome {
        Ok(_) => RegistrationResult::Success { email, name },
        Err(StoreError::Conflict) => RegistrationResult::Failure {
            error: RegisterError::DuplicateEmail,
        },
        Err(StoreError::Unavailable) => RegistrationResult::Failure {
            error: RegisterError::StoreUnavailable,
        },
    }
}

/// Registers a new account: validates the payload, rejects an e-mail address
/// that is already taken, persists the record, and returns the new account's
/// public fields. On any failure the store keeps exactly the records it had.
pub fn register(store: &mut InMemoryStore, p: &Payload) -> (r: RegistrationResult)
    requires
        store_wf(old(store)@),
    ensures
        store_wf(final(store)@),
        r@ == spec_register(old(store)@, p@).0,
        final(store)@ == spec_register(old(store)@, p@).1,
{
    let user = match prepare_registration(p) {
        Err(e) => {
            return RegistrationResult::Failure { error: RegisterError::Validation(e) };
        },
        Ok(u) => u,
    };
    if store.exists_by_email(user.email.as_str()) {
        return RegistrationResult::Failure { error: RegisterError::DuplicateEmail };
    }
    let email = user.email.clone();
    let name = clone_opt_string(&user.name);
    let outcome = store.put(user);
    settle_registration(email, name, outcome)
}

/// Resolves an account by display name: an empty name is the caller's error
/// (`BadRequest`, not `NotFound`), an unknown name is `NotFound`, and a found
/// record is returned by its public fields only.
pub fn find_by_name(store: &InMemoryStore, name: &str) -> (r: Result<PublicUser, LookupError>)
    ensures
        match r {
            Ok(u) => spec_find_by_name(store@, name@) == Ok::<PublicUserView, LookupError>(u@),
            Err(e) => spec_find_by_name(store@, name@) == Err::<PublicUserView, LookupError>(e),
        },
{
    if name.is_empty() {
        return Err(LookupError::BadRequest);
    }
    settle_lookup(Ok(store.get_by_name(name)))
}

/// Maps the outcome of a store read by display name to the lookup outcome,
/// for any store driver that performed the read itself: a fetched record is
/// returned by its public fields only, an absent one is `NotFound`, and a
/// store failure is `StoreUnavailable`.
pub fn settle_lookup(fetched: Result<Option<User>, StoreError>) -> (r: Result<
    PublicUser,
    LookupError,
>)
    ensures
        match fetched {
            Ok(Some(u)) => r matches Ok(p) && p@ == public_of(u@),
            Ok(None) => r == Err::<PublicUser, LookupError>(LookupError::NotFound),
            Err(_) => r == Err::<PublicUser, LookupError>(LookupError::StoreUnavailable),
        },
{
    match fetched {
        Ok(Some(u)) => Ok(PublicUser { email: u.email, name: u.name }),
        Ok(None) => Err(LookupError::NotFound),
        Err(_) => Err(LookupError::StoreUnavailable),
    }
}

/// Law: a payload whose e-mail address is absent or empty is rejected as
/// `MissingEmail`, and the store keeps exactly the records it had.
pub proof fn lemma_missing_email_rejected(s: Seq<UserView>, p: PayloadView)
    requires
        p.email is None || p.email->Some_0.len() == 0,
    ensures
        spec_register(s, p).0 == (RegistrationResultView::Failure {
            error: RegisterError::Validation(ValidationError::MissingEmail),
        }),
        spec_register(s, p).1 == s,
{
}

/// Law: a payload whose non-empty e-mail address does not have the
/// `local@domain.tld` shape is rejected as `InvalidEmail`, and the store
/// keeps exactly the records it had.
pub proof fn lemma_invalid_email_rejected(s: Seq<UserView>, p: PayloadView)
    requires
        p.email matches Some(e) && e.len() > 0 && !valid_email(e),
    ensures
        spec_register(s, p).0 == (RegistrationResultView::Failure {
            error: RegisterError::Validation(ValidationError::InvalidEmail),
        }),
        spec_register(s, p).1 == s,
{
}

/// Law: two registrations of one e-mail address, in whichever order the
/// store serialises them: the first succeeds, the second fails with
/// `DuplicateEmail`, and the store ends with exactly one record carrying
/// that address — never two, never none.
pub proof fn lemma_second_registration_duplicate(
    s: Seq<UserView>,
    p1: PayloadView,
    p2: PayloadView,
)
    requires
        spec_validate(p1) is None,
        spec_validate(p2) is None,
        p1.email == p2.email,
        !has_email(s, p1.email->Some_0),
    ensures
        spec_register(s, p1).0 is Success,
        spec_register(spec_register(s, p1).1, p2).0 == (RegistrationResultView::Failure {
            error: RegisterError::DuplicateEmail,
        }),
        spec_register(spec_register(s, p1).1, p2).1 == spec_register(s, p1).1,
        ({
            let s1 = spec_register(s, p1).1;
            let e = p1.email->Some_0;
            exists|i: int|
                0 <= i < s1.len() && (#[trigger] s1[i]).email == e && (forall|j: int|
                    0 <= j < s1.len() && (#[trigger] s1[j]).email == e ==> j == i)
        }),
{
    let e = p1.email->Some_0;
    let u = UserView { email: e, name: p1.name, password: p1.password->Some_0 };
    let s1 = spec_register(s, p1).1;
    assert(s1 == s.push(u));
    let w = s.len() as int;
    assert(s1[w] == u);
    assert(has_email(s1, e));
    assert forall|j: int| 0 <= j < s1.len() && (#[trigger] s1[j]).email == e implies j == w by {
        if j < w {
            assert(s1[j] == s[j]);
            assert(has_email(s, e));
        }
    }
    assert(0 <= w < s1.len() && (#[trigger] s1[w]).email == e && (forall|j: int|
        0 <= j < s1.len() && (#[trigger] s1[j]).email == e ==> j == w));
}

/// Law, round trip: after a successful registration whose payload carries a
/// display name not yet used by any record, looking that name up returns
/// exactly the new account's public fields — e-mail address and name; the
/// public view has no password field to expose.
pub proof fn lemma_register_then_find(s: Seq<UserView>, p: PayloadView)
    requires
        spec_validate(p) is None,
        !has_email(s, p.email->Some_0),
        p.name matches Some(n) && n.len() > 0 && first_with_name(s, n) is None,
    ensures
        spec_register(s, p).0 is Success,
        spec_find_by_name(spec_register(s, p).1, p.name->Some_0) == Ok::<
            PublicUserView,
            LookupError,
        >(PublicUserView { email: p.email->Some_0, name: p.name }),
{
    let u = UserView { email: p.email->Some_0, name: p.name, password: p.password->Some_0 };
    lemma_first_with_name_push(s, p.name->Some_0, u);
}

} // verus!
