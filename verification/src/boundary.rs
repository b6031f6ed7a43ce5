//! What crosses the process boundaries: the typed request shapes the
//! HTTP layer decodes into, the fixed mapping from outcome kinds to HTTP
//! status codes, and the classification of storage driver failures.

use vstd::prelude::*;
use crate::domain::DomainError;

verus! {

/// Typed body of a creation request.
#[derive(Debug)]
pub struct CreateUserReq {
    pub username: String,
    pub email: String,
    pub active: Option<bool>,
}

/// Typed body of a partial-update request: any subset of the fields.
#[derive(Debug)]
pub struct UpdateUserReq {
    pub username: Option<String>,
    pub email: Option<String>,
    pub active: Option<bool>,
}

/// Typed query of a listing request.
#[derive(Debug)]
pub struct ListUsersQuery {
    pub active: Option<bool>,
    pub limit: Option<i64>,
    pub offset: Option<i64>,
}

/// The fixed error-to-status mapping of the HTTP boundary, with the
/// response body: the detail string, or a fixed message for `NotFound`.
pub fn map_error(err: &DomainError) -> (r: (u16, String))
    ensures
        err is NotFound ==> r.0 == 404 && r.1@ == "user not found"@,
        err matches DomainError::Conflict(d) ==> r.0 == 409 && r.1@ == d@,
        err matches DomainError::Validation(d) ==> r.0 == 400 && r.1@ == d@,
        err matches DomainError::Unexpected(d) ==> r.0 == 500 && r.1@ == d@,
{
    match err {
        DomainError::NotFound => (404, "user not found".to_owned()),
        DomainError::Conflict(d) => (409, d.clone()),
        DomainError::Validation(d) => (400, d.clone()),
        DomainError::Unexpected(d) => (500, d.clone()),
    }
}

/// Classification of a storage driver failure, given the driver's error
/// code and diagnostic text: the SQLSTATE unique-violation code becomes
/// `Conflict`; everything else collapses into `Unexpected`.
pub fn classify_storage_error(code: Option<String>, detail: String) -> (r: DomainError)
    ensures
        code matches Some(c) && c@ == "23505"@ ==> (r matches DomainError::Conflict(m) && m@
            == "duplicate value (likely email)"@),
        code matches Some(c) && c@ != "23505"@ ==> (r matches DomainError::Unexpected(m) && m@
            == detail@),
        code is None ==> (r matches DomainError::Unexpected(m) && m@ == detail@),
{
    match code {
        Some(c) => {
            if c == "23505".to_owned() {
                DomainError::Conflict("duplicate value (likely email)".to_owned())
            } else {
                DomainError::Unexpected(detail)
            }
        },
        None => DomainError::Unexpected(detail),
    }
}

} // verus!
