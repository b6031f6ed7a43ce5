//! The user entity and the closed set of domain outcome kinds.

use vstd::prelude::*;
use vstd::string::StringExecFns;

verus! {

/// Mathematical model of a user record: identifier and flags as plain
/// values, text fields as character sequences, timestamps as integers.
pub ghost struct UserView {
    pub id: u128,
    pub username: Seq<char>,
    pub email: Seq<char>,
    pub active: bool,
    pub created_at: i64,
    pub updated_at: i64,
}

/// The sole entity of the system. The storage layer assigns `id` and the
/// timestamps; `username`, `email` and `active` are caller-supplied.
/// Timestamps are instants on a monotone scale (e.g. microseconds since an
/// epoch); a record is well formed when `created_at <= updated_at`.
#[derive(Debug, Clone)]
pub struct User {
    pub id: u128,
    pub username: String,
    pub email: String,
    pub active: bool,
    pub created_at: i64,
    pub updated_at: i64,
}

impl View for User {
    type V = UserView;

    open spec fn view(&self) -> UserView {
        UserView {
            id: self.id,
            username: self.username@,
            email: self.email@,
            active: self.active,
            created_at: self.created_at,
            updated_at: self.updated_at,
        }
    }
}

/// A field-for-field copy of a user record.
pub fn copy_user(u: &User) -> (r: User)
    ensures
        r@ == u@,
{
    User {
        id: u.id,
        username: u.username.clone(),
        email: u.email.clone(),
        active: u.active,
        created_at: u.created_at,
        updated_at: u.updated_at,
    }
}

/// The closed set of failure kinds carried across all layers.
///
/// `NotFound` has no payload; the other kinds carry diagnostic text.
#[derive(Debug)]
pub enum DomainError {
    NotFound,
    Conflict(String),
    Validation(String),
    Unexpected(String),
}

impl DomainError {
    /// Human-readable rendering of the outcome kind and its detail.
    pub fn message(&self) -> (m: String)
        ensures
            self is NotFound ==> m@ == "not found"@,
            self matches DomainError::Conflict(d) ==> m@ == "conflict: "@ + d@,
            self matches DomainError::Validation(d) ==> m@ == "validation: "@ + d@,
            self matches DomainError::Unexpected(d) ==> m@ == "unexpected: "@ + d@,
    {
        match self {
            DomainError::NotFound => "not found".to_owned(),
            DomainError::Conflict(d) => {
                let mut m: String = "conflict: ".to_owned();
                m.append(d.as_str());
                m
            },
            DomainError::Validation(d) => {
                let mut m: String = "validation: ".to_owned();
                m.append(d.as_str());
                m
            },
            DomainError::Unexpected(d) => {
                let mut m: String = "unexpected: ".to_owned();
                m.append(d.as_str());
                m
            },
        }
    }
}

} // verus!
