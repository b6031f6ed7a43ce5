//! The user service: the one place where business rules live.  It
//! validates input, applies defaults and clamps, orchestrates repository
//! calls, and turns the port's "no value" into `NotFound`.

use vstd::prelude::*;
use crate::domain::{DomainError, User, UserView};
use crate::ports::{
    email_taken_by_other, has_email, has_user, index_of, matching, opt_str_view, page,
    remove_user, store_inv, updated_view, user_of, views_of, UserRepository,
};
use crate::validate::{email_has_at, has_at, is_blank, username_blank};

verus! {

/// The effective limit: defaulted to 50, clamped into [1, 200].
pub open spec fn clamped_limit(limit: Option<i64>) -> int {
    let v: int = match limit {
        Some(l) => l as int,
        None => 50,
    };
    if v < 1 {
        1
    } else if v > 200 {
        200
    } else {
        v
    }
}

/// The effective offset: defaulted to 0, negative values floored at 0.
pub open spec fn clamped_offset(offset: Option<i64>) -> int {
    let v: int = match offset {
        Some(o) => o as int,
        None => 0,
    };
    if v < 0 {
        0
    } else {
        v
    }
}

/// Executable pagination normalization, shared with callers that drive
/// a store of their own: `limit` defaults to 50 and lands in [1, 200].
pub fn clamp_limit(limit: Option<i64>) -> (r: i64)
    ensures
        r as int == clamped_limit(limit),
{
    let l0: i64 = match limit {
        Some(l) => l,
        None => 50,
    };
    if l0 < 1 {
        1
    } else if l0 > 200 {
        200
    } else {
        l0
    }
}

/// Executable pagination normalization: `offset` defaults to 0 and is
/// floored at 0.
pub fn clamp_offset(offset: Option<i64>) -> (r: i64)
    ensures
        r as int == clamped_offset(offset),
{
    let o0: i64 = match offset {
        Some(o) => o,
        None => 0,
    };
    if o0 < 0 {
        0
    } else {
        o0
    }
}

/// The creation default: `active` is `true` when omitted.
pub fn default_active(active: Option<bool>) -> (r: bool)
    ensures
        r == (match active {
            Some(a) => a,
            None => true,
        }),
{
    match active {
        Some(a) => a,
        None => true,
    }
}

/// The service's absence rule: the port's "no value" becomes `NotFound`,
/// exactly once, at this boundary; a found record passes through
/// unchanged.
pub fn found_or_not_found(found: Option<User>) -> (r: Result<User, DomainError>)
    ensures
        found matches Some(u) ==> r == Ok::<User, DomainError>(u),
        found is None ==> (r matches Err(e) && e is NotFound),
{
    match found {
        Some(u) => Ok(u),
        None => Err(DomainError::NotFound),
    }
}

/// The service's deletion rule: "nothing was removed" becomes
/// `NotFound`; a removal is success with no payload.
pub fn removed_or_not_found(removed: bool) -> (r: Result<(), DomainError>)
    ensures
        removed ==> r == Ok::<(), DomainError>(()),
        !removed ==> (r matches Err(e) && e is NotFound),
{
    if removed {
        Ok(())
    } else {
        Err(DomainError::NotFound)
    }
}

/// The email rule as applied to an optional field: absent is fine,
/// present must contain `@`.
pub open spec fn email_rule_ok(email: Option<String>) -> bool {
    match email {
        Some(e) => has_at(e@),
        None => true,
    }
}

/// A stateless orchestration layer over one repository instance.
pub struct UserService<R: UserRepository> {
    repo: R,
}

impl<R: UserRepository> UserService<R> {
    /// The abstract stored state behind the service.
    pub closed spec fn users(&self) -> Seq<UserView> {
        self.repo.users()
    }

    pub fn new(repo: R) -> (r: Self)
        requires
            store_inv(repo.users()),
        ensures
            store_inv(r.users()),
            r.users() == repo.users(),
    {
        UserService { repo }
    }

    /// Creates a user.  A blank username or an email without `@` is
    /// rejected with `Validation` before any repository call; otherwise
    /// the record is stored with `active` defaulted to `true` when
    /// omitted, and repository failures pass through unchanged.
    pub fn create_user(&mut self, username: String, email: String, active: Option<bool>) -> (r:
        Result<User, DomainError>)
        requires
            store_inv(old(self).users()),
        ensures
            store_inv(final(self).users()),
            is_blank(username@) ==> *final(self) == *old(self) && (r matches Err(e) && e matches
                DomainError::Validation(m) && m@ == "username is required"@),
            !is_blank(username@) && !has_at(email@) ==> *final(self) == *old(self) && (r matches Err(
                e,
            ) && e matches DomainError::Validation(m) && m@ == "email is invalid"@),
            !is_blank(username@) && has_at(email@) ==> {
                &&& (r matches Ok(u) ==> {
                    &&& final(self).users() == old(self).users().push(u@)
                    &&& !has_user(old(self).users(), u@.id)
                    &&& u@.username == username@
                    &&& u@.email == email@
                    &&& u@.active == (match active {
                        Some(a) => a,
                        None => true,
                    })
                    &&& u@.created_at == u@.updated_at
                })
                &&& (has_email(old(self).users(), email@) ==> r is Err)
                &&& (r is Err ==> final(self).users() == old(self).users())
                &&& (r matches Err(e) ==> e is Conflict || e is Unexpected)
                &&& (r matches Err(e) && e is Conflict ==> has_email(old(self).users(), email@))
            },
    {
        if username_blank(username.as_str()) {
            return Err(DomainError::Validation("username is required".to_owned()));
        }
        if !email_has_at(email.as_str()) {
            return Err(DomainError::Validation("email is invalid".to_owned()));
        }
        let a = default_active(active);
        self.repo.create(username, email, a)
    }

    /// Fetches a user by identifier; the port's "no value" becomes
    /// `NotFound` here and nowhere else.
    pub fn get_user(&self, id: u128) -> (r: Result<User, DomainError>)
        requires
            store_inv(self.users()),
        ensures
            r matches Ok(u) ==> has_user(self.users(), id) && u@ == user_of(self.users(), id),
            !has_user(self.users(), id) ==> !(r is Ok),
            r matches Err(e) ==> e is NotFound || e is Conflict || e is Unexpected,
            r matches Err(e) && e is NotFound ==> !has_user(self.users(), id),
    {
        match self.repo.find_by_id(id) {
            Ok(found) => found_or_not_found(found),
            Err(e) => Err(e),
        }
    }

    /// Lists users, most recently created first.  Malformed pagination is
    /// silently normalized, never rejected: `limit` defaults to 50 and is
    /// clamped into [1, 200], `offset` defaults to 0 and is floored at 0.
    pub fn list_users(&self, active: Option<bool>, limit: Option<i64>, offset: Option<i64>) -> (r:
        Result<Vec<User>, DomainError>)
        requires
            store_inv(self.users()),
        ensures
            r matches Ok(v) ==> views_of(v@) == page(
                matching(self.users(), active),
                clamped_offset(offset),
                clamped_limit(limit),
            ),
            r matches Err(e) ==> e is Conflict || e is Unexpected,
    {
        let l1 = clamp_limit(limit);
        let o1 = clamp_offset(offset);
        self.repo.list(active, l1, o1)
    }

    /// Applies a partial update.  A supplied email is re-validated as at
    /// creation; a supplied username is not re-validated for blankness
    /// (a deliberate asymmetry of the update rule).  Fields left out
    /// keep their prior value; the update instant advances; absence of
    /// the target row becomes `NotFound`.
    pub fn update_user(
        &mut self,
        id: u128,
        username: Option<String>,
        email: Option<String>,
        active: Option<bool>,
    ) -> (r: Result<User, DomainError>)
        requires
            store_inv(old(self).users()),
        ensures
            store_inv(final(self).users()),
            !email_rule_ok(email) ==> *final(self) == *old(self) && (r matches Err(er) && er matches
                DomainError::Validation(m) && m@ == "email is invalid"@),
            email_rule_ok(email) ==> {
                &&& (r matches Ok(u) ==> {
                    &&& has_user(old(self).users(), id)
                    &&& u@ == updated_view(
                        user_of(old(self).users(), id),
                        opt_str_view(username),
                        opt_str_view(email),
                        active,
                        u@.updated_at,
                    )
                    &&& u@.updated_at > user_of(old(self).users(), id).updated_at
                    &&& final(self).users() == old(self).users().update(
                        index_of(old(self).users(), id),
                        u@,
                    )
                })
                &&& (r matches Err(er) && er is NotFound ==> !has_user(old(self).users(), id))
                &&& (!has_user(old(self).users(), id) ==> !(r is Ok))
                &&& (has_user(old(self).users(), id) && (email matches Some(e)
                    && email_taken_by_other(old(self).users(), id, e@)) ==> !(r is Ok))
                &&& (r is Err ==> final(self).users() == old(self).users())
                &&& (r matches Err(er) ==> er is NotFound || er is Conflict || er is Unexpected)
                &&& (r matches Err(er) && er is Conflict ==> (email matches Some(em)
                    && email_taken_by_other(old(self).users(), id, em@)))
            },
    {
        if let Some(e) = &email {
            if !email_has_at(e.as_str()) {
                return Err(DomainError::Validation("email is invalid".to_owned()));
            }
        }
        match self.repo.update(id, username, email, active) {
            Ok(found) => found_or_not_found(found),
            Err(e) => Err(e),
        }
    }

    /// Deletes a user.  The port reports whether a row was removed; a
    /// removal that removed nothing becomes `NotFound`, so deleting an
    /// already-deleted id fails rather than succeeding silently.
    pub fn delete_user(&mut self, id: u128) -> (r: Result<(), DomainError>)
        requires
            store_inv(old(self).users()),
        ensures
            store_inv(final(self).users()),
            r is Ok ==> has_user(old(self).users(), id) && final(self).users() == remove_user(
                old(self).users(),
                id,
            ),
            !has_user(old(self).users(), id) ==> !(r is Ok),
            r is Err ==> final(self).users() == old(self).users(),
            r matches Err(e) && e is NotFound ==> !has_user(old(self).users(), id),
            r matches Err(e) ==> e is NotFound || e is Conflict || e is Unexpected,
    {
        match self.repo.delete(id) {
            Ok(removed) => removed_or_not_found(removed),
            Err(e) => Err(e),
        }
    }
}

} // verus!
