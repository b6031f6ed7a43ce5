//! The repository port: the abstract persistence capability the service
//! depends on, together with the mathematical model of stored state.
//!
//! The stored state of a repository is modelled as a sequence of user
//! records in creation order, oldest first.

use vstd::prelude::*;
use crate::domain::{DomainError, User, UserView};

verus! {

/// The models of a sequence of user records.
pub open spec fn views_of(s: Seq<User>) -> Seq<UserView> {
    s.map_values(|u: User| u@)
}

pub open spec fn ids_unique(s: Seq<UserView>) -> bool {
    forall|i: int, j: int|
        0 <= i < s.len() && 0 <= j < s.len() && i != j ==> s[i].id != s[j].id
}

pub open spec fn emails_unique(s: Seq<UserView>) -> bool {
    forall|i: int, j: int|
        0 <= i < s.len() && 0 <= j < s.len() && i != j ==> s[i].email != s[j].email
}

pub open spec fn times_consistent(s: Seq<UserView>) -> bool {
    forall|i: int| 0 <= i < s.len() ==> s[i].created_at <= s[i].updated_at
}

/// Invariant of every stored state: identifiers and emails are unique,
/// and no record was updated before it was created.
pub open spec fn store_inv(s: Seq<UserView>) -> bool {
    ids_unique(s) && emails_unique(s) && times_consistent(s)
}

pub open spec fn has_user(s: Seq<UserView>, id: u128) -> bool {
    exists|i: int| 0 <= i < s.len() && s[i].id == id
}

pub open spec fn has_email(s: Seq<UserView>, email: Seq<char>) -> bool {
    exists|i: int| 0 <= i < s.len() && s[i].email == email
}

/// Some record other than `id`'s already owns this email address.
pub open spec fn email_taken_by_other(s: Seq<UserView>, id: u128, email: Seq<char>) -> bool {
    exists|i: int| 0 <= i < s.len() && s[i].id != id && s[i].email == email
}

/// Position of the record with the given id; meaningful when `has_user`
/// holds, and then unique under `ids_unique`.
pub open spec fn index_of(s: Seq<UserView>, id: u128) -> int {
    choose|i: int| 0 <= i < s.len() && s[i].id == id
}

/// The record with the given id; meaningful when `has_user` holds.
pub open spec fn user_of(s: Seq<UserView>, id: u128) -> UserView {
    s[index_of(s, id)]
}

/// The state after removing the record with the given id, if present.
pub open spec fn remove_user(s: Seq<UserView>, id: u128) -> Seq<UserView> {
    if has_user(s, id) {
        s.remove(index_of(s, id))
    } else {
        s
    }
}

/// Whether a record passes the optional activity filter.
pub open spec fn keeps(u: UserView, active: Option<bool>) -> bool {
    match active {
        Some(a) => u.active == a,
        None => true,
    }
}

/// The records that pass the filter, still in creation order.
pub open spec fn matching(s: Seq<UserView>, active: Option<bool>) -> Seq<UserView>
    decreases s.len(),
{
    if s.len() == 0 {
        Seq::empty()
    } else if keeps(s.last(), active) {
        matching(s.drop_last(), active).push(s.last())
    } else {
        matching(s.drop_last(), active)
    }
}

/// The window `[offset, offset + limit)` of a sequence read most recent
/// first, cut down to the part that exists.
pub open spec fn page(s: Seq<UserView>, offset: int, limit: int) -> Seq<UserView>
    recommends
        0 <= offset,
        0 <= limit,
{
    let r = s.reverse();
    let lo = if offset <= r.len() { offset } else { r.len() as int };
    let hi = if offset + limit <= r.len() { offset + limit } else { r.len() as int };
    r.subrange(lo, hi)
}

/// The view of an optional owned string.
pub open spec fn opt_str_view(o: Option<String>) -> Option<Seq<char>> {
    match o {
        Some(s) => Some(s@),
        None => None,
    }
}

/// A record after a partial update: supplied fields replace the old ones,
/// the identifier and creation instant never change, and the update
/// instant becomes `at`.
pub open spec fn updated_view(
    ou: UserView,
    username: Option<Seq<char>>,
    email: Option<Seq<char>>,
    active: Option<bool>,
    at: i64,
) -> UserView {
    UserView {
        id: ou.id,
        username: match username {
            Some(n) => n,
            None => ou.username,
        },
        email: match email {
            Some(e) => e,
            None => ou.email,
        },
        active: match active {
            Some(a) => a,
            None => ou.active,
        },
        created_at: ou.created_at,
        updated_at: at,
    }
}

/// Under unique identifiers, any position holding `id` is the position
/// that `index_of` denotes, so lookup by `id` yields that very record.
pub proof fn lemma_user_lookup(s: Seq<UserView>, id: u128, i: int)
    requires
        ids_unique(s),
        0 <= i < s.len(),
        s[i].id == id,
    ensures
        has_user(s, id),
        index_of(s, id) == i,
        user_of(s, id) == s[i],
{
    assert(has_user(s, id));
    let j = index_of(s, id);
    assert(0 <= j < s.len() && s[j].id == id);
    if i != j {
        assert(s[i].id != s[j].id);
    }
}

/// The persistence capability the service depends on, independent of
/// storage technology.  `users()` is the abstract stored state.
///
/// An implementation may fail at any point with `Conflict` or
/// `Unexpected`; it never decides `NotFound` or `Validation`, which are
/// the service's job.  A `Conflict` is reported only for a genuine
/// uniqueness violation.
pub trait UserRepository: Sized {
    spec fn users(&self) -> Seq<UserView>;

    /// Inserts a record built from the given fields; the store assigns a
    /// fresh identifier and the timestamps.  A duplicate email is refused.
    fn create(&mut self, username: String, email: String, active: bool) -> (r: Result<
        User,
        DomainError,
    >)
        requires
            store_inv(old(self).users()),
        ensures
            store_inv(final(self).users()),
            r matches Ok(u) ==> {
                &&& final(self).users() == old(self).users().push(u@)
                &&& !has_user(old(self).users(), u@.id)
                &&& u@.username == username@
                &&& u@.email == email@
                &&& u@.active == active
                &&& u@.created_at == u@.updated_at
            },
            has_email(old(self).users(), email@) ==> r is Err,
            r is Err ==> final(self).users() == old(self).users(),
            r matches Err(e) ==> e is Conflict || e is Unexpected,
            r matches Err(e) && e is Conflict ==> has_email(old(self).users(), email@),
    ;

    /// Looks a record up by identifier; absence is a value, not an error.
    fn find_by_id(&self, id: u128) -> (r: Result<Option<User>, DomainError>)
        requires
            store_inv(self.users()),
        ensures
            r matches Ok(Some(u)) ==> has_user(self.users(), id) && u@ == user_of(
                self.users(),
                id,
            ),
            r matches Ok(None::<User>) ==> !has_user(self.users(), id),
            r matches Err(e) ==> e is Conflict || e is Unexpected,
    ;

    /// Returns the requested window of the records passing the filter,
    /// most recent first.  No rows matching is an empty result, never an
    /// error.
    fn list(&self, active: Option<bool>, limit: i64, offset: i64) -> (r: Result<
        Vec<User>,
        DomainError,
    >)
        requires
            store_inv(self.users()),
            1 <= limit <= 200,
            0 <= offset,
        ensures
            r matches Ok(v) ==> views_of(v@) == page(
                matching(self.users(), active),
                offset as int,
                limit as int,
            ),
            r matches Err(e) ==> e is Conflict || e is Unexpected,
    ;

    /// Applies a partial update; fields left unspecified keep their prior
    /// value, the update instant advances.  Absence of the target row is
    /// a value, not an error; moving to an email owned by another record
    /// is refused.
    fn update(
        &mut self,
        id: u128,
        username: Option<String>,
        email: Option<String>,
        active: Option<bool>,
    ) -> (r: Result<Option<User>, DomainError>)
        requires
            store_inv(old(self).users()),
        ensures
            store_inv(final(self).users()),
            r matches Ok(None::<User>) ==> !has_user(old(self).users(), id) && final(self).users()
                == old(self).users(),
            r matches Ok(Some(u)) ==> {
                &&& has_user(old(self).users(), id)
                &&& u@ == updated_view(
                    user_of(old(self).users(), id),
                    opt_str_view(username),
                    opt_str_view(email),
                    active,
                    u@.updated_at,
                )
                &&& u@.updated_at > user_of(old(self).users(), id).updated_at
                &&& final(self).users() == old(self).users().update(
                    index_of(old(self).users(), id),
                    u@,
                )
            },
            has_user(old(self).users(), id) && (email matches Some(e) && email_taken_by_other(
                old(self).users(),
                id,
                e@,
            )) ==> r is Err,
            r is Err ==> final(self).users() == old(self).users(),
            r matches Err(e) ==> e is Conflict || e is Unexpected,
            r matches Err(e) && e is Conflict ==> (email matches Some(em)
                && email_taken_by_other(old(self).users(), id, em@)),
    ;

    /// Removes the record with the given identifier; the result reports
    /// whether a record was removed.  Absence is not an error.
    fn delete(&mut self, id: u128) -> (r: Result<bool, DomainError>)
        requires
            store_inv(old(self).users()),
        ensures
            store_inv(final(self).users()),
            r matches Ok(b) ==> b == has_user(old(self).users(), id) && final(self).users()
                == remove_user(old(self).users(), id),
            r is Err ==> final(self).users() == old(self).users(),
            r matches Err(e) ==> e is Conflict || e is Unexpected,
    ;
}

} // verus!
