//! Properties that relate several operations, stated and proved over the
//! store model that the repository and service contracts speak of.

use vstd::prelude::*;
use crate::domain::UserView;
use crate::ports::{
    has_email, has_user, ids_unique, index_of, lemma_user_lookup, remove_user, user_of,
};

verus! {

/// A record just created is found again: looking its identifier up in
/// the state after appending a fresh record yields exactly that record,
/// with the same username and email.  Together with the contracts of
/// `create_user` and `get_user`, a `get` for the id returned by a prior
/// successful `create` returns what was stored.
pub proof fn lemma_create_then_get(s: Seq<UserView>, u: UserView)
    requires
        ids_unique(s),
        !has_user(s, u.id),
    ensures
        has_user(s.push(u), u.id),
        user_of(s.push(u), u.id) == u,
{
    let t = s.push(u);
    assert(t[s.len() as int] == u);
    assert forall|i: int, j: int|
        0 <= i < t.len() && 0 <= j < t.len() && i != j implies t[i].id != t[j].id by {
        if i < s.len() && j < s.len() {
            assert(s[i].id != s[j].id);
        } else if i < s.len() {
            assert(s[i].id != u.id);
        } else {
            assert(s[j].id != u.id);
        }
    }
    lemma_user_lookup(t, u.id, s.len() as int);
}

/// A record just created occupies its email address.  With the create
/// contract, which guarantees failure on a duplicate email, a second
/// create of the same address against the resulting state cannot
/// succeed: of two creates of one email, at most one succeeds.
pub proof fn lemma_created_email_taken(s: Seq<UserView>, u: UserView)
    ensures
        has_email(s.push(u), u.email),
{
    assert(s.push(u)[s.len() as int].email == u.email);
}

/// A removed identifier is gone: after removal the store holds no record
/// with that identifier.  With the delete contract, a second delete of
/// the same id reports that nothing was removed, which the service turns
/// into `NotFound`: deleting an already-deleted id fails, it does not
/// succeed silently.
pub proof fn lemma_deleted_user_absent(s: Seq<UserView>, id: u128)
    requires
        ids_unique(s),
    ensures
        !has_user(remove_user(s, id), id),
{
    if has_user(s, id) {
        let i = index_of(s, id);
        assert(0 <= i < s.len() && s[i].id == id);
        let t = s.remove(i);
        assert forall|j: int| 0 <= j < t.len() implies t[j].id != id by {
            let j0 = if j < i {
                j
            } else {
                j + 1
            };
            assert(t[j] == s[j0]);
            assert(s[j0].id != s[i].id);
        }
    }
}

} // verus!
