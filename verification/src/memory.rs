//! An in-memory implementation of the repository port, suitable for unit
//! tests of the service and usable as a concrete store in its own right.
//!
//! Identifiers and timestamps are assigned from the maxima of the records
//! already present, so identifiers are never reused while the store lives
//! and update instants advance strictly.

use vstd::prelude::*;
use crate::domain::{copy_user, DomainError, User, UserView};
use crate::ports::{
    email_taken_by_other, emails_unique, has_email, has_user, ids_unique, index_of, keeps,
    lemma_user_lookup, matching, opt_str_view, page, remove_user, store_inv, times_consistent,
    updated_view, user_of, views_of, UserRepository,
};

verus! {

/// A store backed by a vector of records in creation order.
pub struct InMemoryUserRepo {
    users: Vec<User>,
}

/// Some record already carries the largest possible identifier, so no
/// fresh one can be assigned.
pub open spec fn id_exhausted(s: Seq<UserView>) -> bool {
    exists|i: int| 0 <= i < s.len() && s[i].id == u128::MAX
}

/// Some record already carries the largest possible instant, so the
/// store's clock cannot advance.
pub open spec fn stamp_exhausted(s: Seq<UserView>) -> bool {
    exists|i: int|
        0 <= i < s.len() && (s[i].created_at == i64::MAX || s[i].updated_at == i64::MAX)
}

impl InMemoryUserRepo {
    /// An empty store.
    pub fn new() -> (r: Self)
        ensures
            r.users() == Seq::<UserView>::empty(),
            store_inv(r.users()),
    {
        let r = InMemoryUserRepo { users: Vec::new() };
        proof {
            assert(r.users() =~= Seq::<UserView>::empty());
        }
        r
    }

    /// Position of the record with the given id, if any.
    fn find_index(&self, id: u128) -> (r: Option<usize>)
        ensures
            r matches Some(i) ==> i < self.users().len() && self.users()[i as int].id == id,
            r is None ==> !has_user(self.users(), id),
    {
        let n = self.users.len();
        let mut i: usize = 0;
        while i < n
            invariant
                n == self.users.len(),
                i <= n,
                forall|j: int| 0 <= j < i ==> self.users()[j].id != id,
            decreases n - i,
        {
            if self.users[i].id == id {
                return Some(i);
            }
            i += 1;
        }
        None
    }

    /// Whether some record owns this email, apart from the one excluded.
    fn email_clash(&self, email: &String, excl: Option<u128>) -> (r: bool)
        ensures
            r == exists|i: int|
                0 <= i < self.users().len() && self.users()[i].email == email@ && (match excl {
                    Some(x) => self.users()[i].id != x,
                    None => true,
                }),
    {
        let n = self.users.len();
        let mut i: usize = 0;
        while i < n
            invariant
                n == self.users.len(),
                i <= n,
                forall|j: int|
                    0 <= j < i ==> !(self.users()[j].email == email@ && (match excl {
                        Some(x) => self.users()[j].id != x,
                        None => true,
                    })),
            decreases n - i,
        {
            let same = self.users[i].email == *email;
            let counted = match excl {
                Some(x) => self.users[i].id != x,
                None => true,
            };
            if same && counted {
                assert(self.users()[i as int].email == email@);
                return true;
            }
            i += 1;
        }
        false
    }

    /// The largest identifier in the store (zero when empty).
    fn max_id(&self) -> (m: u128)
        ensures
            forall|j: int| 0 <= j < self.users().len() ==> self.users()[j].id <= m,
            m == 0 || exists|j: int| 0 <= j < self.users().len() && self.users()[j].id == m,
    {
        let n = self.users.len();
        let mut m: u128 = 0;
        let mut i: usize = 0;
        while i < n
            invariant
                n == self.users.len(),
                i <= n,
                forall|j: int| 0 <= j < i ==> self.users()[j].id <= m,
                m == 0 || exists|j: int| 0 <= j < i && self.users()[j].id == m,
            decreases n - i,
        {
            let c = self.users[i].id;
            if c > m {
                m = c;
                assert(self.users()[i as int].id == m);
            }
            i += 1;
        }
        m
    }

    /// The largest timestamp in the store (zero when empty), at least
    /// zero.
    fn max_stamp(&self) -> (m: i64)
        ensures
            0 <= m,
            forall|j: int|
                0 <= j < self.users().len() ==> self.users()[j].created_at <= m
                    && self.users()[j].updated_at <= m,
            m == 0 || exists|j: int|
                0 <= j < self.users().len() && (self.users()[j].created_at == m
                    || self.users()[j].updated_at == m),
    {
        let n = self.users.len();
        let mut m: i64 = 0;
        let mut i: usize = 0;
        while i < n
            invariant
                n == self.users.len(),
                i <= n,
                0 <= m,
                forall|j: int|
                    0 <= j < i ==> self.users()[j].created_at <= m && self.users()[j].updated_at
                        <= m,
                m == 0 || exists|j: int|
                    0 <= j < i && (self.users()[j].created_at == m || self.users()[j].updated_at
                        == m),
            decreases n - i,
        {
            let c = self.users[i].created_at;
            if c > m {
                m = c;
                assert(self.users()[i as int].created_at == m);
            }
            let u = self.users[i].updated_at;
            if u > m {
                m = u;
                assert(self.users()[i as int].updated_at == m);
            }
            i += 1;
        }
        m
    }
}

impl UserRepository for InMemoryUserRepo {
    closed spec fn users(&self) -> Seq<UserView> {
        views_of(self.users@)
    }

    fn create(&mut self, username: String, email: String, active: bool) -> (r: Result<
        User,
        DomainError,
    >)
        ensures
            has_email(old(self).users(), email@) ==> (r matches Err(e) && e is Conflict),
            r matches Err(e) && e is Unexpected ==> id_exhausted(old(self).users())
                || stamp_exhausted(old(self).users()),
            !has_email(old(self).users(), email@) && !id_exhausted(old(self).users())
                && !stamp_exhausted(old(self).users()) ==> r is Ok,
    {
        if self.email_clash(&email, None) {
            return Err(DomainError::Conflict("duplicate value (likely email)".to_owned()));
        }
        let mid = self.max_id();
        let mt = self.max_stamp();
        if mid == u128::MAX || mt == i64::MAX {
            return Err(DomainError::Unexpected("storage capacity exhausted".to_owned()));
        }
        let u = User {
            id: mid + 1,
            username,
            email,
            active,
            created_at: mt + 1,
            updated_at: mt + 1,
        };
        let ret = copy_user(&u);
        let ghost prev = self.users();
        self.users.push(u);
        proof {
            assert(self.users() =~= prev.push(ret@));
            assert(!has_user(prev, ret@.id));
            assert forall|i: int, j: int|
                0 <= i < self.users().len() && 0 <= j < self.users().len() && i
                    != j implies self.users()[i].id != self.users()[j].id by {
                if i < prev.len() && j < prev.len() {
                    assert(prev[i].id != prev[j].id);
                }
            }
            assert forall|i: int, j: int|
                0 <= i < self.users().len() && 0 <= j < self.users().len() && i
                    != j implies self.users()[i].email != self.users()[j].email by {
                if i < prev.len() && j < prev.len() {
                    assert(prev[i].email != prev[j].email);
                }
            }
        }
        Ok(ret)
    }

    fn find_by_id(&self, id: u128) -> (r: Result<Option<User>, DomainError>)
        ensures
            r is Ok,
    {
        match self.find_index(id) {
            Some(i) => {
                let u = copy_user(&self.users[i]);
                proof {
                    lemma_user_lookup(self.users(), id, i as int);
                }
                Ok(Some(u))
            },
            None => Ok(None),
        }
    }

    fn list(&self, active: Option<bool>, limit: i64, offset: i64) -> (r: Result<
        Vec<User>,
        DomainError,
    >)
        ensures
            r is Ok,
    {
        let ghost s = self.users();
        let n = self.users.len();
        let mut kept: Vec<User> = Vec::new();
        let mut i: usize = 0;
        while i < n
            invariant
                n == self.users.len(),
                s == self.users(),
                i <= n,
                views_of(kept@) == matching(s.take(i as int), active),
            decreases n - i,
        {
            let keep = match active {
                Some(a) => self.users[i].active == a,
                None => true,
            };
            proof {
                assert(s.take((i + 1) as int).drop_last() =~= s.take(i as int));
                assert(s.take((i + 1) as int).last() == s[i as int]);
                assert(keep == keeps(s[i as int], active));
            }
            if keep {
                let c = copy_user(&self.users[i]);
                let ghost kept_prev = kept@;
                kept.push(c);
                proof {
                    assert(views_of(kept@) =~= views_of(kept_prev).push(c@));
                }
            }
            i += 1;
        }
        proof {
            assert(s.take(n as int) =~= s);
        }
        let ghost q = matching(s, active);
        let m = kept.len();
        let mut out: Vec<User> = Vec::new();
        let mut k: usize = 0;
        while k < 200 && (k as i64) < limit && (offset as u64) + (k as u64) < (m as u64)
            invariant
                q == views_of(kept@),
                m == kept.len(),
                q.len() == m,
                1 <= limit <= 200,
                0 <= offset,
                k <= 200,
                k as i64 <= limit,
                out@.len() == k,
                k > 0 ==> (offset as int) + (k as int) <= m,
                forall|j: int| 0 <= j < k ==> out@[j]@ == q[m - 1 - (offset as int) - j],
            decreases 200 - k,
        {
            let idx64: u64 = (m as u64) - 1 - (offset as u64) - (k as u64);
            proof {
                assert(idx64 < m as u64);
            }
            let idx: usize = idx64 as usize;
            let c = copy_user(&kept[idx]);
            out.push(c);
            k += 1;
        }
        proof {
            let off = offset as int;
            let lim = limit as int;
            let r = q.reverse();
            let lo: int = if off <= q.len() { off } else { q.len() as int };
            let hi: int = if off + lim <= q.len() { off + lim } else { q.len() as int };
            if off >= m {
                assert(k == 0);
                assert(hi - lo == 0);
            } else {
                if k as i64 >= limit {
                    assert(k as int == lim);
                    assert(off + lim <= m);
                } else {
                    assert(off + k as int >= m);
                    assert(off + k as int == m || k == 0);
                }
            }
            assert(out@.len() == hi - lo);
            assert forall|j: int| 0 <= j < out@.len() implies views_of(out@)[j] == page(
                q,
                off,
                lim,
            )[j] by {
                assert(page(q, off, lim)[j] == r[lo + j]);
                assert(r[lo + j] == q[q.len() - 1 - (lo + j)]);
                assert(views_of(out@)[j] == out@[j]@);
            }
            assert(views_of(out@) =~= page(q, off, lim));
        }
        Ok(out)
    }

    fn update(
        &mut self,
        id: u128,
        username: Option<String>,
        email: Option<String>,
        active: Option<bool>,
    ) -> (r: Result<Option<User>, DomainError>)
        ensures
            has_user(old(self).users(), id) && (email matches Some(e) && email_taken_by_other(
                old(self).users(),
                id,
                e@,
            )) ==> (r matches Err(er) && er is Conflict),
            r matches Err(er) && er is Unexpected ==> stamp_exhausted(old(self).users()),
            has_user(old(self).users(), id) && !(email matches Some(e2) && email_taken_by_other(
                old(self).users(),
                id,
                e2@,
            )) && !stamp_exhausted(old(self).users()) ==> r is Ok,
    {
        let idx = match self.find_index(id) {
            None => {
                return Ok(None);
            },
            Some(i) => i,
        };
        proof {
            lemma_user_lookup(self.users(), id, idx as int);
        }
        if let Some(e) = &email {
            if self.email_clash(e, Some(id)) {
                return Err(DomainError::Conflict("duplicate value (likely email)".to_owned()));
            }
        }
        let mt = self.max_stamp();
        if mt == i64::MAX {
            return Err(DomainError::Unexpected("storage capacity exhausted".to_owned()));
        }
        let prev_u = copy_user(&self.users[idx]);
        let nu = User {
            id: prev_u.id,
            username: match username {
                Some(n) => n,
                None => prev_u.username,
            },
            email: match email {
                Some(e2) => e2,
                None => prev_u.email,
            },
            active: match active {
                Some(a) => a,
                None => prev_u.active,
            },
            created_at: prev_u.created_at,
            updated_at: mt + 1,
        };
        let ret = copy_user(&nu);
        let ghost prevs = self.users();
        self.users.remove(idx);
        self.users.insert(idx, nu);
        proof {
            assert(self.users() =~= prevs.update(idx as int, ret@));
            assert forall|i: int, j: int|
                0 <= i < self.users().len() && 0 <= j < self.users().len() && i
                    != j implies self.users()[i].id != self.users()[j].id by {
                assert(prevs[i].id != prevs[j].id);
                assert(self.users()[i].id == prevs[i].id);
                assert(self.users()[j].id == prevs[j].id);
            }
            assert forall|i: int, j: int|
                0 <= i < self.users().len() && 0 <= j < self.users().len() && i
                    != j implies self.users()[i].email != self.users()[j].email by {
                if i != idx as int && j != idx as int {
                    assert(prevs[i].email != prevs[j].email);
                } else {
                    let o = if i == idx as int { j } else { i };
                    assert(prevs[o].id != id);
                    match email {
                        Some(ref e3) => {
                            assert(!email_taken_by_other(prevs, id, e3@));
                        },
                        None => {
                            assert(self.users()[idx as int].email == prevs[idx as int].email);
                        },
                    }
                }
            }
        }
        Ok(Some(ret))
    }

    fn delete(&mut self, id: u128) -> (r: Result<bool, DomainError>)
        ensures
            r is Ok,
    {
        match self.find_index(id) {
            None => Ok(false),
            Some(i) => {
                proof {
                    lemma_user_lookup(self.users(), id, i as int);
                }
                let ghost prevs = self.users();
                self.users.remove(i);
                proof {
                    assert(self.users() =~= prevs.remove(i as int));
                    assert forall|a: int, b: int|
                        0 <= a < self.users().len() && 0 <= b < self.users().len() && a
                            != b implies self.users()[a].id != self.users()[b].id
                            && self.users()[a].email != self.users()[b].email by {
                        let a0 = if a < i as int { a } else { a + 1 };
                        let b0 = if b < i as int { b } else { b + 1 };
                        assert(self.users()[a] == prevs[a0]);
                        assert(self.users()[b] == prevs[b0]);
                        assert(prevs[a0].id != prevs[b0].id);
                        assert(prevs[a0].email != prevs[b0].email);
                    }
                }
                Ok(true)
            },
        }
    }
}

} // verus!
