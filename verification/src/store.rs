//! An in-memory user store: lookup by email, by OAuth identity and by id,
//! and creation with email uniqueness enforced by the store itself.
//!
//! The boundary may put a database behind the same interface; the flows of
//! the core only rely on the contracts here.

use vstd::prelude::*;
use crate::clock::now_unix;
use crate::error::AppError;
use crate::text::str_eq;
use crate::text::clone_opt_string;
use crate::user::{clone_user, User};

verus! {

/// Whether `u` carries exactly this OAuth identity.
pub open spec fn user_oauth_matches(u: User, provider: Seq<char>, id: Seq<char>) -> bool {
    &&& u.oauth_provider matches Some(p) && p@ == provider
    &&& u.oauth_id matches Some(x) && x@ == id
}

/// The user records, in creation order.
pub struct Store {
    pub users: Vec<User>,
}

/// Emails are pairwise distinct across the records.
pub open spec fn emails_distinct(users: Seq<User>) -> bool {
    forall|i: int, j: int|
        #![trigger users[i], users[j]]
        0 <= i < j < users.len() ==> users[i].email@ != users[j].email@
}

/// The records of `users` whose id is not `id`, in their stored order.
pub open spec fn without_id(users: Seq<User>, id: Seq<char>) -> Seq<User>
    decreases users.len(),
{
    if users.len() == 0 {
        Seq::empty()
    } else {
        let rest = without_id(users.drop_last(), id);
        if users.last().id@ == id {
            rest
        } else {
            rest.push(users.last())
        }
    }
}

/// Removal from a grown record list keeps the removed prefix and appends the
/// new record exactly when its id differs.
pub proof fn lemma_without_id_push(users: Seq<User>, u: User, id: Seq<char>)
    ensures
        without_id(users.push(u), id) == if u.id@ == id {
            without_id(users, id)
        } else {
            without_id(users, id).push(u)
        },
{
    assert(users.push(u).drop_last() =~= users);
}

/// Every survivor of a removal was stored before it and does not carry the
/// removed id.
pub proof fn lemma_without_id_members(users: Seq<User>, id: Seq<char>)
    ensures
        forall|k: int|
            0 <= k < without_id(users, id).len() ==> users.contains(
                #[trigger] without_id(users, id)[k],
            ) && without_id(users, id)[k].id@ != id,
    decreases users.len(),
{
    if users.len() > 0 {
        lemma_without_id_members(users.drop_last(), id);
        let rest = without_id(users.drop_last(), id);
        assert forall|k: int| 0 <= k < without_id(users, id).len() implies users.contains(
            without_id(users, id)[k],
        ) && without_id(users, id)[k].id@ != id by {
            if k < rest.len() {
                assert(without_id(users, id)[k] == rest[k]);
                assert(users.drop_last().contains(rest[k]));
                let m = choose|m: int|
                    0 <= m < users.drop_last().len() && users.drop_last()[m] == rest[k];
                assert(users[m] == rest[k]);
            } else {
                assert(without_id(users, id)[k] == users.last());
                assert(users[users.len() - 1] == users.last());
            }
        }
    }
}

/// Removal keeps emails pairwise distinct.
pub proof fn lemma_without_id_wf(users: Seq<User>, id: Seq<char>)
    requires
        emails_distinct(users),
    ensures
        emails_distinct(without_id(users, id)),
    decreases users.len(),
{
    if users.len() > 0 {
        assert(emails_distinct(users.drop_last())) by {
            assert forall|i: int, j: int|
                #![trigger users.drop_last()[i], users.drop_last()[j]]
                0 <= i < j < users.drop_last().len() implies users.drop_last()[i].email@
                != users.drop_last()[j].email@ by {
                assert(users.drop_last()[i] == users[i]);
                assert(users.drop_last()[j] == users[j]);
            }
        }
        lemma_without_id_wf(users.drop_last(), id);
        lemma_without_id_members(users.drop_last(), id);
        let rest = without_id(users.drop_last(), id);
        let out = without_id(users, id);
        if users.last().id@ != id {
            assert(out == rest.push(users.last()));
            assert forall|i: int, j: int|
                #![trigger out[i], out[j]]
                0 <= i < j < out.len() implies out[i].email@ != out[j].email@ by {
                if j < rest.len() {
                    assert(out[i] == rest[i]);
                    assert(out[j] == rest[j]);
                } else {
                    assert(out[j] == users.last());
                    assert(out[i] == rest[i]);
                    assert(users.drop_last().contains(rest[i]));
                    let m = choose|m: int|
                        0 <= m < users.drop_last().len() && users.drop_last()[m] == rest[i];
                    assert(users[m] == rest[i]);
                    assert(users[m].email@ != users[users.len() - 1].email@);
                }
            }
        }
    }
}

/// Relies on `uuid::Uuid::new_v4` and its hyphenated rendering: a fresh
/// random identifier, so nothing is promised of the value.
#[verifier::external_body]
fn new_uuid() -> String {
    uuid::Uuid::new_v4().to_string()
}

impl Store {
    /// Whether some stored user has exactly this email (case-sensitive, as
    /// stored).
    pub open spec fn has_email(&self, email: Seq<char>) -> bool {
        exists|i: int| 0 <= i < self.users@.len() && (#[trigger] self.users@[i]).email@ == email
    }

    /// Whether some stored user carries this OAuth identity.
    pub open spec fn has_oauth(&self, provider: Seq<char>, id: Seq<char>) -> bool {
        exists|i: int|
            0 <= i < self.users@.len() && user_oauth_matches(
                #[trigger] self.users@[i],
                provider,
                id,
            )
    }

    /// Whether some stored user has this id.
    pub open spec fn has_id(&self, id: Seq<char>) -> bool {
        exists|i: int| 0 <= i < self.users@.len() && (#[trigger] self.users@[i]).id@ == id
    }

    /// Emails are unique across the store.
    pub open spec fn wf(&self) -> bool {
        emails_distinct(self.users@)
    }

    /// An empty store.
    pub fn new() -> (s: Store)
        ensures
            s.users@.len() == 0,
            s.wf(),
    {
        Store { users: Vec::new() }
    }

    /// Create a user, rejecting an email already known to the store (exact,
    /// case-sensitive match). On success the new record — with a fresh
    /// identifier and the creation instant — is appended and returned.
    pub fn create_user(
        &mut self,
        email: String,
        name: String,
        password_hash: Option<String>,
        oauth_provider: Option<String>,
        oauth_id: Option<String>,
    ) -> (r: Result<User, AppError>)
        ensures
            r is Ok <==> !old(self).has_email(email@),
            r matches Ok(u) ==> final(self).users@ == old(self).users@.push(u) && u.email == email
                && u.name == name && u.password_hash == password_hash && u.oauth_provider
                == oauth_provider && u.oauth_id == oauth_id && u.created_at == u.updated_at,
            r matches Err(e) ==> *final(self) == *old(self) && (e matches AppError::BadRequest(m)
                && m@ == "Email already exists"@),
            old(self).wf() ==> final(self).wf(),
    {
        let n = self.users.len();
        let mut i: usize = 0;
        while i < n
            invariant
                n == self.users@.len(),
                0 <= i <= n,
                forall|k: int| 0 <= k < i ==> (#[trigger] self.users@[k]).email@ != email@,
            decreases n - i,
        {
            if str_eq(self.users[i].email.as_str(), email.as_str()) {
                return Err(AppError::BadRequest("Email already exists".to_owned()));
            }
            i = i + 1;
        }
        let id = new_uuid();
        let now = now_unix();
        let user = User {
            id,
            email,
            name,
            password_hash,
            oauth_provider,
            oauth_id,
            created_at: now,
            updated_at: now,
        };
        let out = clone_user(&user);
        proof {
            if old(self).wf() {
                assert forall|a: int, b: int|
                    #![trigger self.users@.push(user)[a], self.users@.push(user)[b]]
                    0 <= a < b < self.users@.push(user).len() implies self.users@.push(
                    user,
                )[a].email@ != self.users@.push(user)[b].email@ by {
                    if b < self.users@.len() {
                        assert(self.users@.push(user)[a] == self.users@[a]);
                        assert(self.users@.push(user)[b] == self.users@[b]);
                    } else {
                        assert(self.users@.push(user)[b] == user);
                        assert(self.users@.push(user)[a] == self.users@[a]);
                    }
                }
            }
        }
        self.users.push(user);
        Ok(out)
    }

    /// The stored user with this email, if any.
    pub fn find_user_by_email(&self, email: &str) -> (r: Result<Option<User>, AppError>)
        ensures
            r is Ok,
            r matches Ok(opt) ==> (opt is Some <==> self.has_email(email@)),
            r matches Ok(Some(u)) ==> self.users@.contains(u) && u.email@ == email@,
    {
        let n = self.users.len();
        let mut i: usize = 0;
        while i < n
            invariant
                n == self.users@.len(),
                0 <= i <= n,
                forall|k: int| 0 <= k < i ==> (#[trigger] self.users@[k]).email@ != email@,
            decreases n - i,
        {
            if str_eq(self.users[i].email.as_str(), email) {
                let found = clone_user(&self.users[i]);
                proof {
                    assert(self.users@.contains(self.users@[i as int]));
                }
                return Ok(Some(found));
            }
            i = i + 1;
        }
        Ok(None)
    }

    /// The stored user with this OAuth identity, if any.
    pub fn find_user_by_oauth(&self, oauth_provider: &str, oauth_id: &str) -> (r: Result<
        Option<User>,
        AppError,
    >)
        ensures
            r is Ok,
            r matches Ok(opt) ==> (opt is Some <==> self.has_oauth(oauth_provider@, oauth_id@)),
            r matches Ok(Some(u)) ==> self.users@.contains(u) && user_oauth_matches(
                u,
                oauth_provider@,
                oauth_id@,
            ),
    {
        let n = self.users.len();
        let mut i: usize = 0;
        while i < n
            invariant
                n == self.users@.len(),
                0 <= i <= n,
                forall|k: int|
                    0 <= k < i ==> !user_oauth_matches(
                        #[trigger] self.users@[k],
                        oauth_provider@,
                        oauth_id@,
                    ),
            decreases n - i,
        {
            let hit = match (&self.users[i].oauth_provider, &self.users[i].oauth_id) {
                (Some(p), Some(x)) => str_eq(p.as_str(), oauth_provider) && str_eq(
                    x.as_str(),
                    oauth_id,
                ),
                _ => false,
            };
            if hit {
                let found = clone_user(&self.users[i]);
                proof {
                    assert(self.users@.contains(self.users@[i as int]));
                }
                return Ok(Some(found));
            }
            i = i + 1;
        }
        Ok(None)
    }

    /// The stored user with this id, if any.
    pub fn find_user_by_id(&self, id: &str) -> (r: Result<Option<User>, AppError>)
        ensures
            r is Ok,
            r matches Ok(opt) ==> (opt is Some <==> self.has_id(id@)),
            r matches Ok(Some(u)) ==> self.users@.contains(u) && u.id@ == id@,
    {
        let n = self.users.len();
        let mut i: usize = 0;
        while i < n
            invariant
                n == self.users@.len(),
                0 <= i <= n,
                forall|k: int| 0 <= k < i ==> (#[trigger] self.users@[k]).id@ != id@,
            decreases n - i,
        {
            if str_eq(self.users[i].id.as_str(), id) {
                let found = clone_user(&self.users[i]);
                proof {
                    assert(self.users@.contains(self.users@[i as int]));
                }
                return Ok(Some(found));
            }
            i = i + 1;
        }
        Ok(None)
    }

    /// Replace a user's password credential wholesale — never mutated in
    /// place — and bump the update instant. The absent id is the only error.
    pub fn update_user_password(&mut self, id: &str, new_password_hash: String) -> (r: Result<
        User,
        AppError,
    >)
        ensures
            r is Ok <==> old(self).has_id(id@),
            r matches Err(e) ==> *final(self) == *old(self) && e is NotFound,
            r matches Ok(u) ==> exists|i: int|
                0 <= i < old(self).users@.len() && (#[trigger] old(self).users@[i]).id@ == id@
                    && final(self).users@ == old(self).users@.update(i, u) && u.id == old(
                    self,
                ).users@[i].id && u.email == old(self).users@[i].email && u.name == old(
                    self,
                ).users@[i].name && u.password_hash == Some(new_password_hash) && u.oauth_provider
                    == old(self).users@[i].oauth_provider && u.oauth_id == old(
                    self,
                ).users@[i].oauth_id && u.created_at == old(self).users@[i].created_at,
            old(self).wf() ==> final(self).wf(),
    {
        let n = self.users.len();
        let mut i: usize = 0;
        while i < n
            invariant
                n == self.users@.len(),
                *self == *old(self),
                0 <= i <= n,
                forall|k: int| 0 <= k < i ==> (#[trigger] self.users@[k]).id@ != id@,
            decreases n - i,
        {
            if str_eq(self.users[i].id.as_str(), id) {
                let now = now_unix();
                let updated = User {
                    id: self.users[i].id.clone(),
                    email: self.users[i].email.clone(),
                    name: self.users[i].name.clone(),
                    password_hash: Some(new_password_hash),
                    oauth_provider: clone_opt_string(&self.users[i].oauth_provider),
                    oauth_id: clone_opt_string(&self.users[i].oauth_id),
                    created_at: self.users[i].created_at,
                    updated_at: now,
                };
                let out = clone_user(&updated);
                self.users[i] = updated;
                proof {
                    if old(self).wf() {
                        assert forall|a: int, b: int|
                            #![trigger self.users@[a], self.users@[b]]
                            0 <= a < b < self.users@.len() implies self.users@[a].email@
                            != self.users@[b].email@ by {
                            assert(self.users@[a].email@ == old(self).users@[a].email@);
                            assert(self.users@[b].email@ == old(self).users@[b].email@);
                        }
                    }
                }
                return Ok(out);
            }
            i = i + 1;
        }
        Err(AppError::NotFound)
    }

    /// Remove every record with this id; removing an absent id is no error.
    pub fn delete_user(&mut self, id: &str) -> (r: Result<(), AppError>)
        ensures
            r is Ok,
            final(self).users@ == without_id(old(self).users@, id@),
            old(self).wf() ==> final(self).wf(),
    {
        let ghost all = self.users@;
        let n = self.users.len();
        let mut kept: Vec<User> = Vec::new();
        let mut i: usize = 0;
        while i < n
            invariant
                n == self.users@.len(),
                self.users@ == all,
                0 <= i <= n,
                kept@ == without_id(all.subrange(0, i as int), id@),
            decreases n - i,
        {
            proof {
                assert(all.subrange(0, i + 1) =~= all.subrange(0, i as int).push(all[i as int]));
                lemma_without_id_push(all.subrange(0, i as int), all[i as int], id@);
            }
            if !str_eq(self.users[i].id.as_str(), id) {
                kept.push(clone_user(&self.users[i]));
            }
            i = i + 1;
        }
        proof {
            assert(all.subrange(0, n as int) =~= all);
            if old(self).wf() {
                lemma_without_id_wf(all, id@);
            }
        }
        self.users = kept;
        Ok(())
    }
}

} // verus!
