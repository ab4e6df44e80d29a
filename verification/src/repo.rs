//! The repository capability interface the core depends on, and a verified
//! in-memory implementation of it.
//!
//! Storage engines implement `UserRepository`; the flows consume only its
//! contract. `MemoryUserStore` is proved against that same contract and is
//! what the tests run the flows on.

use vstd::prelude::*;

use crate::user::{User, UserRole, UserView};

verus! {

/// Why a write to the repository failed.
#[derive(Debug, Clone, Copy, PartialEq, Eq, Structural)]
pub enum RepoError {
    /// The email is already taken (unique-email constraint).
    DuplicateEmail,
}

/// The views of a sequence of records.
pub open spec fn views_of(users: Seq<User>) -> Seq<UserView> {
    users.map_values(|u: User| u@)
}

/// Every record satisfies the record invariant.
pub open spec fn all_wf(users: Seq<UserView>) -> bool {
    forall|i: int| 0 <= i < users.len() ==> (#[trigger] users[i]).wf()
}

pub open spec fn has_id(users: Seq<UserView>, id: u128) -> bool {
    exists|i: int| 0 <= i < users.len() && (#[trigger] users[i]).id == id
}

pub open spec fn has_name(users: Seq<UserView>, name: Seq<char>) -> bool {
    exists|i: int| 0 <= i < users.len() && (#[trigger] users[i]).name == name
}

pub open spec fn has_email(users: Seq<UserView>, email: Seq<char>) -> bool {
    exists|i: int| 0 <= i < users.len() && (#[trigger] users[i]).email == email
}

pub open spec fn has_token(users: Seq<UserView>, token: Seq<char>) -> bool {
    exists|i: int| 0 <= i < users.len() && (#[trigger] users[i]).holds_token(token)
}

/// No two records share an email (the unique-email constraint).
pub open spec fn unique_emails(users: Seq<UserView>) -> bool {
    forall|i: int, j: int|
        #![trigger users[i].email, users[j].email]
        0 <= i < j < users.len() ==> users[i].email != users[j].email
}

/// No two records share an id.
pub open spec fn unique_ids(users: Seq<UserView>) -> bool {
    forall|i: int, j: int|
        #![trigger users[i].id, users[j].id]
        0 <= i < j < users.len() ==> users[i].id != users[j].id
}

/// What a lookup may return: a stored record matching the criterion, or
/// `None` exactly when no record matches.
pub open spec fn lookup_by_id(users: Seq<UserView>, id: u128, r: Option<User>) -> bool {
    match r {
        Some(u) => users.contains(u@) && u@.id == id,
        None => !has_id(users, id),
    }
}

pub open spec fn lookup_by_name(users: Seq<UserView>, name: Seq<char>, r: Option<User>) -> bool {
    match r {
        Some(u) => users.contains(u@) && u@.name == name,
        None => !has_name(users, name),
    }
}

pub open spec fn lookup_by_email(users: Seq<UserView>, email: Seq<char>, r: Option<User>) -> bool {
    match r {
        Some(u) => users.contains(u@) && u@.email == email,
        None => !has_email(users, email),
    }
}

pub open spec fn lookup_by_token(users: Seq<UserView>, token: Seq<char>, r: Option<User>) -> bool {
    match r {
        Some(u) => users.contains(u@) && u@.holds_token(token),
        None => !has_token(users, token),
    }
}

/// `u` with a new name.
pub open spec fn with_name(u: UserView, name: Seq<char>, now: u64) -> UserView {
    UserView { name, updated_at: now, ..u }
}

/// `u` with a new role.
pub open spec fn with_role(u: UserView, role: UserRole, now: u64) -> UserView {
    UserView { role, updated_at: now, ..u }
}

/// `u` with a new password hash.
pub open spec fn with_password(u: UserView, password: Seq<char>, now: u64) -> UserView {
    UserView { password, updated_at: now, ..u }
}

/// `u` with a fresh pending verification token.
pub open spec fn with_token(u: UserView, token: Seq<char>, expires_at: u64, now: u64) -> UserView {
    UserView {
        verification_token: Some(token),
        token_expires_at: Some(expires_at),
        updated_at: now,
        ..u
    }
}

/// `u` after its verification token is consumed: token and expiry cleared,
/// everything else untouched.
pub open spec fn consumed(u: UserView, now: u64) -> UserView {
    UserView { verification_token: None, token_expires_at: None, updated_at: now, ..u }
}

/// `u` after an email-verification consumption: the token consumed and the
/// account marked verified.
pub open spec fn consumed_verified(u: UserView, now: u64) -> UserView {
    UserView { verified: true, ..consumed(u, now) }
}

/// The store after a plain consumption of `token`: every holder has the
/// token and its expiry cleared; everyone else is untouched. This is what
/// the password-reset flow does: it never marks an account verified.
pub open spec fn consume_all(users: Seq<UserView>, token: Seq<char>, now: u64) -> Seq<UserView> {
    Seq::new(
        users.len(),
        |i: int|
            if users[i].holds_token(token) {
                consumed(users[i], now)
            } else {
                users[i]
            },
    )
}

/// The store after an email-verification consumption of `token`: every
/// holder is marked verified with the token and its expiry cleared.
pub open spec fn verify_consume_all(
    users: Seq<UserView>,
    token: Seq<char>,
    now: u64,
) -> Seq<UserView> {
    Seq::new(
        users.len(),
        |i: int|
            if users[i].holds_token(token) {
                consumed_verified(users[i], now)
            } else {
                users[i]
            },
    )
}

/// The store after a fresh pending token is stored on user `user_id`,
/// overwriting any prior one; everyone else is untouched.
pub open spec fn token_added(
    users: Seq<UserView>,
    user_id: u128,
    token: Seq<char>,
    expires_at: u64,
    now: u64,
) -> Seq<UserView> {
    Seq::new(
        users.len(),
        |i: int|
            if users[i].id == user_id {
                with_token(users[i], token, expires_at, now)
            } else {
                users[i]
            },
    )
}

/// Consumption is single-use: once a token is consumed, no record holds it
/// any more, so resolving it again finds nothing.
pub proof fn lemma_consume_single_use(users: Seq<UserView>, token: Seq<char>, now: u64)
    ensures
        !has_token(consume_all(users, token, now), token),
        !has_token(verify_consume_all(users, token, now), token),
{
    let after = consume_all(users, token, now);
    assert forall|i: int| 0 <= i < after.len() implies !(#[trigger] after[i]).holds_token(
        token,
    ) by {
        if users[i].holds_token(token) {
            assert(after[i] == consumed(users[i], now));
        }
    }
    let after2 = verify_consume_all(users, token, now);
    assert forall|i: int| 0 <= i < after2.len() implies !(#[trigger] after2[i]).holds_token(
        token,
    ) by {
        if users[i].holds_token(token) {
            assert(after2[i] == consumed_verified(users[i], now));
        }
    }
}

/// The page of records a listing returns: newest first (reverse storage
/// order), `limit` records starting at offset `(page - 1) * limit`.
pub open spec fn page_of(users: Seq<UserView>, page: int, limit: int) -> Seq<UserView> {
    let len = users.len() as int;
    let off = if page >= 1 {
        (page - 1) * limit
    } else {
        0
    };
    if off >= len {
        Seq::empty()
    } else {
        let count = if off + limit <= len {
            limit
        } else {
            len - off
        };
        Seq::new(count as nat, |m: int| users[len - 1 - off - m])
    }
}


/// A consumed token cannot be resolved again: any lookup by that token
/// against the store after consumption finds nothing.
pub proof fn lemma_consumed_token_resolves_to_nothing(
    users: Seq<UserView>,
    token: Seq<char>,
    now: u64,
    r: Option<User>,
)
    requires
        lookup_by_token(consume_all(users, token, now), token, r),
    ensures
        r is None,
{
    lemma_consume_single_use(users, token, now);
    match r {
        Some(u) => {
            let after = consume_all(users, token, now);
            let i = choose|i: int| 0 <= i < after.len() && after[i] == u@;
            assert(after[i].holds_token(token));
        },
        None => {},
    }
}

/// Durable storage of user records, as the core consumes it. A lookup that
/// finds nothing returns `None`; the only failing write is a duplicate
/// email on `save_user`.
pub trait UserRepository: Sized {
    /// The records currently stored.
    spec fn users(&self) -> Seq<UserView>;

    /// The store's invariant.
    spec fn inv(&self) -> bool;

    /// Every stored record satisfies the record invariant.
    proof fn stored_records_wf(&self)
        requires
            self.inv(),
        ensures
            all_wf(self.users()),
    ;

    /// Emails are unique across stored records.
    proof fn stored_emails_unique(&self)
        requires
            self.inv(),
        ensures
            unique_emails(self.users()),
    ;

    /// Ids are unique across stored records.
    proof fn stored_ids_unique(&self)
        requires
            self.inv(),
        ensures
            unique_ids(self.users()),
    ;

    /// Looks a user up by the first given criterion: id, then name, then
    /// email, then verification token. All-`None` criteria find nothing.
    fn get_user(
        &self,
        user_id: Option<u128>,
        name: Option<&str>,
        email: Option<&str>,
        token: Option<&str>,
    ) -> (r: Option<User>)
        requires
            self.inv(),
        ensures
            user_id matches Some(id) ==> lookup_by_id(self.users(), id, r),
            user_id is None ==> (name matches Some(n) ==> lookup_by_name(self.users(), n@, r)),
            user_id is None && name is None ==> (email matches Some(e) ==> lookup_by_email(
                self.users(),
                e@,
                r,
            )),
            user_id is None && name is None && email is None ==> (token matches Some(t)
                ==> lookup_by_token(self.users(), t@, r)),
            user_id is None && name is None && email is None && token is None ==> r is None,
    ;

    /// Returns one page of the listing, newest first.
    fn get_users(&self, page: usize, limit: usize) -> (r: Vec<User>)
        requires
            self.inv(),
        ensures
            views_of(r@) == page_of(self.users(), page as int, limit as int),
    ;

    /// Persists a new unverified user with role `User` and a pending
    /// verification token; fails exactly when the email is already taken.
    fn save_user(
        &mut self,
        name: &str,
        email: &str,
        password: &str,
        verification_token: &str,
        token_expires_at: u64,
        now: u64,
    ) -> (r: Result<User, RepoError>)
        requires
            old(self).inv(),
        ensures
            final(self).inv(),
            r is Err <==> has_email(old(self).users(), email@),
            r matches Err(e) ==> e == RepoError::DuplicateEmail && final(self).users() == old(
                self,
            ).users(),
            r matches Ok(u) ==> {
                &&& u@.name == name@
                &&& u@.email == email@
                &&& u@.password == password@
                &&& u@.role == UserRole::User
                &&& u@.verified == false
                &&& u@.verification_token == Some(verification_token@)
                &&& u@.token_expires_at == Some(token_expires_at)
                &&& u@.created_at == now
                &&& u@.updated_at == now
                &&& !has_id(old(self).users(), u@.id)
                &&& final(self).users() == old(self).users().push(u@)
            },
    ;

    /// The number of stored records.
    fn get_user_count(&self) -> (r: usize)
        requires
            self.inv(),
        ensures
            r == self.users().len(),
    ;

    /// Renames the user with this id, if present; other records are
    /// untouched.
    fn update_username(&mut self, user_id: u128, name: &str, now: u64) -> (r: Option<User>)
        requires
            old(self).inv(),
        ensures
            final(self).inv(),
            r is Some <==> has_id(old(self).users(), user_id),
            r is None ==> final(self).users() == old(self).users(),
            r matches Some(u) ==> exists|i: int|
                {
                    &&& 0 <= i < old(self).users().len()
                    &&& (#[trigger] old(self).users()[i]).id == user_id
                    &&& u@ == with_name(old(self).users()[i], name@, now)
                    &&& final(self).users() == old(self).users().update(i, u@)
                },
    ;

    /// Changes the role of the user with this id, if present.
    fn update_user_role(&mut self, user_id: u128, role: UserRole, now: u64) -> (r: Option<User>)
        requires
            old(self).inv(),
        ensures
            final(self).inv(),
            r is Some <==> has_id(old(self).users(), user_id),
            r is None ==> final(self).users() == old(self).users(),
            r matches Some(u) ==> exists|i: int|
                {
                    &&& 0 <= i < old(self).users().len()
                    &&& (#[trigger] old(self).users()[i]).id == user_id
                    &&& u@ == with_role(old(self).users()[i], role, now)
                    &&& final(self).users() == old(self).users().update(i, u@)
                },
    ;

    /// Replaces the password hash of the user with this id, if present.
    fn update_user_password(&mut self, user_id: u128, password: &str, now: u64) -> (r: Option<
        User,
    >)
        requires
            old(self).inv(),
        ensures
            final(self).inv(),
            r is Some <==> has_id(old(self).users(), user_id),
            r is None ==> final(self).users() == old(self).users(),
            r matches Some(u) ==> exists|i: int|
                {
                    &&& 0 <= i < old(self).users().len()
                    &&& (#[trigger] old(self).users()[i]).id == user_id
                    &&& u@ == with_password(old(self).users()[i], password@, now)
                    &&& final(self).users() == old(self).users().update(i, u@)
                },
    ;

    /// Consumes a pending verification token in one atomic step: every
    /// record holding `token` has the token and its expiry cleared, and
    /// nothing else changes. Idempotent: with no holder, nothing changes.
    fn consume_token(&mut self, token: &str, now: u64)
        requires
            old(self).inv(),
        ensures
            final(self).inv(),
            final(self).users() == consume_all(old(self).users(), token@, now),
    ;

    /// The email-verification consumption, in one atomic step: every record
    /// holding `token` is marked verified and has the token and its expiry
    /// cleared. Idempotent: with no holder, nothing changes.
    fn verified_token(&mut self, token: &str, now: u64)
        requires
            old(self).inv(),
        ensures
            final(self).inv(),
            final(self).users() == verify_consume_all(old(self).users(), token@, now),
    ;

    /// Stores a fresh pending verification token (with its expiry) on the
    /// user with this id, overwriting any prior pending token.
    fn add_verified_token(&mut self, user_id: u128, token: &str, expires_at: u64, now: u64)
        requires
            old(self).inv(),
        ensures
            final(self).inv(),
            final(self).users() == token_added(old(self).users(), user_id, token@, expires_at, now),
    ;
}

/// The verified in-memory store. Record ids are assigned sequentially in
/// storage order.
#[derive(Debug)]
pub struct MemoryUserStore {
    users: Vec<User>,
}

impl MemoryUserStore {
    pub fn new() -> (r: Self)
        ensures
            r.inv(),
            r.users() == Seq::<UserView>::empty(),
    {
        let r = MemoryUserStore { users: Vec::new() };
        proof {
            assert(r.users() =~= Seq::<UserView>::empty());
        }
        r
    }

    fn find_by_id(&self, id: u128) -> (r: Option<usize>)
        ensures
            r matches Some(i) ==> ((i as int) < self.users().len() && self.users()[i as int].id
                == id),
            r is None ==> !has_id(self.users(), id),
    {
        let n = self.users.len();
        let mut j: usize = 0;
        while j < n
            invariant
                n == self.users@.len(),
                j <= n,
                forall|k: int| 0 <= k < j ==> (#[trigger] self.users()[k]).id != id,
            decreases n - j,
        {
            if self.users[j].id == id {
                return Some(j);
            }
            j += 1;
        }
        None
    }

    fn find_by_name(&self, name: &String) -> (r: Option<usize>)
        ensures
            r matches Some(i) ==> ((i as int) < self.users().len() && self.users()[i as int].name
                == name@),
            r is None ==> !has_name(self.users(), name@),
    {
        let n = self.users.len();
        let mut j: usize = 0;
        while j < n
            invariant
                n == self.users@.len(),
                j <= n,
                forall|k: int| 0 <= k < j ==> (#[trigger] self.users()[k]).name != name@,
            decreases n - j,
        {
            if self.users[j].name == *name {
                return Some(j);
            }
            j += 1;
        }
        None
    }

    fn find_by_email(&self, email: &String) -> (r: Option<usize>)
        ensures
            r matches Some(i) ==> ((i as int) < self.users().len() && self.users()[i as int].email
                == email@),
            r is None ==> !has_email(self.users(), email@),
    {
        let n = self.users.len();
        let mut j: usize = 0;
        while j < n
            invariant
                n == self.users@.len(),
                j <= n,
                forall|k: int| 0 <= k < j ==> (#[trigger] self.users()[k]).email != email@,
            decreases n - j,
        {
            if self.users[j].email == *email {
                return Some(j);
            }
            j += 1;
        }
        None
    }

    fn find_by_token(&self, token: &String) -> (r: Option<usize>)
        ensures
            r matches Some(i) ==> ((i as int) < self.users().len() && self.users()[i as int]
                .holds_token(token@)),
            r is None ==> !has_token(self.users(), token@),
    {
        let n = self.users.len();
        let mut j: usize = 0;
        while j < n
            invariant
                n == self.users@.len(),
                j <= n,
                forall|k: int| 0 <= k < j ==> !(#[trigger] self.users()[k]).holds_token(token@),
            decreases n - j,
        {
            let matched = match &self.users[j].verification_token {
                Some(t) => *t == *token,
                None => false,
            };
            if matched {
                return Some(j);
            }
            j += 1;
        }
        None
    }

    fn record_at(&self, i: usize) -> (r: User)
        requires
            i < self.users@.len(),
        ensures
            r@ == self.users()[i as int],
            self.users().contains(r@),
    {
        let u = self.users[i].clone();
        proof {
            assert(self.users().contains(self.users()[i as int]));
        }
        u
    }
}

impl UserRepository for MemoryUserStore {
    closed spec fn users(&self) -> Seq<UserView> {
        views_of(self.users@)
    }

    closed spec fn inv(&self) -> bool {
        &&& all_wf(self.users())
        &&& forall|i: int|
            0 <= i < self.users().len() ==> (#[trigger] self.users()[i]).id == i as u128
        &&& forall|i: int, j: int|
            #![trigger self.users()[i].email, self.users()[j].email]
            0 <= i < j < self.users().len() ==> self.users()[i].email != self.users()[j].email
    }

    proof fn stored_records_wf(&self) {
    }

    proof fn stored_emails_unique(&self) {
    }

    proof fn stored_ids_unique(&self) {
        assert(self.users@.len() == vstd::std_specs::vec::spec_vec_len(&self.users));
        assert forall|i: int, j: int|
            #![trigger self.users()[i].id, self.users()[j].id]
            0 <= i < j < self.users().len() implies self.users()[i].id != self.users()[j].id by {
            assert(self.users()[i].id == i as u128);
            assert(self.users()[j].id == j as u128);
        }
    }

    fn get_user(
        &self,
        user_id: Option<u128>,
        name: Option<&str>,
        email: Option<&str>,
        token: Option<&str>,
    ) -> (r: Option<User>) {
        match user_id {
            Some(id) => {
                return match self.find_by_id(id) {
                    Some(i) => Some(self.record_at(i)),
                    None => None,
                };
            },
            None => {},
        }
        match name {
            Some(n) => {
                let key = n.to_owned();
                return match self.find_by_name(&key) {
                    Some(i) => Some(self.record_at(i)),
                    None => None,
                };
            },
            None => {},
        }
        match email {
            Some(e) => {
                let key = e.to_owned();
                return match self.find_by_email(&key) {
                    Some(i) => Some(self.record_at(i)),
                    None => None,
                };
            },
            None => {},
        }
        match token {
            Some(t) => {
                let key = t.to_owned();
                return match self.find_by_token(&key) {
                    Some(i) => Some(self.record_at(i)),
                    None => None,
                };
            },
            None => {},
        }
        None
    }

    #[verifier::loop_isolation(false)]
    fn get_users(&self, page: usize, limit: usize) -> (r: Vec<User>) {
        let n = self.users.len();
        let off = if page >= 1 {
            match (page - 1).checked_mul(limit) {
                Some(o) => o,
                None => {
                    proof {
                        assert(page_of(self.users(), page as int, limit as int)
                            =~= Seq::<UserView>::empty());
                    }
                    return Vec::new();
                },
            }
        } else {
            0
        };
        if off >= n {
            proof {
                assert(page_of(self.users(), page as int, limit as int)
                    =~= Seq::<UserView>::empty());
            }
            return Vec::new();
        }
        let end = if limit <= n - off {
            off + limit
        } else {
            n
        };
        let mut out: Vec<User> = Vec::new();
        let mut i = off;
        while i < end
            invariant
                off <= i <= end,
                out@.len() == i - off,
                forall|m: int|
                    0 <= m < i - off ==> (#[trigger] out@[m])@ == self.users()[n - 1 - off - m],
            decreases end - i,
        {
            let u = self.record_at(n - 1 - i);
            out.push(u);
            i += 1;
        }
        proof {
            assert(views_of(out@) =~= page_of(self.users(), page as int, limit as int));
        }
        out
    }

    fn save_user(
        &mut self,
        name: &str,
        email: &str,
        password: &str,
        verification_token: &str,
        token_expires_at: u64,
        now: u64,
    ) -> (r: Result<User, RepoError>) {
        let email_key = email.to_owned();
        match self.find_by_email(&email_key) {
            Some(i) => {
                proof {
                    assert(has_email(self.users(), email@));
                }
                Err(RepoError::DuplicateEmail)
            },
            None => {
                let id = self.users.len() as u128;
                let user = User {
                    id,
                    name: name.to_owned(),
                    email: email.to_owned(),
                    password: password.to_owned(),
                    role: UserRole::User,
                    verified: false,
                    verification_token: Some(verification_token.to_owned()),
                    token_expires_at: Some(token_expires_at),
                    created_at: now,
                    updated_at: now,
                };
                let ret = user.clone();
                self.users.push(user);
                proof {
                    assert(self.users() =~= old(self).users().push(ret@));
                }
                Ok(ret)
            },
        }
    }

    fn get_user_count(&self) -> (r: usize) {
        self.users.len()
    }

    fn update_username(&mut self, user_id: u128, name: &str, now: u64) -> (r: Option<User>) {
        match self.find_by_id(user_id) {
            None => None,
            Some(i) => {
                let mut u = self.users[i].clone();
                u.name = name.to_owned();
                u.updated_at = now;
                let ret = u.clone();
                self.users[i] = u;
                proof {
                    assert(has_id(old(self).users(), user_id));
                    assert(ret@ == with_name(old(self).users()[i as int], name@, now));
                    assert(self.users() =~= old(self).users().update(i as int, ret@));
                }
                Some(ret)
            },
        }
    }

    fn update_user_role(&mut self, user_id: u128, role: UserRole, now: u64) -> (r: Option<User>) {
        match self.find_by_id(user_id) {
            None => None,
            Some(i) => {
                let mut u = self.users[i].clone();
                u.role = role;
                u.updated_at = now;
                let ret = u.clone();
                self.users[i] = u;
                proof {
                    assert(has_id(old(self).users(), user_id));
                    assert(ret@ == with_role(old(self).users()[i as int], role, now));
                    assert(self.users() =~= old(self).users().update(i as int, ret@));
                }
                Some(ret)
            },
        }
    }

    fn update_user_password(&mut self, user_id: u128, password: &str, now: u64) -> (r: Option<
        User,
    >) {
        match self.find_by_id(user_id) {
            None => None,
            Some(i) => {
                let mut u = self.users[i].clone();
                u.password = password.to_owned();
                u.updated_at = now;
                let ret = u.clone();
                self.users[i] = u;
                proof {
                    assert(has_id(old(self).users(), user_id));
                    assert(ret@ == with_password(old(self).users()[i as int], password@, now));
                    assert(self.users() =~= old(self).users().update(i as int, ret@));
                }
                Some(ret)
            },
        }
    }

    #[verifier::loop_isolation(false)]
    fn consume_token(&mut self, token: &str, now: u64) {
        let key = token.to_owned();
        let ghost orig: Seq<UserView> = self.users();
        let n = self.users.len();
        let mut j: usize = 0;
        while j < n
            invariant
                n == self.users@.len(),
                j <= n,
                forall|k: int| j <= k < n ==> (#[trigger] self.users@[k])@ == orig[k],
                forall|k: int|
                    0 <= k < j ==> (#[trigger] self.users@[k])@ == (if orig[k].holds_token(key@) {
                        consumed(orig[k], now)
                    } else {
                        orig[k]
                    }),
            decreases n - j,
        {
            let matched = match &self.users[j].verification_token {
                Some(t) => *t == key,
                None => false,
            };
            if matched {
                let mut u = self.users[j].clone();
                u.verification_token = None;
                u.token_expires_at = None;
                u.updated_at = now;
                self.users[j] = u;
            }
            j += 1;
        }
        proof {
            assert(self.users() =~= consume_all(orig, token@, now));
        }
    }

    #[verifier::loop_isolation(false)]
    fn verified_token(&mut self, token: &str, now: u64) {
        let key = token.to_owned();
        let ghost orig: Seq<UserView> = self.users();
        let n = self.users.len();
        let mut j: usize = 0;
        while j < n
            invariant
                n == self.users@.len(),
                j <= n,
                forall|k: int| j <= k < n ==> (#[trigger] self.users@[k])@ == orig[k],
                forall|k: int|
                    0 <= k < j ==> (#[trigger] self.users@[k])@ == (if orig[k].holds_token(key@) {
                        consumed_verified(orig[k], now)
                    } else {
                        orig[k]
                    }),
            decreases n - j,
        {
            let matched = match &self.users[j].verification_token {
                Some(t) => *t == key,
                None => false,
            };
            if matched {
                let mut u = self.users[j].clone();
                u.verified = true;
                u.verification_token = None;
                u.token_expires_at = None;
                u.updated_at = now;
                self.users[j] = u;
            }
            j += 1;
        }
        proof {
            assert(self.users() =~= verify_consume_all(orig, token@, now));
        }
    }

    #[verifier::loop_isolation(false)]
    fn add_verified_token(&mut self, user_id: u128, token: &str, expires_at: u64, now: u64) {
        let key = token.to_owned();
        let ghost orig: Seq<UserView> = self.users();
        let n = self.users.len();
        let mut j: usize = 0;
        while j < n
            invariant
                n == self.users@.len(),
                j <= n,
                forall|k: int| j <= k < n ==> (#[trigger] self.users@[k])@ == orig[k],
                forall|k: int|
                    0 <= k < j ==> (#[trigger] self.users@[k])@ == (if orig[k].id == user_id {
                        with_token(orig[k], key@, expires_at, now)
                    } else {
                        orig[k]
                    }),
            decreases n - j,
        {
            if self.users[j].id == user_id {
                let mut u = self.users[j].clone();
                u.verification_token = Some(key.clone());
                u.token_expires_at = Some(expires_at);
                u.updated_at = now;
                self.users[j] = u;
            }
            j += 1;
        }
        proof {
            assert(self.users() =~= token_added(orig, user_id, token@, expires_at, now));
        }
    }
}

} // verus!
