//! The user record as the core sees it: identity, credentials, role,
//! verification state. Identifiers are uuids carried as their 128-bit value;
//! timestamps are unix seconds.

use vstd::prelude::*;

use uuid::Uuid;

verus! {

/// The closed set of roles.
#[derive(Debug, Clone, Copy, PartialEq, Eq, Structural)]
pub enum UserRole {
    Admin,
    User,
}

impl UserRole {
    /// The wire name of this role.
    pub open spec fn spec_str(self) -> Seq<char> {
        match self {
            UserRole::Admin => "admin"@,
            UserRole::User => "user"@,
        }
    }

    pub fn to_str(&self) -> (r: &'static str)
        ensures
            r@ == self.spec_str(),
    {
        match self {
            UserRole::Admin => "admin",
            UserRole::User => "user",
        }
    }
}

/// A stored user record.
#[derive(Debug)]
pub struct User {
    pub id: u128,
    pub name: String,
    pub email: String,
    /// The password hash (never a raw password).
    pub password: String,
    pub role: UserRole,
    pub verified: bool,
    /// The pending verification token, if any; paired with
    /// `token_expires_at`.
    pub verification_token: Option<String>,
    pub token_expires_at: Option<u64>,
    pub created_at: u64,
    pub updated_at: u64,
}

/// The mathematical value of a `User`.
pub struct UserView {
    pub id: u128,
    pub name: Seq<char>,
    pub email: Seq<char>,
    pub password: Seq<char>,
    pub role: UserRole,
    pub verified: bool,
    pub verification_token: Option<Seq<char>>,
    pub token_expires_at: Option<u64>,
    pub created_at: u64,
    pub updated_at: u64,
}

impl UserView {
    /// The record invariant: a verification token and its expiry are both
    /// present or both absent.
    pub open spec fn wf(self) -> bool {
        self.verification_token is Some <==> self.token_expires_at is Some
    }

    /// Whether this record currently holds `token` as its pending
    /// verification token.
    pub open spec fn holds_token(self, token: Seq<char>) -> bool {
        self.verification_token == Some(token)
    }
}

impl Clone for User {
    fn clone(&self) -> (res: Self)
        ensures
            res == *self,
    {
        User {
            id: self.id,
            name: self.name.clone(),
            email: self.email.clone(),
            password: self.password.clone(),
            role: self.role,
            verified: self.verified,
            verification_token: match &self.verification_token {
                Some(t) => Some(t.clone()),
                None => None,
            },
            token_expires_at: self.token_expires_at,
            created_at: self.created_at,
            updated_at: self.updated_at,
        }
    }
}

impl View for User {
    type V = UserView;

    open spec fn view(&self) -> UserView {
        UserView {
            id: self.id,
            name: self.name@,
            email: self.email@,
            password: self.password@,
            role: self.role,
            verified: self.verified,
            verification_token: match self.verification_token {
                Some(t) => Some(t@),
                None => None,
            },
            token_expires_at: self.token_expires_at,
            created_at: self.created_at,
            updated_at: self.updated_at,
        }
    }
}

/// The canonical hyphenated text form of a uuid: a function of its 128-bit
/// value alone.
pub uninterp spec fn uuid_str_of(id: u128) -> Seq<char>;

/// The uuid value recovered by parsing a string, if the string is a valid
/// uuid text form.
pub uninterp spec fn uuid_parse_of(s: Seq<char>) -> Option<u128>;

/// Relies on uuid::Uuid::to_string: the hyphenated form, 36 characters,
/// which Uuid::parse_str parses back to the same value.
#[verifier::external_body]
pub(crate) fn uuid_string(id: u128) -> (r: String)
    ensures
        r@ == uuid_str_of(id),
        r@.len() == 36,
        uuid_parse_of(r@) == Some(id),
{
    Uuid::from_u128(id).to_string()
}

/// Relies on uuid::Uuid::parse_str: the outcome is a function of the string
/// alone.
#[verifier::external_body]
pub(crate) fn uuid_parse(s: &str) -> (r: Option<u128>)
    ensures
        r == uuid_parse_of(s@),
{
    match Uuid::parse_str(s) {
        Ok(u) => Some(u.as_u128()),
        Err(_) => None,
    }
}

/// Relies on uuid::Uuid::new_v4: a fresh random uuid. Nothing is promised
/// about its value.
#[verifier::external_body]
pub(crate) fn fresh_uuid() -> u128 {
    Uuid::new_v4().as_u128()
}

/// A user record as exposed to clients: the password hash and the pending
/// verification token are stripped, the id and role take their text form.
#[derive(Debug)]
pub struct FilterUser {
    pub id: String,
    pub name: String,
    pub email: String,
    pub role: String,
    pub verified: bool,
    pub created_at: u64,
    pub updated_at: u64,
}

/// Whether `f` is exactly the client-facing projection of `u`.
pub open spec fn is_filtered(f: FilterUser, u: UserView) -> bool {
    &&& f.id@ == uuid_str_of(u.id)
    &&& f.name@ == u.name
    &&& f.email@ == u.email
    &&& f.role@ == u.role.spec_str()
    &&& f.verified == u.verified
    &&& f.created_at == u.created_at
    &&& f.updated_at == u.updated_at
}

impl FilterUser {
    pub fn filter_user(user: &User) -> (r: FilterUser)
        ensures
            is_filtered(r, user@),
    {
        FilterUser {
            id: uuid_string(user.id),
            name: user.name.clone(),
            email: user.email.clone(),
            role: user.role.to_str().to_owned(),
            verified: user.verified,
            created_at: user.created_at,
            updated_at: user.updated_at,
        }
    }

    pub fn filter_users(users: &Vec<User>) -> (r: Vec<FilterUser>)
        ensures
            r@.len() == users@.len(),
            forall|i: int|
                0 <= i < users@.len() ==> is_filtered(#[trigger] r@[i], users@[i]@),
    {
        let mut out: Vec<FilterUser> = Vec::new();
        let n = users.len();
        for j in 0..n
            invariant
                n == users@.len(),
                out@.len() == j,
                forall|i: int| 0 <= i < j ==> is_filtered(#[trigger] out@[i], users@[i]@),
        {
            out.push(FilterUser::filter_user(&users[j]));
        }
        out
    }
}

} // verus!
