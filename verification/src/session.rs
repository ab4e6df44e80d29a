//! Request authentication and the RBAC gate.
//!
//! A request moves from token extraction (cookie first, bearer header as the
//! fallback) through signature and expiry checking, subject parsing and a
//! repository lookup, to an identity attached to the request; any failure
//! short-circuits with the exact error this module states. The role gate
//! then authorizes the identity against a per-operation allow-list.

use vstd::prelude::*;
use vstd::string::StrSliceExecFns;
use vstd::string::StringExecFns;

use crate::errors::{ErrorMessage, HttpError, STATUS_FORBIDDEN, STATUS_UNAUTHORIZED};
use crate::repo::{has_id, UserRepository};
use crate::token::{decode_token, jwt_claims_of, token_valid_at};
use crate::user::{uuid_parse, uuid_parse_of, User, UserRole};

verus! {

/// The identity attached to a request after successful authentication.
#[derive(Debug)]
pub struct JWTAuthMiddleware {
    pub user: User,
}

/// The token a bearer `Authorization` header carries, if it is one.
pub open spec fn spec_bearer_token(header: Seq<char>) -> Option<Seq<char>> {
    if header.len() >= 7 && header.subrange(0, 7) == "Bearer "@ {
        Some(header.subrange(7, header.len() as int))
    } else {
        None
    }
}

pub open spec fn opt_str_view(s: Option<&str>) -> Option<Seq<char>> {
    match s {
        Some(x) => Some(x@),
        None => None,
    }
}

/// The session token a request carries: the `token` cookie's value if the
/// cookie is present, else the bearer token of the `Authorization` header.
pub open spec fn provided_token(cookie: Option<Seq<char>>, header: Option<Seq<char>>) -> Option<
    Seq<char>,
> {
    match cookie {
        Some(c) => Some(c),
        None => match header {
            Some(h) => spec_bearer_token(h),
            None => None,
        },
    }
}

/// Extracts the session token from the `token` cookie, falling back to a
/// bearer `Authorization` header. A request carrying neither fails with the
/// distinct `TokenNotProvided` error.
pub fn extract_token(cookie_token: Option<&str>, authorization_header: Option<&str>) -> (r: Result<
    String,
    HttpError,
>)
    ensures
        r matches Ok(t) ==> provided_token(
            opt_str_view(cookie_token),
            opt_str_view(authorization_header),
        ) == Some(t@),
        r is Err <==> provided_token(
            opt_str_view(cookie_token),
            opt_str_view(authorization_header),
        ) is None,
        r matches Err(e) ==> e.status == STATUS_UNAUTHORIZED && e.message@
            == ErrorMessage::TokenNotProvided.spec_message(),
{
    match cookie_token {
        Some(c) => Ok(c.to_owned()),
        None => match authorization_header {
            Some(h) => {
                let n = h.unicode_len();
                if n >= 7 {
                    let prefix = h.substring_char(0, 7);
                    if prefix.to_owned() == String::from_str("Bearer ") {
                        Ok(h.substring_char(7, n).to_owned())
                    } else {
                        Err(HttpError::unauthorized(ErrorMessage::TokenNotProvided.to_str()))
                    }
                } else {
                    Err(HttpError::unauthorized(ErrorMessage::TokenNotProvided.to_str()))
                }
            },
            None => Err(HttpError::unauthorized(ErrorMessage::TokenNotProvided.to_str())),
        },
    }
}

/// Authenticates a request against the repository: extract the token,
/// check signature and expiry at `now`, parse the subject as a user id,
/// load the user. Each failure is reported as unauthorized with the exact
/// message stated here; on success the loaded user is the attached
/// identity.
pub fn authenticate<R: UserRepository>(
    repo: &R,
    cookie_token: Option<&str>,
    authorization_header: Option<&str>,
    secret: &[u8],
    now: u64,
) -> (r: Result<JWTAuthMiddleware, HttpError>)
    requires
        repo.inv(),
    ensures
        ({
            let tok = provided_token(opt_str_view(cookie_token), opt_str_view(authorization_header));
            &&& (r matches Ok(m) ==> {
                &&& tok matches Some(t)
                &&& token_valid_at(t, secret@, now)
                &&& (jwt_claims_of(t, secret@) matches Some(c) && uuid_parse_of(c.0) == Some(
                    m.user@.id,
                ))
                &&& repo.users().contains(m.user@)
            })
            &&& (r matches Err(e) ==> e.status == STATUS_UNAUTHORIZED)
            &&& (tok is None ==> (r matches Err(e) && e.message@
                == ErrorMessage::TokenNotProvided.spec_message()))
            &&& ((tok matches Some(t) && !token_valid_at(t, secret@, now)) ==> (r matches Err(e)
                && e.message@ == ErrorMessage::InvalidToken.spec_message()))
            &&& ((tok matches Some(t) && token_valid_at(t, secret@, now) && (jwt_claims_of(
                t,
                secret@,
            ) matches Some(c) && uuid_parse_of(c.0) is None)) ==> (r matches Err(e) && e.message@
                == ErrorMessage::InvalidToken.spec_message()))
            &&& ((tok matches Some(t) && token_valid_at(t, secret@, now) && (jwt_claims_of(
                t,
                secret@,
            ) matches Some(c) && uuid_parse_of(c.0) matches Some(id) && !has_id(
                repo.users(),
                id,
            ))) ==> (r matches Err(e) && e.message@
                == ErrorMessage::UserNoLongerExist.spec_message()))
            &&& ((tok matches Some(t) && token_valid_at(t, secret@, now) && (jwt_claims_of(
                t,
                secret@,
            ) matches Some(c) && uuid_parse_of(c.0) matches Some(id) && has_id(repo.users(), id)))
                ==> r is Ok)
        }),
{
    let token = match extract_token(cookie_token, authorization_header) {
        Ok(t) => t,
        Err(e) => {
            return Err(e);
        },
    };
    let subject = match decode_token(token.as_str(), secret, now) {
        Ok(s) => s,
        Err(e) => {
            return Err(e);
        },
    };
    let user_id = match uuid_parse(subject.as_str()) {
        Some(id) => id,
        None => {
            return Err(HttpError::unauthorized(ErrorMessage::InvalidToken.to_str()));
        },
    };
    let user = match repo.get_user(Some(user_id), None, None, None) {
        Some(u) => u,
        None => {
            return Err(HttpError::unauthorized(ErrorMessage::UserNoLongerExist.to_str()));
        },
    };
    Ok(JWTAuthMiddleware { user })
}

/// The RBAC gate: requires an attached identity (absence is the distinct
/// `UserNotAuthenticated` failure) and grants access exactly when the
/// identity's role is in the allow-list; everything else is
/// `PermissionDenied`. Membership is an exact match on the closed role
/// enum.
#[verifier::loop_isolation(false)]
pub fn role_check(identity: Option<&JWTAuthMiddleware>, require_roles: &Vec<UserRole>) -> (r:
    Result<(), HttpError>)
    ensures
        identity is None ==> (r matches Err(e) && e.status == STATUS_UNAUTHORIZED && e.message@
            == ErrorMessage::UserNotAuthenticated.spec_message()),
        identity matches Some(m) ==> (r is Ok <==> require_roles@.contains(m.user@.role)),
        identity matches Some(m) && !require_roles@.contains(m.user@.role) ==> (r matches Err(e)
            && e.status == STATUS_FORBIDDEN && e.message@
            == ErrorMessage::PermissionDenied.spec_message()),
{
    let m = match identity {
        Some(m) => m,
        None => {
            return Err(
                HttpError::unauthorized(ErrorMessage::UserNotAuthenticated.to_str()),
            );
        },
    };
    let n = require_roles.len();
    let mut i: usize = 0;
    while i < n
        invariant
            n == require_roles@.len(),
            i <= n,
            forall|k: int| 0 <= k < i ==> require_roles@[k] != m.user.role,
        decreases n - i,
    {
        if require_roles[i] == m.user.role {
            proof {
                assert(require_roles@.contains(m.user@.role));
            }
            return Ok(());
        }
        i += 1;
    }
    Err(
        HttpError::new(
            ErrorMessage::PermissionDenied.to_str(),
            STATUS_FORBIDDEN,
        ),
    )
}

/// What the transport layer needs to set the session cookie.
#[derive(Debug)]
pub struct SessionCookie {
    pub name: String,
    pub value: String,
    pub path: String,
    pub max_age_seconds: u64,
    pub http_only: bool,
}

/// The session cookie for a freshly issued token: named `token`, scoped to
/// the whole site, http-only, living exactly as long as the token does.
pub fn session_cookie(token: String, ttl_minutes: u64) -> (r: SessionCookie)
    requires
        ttl_minutes * 60 <= u64::MAX,
    ensures
        r.name@ == "token"@,
        r.value == token,
        r.path@ == "/"@,
        r.max_age_seconds == ttl_minutes * 60,
        r.http_only,
{
    SessionCookie {
        name: String::from_str("token"),
        value: token,
        path: String::from_str("/"),
        max_age_seconds: ttl_minutes * 60,
        http_only: true,
    }
}

} // verus!
