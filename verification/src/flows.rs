//! The account flows: registration, login, password reset, email
//! verification, and the profile operations behind the authenticated
//! routes.
//!
//! Each flow consumes the repository through its contract, decides, and
//! hands the transport layer plain values: a response body, a cookie
//! description, a mail request. Every error path states its exact status
//! and message.

use vstd::prelude::*;

use crate::errors::{
    ErrorMessage, HttpError, STATUS_BAD_REQUEST, STATUS_CONFLICT, STATUS_INTERNAL_SERVER_ERROR,
    STATUS_UNAUTHORIZED,
};
use crate::mail::{
    create_verification_link, forgot_password_email_request, verification_email_request,
    welcome_email_request, MailRequest,
};
use crate::password::{
    byte_len, compare, hash_password, is_phc_hash, password_acceptable, password_matches,
    spec_compare, MAX_PASSWORD_LENGTH,
};
use crate::repo::{
    consume_all, has_email, has_id, has_token, token_added, unique_emails, unique_ids,
    verify_consume_all, with_name, with_password, with_role, RepoError, UserRepository,
};
use crate::requests::{
    forgot_password_valid, login_valid, name_update_valid, password_update_valid,
    register_valid, request_query_valid, reset_password_valid, verify_email_query_valid,
    ForgotPasswordRequest, LoginUser, NameUpdate, RegisterUser, RequestQuery,
    ResetPasswordRequest, RoleUpdate, UserPasswordUpdate, VerifyEmailQuery,
};
use crate::responses::{Response, UserData, UserListResponse, UserLoginResponse, UserResponse};
use crate::session::{session_cookie, JWTAuthMiddleware, SessionCookie};
use crate::token::{expiry_at, generate_token, jwt_claims_of, jwt_encode_fails, jwt_of};
use crate::user::{
    fresh_uuid, is_filtered, uuid_str_of, uuid_string, FilterUser, UserView,
};

verus! {

/// How long a verification token lives: 24 hours, in seconds.
pub const VERIFICATION_TOKEN_TTL_SECONDS: u64 = 86400;

/// Picks an index holding a contained record.
proof fn index_of_contained(users: Seq<UserView>, u: UserView) -> (i: int)
    requires
        users.contains(u),
    ensures
        0 <= i < users.len(),
        users[i] == u,
{
    choose|i: int| 0 <= i < users.len() && users[i] == u
}

/// Whether some stored record carries this email and a password hash that
/// the given password verifies against.
pub open spec fn credentials_match(
    users: Seq<UserView>,
    email: Seq<char>,
    password: Seq<char>,
) -> bool {
    exists|i: int|
        0 <= i < users.len() && (#[trigger] users[i]).email == email && spec_compare(
            password,
            users[i].password,
        ) == Ok::<bool, ErrorMessage>(true)
}

/// The login rejection: deliberately one and the same error whether the
/// email is unknown or the password wrong, so account existence never
/// leaks.
pub open spec fn is_wrong_credentials(r: Result<(UserLoginResponse, SessionCookie), HttpError>) -> bool {
    r matches Err(e) && e.status == STATUS_BAD_REQUEST && e.message@
        == ErrorMessage::WrongCredentials.spec_message()
}

/// An unknown email can never match credentials, so login's rejection of an
/// unknown email and of a wrong password coincide: both are the one
/// `WrongCredentials` failure.
pub proof fn lemma_unknown_email_never_matches(
    users: Seq<UserView>,
    email: Seq<char>,
    password: Seq<char>,
)
    requires
        !has_email(users, email),
    ensures
        !credentials_match(users, email, password),
{
}

/// Registration: hash the password, persist a new unverified user with a
/// fresh 24-hour verification token, and compose the verification mail for
/// best-effort delivery. A taken email is the distinct conflict error; a
/// fresh one is owed success up to the hasher failing.
pub fn register<R: UserRepository>(repo: &mut R, body: &RegisterUser, now: u64) -> (r: Result<
    (Response, MailRequest),
    HttpError,
>)
    requires
        old(repo).inv(),
        now + VERIFICATION_TOKEN_TTL_SECONDS <= u64::MAX,
    ensures
        final(repo).inv(),
        !register_valid(body) ==> (r matches Err(e) && e.status == STATUS_BAD_REQUEST),
        r is Err ==> final(repo).users() == old(repo).users(),
        r matches Err(e) ==> (e.status == STATUS_CONFLICT ==> (has_email(
            old(repo).users(),
            body.email@,
        ) && e.message@ == ErrorMessage::EmailExist.spec_message())),
        register_valid(body) && has_email(old(repo).users(), body.email@) ==> (r matches Err(e)
            && (e.status == STATUS_CONFLICT || e.status == STATUS_INTERNAL_SERVER_ERROR)),
        r matches Err(e) ==> (e.status == STATUS_BAD_REQUEST || e.status == STATUS_CONFLICT
            || e.status == STATUS_INTERNAL_SERVER_ERROR),
        r matches Err(e) ==> (e.status == STATUS_BAD_REQUEST ==> !register_valid(body)),
        r matches Err(e) ==> (e.status == STATUS_INTERNAL_SERVER_ERROR ==> ((e.message@
            == ErrorMessage::ExceededMaxPasswordLength(MAX_PASSWORD_LENGTH).spec_message()
            && byte_len(body.password@) > MAX_PASSWORD_LENGTH as nat) || e.message@
            == ErrorMessage::HashingError.spec_message())),
        register_valid(body) && byte_len(body.password@) > MAX_PASSWORD_LENGTH as nat ==> (r
            matches Err(e) && e.status == STATUS_INTERNAL_SERVER_ERROR && e.message@
            == ErrorMessage::ExceededMaxPasswordLength(MAX_PASSWORD_LENGTH).spec_message()),
        register_valid(body) && password_acceptable(body.password@) && !has_email(
            old(repo).users(),
            body.email@,
        ) ==> (r is Ok || (r matches Err(e) && e.status == STATUS_INTERNAL_SERVER_ERROR
            && e.message@ == ErrorMessage::HashingError.spec_message())),
        r matches Ok(p) ==> ({
            let u = final(repo).users().last();
            &&& register_valid(body)
            &&& !has_email(old(repo).users(), body.email@)
            &&& final(repo).users() == old(repo).users().push(u)
            &&& u.name == body.name@
            &&& u.email == body.email@
            &&& is_phc_hash(u.password)
            &&& password_matches(body.password@, u.password)
            &&& u.role == crate::user::UserRole::User
            &&& u.verified == false
            &&& (u.verification_token matches Some(t) && t.len() == 36
                && u.token_expires_at == Some((now + VERIFICATION_TOKEN_TTL_SECONDS) as u64)
                && p.1.placeholders@.len() == 2 && p.1.placeholders@[1].1@
                == "http://localhost:8000/api/auth/verify-email"@ + "?token="@ + t)
            &&& u.created_at == now
            &&& p.1.to@ == body.email@
            &&& p.0.status@ == "success"@
        }),
{
    match body.validate() {
        Ok(()) => {},
        Err(e) => {
            return Err(e);
        },
    }
    let verification_token = uuid_string(fresh_uuid());
    let expires_at = now + VERIFICATION_TOKEN_TTL_SECONDS;
    let hash = match hash_password(body.password.as_str()) {
        Ok(h) => h,
        Err(e) => {
            return Err(HttpError::server_error(e.to_str()));
        },
    };
    match repo.save_user(
        body.name.as_str(),
        body.email.as_str(),
        hash.as_str(),
        verification_token.as_str(),
        expires_at,
        now,
    ) {
        Ok(_user) => {
            let mail = verification_email_request(
                body.email.as_str(),
                body.name.as_str(),
                verification_token.as_str(),
            );
            let response = Response {
                status: "success",
                message:
                    "registration successful! Please check your email to verifu your account.".to_owned(),
            };
            Ok((response, mail))
        },
        Err(RepoError::DuplicateEmail) => {
            Err(HttpError::unique_constraint_violation(ErrorMessage::EmailExist.to_str()))
        },
    }
}

/// Login: look the user up by email, verify the password, and on a match
/// issue a session token, returned both in the body and as an http-only
/// cookie. An unknown email and a wrong password fail identically, and
/// matching credentials are owed a token up to a signing failure.
pub fn login<R: UserRepository>(
    repo: &R,
    body: &LoginUser,
    secret: &[u8],
    ttl_minutes: u64,
    now: u64,
) -> (r: Result<(UserLoginResponse, SessionCookie), HttpError>)
    requires
        repo.inv(),
        expiry_at(now, ttl_minutes) <= u64::MAX,
    ensures
        !login_valid(body) ==> (r matches Err(e) && e.status == STATUS_BAD_REQUEST),
        login_valid(body) && !has_email(repo.users(), body.email@) ==> is_wrong_credentials(r),
        login_valid(body) && !credentials_match(repo.users(), body.email@, body.password@)
            ==> is_wrong_credentials(r),
        login_valid(body) ==> (is_wrong_credentials(r) ==> !credentials_match(
            repo.users(),
            body.email@,
            body.password@,
        )),
        login_valid(body) && credentials_match(repo.users(), body.email@, body.password@) ==> (r
            is Ok || (r matches Err(e) && e.status == STATUS_INTERNAL_SERVER_ERROR && exists|i: int|
            0 <= i < repo.users().len() && (#[trigger] repo.users()[i]).email == body.email@
                && jwt_encode_fails(
                uuid_str_of(repo.users()[i].id),
                now,
                expiry_at(now, ttl_minutes) as u64,
                secret@,
            ))),
        r matches Err(e) ==> (e.status == STATUS_BAD_REQUEST || e.status
            == STATUS_INTERNAL_SERVER_ERROR),
        login_valid(body) ==> (r matches Err(e) ==> (e.status == STATUS_BAD_REQUEST
            ==> e.message@ == ErrorMessage::WrongCredentials.spec_message())),
        r matches Ok(p) ==> ({
            &&& login_valid(body)
            &&& credentials_match(repo.users(), body.email@, body.password@)
            &&& exists|i: int|
                0 <= i < repo.users().len() && (#[trigger] repo.users()[i]).email == body.email@
                    && spec_compare(body.password@, repo.users()[i].password) == Ok::<
                    bool,
                    ErrorMessage,
                >(true) && p.0.token@ == jwt_of(
                    uuid_str_of(repo.users()[i].id),
                    now,
                    expiry_at(now, ttl_minutes) as u64,
                    secret@,
                ) && jwt_claims_of(p.0.token@, secret@) == Some(
                    (uuid_str_of(repo.users()[i].id), now, expiry_at(now, ttl_minutes) as u64),
                )
            &&& p.0.status@ == "success"@
            &&& p.1.name@ == "token"@
            &&& p.1.value == p.0.token
            &&& p.1.path@ == "/"@
            &&& p.1.http_only
            &&& p.1.max_age_seconds == ttl_minutes * 60
        }),
{
    match body.validate() {
        Ok(()) => {},
        Err(e) => {
            return Err(e);
        },
    }
    let user = match repo.get_user(None, None, Some(body.email.as_str()), None) {
        Some(u) => u,
        None => {
            proof {
                lemma_unknown_email_never_matches(repo.users(), body.email@, body.password@);
            }
            return Err(HttpError::bad_request(ErrorMessage::WrongCredentials.to_str()));
        },
    };
    let ghost uv = user@;
    proof {
        repo.stored_emails_unique();
        let i = index_of_contained(repo.users(), uv);
    }
    let matched = match compare(body.password.as_str(), user.password.as_str()) {
        Ok(b) => b,
        Err(_) => {
            proof {
                lemma_email_holder_decides(repo.users(), body.email@, body.password@, uv);
            }
            return Err(HttpError::bad_request(ErrorMessage::WrongCredentials.to_str()));
        },
    };
    if !matched {
        proof {
            lemma_email_holder_decides(repo.users(), body.email@, body.password@, uv);
        }
        return Err(HttpError::bad_request(ErrorMessage::WrongCredentials.to_str()));
    }
    let subject = uuid_string(user.id);
    let token = match generate_token(subject.as_str(), secret, ttl_minutes, now) {
        Ok(t) => t,
        Err(_) => {
            proof {
                let i = index_of_contained(repo.users(), uv);
            }
            return Err(HttpError::server_error(ErrorMessage::ServerError.to_str()));
        },
    };
    proof {
        let i = index_of_contained(repo.users(), uv);
        assert(credentials_match(repo.users(), body.email@, body.password@));
    }
    let cookie = session_cookie(token.clone(), ttl_minutes);
    let response = UserLoginResponse { status: "success".to_owned(), token };
    Ok((response, cookie))
}

/// With unique emails, the record found for an email decides the login: if
/// the password does not verify against that record's hash, no record
/// matches the credentials.
proof fn lemma_email_holder_decides(
    users: Seq<UserView>,
    email: Seq<char>,
    password: Seq<char>,
    holder: UserView,
)
    requires
        unique_emails(users),
        users.contains(holder),
        holder.email == email,
        spec_compare(password, holder.password) != Ok::<bool, ErrorMessage>(true),
    ensures
        !credentials_match(users, email, password),
{
    let i = index_of_contained(users, holder);
    if credentials_match(users, email, password) {
        let j = choose|j: int|
            0 <= j < users.len() && (#[trigger] users[j]).email == email && spec_compare(
                password,
                users[j].password,
            ) == Ok::<bool, ErrorMessage>(true);
        assert(users[i].email == users[j].email);
        assert(i == j);
    }
}

/// Password-reset request: look the user up by email (an unknown email is
/// reported to the caller, unlike login), store a fresh 24-hour token on
/// the account, and compose the reset mail carrying the reset link. A
/// known email always succeeds.
pub fn forgot_password<R: UserRepository>(
    repo: &mut R,
    body: &ForgotPasswordRequest,
    now: u64,
) -> (r: Result<(Response, MailRequest), HttpError>)
    requires
        old(repo).inv(),
        now + VERIFICATION_TOKEN_TTL_SECONDS <= u64::MAX,
    ensures
        final(repo).inv(),
        !forgot_password_valid(body) ==> (r matches Err(e) && e.status
            == STATUS_INTERNAL_SERVER_ERROR),
        forgot_password_valid(body) && !has_email(old(repo).users(), body.email@) ==> (r matches
            Err(e) && e.status == STATUS_BAD_REQUEST && e.message@ == "Email not found!"@),
        forgot_password_valid(body) && has_email(old(repo).users(), body.email@) ==> r is Ok,
        r is Err ==> final(repo).users() == old(repo).users(),
        r matches Ok(p) ==> ({
            &&& forgot_password_valid(body)
            &&& exists|i: int, t: Seq<char>|
                #![trigger token_added(old(repo).users(), old(repo).users()[i].id, t, (now + VERIFICATION_TOKEN_TTL_SECONDS) as u64, now)]
                {
                    &&& 0 <= i < old(repo).users().len()
                    &&& old(repo).users()[i].email == body.email@
                    &&& t.len() == 36
                    &&& final(repo).users() == token_added(
                        old(repo).users(),
                        old(repo).users()[i].id,
                        t,
                        (now + VERIFICATION_TOKEN_TTL_SECONDS) as u64,
                        now,
                    )
                    &&& p.1.to@ == old(repo).users()[i].email
                    &&& p.1.placeholders@.len() == 2
                    &&& p.1.placeholders@[1].1@ == "http://localhost:5173/reset-password"@
                        + "?token="@ + t
                }
            &&& p.0.status@ == "success"@
        }),
{
    match body.validate() {
        Ok(()) => {},
        Err(_) => {
            return Err(HttpError::server_error(ErrorMessage::ServerError.to_str()));
        },
    }
    let user = match repo.get_user(None, None, Some(body.email.as_str()), None) {
        Some(u) => u,
        None => {
            return Err(HttpError::bad_request("Email not found!".to_owned()));
        },
    };
    let ghost uv = user@;
    proof {
        let i = index_of_contained(repo.users(), uv);
    }
    let verification_token = uuid_string(fresh_uuid());
    let expires_at = now + VERIFICATION_TOKEN_TTL_SECONDS;
    repo.add_verified_token(user.id, verification_token.as_str(), expires_at, now);
    let reset_link = create_verification_link(
        "http://localhost:5173/reset-password",
        verification_token.as_str(),
    );
    let mail = forgot_password_email_request(
        user.email.as_str(),
        reset_link.as_str(),
        user.name.as_str(),
    );
    let response = Response {
        status: "success",
        message: "Password reset link has been sent to your email!".to_owned(),
    };
    proof {
        let i = index_of_contained(old(repo).users(), uv);
        assert(0 <= i < old(repo).users().len() && (old(repo).users()[i]).email == body.email@
            && verification_token@.len() == 36 && final(repo).users() == token_added(
            old(repo).users(),
            old(repo).users()[i].id,
            verification_token@,
            (now + VERIFICATION_TOKEN_TTL_SECONDS) as u64,
            now,
        ) && mail.to@ == old(repo).users()[i].email && mail.placeholders@.len() == 2
            && mail.placeholders@[1].1@ == "http://localhost:5173/reset-password"@ + "?token="@
            + verification_token@);
    }
    Ok((response, mail))
}

/// Whether every record holding this token has an expiry strictly in the
/// past.
pub open spec fn all_holders_expired(users: Seq<UserView>, token: Seq<char>, now: u64) -> bool {
    forall|i: int|
        0 <= i < users.len() && (#[trigger] users[i]).holds_token(token) ==> (
        users[i].token_expires_at matches Some(x) && now > x)
}

/// Whether every record holding this token is still within its expiry.
pub open spec fn no_holder_expired(users: Seq<UserView>, token: Seq<char>, now: u64) -> bool {
    forall|i: int|
        0 <= i < users.len() && (#[trigger] users[i]).holds_token(token) ==> (
        users[i].token_expires_at matches Some(x) && now <= x)
}

/// Password-reset completion: resolve the user by token, reject an expired
/// token with the distinct "expired" message, otherwise hash and persist
/// the new password and consume the token. Consumption here never marks the
/// account verified; that belongs to the email-verification flow alone. A
/// failed reset never changes the stored records; an unexpired token is
/// owed success up to the hasher failing.
pub fn reset_password<R: UserRepository>(
    repo: &mut R,
    body: &ResetPasswordRequest,
    now: u64,
) -> (r: Result<Response, HttpError>)
    requires
        old(repo).inv(),
    ensures
        final(repo).inv(),
        !reset_password_valid(body) ==> (r matches Err(e) && e.status == STATUS_BAD_REQUEST),
        reset_password_valid(body) && !has_token(old(repo).users(), body.token@) ==> (r matches
            Err(e) && e.status == STATUS_BAD_REQUEST && e.message@ == "Invalid or expired token"@),
        reset_password_valid(body) && has_token(old(repo).users(), body.token@)
            && all_holders_expired(old(repo).users(), body.token@, now) ==> (r matches Err(e)
            && e.status == STATUS_BAD_REQUEST && e.message@ == "Verification token has expired."@),
        reset_password_valid(body) ==> (r matches Err(e) ==> (e.status == STATUS_BAD_REQUEST
            && e.message@ == "Invalid or expired token"@ ==> !has_token(
            old(repo).users(),
            body.token@,
        ))),
        reset_password_valid(body) ==> (r matches Err(e) ==> (e.status == STATUS_BAD_REQUEST
            && e.message@ == "Verification token has expired."@ ==> exists|i: int|
            0 <= i < old(repo).users().len() && (#[trigger] old(repo).users()[i]).holds_token(
                body.token@,
            ) && (old(repo).users()[i].token_expires_at matches Some(x) && now > x))),
        reset_password_valid(body) && has_token(old(repo).users(), body.token@)
            && no_holder_expired(old(repo).users(), body.token@, now) && password_acceptable(
            body.new_password@,
        ) ==> (r is Ok || (r matches Err(e) && e.status == STATUS_INTERNAL_SERVER_ERROR
            && e.message@ == ErrorMessage::HashingError.spec_message())),
        r is Err ==> final(repo).users() == old(repo).users(),
        r matches Ok(resp) ==> ({
            &&& reset_password_valid(body)
            &&& has_token(old(repo).users(), body.token@)
            &&& !has_token(final(repo).users(), body.token@)
            &&& exists|i: int|
                0 <= i < final(repo).users().len() && password_matches(
                    body.new_password@,
                    (#[trigger] final(repo).users()[i]).password,
                )
            &&& resp.status@ == "success"@
        }),
{
    proof {
        reveal_strlit("Invalid or expired token");
        reveal_strlit("Verification token has expired.");
        assert("Invalid or expired token"@.len() != "Verification token has expired."@.len());
        assert("Invalid or expired token"@ != "Verification token has expired."@);
    }
    match body.validate() {
        Ok(()) => {},
        Err(e) => {
            return Err(e);
        },
    }
    let user = match repo.get_user(None, None, None, Some(body.token.as_str())) {
        Some(u) => u,
        None => {
            return Err(HttpError::bad_request("Invalid or expired token".to_owned()));
        },
    };
    let ghost uv = user@;
    proof {
        repo.stored_records_wf();
        let i = index_of_contained(repo.users(), uv);
        assert(uv.wf());
    }
    let expires_at = match user.token_expires_at {
        Some(x) => x,
        None => {
            return Err(HttpError::server_error(ErrorMessage::ServerError.to_str()));
        },
    };
    if now > expires_at {
        return Err(HttpError::bad_request("Verification token has expired.".to_owned()));
    }
    let hash = match hash_password(body.new_password.as_str()) {
        Ok(h) => h,
        Err(e) => {
            return Err(HttpError::server_error(e.to_str()));
        },
    };
    let updated = match repo.update_user_password(user.id, hash.as_str(), now) {
        Some(u) => u,
        None => {
            return Err(HttpError::server_error(ErrorMessage::ServerError.to_str()));
        },
    };
    let ghost mid = repo.users();
    let ghost j = choose|j: int|
        0 <= j < old(repo).users().len() && (#[trigger] old(repo).users()[j]).id == uv.id
            && updated@ == with_password(old(repo).users()[j], hash@, now) && mid == old(
            repo,
        ).users().update(j, updated@);
    repo.consume_token(body.token.as_str(), now);
    proof {
        crate::repo::lemma_consume_single_use(mid, body.token@, now);
        assert(final(repo).users()[j].password == hash@);
        assert(exists|i: int|
            0 <= i < final(repo).users().len() && password_matches(
                body.new_password@,
                (#[trigger] final(repo).users()[i]).password,
            ));
    }
    Ok(Response {
        status: "success",
        message: "Password has been successfully reset.".to_owned(),
    })
}

/// What a successful email verification hands the transport layer: the
/// session cookie, the redirect target, and (on first verification) the
/// welcome mail.
#[derive(Debug)]
pub struct VerifyEmailOutcome {
    pub cookie: SessionCookie,
    pub redirect_to: String,
    pub welcome_mail: Option<MailRequest>,
}

/// Email verification: resolve the user by token; on first verification
/// consume the token in one step (marking the account verified) and
/// compose the welcome mail; in either case issue a session token and
/// redirect the client with it set as an http-only cookie. A held token is
/// owed success up to a signing failure.
pub fn verify_email<R: UserRepository>(
    repo: &mut R,
    query: &VerifyEmailQuery,
    secret: &[u8],
    ttl_minutes: u64,
    now: u64,
) -> (r: Result<VerifyEmailOutcome, HttpError>)
    requires
        old(repo).inv(),
        expiry_at(now, ttl_minutes) <= u64::MAX,
    ensures
        final(repo).inv(),
        !verify_email_query_valid(query) ==> (r matches Err(e) && e.status == STATUS_BAD_REQUEST),
        verify_email_query_valid(query) && !has_token(old(repo).users(), query.token@) ==> (r
            matches Err(e) && e.status == STATUS_UNAUTHORIZED && e.message@
            == ErrorMessage::InvalidToken.spec_message()),
        r matches Err(e) ==> (e.status == STATUS_BAD_REQUEST || e.status == STATUS_UNAUTHORIZED
            || e.status == STATUS_INTERNAL_SERVER_ERROR),
        verify_email_query_valid(query) ==> (r matches Err(e) ==> (e.status == STATUS_UNAUTHORIZED
            ==> !has_token(old(repo).users(), query.token@))),
        verify_email_query_valid(query) && has_token(old(repo).users(), query.token@) ==> (r is Ok
            || (r matches Err(e) && e.status == STATUS_INTERNAL_SERVER_ERROR && exists|i: int|
            0 <= i < old(repo).users().len() && (#[trigger] old(repo).users()[i]).holds_token(
                query.token@,
            ) && jwt_encode_fails(
                uuid_str_of(old(repo).users()[i].id),
                now,
                expiry_at(now, ttl_minutes) as u64,
                secret@,
            ))),
        r matches Err(e) ==> ((e.status == STATUS_BAD_REQUEST || e.status == STATUS_UNAUTHORIZED)
            ==> final(repo).users() == old(repo).users()),
        r is Err ==> (final(repo).users() == old(repo).users() || final(repo).users()
            == verify_consume_all(old(repo).users(), query.token@, now)),
        r matches Ok(o) ==> ({
            &&& verify_email_query_valid(query)
            &&& has_token(old(repo).users(), query.token@)
            &&& exists|i: int|
                #![trigger old(repo).users()[i]]
                {
                    let u = old(repo).users()[i];
                    &&& 0 <= i < old(repo).users().len()
                    &&& u.holds_token(query.token@)
                    &&& o.cookie.value@ == jwt_of(
                        uuid_str_of(u.id),
                        now,
                        expiry_at(now, ttl_minutes) as u64,
                        secret@,
                    )
                    &&& jwt_claims_of(o.cookie.value@, secret@) == Some(
                        (uuid_str_of(u.id), now, expiry_at(now, ttl_minutes) as u64),
                    )
                    &&& (u.verified ==> (final(repo).users() == old(repo).users()
                        && o.welcome_mail is None))
                    &&& (!u.verified ==> (final(repo).users() == verify_consume_all(
                        old(repo).users(),
                        query.token@,
                        now,
                    ) && (o.welcome_mail matches Some(m) && m.to@ == u.email
                        && m.placeholders@.len() == 1 && m.placeholders@[0].1@ == u.name)))
                }
            &&& o.redirect_to@ == "http://localhost:5173/settings"@
            &&& o.cookie.name@ == "token"@
            &&& o.cookie.path@ == "/"@
            &&& o.cookie.http_only
            &&& o.cookie.max_age_seconds == ttl_minutes * 60
        }),
{
    match query.validate() {
        Ok(()) => {},
        Err(e) => {
            return Err(e);
        },
    }
    let user = match repo.get_user(None, None, None, Some(query.token.as_str())) {
        Some(u) => u,
        None => {
            return Err(HttpError::unauthorized(ErrorMessage::InvalidToken.to_str()));
        },
    };
    let ghost uv = user@;
    proof {
        let i = index_of_contained(repo.users(), uv);
    }
    let welcome_mail = if !user.verified {
        repo.verified_token(query.token.as_str(), now);
        Some(welcome_email_request(user.email.as_str(), user.name.as_str()))
    } else {
        None
    };
    let subject = uuid_string(user.id);
    let token = match generate_token(subject.as_str(), secret, ttl_minutes, now) {
        Ok(t) => t,
        Err(_) => {
            proof {
                let i = index_of_contained(old(repo).users(), uv);
            }
            return Err(HttpError::server_error(ErrorMessage::ServerError.to_str()));
        },
    };
    let cookie = session_cookie(token, ttl_minutes);
    proof {
        let i = index_of_contained(old(repo).users(), uv);
    }
    Ok(
        VerifyEmailOutcome {
            cookie,
            redirect_to: "http://localhost:5173/settings".to_owned(),
            welcome_mail,
        },
    )
}

/// The profile of the authenticated identity, with credentials and pending
/// token stripped.
pub fn get_me(identity: &JWTAuthMiddleware) -> (r: UserResponse)
    ensures
        is_filtered(r.data.user, identity.user@),
        r.status@ == "success"@,
{
    let filtered_user = FilterUser::filter_user(&identity.user);
    UserResponse { status: "success".to_owned(), data: UserData { user: filtered_user } }
}

/// The admin listing: one page of users, newest first, with the total
/// record count. Page defaults to 1, page size to 10.
pub fn get_users<R: UserRepository>(repo: &R, query: &RequestQuery) -> (r: Result<
    UserListResponse,
    HttpError,
>)
    requires
        repo.inv(),
    ensures
        r is Ok <==> request_query_valid(query),
        r matches Err(e) ==> e.status == STATUS_BAD_REQUEST,
        r matches Ok(resp) ==> ({
            let page = match query.page {
                Some(p) => p as int,
                None => 1,
            };
            let limit = match query.limit {
                Some(l) => l as int,
                None => 10,
            };
            &&& resp.results == repo.users().len()
            &&& resp.users@.len() == crate::repo::page_of(repo.users(), page, limit).len()
            &&& forall|i: int|
                0 <= i < resp.users@.len() ==> is_filtered(
                    #[trigger] resp.users@[i],
                    crate::repo::page_of(repo.users(), page, limit)[i],
                )
            &&& resp.status@ == "success"@
        }),
{
    match query.validate() {
        Ok(()) => {},
        Err(e) => {
            return Err(e);
        },
    }
    let page = match query.page {
        Some(p) => p,
        None => 1,
    };
    let limit = match query.limit {
        Some(l) => l,
        None => 10,
    };
    let users = repo.get_users(page, limit);
    let user_count = repo.get_user_count();
    let filtered = FilterUser::filter_users(&users);
    Ok(
        UserListResponse {
            status: "success".to_owned(),
            users: filtered,
            results: user_count as u64,
        },
    )
}

/// Renames the authenticated user and returns the updated profile.
pub fn update_username<R: UserRepository>(
    repo: &mut R,
    identity: &JWTAuthMiddleware,
    body: &NameUpdate,
    now: u64,
) -> (r: Result<UserResponse, HttpError>)
    requires
        old(repo).inv(),
    ensures
        final(repo).inv(),
        !name_update_valid(body) ==> (r matches Err(e) && e.status == STATUS_BAD_REQUEST),
        r is Err ==> final(repo).users() == old(repo).users(),
        name_update_valid(body) && !has_id(old(repo).users(), identity.user@.id) ==> (r matches
            Err(e) && e.status == STATUS_INTERNAL_SERVER_ERROR),
        name_update_valid(body) && has_id(old(repo).users(), identity.user@.id) ==> r is Ok,
        r matches Ok(resp) ==> ({
            &&& exists|i: int|
                #![trigger old(repo).users()[i]]
                {
                    &&& 0 <= i < old(repo).users().len()
                    &&& old(repo).users()[i].id == identity.user@.id
                    &&& final(repo).users() == old(repo).users().update(
                        i,
                        with_name(old(repo).users()[i], body.name@, now),
                    )
                    &&& is_filtered(resp.data.user, with_name(old(repo).users()[i], body.name@, now))
                }
            &&& resp.status@ == "success"@
        }),
{
    match body.validate() {
        Ok(()) => {},
        Err(e) => {
            return Err(e);
        },
    }
    let updated = match repo.update_username(identity.user.id, body.name.as_str(), now) {
        Some(u) => u,
        None => {
            return Err(HttpError::server_error(ErrorMessage::UserNoLongerExist.to_str()));
        },
    };
    let filtered_user = FilterUser::filter_user(&updated);
    Ok(UserResponse { status: "success".to_owned(), data: UserData { user: filtered_user } })
}

/// Changes the authenticated user's role and returns the updated profile.
/// The role value is a closed enum, so no further validation exists.
pub fn update_user_role<R: UserRepository>(
    repo: &mut R,
    identity: &JWTAuthMiddleware,
    body: &RoleUpdate,
    now: u64,
) -> (r: Result<UserResponse, HttpError>)
    requires
        old(repo).inv(),
    ensures
        final(repo).inv(),
        r is Err ==> final(repo).users() == old(repo).users(),
        !has_id(old(repo).users(), identity.user@.id) ==> (r matches Err(e) && e.status
            == STATUS_INTERNAL_SERVER_ERROR),
        has_id(old(repo).users(), identity.user@.id) ==> r is Ok,
        r matches Ok(resp) ==> ({
            &&& exists|i: int|
                #![trigger old(repo).users()[i]]
                {
                    &&& 0 <= i < old(repo).users().len()
                    &&& old(repo).users()[i].id == identity.user@.id
                    &&& final(repo).users() == old(repo).users().update(
                        i,
                        with_role(old(repo).users()[i], body.role, now),
                    )
                    &&& is_filtered(resp.data.user, with_role(old(repo).users()[i], body.role, now))
                }
            &&& resp.status@ == "success"@
        }),
{
    let updated = match repo.update_user_role(identity.user.id, body.role, now) {
        Some(u) => u,
        None => {
            return Err(HttpError::server_error(ErrorMessage::UserNoLongerExist.to_str()));
        },
    };
    let filtered_user = FilterUser::filter_user(&updated);
    Ok(UserResponse { status: "success".to_owned(), data: UserData { user: filtered_user } })
}

/// Whether every stored record with this id holds a hash that the given
/// (acceptable) old password fails to verify against.
pub open spec fn old_password_wrong_everywhere(
    users: Seq<UserView>,
    id: u128,
    old_password: Seq<char>,
) -> bool {
    forall|i: int|
        0 <= i < users.len() && (#[trigger] users[i]).id == id ==> spec_compare(
            old_password,
            users[i].password,
        ) == Ok::<bool, ErrorMessage>(false)
}

/// Whether some stored record with this id holds a hash the given password
/// verifies against.
pub open spec fn old_password_matches_somewhere(
    users: Seq<UserView>,
    id: u128,
    old_password: Seq<char>,
) -> bool {
    exists|i: int|
        0 <= i < users.len() && (#[trigger] users[i]).id == id && spec_compare(
            old_password,
            users[i].password,
        ) == Ok::<bool, ErrorMessage>(true)
}

/// With unique ids, the record found for an id decides the old-password
/// check: if the password does not verify against that record's hash, no
/// record with the id matches.
proof fn lemma_id_holder_decides(
    users: Seq<UserView>,
    id: u128,
    password: Seq<char>,
    holder: UserView,
)
    requires
        unique_ids(users),
        users.contains(holder),
        holder.id == id,
        spec_compare(password, holder.password) != Ok::<bool, ErrorMessage>(true),
    ensures
        !old_password_matches_somewhere(users, id, password),
{
    let i = index_of_contained(users, holder);
    if old_password_matches_somewhere(users, id, password) {
        let j = choose|j: int|
            0 <= j < users.len() && (#[trigger] users[j]).id == id && spec_compare(
                password,
                users[j].password,
            ) == Ok::<bool, ErrorMessage>(true);
        assert(users[i].id == users[j].id);
        assert(i == j);
    }
}

/// Changes the authenticated user's password: the old password must verify
/// against the stored hash before the new one is hashed and persisted; a
/// verifying old password is owed success up to the hasher failing.
pub fn update_user_password<R: UserRepository>(
    repo: &mut R,
    identity: &JWTAuthMiddleware,
    body: &UserPasswordUpdate,
    now: u64,
) -> (r: Result<Response, HttpError>)
    requires
        old(repo).inv(),
    ensures
        final(repo).inv(),
        !password_update_valid(body) ==> (r matches Err(e) && e.status == STATUS_BAD_REQUEST),
        r is Err ==> final(repo).users() == old(repo).users(),
        password_update_valid(body) && !has_id(old(repo).users(), identity.user@.id) ==> (r
            matches Err(e) && e.status == STATUS_UNAUTHORIZED && e.message@
            == ErrorMessage::InvalidToken.spec_message()),
        password_update_valid(body) && has_id(old(repo).users(), identity.user@.id)
            && old_password_wrong_everywhere(
            old(repo).users(),
            identity.user@.id,
            body.old_password@,
        ) ==> (r matches Err(e) && e.status == STATUS_BAD_REQUEST && e.message@
            == "Old password is incorrect"@),
        password_update_valid(body) ==> (r matches Err(e) ==> (e.status == STATUS_BAD_REQUEST
            ==> exists|i: int|
            0 <= i < old(repo).users().len() && (#[trigger] old(repo).users()[i]).id
                == identity.user@.id && spec_compare(
                body.old_password@,
                old(repo).users()[i].password,
            ) == Ok::<bool, ErrorMessage>(false))),
        password_update_valid(body) && password_acceptable(body.new_password@)
            && old_password_matches_somewhere(
            old(repo).users(),
            identity.user@.id,
            body.old_password@,
        ) ==> (r is Ok || (r matches Err(e) && e.status == STATUS_INTERNAL_SERVER_ERROR
            && e.message@ == ErrorMessage::HashingError.spec_message())),
        r matches Ok(resp) ==> ({
            &&& password_update_valid(body)
            &&& exists|i: int|
                0 <= i < old(repo).users().len() && (#[trigger] old(repo).users()[i]).id
                    == identity.user@.id && spec_compare(
                    body.old_password@,
                    old(repo).users()[i].password,
                ) == Ok::<bool, ErrorMessage>(true)
            &&& exists|j: int, h: Seq<char>|
                #![trigger with_password(old(repo).users()[j], h, now)]
                {
                    &&& 0 <= j < old(repo).users().len()
                    &&& old(repo).users()[j].id == identity.user@.id
                    &&& password_matches(body.new_password@, h)
                    &&& is_phc_hash(h)
                    &&& final(repo).users() == old(repo).users().update(
                        j,
                        with_password(old(repo).users()[j], h, now),
                    )
                }
            &&& resp.status@ == "success"@
        }),
{
    match body.validate() {
        Ok(()) => {},
        Err(e) => {
            return Err(e);
        },
    }
    let user = match repo.get_user(Some(identity.user.id), None, None, None) {
        Some(u) => u,
        None => {
            return Err(HttpError::unauthorized(ErrorMessage::InvalidToken.to_str()));
        },
    };
    let ghost uv = user@;
    proof {
        repo.stored_ids_unique();
        let i = index_of_contained(repo.users(), uv);
    }
    let password_match = match compare(body.old_password.as_str(), user.password.as_str()) {
        Ok(b) => b,
        Err(e) => {
            proof {
                lemma_id_holder_decides(repo.users(), identity.user@.id, body.old_password@, uv);
            }
            return Err(HttpError::server_error(e.to_str()));
        },
    };
    if !password_match {
        proof {
            lemma_id_holder_decides(repo.users(), identity.user@.id, body.old_password@, uv);
        }
        return Err(HttpError::bad_request("Old password is incorrect".to_owned()));
    }
    let hash = match hash_password(body.new_password.as_str()) {
        Ok(h) => h,
        Err(e) => {
            return Err(HttpError::server_error(e.to_str()));
        },
    };
    match repo.update_user_password(identity.user.id, hash.as_str(), now) {
        Some(_) => {},
        None => {
            return Err(HttpError::server_error(ErrorMessage::ServerError.to_str()));
        },
    }
    Ok(Response { status: "success", message: "Password updated Successfully".to_owned() })
}

} // verus!
