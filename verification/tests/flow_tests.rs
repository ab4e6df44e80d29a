use auth_core::flows::{
    forgot_password, get_me, get_users, login, register, reset_password, update_user_password,
    update_user_role, update_username, verify_email,
};
use auth_core::repo::{MemoryUserStore, UserRepository};
use auth_core::requests::{
    ForgotPasswordRequest, LoginUser, NameUpdate, RegisterUser, RequestQuery,
    ResetPasswordRequest, RoleUpdate, UserPasswordUpdate, VerifyEmailQuery,
};
use auth_core::session::{authenticate, role_check, JWTAuthMiddleware};
use auth_core::user::UserRole;

const SECRET: &[u8] = b"flow-secret";
const NOW: u64 = 1_700_000_000;

fn register_body() -> RegisterUser {
    RegisterUser {
        name: "alice".to_string(),
        email: "a@x.com".to_string(),
        password: "secret1".to_string(),
        confirm_password: "secret1".to_string(),
    }
}

#[test]
fn register_persists_unverified_user_with_token() {
    let mut store = MemoryUserStore::new();
    let (resp, mail) = register(&mut store, &register_body(), NOW).unwrap();
    assert_eq!(resp.status, "success");
    assert_eq!(mail.to, "a@x.com");
    assert_eq!(mail.subject, "Email Verification");
    let user = store.get_user(None, None, Some("a@x.com"), None).unwrap();
    assert!(!user.verified);
    assert_eq!(user.role, UserRole::User);
    let token = user.verification_token.clone().unwrap();
    assert!(!token.is_empty());
    assert_eq!(user.token_expires_at, Some(NOW + 24 * 3600));
    // the verification link in the mail embeds the stored token
    assert_eq!(
        mail.placeholders[1].1,
        format!("http://localhost:8000/api/auth/verify-email?token={}", token)
    );
}

#[test]
fn register_duplicate_email_is_conflict() {
    let mut store = MemoryUserStore::new();
    register(&mut store, &register_body(), NOW).unwrap();
    let mut second = register_body();
    second.name = "another".to_string();
    let e = register(&mut store, &second, NOW).unwrap_err();
    assert_eq!(e.status, 409);
    assert_eq!(e.message, "Email already exists");
}

#[test]
fn register_validation_rejected() {
    let mut store = MemoryUserStore::new();
    let mut bad_email = register_body();
    bad_email.email = "not-an-email".to_string();
    assert_eq!(register(&mut store, &bad_email, NOW).unwrap_err().status, 400);
    let mut short_pw = register_body();
    short_pw.password = "abc".to_string();
    short_pw.confirm_password = "abc".to_string();
    assert_eq!(register(&mut store, &short_pw, NOW).unwrap_err().status, 400);
    let mut mismatch = register_body();
    mismatch.confirm_password = "secret2".to_string();
    assert_eq!(register(&mut store, &mismatch, NOW).unwrap_err().status, 400);
    assert_eq!(store.get_user_count(), 0);
}

#[test]
fn fresh_tokens_differ_between_registrations() {
    let mut store = MemoryUserStore::new();
    register(&mut store, &register_body(), NOW).unwrap();
    let mut other = register_body();
    other.email = "b@x.com".to_string();
    register(&mut store, &other, NOW).unwrap();
    let t1 = store
        .get_user(None, None, Some("a@x.com"), None)
        .unwrap()
        .verification_token
        .unwrap();
    let t2 = store
        .get_user(None, None, Some("b@x.com"), None)
        .unwrap()
        .verification_token
        .unwrap();
    assert_ne!(t1, t2);
}

#[test]
fn login_wrong_password_rejected() {
    let mut store = MemoryUserStore::new();
    register(&mut store, &register_body(), NOW).unwrap();
    let body = LoginUser { email: "a@x.com".to_string(), password: "secret2".to_string() };
    let e = login(&store, &body, SECRET, 60, NOW).unwrap_err();
    assert_eq!(e.status, 400);
    assert_eq!(e.message, "Wrong email or password");
}

#[test]
fn login_unknown_email_fails_identically() {
    let mut store = MemoryUserStore::new();
    register(&mut store, &register_body(), NOW).unwrap();
    let wrong_pw = LoginUser { email: "a@x.com".to_string(), password: "secret2".to_string() };
    let unknown = LoginUser { email: "b@x.com".to_string(), password: "secret2".to_string() };
    let e1 = login(&store, &wrong_pw, SECRET, 60, NOW).unwrap_err();
    let e2 = login(&store, &unknown, SECRET, 60, NOW).unwrap_err();
    assert_eq!(e1.status, e2.status);
    assert_eq!(e1.message, e2.message);
}

#[test]
fn login_success_issues_token_and_cookie() {
    let mut store = MemoryUserStore::new();
    register(&mut store, &register_body(), NOW).unwrap();
    let body = LoginUser { email: "a@x.com".to_string(), password: "secret1".to_string() };
    let (resp, cookie) = login(&store, &body, SECRET, 60, NOW).unwrap();
    assert_eq!(resp.status, "success");
    assert!(!resp.token.is_empty());
    assert_eq!(cookie.name, "token");
    assert_eq!(cookie.value, resp.token);
    assert_eq!(cookie.path, "/");
    assert_eq!(cookie.max_age_seconds, 3600);
    assert!(cookie.http_only);
    let identity =
        authenticate(&store, Some(resp.token.as_str()), None, SECRET, NOW + 10).unwrap();
    assert_eq!(identity.user.email, "a@x.com");
}

#[test]
fn forgot_password_unknown_email_reported() {
    let mut store = MemoryUserStore::new();
    let e = forgot_password(
        &mut store,
        &ForgotPasswordRequest { email: "b@x.com".to_string() },
        NOW,
    )
    .unwrap_err();
    assert_eq!(e.status, 400);
    assert_eq!(e.message, "Email not found!");
}

#[test]
fn forgot_password_stores_token_and_builds_reset_link() {
    let mut store = MemoryUserStore::new();
    register(&mut store, &register_body(), NOW).unwrap();
    let (resp, mail) = forgot_password(
        &mut store,
        &ForgotPasswordRequest { email: "a@x.com".to_string() },
        NOW + 5,
    )
    .unwrap();
    assert_eq!(resp.status, "success");
    let user = store.get_user(None, None, Some("a@x.com"), None).unwrap();
    let token = user.verification_token.unwrap();
    assert_eq!(user.token_expires_at, Some(NOW + 5 + 24 * 3600));
    assert_eq!(mail.to, "a@x.com");
    assert_eq!(
        mail.placeholders[1].1,
        format!("http://localhost:5173/reset-password?token={}", token)
    );
}

#[test]
fn reset_with_expired_token_rejected_and_password_unchanged() {
    let mut store = MemoryUserStore::new();
    register(&mut store, &register_body(), NOW).unwrap();
    forgot_password(&mut store, &ForgotPasswordRequest { email: "a@x.com".to_string() }, NOW)
        .unwrap();
    let token = store
        .get_user(None, None, Some("a@x.com"), None)
        .unwrap()
        .verification_token
        .unwrap();
    let body = ResetPasswordRequest {
        token: token.clone(),
        new_password: "newsecret".to_string(),
        new_password_confirm: "newsecret".to_string(),
    };
    let late = NOW + 24 * 3600 + 1;
    let e = reset_password(&mut store, &body, late).unwrap_err();
    assert_eq!(e.status, 400);
    assert_eq!(e.message, "Verification token has expired.");
    // the password is unchanged: the old one still logs in
    let old_login = LoginUser { email: "a@x.com".to_string(), password: "secret1".to_string() };
    assert!(login(&store, &old_login, SECRET, 60, late).is_ok());
}

#[test]
fn reset_with_unknown_token_rejected() {
    let mut store = MemoryUserStore::new();
    let body = ResetPasswordRequest {
        token: "no-such-token".to_string(),
        new_password: "newsecret".to_string(),
        new_password_confirm: "newsecret".to_string(),
    };
    let e = reset_password(&mut store, &body, NOW).unwrap_err();
    assert_eq!(e.status, 400);
    assert_eq!(e.message, "Invalid or expired token");
}

#[test]
fn reset_with_valid_token_changes_password_and_consumes_token() {
    let mut store = MemoryUserStore::new();
    register(&mut store, &register_body(), NOW).unwrap();
    forgot_password(&mut store, &ForgotPasswordRequest { email: "a@x.com".to_string() }, NOW)
        .unwrap();
    let token = store
        .get_user(None, None, Some("a@x.com"), None)
        .unwrap()
        .verification_token
        .unwrap();
    let body = ResetPasswordRequest {
        token: token.clone(),
        new_password: "newsecret".to_string(),
        new_password_confirm: "newsecret".to_string(),
    };
    let resp = reset_password(&mut store, &body, NOW + 60).unwrap();
    assert_eq!(resp.message, "Password has been successfully reset.");
    // a reset never marks the account verified
    let user = store.get_user(None, None, Some("a@x.com"), None).unwrap();
    assert!(!user.verified);
    assert!(user.verification_token.is_none());
    // single use: the same token resolves to nothing afterwards
    let e = reset_password(&mut store, &body, NOW + 61).unwrap_err();
    assert_eq!(e.message, "Invalid or expired token");
    // the new password logs in, the old one no longer does
    let new_login = LoginUser { email: "a@x.com".to_string(), password: "newsecret".to_string() };
    assert!(login(&store, &new_login, SECRET, 60, NOW).is_ok());
    let old_login = LoginUser { email: "a@x.com".to_string(), password: "secret1".to_string() };
    assert_eq!(
        login(&store, &old_login, SECRET, 60, NOW).unwrap_err().message,
        "Wrong email or password"
    );
}

#[test]
fn admin_only_listing_denied_to_non_admin() {
    let mut store = MemoryUserStore::new();
    register(&mut store, &register_body(), NOW).unwrap();
    let user = store.get_user(None, None, Some("a@x.com"), None).unwrap();
    let id = user.id;
    let identity = JWTAuthMiddleware { user };
    let allow = vec![UserRole::Admin];
    let e = role_check(Some(&identity), &allow).unwrap_err();
    assert_eq!(e.status, 403);
    assert_eq!(e.message, "You do not have permission to perform this action");
    // after a role change to admin, the same gate passes
    store.update_user_role(id, UserRole::Admin, NOW).unwrap();
    let admin = store.get_user(Some(id), None, None, None).unwrap();
    let identity = JWTAuthMiddleware { user: admin };
    assert!(role_check(Some(&identity), &allow).is_ok());
}

#[test]
fn missing_token_is_reported_distinctly() {
    let store = MemoryUserStore::new();
    let e = authenticate(&store, None, None, SECRET, NOW).unwrap_err();
    assert_eq!(e.status, 401);
    assert_eq!(e.message, "Token was not provided");
    let allow = vec![UserRole::User];
    let e = role_check(None, &allow).unwrap_err();
    assert_eq!(e.status, 401);
    assert_eq!(e.message, "User is not authenticated");
}

#[test]
fn bearer_header_is_the_fallback() {
    let mut store = MemoryUserStore::new();
    register(&mut store, &register_body(), NOW).unwrap();
    let body = LoginUser { email: "a@x.com".to_string(), password: "secret1".to_string() };
    let (resp, _cookie) = login(&store, &body, SECRET, 60, NOW).unwrap();
    let header = format!("Bearer {}", resp.token);
    let identity = authenticate(&store, None, Some(&header), SECRET, NOW).unwrap();
    assert_eq!(identity.user.name, "alice");
    // a header without the bearer scheme provides no token
    let e = authenticate(&store, None, Some("Token abc"), SECRET, NOW).unwrap_err();
    assert_eq!(e.message, "Token was not provided");
    // a forged token is invalid, not missing
    let e = authenticate(&store, Some("forged"), None, SECRET, NOW).unwrap_err();
    assert_eq!(e.message, "Invalid token");
}

#[test]
fn stale_token_for_deleted_user_reported() {
    let mut store = MemoryUserStore::new();
    register(&mut store, &register_body(), NOW).unwrap();
    let body = LoginUser { email: "a@x.com".to_string(), password: "secret1".to_string() };
    let (resp, _cookie) = login(&store, &body, SECRET, 60, NOW).unwrap();
    // the same token against a store without the user
    let other = MemoryUserStore::new();
    let e = authenticate(&other, Some(resp.token.as_str()), None, SECRET, NOW).unwrap_err();
    assert_eq!(e.status, 401);
    assert_eq!(e.message, "User no longer exists");
}

#[test]
fn verify_email_marks_verified_and_logs_in() {
    let mut store = MemoryUserStore::new();
    register(&mut store, &register_body(), NOW).unwrap();
    let token = store
        .get_user(None, None, Some("a@x.com"), None)
        .unwrap()
        .verification_token
        .unwrap();
    let q = VerifyEmailQuery { token: token.clone() };
    let outcome = verify_email(&mut store, &q, SECRET, 60, NOW).unwrap();
    assert_eq!(outcome.redirect_to, "http://localhost:5173/settings");
    assert_eq!(outcome.cookie.name, "token");
    assert!(outcome.cookie.http_only);
    let mail = outcome.welcome_mail.unwrap();
    assert_eq!(mail.to, "a@x.com");
    let user = store.get_user(None, None, Some("a@x.com"), None).unwrap();
    assert!(user.verified);
    assert!(user.verification_token.is_none());
    // the cookie's token authenticates the user
    let identity =
        authenticate(&store, Some(outcome.cookie.value.as_str()), None, SECRET, NOW + 1).unwrap();
    assert_eq!(identity.user.email, "a@x.com");
    // the consumed token cannot be used again
    let e = verify_email(&mut store, &q, SECRET, 60, NOW).unwrap_err();
    assert_eq!(e.status, 401);
    assert_eq!(e.message, "Invalid token");
}

#[test]
fn verify_email_for_already_verified_user_sends_no_welcome_mail() {
    let mut store = MemoryUserStore::new();
    register(&mut store, &register_body(), NOW).unwrap();
    let id = store.get_user(None, None, Some("a@x.com"), None).unwrap().id;
    let first = store
        .get_user(Some(id), None, None, None)
        .unwrap()
        .verification_token
        .unwrap();
    verify_email(&mut store, &VerifyEmailQuery { token: first }, SECRET, 60, NOW).unwrap();
    // a new pending token on an already verified account
    store.add_verified_token(id, "tok-x", NOW + 9999, NOW);
    let outcome = verify_email(
        &mut store,
        &VerifyEmailQuery { token: "tok-x".to_string() },
        SECRET,
        60,
        NOW,
    )
    .unwrap();
    assert!(outcome.welcome_mail.is_none());
    // nothing was consumed this time
    assert!(store.get_user(None, None, None, Some("tok-x")).is_some());
}

#[test]
fn listing_flow_pages_and_counts() {
    let mut store = MemoryUserStore::new();
    for i in 0..3u64 {
        let mut body = register_body();
        body.name = format!("user{}", i);
        body.email = format!("u{}@x.com", i);
        register(&mut store, &body, NOW + i).unwrap();
    }
    let q = RequestQuery { page: Some(1), limit: Some(2) };
    let resp = get_users(&store, &q).unwrap();
    assert_eq!(resp.status, "success");
    assert_eq!(resp.results, 3);
    assert_eq!(resp.users.len(), 2);
    assert_eq!(resp.users[0].name, "user2");
    assert_eq!(resp.users[1].name, "user1");
    let bad = RequestQuery { page: Some(0), limit: Some(2) };
    assert_eq!(get_users(&store, &bad).unwrap_err().status, 400);
    let bad = RequestQuery { page: Some(1), limit: Some(51) };
    assert_eq!(get_users(&store, &bad).unwrap_err().status, 400);
    // defaults: page 1, limit 10
    let all = get_users(&store, &RequestQuery { page: None, limit: None }).unwrap();
    assert_eq!(all.users.len(), 3);
}

#[test]
fn profile_flows_update_the_authenticated_user() {
    let mut store = MemoryUserStore::new();
    register(&mut store, &register_body(), NOW).unwrap();
    let user = store.get_user(None, None, Some("a@x.com"), None).unwrap();
    let identity = JWTAuthMiddleware { user };

    let me = get_me(&identity);
    assert_eq!(me.status, "success");
    assert_eq!(me.data.user.name, "alice");
    assert_eq!(me.data.user.email, "a@x.com");
    assert_eq!(me.data.user.role, "user");
    assert!(!me.data.user.verified);

    let resp =
        update_username(&mut store, &identity, &NameUpdate { name: "alicia".to_string() }, NOW)
            .unwrap();
    assert_eq!(resp.data.user.name, "alicia");
    let e = update_username(&mut store, &identity, &NameUpdate { name: "".to_string() }, NOW)
        .unwrap_err();
    assert_eq!(e.status, 400);

    let resp =
        update_user_role(&mut store, &identity, &RoleUpdate { role: UserRole::Admin }, NOW)
            .unwrap();
    assert_eq!(resp.data.user.role, "admin");

    let wrong_old = UserPasswordUpdate {
        new_password: "newsecret".to_string(),
        new_password_confirm: "newsecret".to_string(),
        old_password: "wrongone".to_string(),
    };
    let e = update_user_password(&mut store, &identity, &wrong_old, NOW).unwrap_err();
    assert_eq!(e.status, 400);
    assert_eq!(e.message, "Old password is incorrect");

    let good = UserPasswordUpdate {
        new_password: "newsecret".to_string(),
        new_password_confirm: "newsecret".to_string(),
        old_password: "secret1".to_string(),
    };
    let resp = update_user_password(&mut store, &identity, &good, NOW).unwrap();
    assert_eq!(resp.message, "Password updated Successfully");
    let new_login = LoginUser { email: "a@x.com".to_string(), password: "newsecret".to_string() };
    assert!(login(&store, &new_login, SECRET, 60, NOW).is_ok());
}
