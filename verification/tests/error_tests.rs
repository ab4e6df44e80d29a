use auth_core::errors::{ErrorMessage, HttpError};
use auth_core::mail::create_verification_link;

#[test]
fn error_messages_are_stable() {
    assert_eq!(ErrorMessage::EmptyPassword.to_str(), "Password is required");
    assert_eq!(
        ErrorMessage::ExceededMaxPasswordLength(64).to_str(),
        "Password exceeds maximum length"
    );
    assert_eq!(ErrorMessage::InvalidHashFormat.to_str(), "Invalid password hash format!");
    assert_eq!(ErrorMessage::HashingError.to_str(), "Failed to hash password");
    assert_eq!(ErrorMessage::InvalidToken.to_str(), "Invalid token");
    assert_eq!(ErrorMessage::ServerError.to_str(), "Internal server error");
    assert_eq!(ErrorMessage::WrongCredentials.to_str(), "Wrong email or password");
    assert_eq!(ErrorMessage::EmailExist.to_str(), "Email already exists");
    assert_eq!(ErrorMessage::UserNoLongerExist.to_str(), "User no longer exists");
    assert_eq!(ErrorMessage::TokenNotProvided.to_str(), "Token was not provided");
    assert_eq!(
        ErrorMessage::PermissionDenied.to_str(),
        "You do not have permission to perform this action"
    );
    assert_eq!(ErrorMessage::UserNotAuthenticated.to_str(), "User is not authenticated");
}

#[test]
fn http_error_constructors_set_status() {
    assert_eq!(HttpError::new("m".to_string(), 418).status, 418);
    assert_eq!(HttpError::server_error("m".to_string()).status, 500);
    assert_eq!(HttpError::bad_request("m".to_string()).status, 400);
    assert_eq!(HttpError::unique_constraint_violation("m".to_string()).status, 409);
    let e = HttpError::unauthorized("m".to_string());
    assert_eq!(e.status, 401);
    assert_eq!(e.message, "m");
}

#[test]
fn verification_link_appends_token_parameter() {
    assert_eq!(
        create_verification_link("http://localhost:8000/api/auth/verify-email", "abc123"),
        "http://localhost:8000/api/auth/verify-email?token=abc123"
    );
}

#[test]
fn origin_list_is_split_and_trimmed() {
    let origins =
        auth_core::config::parse_allowed_origins(" http://a.com , ,\thttp://b.com  ,");
    assert_eq!(origins, vec!["http://a.com".to_string(), "http://b.com".to_string()]);
    assert!(auth_core::config::parse_allowed_origins("  ,, ").is_empty());
}
