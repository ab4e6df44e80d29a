//! Domain errors and their mapping to HTTP-level failures.

use vstd::prelude::*;

verus! {

/// The closed set of domain errors the service can report.
#[derive(Debug, Clone, Copy, PartialEq, Eq, Structural)]
pub enum ErrorMessage {
    EmptyPassword,
    ExceededMaxPasswordLength(usize),
    HashingError,
    InvalidHashFormat,
    InvalidToken,
    ServerError,
    WrongCredentials,
    EmailExist,
    UserNoLongerExist,
    TokenNotProvided,
    PermissionDenied,
    UserNotAuthenticated,
}

impl ErrorMessage {
    /// The user-facing message for this error.
    pub open spec fn spec_message(self) -> Seq<char> {
        match self {
            ErrorMessage::EmptyPassword => "Password is required"@,
            ErrorMessage::ExceededMaxPasswordLength(_) => "Password exceeds maximum length"@,
            ErrorMessage::InvalidHashFormat => "Invalid password hash format!"@,
            ErrorMessage::HashingError => "Failed to hash password"@,
            ErrorMessage::InvalidToken => "Invalid token"@,
            ErrorMessage::ServerError => "Internal server error"@,
            ErrorMessage::WrongCredentials => "Wrong email or password"@,
            ErrorMessage::EmailExist => "Email already exists"@,
            ErrorMessage::UserNoLongerExist => "User no longer exists"@,
            ErrorMessage::TokenNotProvided => "Token was not provided"@,
            ErrorMessage::PermissionDenied => "You do not have permission to perform this action"@,
            ErrorMessage::UserNotAuthenticated => "User is not authenticated"@,
        }
    }

    pub fn to_str(&self) -> (r: String)
        ensures
            r@ == self.spec_message(),
    {
        match self {
            ErrorMessage::EmptyPassword => "Password is required".to_owned(),
            ErrorMessage::ExceededMaxPasswordLength(_) => {
                "Password exceeds maximum length".to_owned()
            },
            ErrorMessage::InvalidHashFormat => "Invalid password hash format!".to_owned(),
            ErrorMessage::HashingError => "Failed to hash password".to_owned(),
            ErrorMessage::InvalidToken => "Invalid token".to_owned(),
            ErrorMessage::ServerError => "Internal server error".to_owned(),
            ErrorMessage::WrongCredentials => "Wrong email or password".to_owned(),
            ErrorMessage::EmailExist => "Email already exists".to_owned(),
            ErrorMessage::UserNoLongerExist => "User no longer exists".to_owned(),
            ErrorMessage::TokenNotProvided => "Token was not provided".to_owned(),
            ErrorMessage::PermissionDenied => {
                "You do not have permission to perform this action".to_owned()
            },
            ErrorMessage::UserNotAuthenticated => "User is not authenticated".to_owned(),
        }
    }
}

/// The body of a failure response.
#[derive(Debug)]
pub struct ErrorResponse {
    pub status: String,
    pub message: String,
}

pub const STATUS_BAD_REQUEST: u16 = 400;

pub const STATUS_UNAUTHORIZED: u16 = 401;

pub const STATUS_FORBIDDEN: u16 = 403;

pub const STATUS_CONFLICT: u16 = 409;

pub const STATUS_INTERNAL_SERVER_ERROR: u16 = 500;

/// A domain failure mapped to an HTTP status class, as handed to the
/// transport layer.
#[derive(Debug, Clone)]
pub struct HttpError {
    pub message: String,
    pub status: u16,
}

impl HttpError {
    pub fn new(message: String, status: u16) -> (r: Self)
        ensures
            r.message == message,
            r.status == status,
    {
        Self { message, status }
    }

    pub fn server_error(message: String) -> (r: Self)
        ensures
            r.message == message,
            r.status == STATUS_INTERNAL_SERVER_ERROR,
    {
        Self::new(message, STATUS_INTERNAL_SERVER_ERROR)
    }

    pub fn bad_request(message: String) -> (r: Self)
        ensures
            r.message == message,
            r.status == STATUS_BAD_REQUEST,
    {
        Self::new(message, STATUS_BAD_REQUEST)
    }

    pub fn unique_constraint_violation(message: String) -> (r: Self)
        ensures
            r.message == message,
            r.status == STATUS_CONFLICT,
    {
        Self::new(message, STATUS_CONFLICT)
    }

    pub fn unauthorized(message: String) -> (r: Self)
        ensures
            r.message == message,
            r.status == STATUS_UNAUTHORIZED,
    {
        Self::new(message, STATUS_UNAUTHORIZED)
    }
}

} // verus!
