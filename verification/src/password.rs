//! Credential hashing and constant-time comparison.
//!
//! Hashing is delegated to argon2 (memory-hard, salted per call); this module
//! verifies the validation around it and states exactly when each error is
//! returned.

use vstd::prelude::*;
use vstd::utf8::encode_utf8;

use crate::errors::ErrorMessage;

use argon2::{Argon2, PasswordHash, PasswordHasher, PasswordVerifier};

verus! {

pub const MAX_PASSWORD_LENGTH: usize = 64;

/// Whether argon2 verification accepts `password` against the PHC-encoded
/// `hash`. The outcome is a function of the two strings alone: the salt and
/// all parameters are embedded in the hash string.
pub uninterp spec fn password_matches(password: Seq<char>, hash: Seq<char>) -> bool;

/// Whether `hash` parses as a PHC-format password hash string.
pub uninterp spec fn is_phc_hash(hash: Seq<char>) -> bool;

/// The byte length of a string (its UTF-8 encoding).
pub open spec fn byte_len(s: Seq<char>) -> nat {
    encode_utf8(s).len()
}

/// A password the hasher accepts: non-empty and at most
/// `MAX_PASSWORD_LENGTH` bytes.
pub open spec fn password_acceptable(password: Seq<char>) -> bool {
    password.len() > 0 && byte_len(password) <= MAX_PASSWORD_LENGTH as nat
}

/// Relies on `Argon2::hash_password` (password_hash::PasswordHasher with a
/// freshly generated random salt): on success the returned PHC string parses
/// back, and argon2 verification accepts the same password against it.
#[verifier::external_body]
fn argon2_hash(password: &str) -> (r: Option<String>)
    ensures
        r matches Some(h) ==> is_phc_hash(h@) && password_matches(password@, h@),
{
    match Argon2::default().hash_password(password.as_bytes()) {
        Ok(h) => Some(h.to_string()),
        Err(_) => None,
    }
}

/// Relies on `phc::PasswordHash::new` (PHC parsing) and
/// `Argon2::verify_password`: parsing fails exactly when the string is not a
/// PHC hash, and the verification outcome is a function of password and hash
/// string alone.
#[verifier::external_body]
fn argon2_verify(password: &str, hash: &str) -> (r: Option<bool>)
    ensures
        r is Some <==> is_phc_hash(hash@),
        r matches Some(b) ==> b == password_matches(password@, hash@),
{
    match PasswordHash::new(hash) {
        Ok(parsed) => Some(
            Argon2::default().verify_password(password.as_bytes(), &parsed).is_ok(),
        ),
        Err(_) => None,
    }
}

/// Rejects empty passwords and passwords longer than `MAX_PASSWORD_LENGTH`
/// bytes; accepts everything else.
pub fn validate_password(password: &str) -> (r: Result<(), ErrorMessage>)
    ensures
        r is Ok <==> password_acceptable(password@),
        password@.len() == 0 ==> r == Result::<(), ErrorMessage>::Err(ErrorMessage::EmptyPassword),
        password@.len() > 0 && byte_len(password@) > MAX_PASSWORD_LENGTH as nat ==> r
            == Result::<(), ErrorMessage>::Err(
            ErrorMessage::ExceededMaxPasswordLength(MAX_PASSWORD_LENGTH),
        ),
{
    if password.is_empty() {
        return Err(ErrorMessage::EmptyPassword);
    }
    let bytes = password.as_bytes();
    if bytes.len() > MAX_PASSWORD_LENGTH {
        return Err(ErrorMessage::ExceededMaxPasswordLength(MAX_PASSWORD_LENGTH));
    }
    Ok(())
}

/// Hashes an acceptable password with a fresh random salt. On success the
/// result is a PHC hash string that `compare` accepts for the same password.
pub fn hash_password(password: &str) -> (r: Result<String, ErrorMessage>)
    ensures
        r matches Ok(h) ==> password_acceptable(password@) && is_phc_hash(h@)
            && password_matches(password@, h@),
        password@.len() == 0 ==> r == Result::<String, ErrorMessage>::Err(
            ErrorMessage::EmptyPassword,
        ),
        password@.len() > 0 && byte_len(password@) > MAX_PASSWORD_LENGTH as nat ==> r
            == Result::<String, ErrorMessage>::Err(
            ErrorMessage::ExceededMaxPasswordLength(MAX_PASSWORD_LENGTH),
        ),
        r matches Err(e) ==> (e == ErrorMessage::EmptyPassword
            || e == ErrorMessage::ExceededMaxPasswordLength(MAX_PASSWORD_LENGTH)
            || e == ErrorMessage::HashingError),
        password_acceptable(password@) ==> (r is Ok || r == Result::<String, ErrorMessage>::Err(
            ErrorMessage::HashingError,
        )),
{
    match validate_password(password) {
        Ok(()) => {},
        Err(e) => {
            return Err(e);
        },
    }
    match argon2_hash(password) {
        Some(h) => Ok(h),
        None => Err(ErrorMessage::HashingError),
    }
}

/// The full outcome of `compare`, as a function of its inputs alone.
pub open spec fn spec_compare(password: Seq<char>, hash: Seq<char>) -> Result<bool, ErrorMessage> {
    if password.len() == 0 {
        Err(ErrorMessage::EmptyPassword)
    } else if byte_len(password) > MAX_PASSWORD_LENGTH as nat {
        Err(ErrorMessage::ExceededMaxPasswordLength(MAX_PASSWORD_LENGTH))
    } else if !is_phc_hash(hash) {
        Err(ErrorMessage::InvalidHashFormat)
    } else {
        Ok(password_matches(password, hash))
    }
}

/// Re-validates the password exactly as `hash_password` does, rejects hash
/// strings that are not PHC hashes, and otherwise reports whether argon2
/// verification accepts the password against the hash.
pub fn compare(password: &str, hashed_password: &str) -> (r: Result<bool, ErrorMessage>)
    ensures
        r == spec_compare(password@, hashed_password@),
{
    match validate_password(password) {
        Ok(()) => {},
        Err(e) => {
            return Err(e);
        },
    }
    match argon2_verify(password, hashed_password) {
        Some(b) => Ok(b),
        None => Err(ErrorMessage::InvalidHashFormat),
    }
}

/// A hash produced for a password verifies against that password: on any
/// pair that `hash_password` can return (an acceptable password and a PHC
/// hash that argon2 accepts for it), `compare` returns `Ok(true)`.
pub proof fn lemma_hash_then_compare_succeeds(password: Seq<char>, hash: Seq<char>)
    requires
        password_acceptable(password),
        is_phc_hash(hash),
        password_matches(password, hash),
    ensures
        spec_compare(password, hash) == Ok::<bool, ErrorMessage>(true),
{
}

} // verus!
