//! Signed session tokens: compact claims carrying subject and expiry.
//!
//! Signing and signature checking are delegated to jsonwebtoken (HS256);
//! this module verifies the claim construction and the strict expiry check,
//! which is done here, not by the outside crate.

use vstd::prelude::*;

use crate::errors::{ErrorMessage, HttpError, STATUS_UNAUTHORIZED};

use jsonwebtoken::{decode, encode, Algorithm, DecodingKey, EncodingKey, Header, Validation};

verus! {

/// The claims carried by a session token: subject, issued-at and expires-at
/// (unix seconds).
#[derive(Debug)]
pub struct TokenClaims {
    pub sub: String,
    pub iat: u64,
    pub exp: u64,
}

/// The token string that HS256 signing produces for these claims and this
/// secret. Signing is deterministic: the result is a function of the
/// arguments alone.
pub uninterp spec fn jwt_of(sub: Seq<char>, iat: u64, exp: u64, secret: Seq<u8>) -> Seq<char>;

/// The claims that signature checking under `secret` recovers from `token`:
/// `Some((sub, iat, exp))` when the token is well-formed and carries a valid
/// HS256 signature under `secret`, `None` otherwise. No expiry check is part
/// of this.
pub uninterp spec fn jwt_claims_of(token: Seq<char>, secret: Seq<u8>) -> Option<
    (Seq<char>, u64, u64),
>;

/// Whether HS256 signing fails for these claims and this secret. Signing
/// is deterministic (fixed header, fixed claim serialization, one crypto
/// provider), so failure is a function of the arguments alone.
pub uninterp spec fn jwt_encode_fails(sub: Seq<char>, iat: u64, exp: u64, secret: Seq<u8>) -> bool;

/// Relies on jsonwebtoken::encode with HS256: success, the token, and the
/// failure condition are all functions of claims and secret alone, and
/// decoding the token under the same secret yields the claims back.
#[verifier::external_body]
fn jwt_encode(claims: &TokenClaims, secret: &[u8]) -> (r: Option<String>)
    ensures
        r is None <==> jwt_encode_fails(claims.sub@, claims.iat, claims.exp, secret@),
        r matches Some(t) ==> t@ == jwt_of(claims.sub@, claims.iat, claims.exp, secret@)
            && jwt_claims_of(t@, secret@) == Some((claims.sub@, claims.iat, claims.exp)),
{
    let mut map = serde_json::Map::new();
    map.insert("sub".to_owned(), serde_json::Value::String(claims.sub.clone()));
    map.insert("iat".to_owned(), serde_json::Value::from(claims.iat));
    map.insert("exp".to_owned(), serde_json::Value::from(claims.exp));
    let key = EncodingKey::from_secret(secret);
    match encode(&Header::default(), &serde_json::Value::Object(map), &key) {
        Ok(t) => Some(t),
        Err(_) => None,
    }
}

/// Relies on jsonwebtoken::decode with HS256 and expiry validation turned
/// off: success and recovered claims are a function of token and secret
/// alone (a pure signature and format check). The caller does the expiry
/// comparison.
#[verifier::external_body]
fn jwt_decode(token: &str, secret: &[u8]) -> (r: Option<TokenClaims>)
    ensures
        r is Some <==> jwt_claims_of(token@, secret@) is Some,
        r matches Some(c) ==> jwt_claims_of(token@, secret@) == Some((c.sub@, c.iat, c.exp)),
{
    let mut validation = Validation::new(Algorithm::HS256);
    validation.validate_exp = false;
    validation.validate_nbf = false;
    let key = DecodingKey::from_secret(secret);
    let data = match decode::<serde_json::Value>(token, &key, &validation) {
        Ok(d) => d,
        Err(_) => return None,
    };
    let sub = data.claims.get("sub")?.as_str()?.to_owned();
    let iat = data.claims.get("iat")?.as_u64()?;
    let exp = data.claims.get("exp")?.as_u64()?;
    Some(TokenClaims { sub, iat, exp })
}

/// Why token issuance failed.
#[derive(Debug, Clone, Copy, PartialEq, Eq, Structural)]
pub enum TokenError {
    /// The subject was empty.
    InvalidSubject,
    /// The signing call failed.
    EncodingFailure,
}

/// The expires-at claim of a token issued at `now` with a time-to-live in
/// minutes.
pub open spec fn expiry_at(now: u64, ttl_minutes: u64) -> int {
    now + ttl_minutes * 60
}

/// Issues a signed session token for `user_id`, valid from `now` for
/// `ttl_minutes` minutes. Fails on an empty subject; a zero time-to-live
/// produces a token that is already expired.
pub fn generate_token(user_id: &str, secret: &[u8], ttl_minutes: u64, now: u64) -> (r: Result<
    String,
    TokenError,
>)
    requires
        expiry_at(now, ttl_minutes) <= u64::MAX,
    ensures
        user_id@.len() == 0 <==> r == Result::<String, TokenError>::Err(TokenError::InvalidSubject),
        user_id@.len() > 0 ==> (r is Ok <==> !jwt_encode_fails(
            user_id@,
            now,
            expiry_at(now, ttl_minutes) as u64,
            secret@,
        )),
        r matches Ok(t) ==> t@ == jwt_of(user_id@, now, expiry_at(now, ttl_minutes) as u64, secret@)
            && jwt_claims_of(t@, secret@) == Some(
            (user_id@, now, expiry_at(now, ttl_minutes) as u64),
        ),
        r matches Err(e) ==> (e == TokenError::InvalidSubject || e == TokenError::EncodingFailure),
{
    if user_id.is_empty() {
        return Err(TokenError::InvalidSubject);
    }
    let claims = TokenClaims { sub: user_id.to_owned(), iat: now, exp: now + ttl_minutes * 60 };
    match jwt_encode(&claims, secret) {
        Some(t) => Ok(t),
        None => Err(TokenError::EncodingFailure),
    }
}

/// Whether `token` passes signature checking under `secret` and is not yet
/// expired at `now`. Expiry is strict: a token is invalid from its
/// expires-at instant on.
pub open spec fn token_valid_at(token: Seq<char>, secret: Seq<u8>, now: u64) -> bool {
    match jwt_claims_of(token, secret) {
        Some(claims) => now < claims.2,
        None => false,
    }
}

/// Checks signature and expiry of `token` under `secret` at time `now` and
/// returns the subject claim unmodified. Malformed, forged and expired
/// tokens are all rejected as invalid.
pub fn decode_token(token: &str, secret: &[u8], now: u64) -> (r: Result<String, HttpError>)
    ensures
        r is Ok <==> token_valid_at(token@, secret@, now),
        r matches Ok(sub) ==> (jwt_claims_of(token@, secret@) matches Some(claims) && sub@
            == claims.0),
        r matches Err(e) ==> e.status == STATUS_UNAUTHORIZED && e.message@
            == ErrorMessage::InvalidToken.spec_message(),
{
    let claims = match jwt_decode(token, secret) {
        Some(c) => c,
        None => {
            return Err(HttpError::unauthorized(ErrorMessage::InvalidToken.to_str()));
        },
    };
    if now >= claims.exp {
        return Err(HttpError::unauthorized(ErrorMessage::InvalidToken.to_str()));
    }
    Ok(claims.sub)
}

/// A token issued with a zero time-to-live expires at its issuance instant:
/// every timestamp at or after issuance rejects it.
pub proof fn lemma_zero_ttl_token_rejected(
    token: Seq<char>,
    sub: Seq<char>,
    issued_at: u64,
    secret: Seq<u8>,
    now: u64,
)
    requires
        jwt_claims_of(token, secret) == Some((sub, issued_at, issued_at)),
        now >= issued_at,
    ensures
        !token_valid_at(token, secret, now),
{
}

/// A token is accepted exactly until its expires-at instant: before it, the
/// signature check decides; from it on, the token is rejected outright.
pub proof fn lemma_token_expiry_strict(
    token: Seq<char>,
    sub: Seq<char>,
    iat: u64,
    exp: u64,
    secret: Seq<u8>,
    now: u64,
)
    requires
        jwt_claims_of(token, secret) == Some((sub, iat, exp)),
    ensures
        token_valid_at(token, secret, now) <==> now < exp,
{
}

} // verus!
