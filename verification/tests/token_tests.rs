use auth_core::token::{decode_token, generate_token, TokenError};

const SECRET: &[u8] = b"test-secret-key";
const NOW: u64 = 1_700_000_000;

#[test]
fn issue_then_verify_returns_subject() {
    let t = generate_token("user-1", SECRET, 60, NOW).unwrap();
    let sub = decode_token(&t, SECRET, NOW + 10).unwrap();
    assert_eq!(sub, "user-1");
}

#[test]
fn zero_ttl_token_is_expired_immediately() {
    let t = generate_token("user-1", SECRET, 0, NOW).unwrap();
    for delta in [0u64, 1, 59, 3600] {
        let e = decode_token(&t, SECRET, NOW + delta).unwrap_err();
        assert_eq!(e.status, 401);
        assert_eq!(e.message, "Invalid token");
    }
}

#[test]
fn wrong_secret_rejected() {
    let t = generate_token("user-1", SECRET, 60, NOW).unwrap();
    let e = decode_token(&t, b"another-secret", NOW).unwrap_err();
    assert_eq!(e.status, 401);
    assert_eq!(e.message, "Invalid token");
}

#[test]
fn expiry_is_strict() {
    // ttl of one minute: valid at 59 seconds, invalid from 60 on
    let t = generate_token("user-1", SECRET, 1, NOW).unwrap();
    assert!(decode_token(&t, SECRET, NOW + 59).is_ok());
    assert!(decode_token(&t, SECRET, NOW + 60).is_err());
}

#[test]
fn malformed_token_rejected() {
    assert!(decode_token("garbage", SECRET, NOW).is_err());
    assert!(decode_token("", SECRET, NOW).is_err());
    assert!(decode_token("a.b.c", SECRET, NOW).is_err());
}

#[test]
fn tampered_token_rejected() {
    let t = generate_token("user-1", SECRET, 60, NOW).unwrap();
    let mut tampered = t.into_bytes();
    let last = tampered.len() - 1;
    tampered[last] = if tampered[last] == b'A' { b'B' } else { b'A' };
    let tampered = String::from_utf8(tampered).unwrap();
    assert!(decode_token(&tampered, SECRET, NOW).is_err());
}

#[test]
fn empty_subject_rejected() {
    assert_eq!(
        generate_token("", SECRET, 60, NOW).unwrap_err(),
        TokenError::InvalidSubject
    );
}
