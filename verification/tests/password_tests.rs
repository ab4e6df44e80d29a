use auth_core::errors::ErrorMessage;
use auth_core::password::{compare, hash_password, validate_password};

#[test]
fn hash_then_verify_succeeds() {
    let h = hash_password("secret1").unwrap();
    assert!(compare("secret1", &h).unwrap());
}

#[test]
fn single_byte_mutations_fail_verification() {
    let h = hash_password("secret1").unwrap();
    let original = b"secret1";
    for i in 0..original.len() {
        let mut mutated = original.to_vec();
        mutated[i] = mutated[i].wrapping_add(1);
        let mutated = String::from_utf8(mutated).unwrap();
        assert_eq!(compare(&mutated, &h).unwrap(), false);
    }
}

#[test]
fn hashing_is_salted_and_nondeterministic() {
    let h1 = hash_password("secret1").unwrap();
    let h2 = hash_password("secret1").unwrap();
    assert_ne!(h1, h2);
    assert!(compare("secret1", &h1).unwrap());
    assert!(compare("secret1", &h2).unwrap());
}

#[test]
fn empty_password_rejected() {
    assert_eq!(validate_password(""), Err(ErrorMessage::EmptyPassword));
    assert_eq!(hash_password("").unwrap_err(), ErrorMessage::EmptyPassword);
    assert_eq!(compare("", "whatever").unwrap_err(), ErrorMessage::EmptyPassword);
}

#[test]
fn overlong_password_rejected() {
    let long = "a".repeat(65);
    assert_eq!(
        validate_password(&long),
        Err(ErrorMessage::ExceededMaxPasswordLength(64))
    );
    assert_eq!(
        hash_password(&long).unwrap_err(),
        ErrorMessage::ExceededMaxPasswordLength(64)
    );
    let max = "a".repeat(64);
    assert!(hash_password(&max).is_ok());
}

#[test]
fn length_limit_counts_bytes_not_characters() {
    // 33 two-byte characters: 33 chars but 66 bytes
    let wide = "\u{00e9}".repeat(33);
    assert_eq!(
        validate_password(&wide),
        Err(ErrorMessage::ExceededMaxPasswordLength(64))
    );
    let fits = "\u{00e9}".repeat(32);
    assert_eq!(validate_password(&fits), Ok(()));
}

#[test]
fn malformed_hash_rejected() {
    assert_eq!(
        compare("secret1", "not-a-phc-hash").unwrap_err(),
        ErrorMessage::InvalidHashFormat
    );
}
