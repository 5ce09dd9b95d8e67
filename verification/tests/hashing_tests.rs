use auth_session::hashing::{
    fresh_credential_verifies, hash_password, hash_password_with_params, verify_password,
};

#[test]
fn test_hash_verify_roundtrip() {
    // A password verifies against its own fresh credential, and a different
    // password does not.
    let credential = hash_password_with_params("Test123!@#", 8, 1, 1).expect("hashing failed");
    assert_eq!(verify_password("Test123!@#", &credential).expect("verify failed"), true);
    assert_eq!(verify_password("Test123!@$", &credential).expect("verify failed"), false);
    assert_eq!(verify_password("", &credential).expect("verify failed"), false);
}

#[test]
fn test_fresh_credential_verifies() {
    let result = fresh_credential_verifies("another password", 8, 1, 1).expect("hashing failed");
    assert!(result);
}

#[test]
fn test_hash_salt_uniqueness() {
    // Two credentials for one password differ (fresh random salt each time)
    // yet both verify it.
    let first = hash_password_with_params("same password", 8, 1, 1).expect("hashing failed");
    let second = hash_password_with_params("same password", 8, 1, 1).expect("hashing failed");
    assert_ne!(first, second);
    assert!(verify_password("same password", &first).unwrap());
    assert!(verify_password("same password", &second).unwrap());
}

#[test]
fn test_hash_password_fixed_parameters() {
    // The default derivation self-encodes Argon2id and the fixed cost
    // parameters in the PHC string.
    let credential = hash_password("Test123!@#").expect("hashing failed");
    assert!(credential.starts_with("$argon2id$"));
    assert!(credential.contains("m=19456,t=2,p=1"));
}

#[test]
fn test_hash_invalid_parameters_fail() {
    // A memory cost below the algorithm's minimum is a parameter error,
    // reported as an internal failure rather than a credential.
    assert!(hash_password_with_params("pw", 1, 1, 1).is_err());
}

#[test]
fn test_verify_unparsable_credential_fails() {
    assert!(verify_password("pw", "not a phc string").is_err());
}

#[test]
fn test_verify_rejects_oversized_parallelism() {
    // A syntactically valid credential whose parallelism no Argon2 build
    // accepts is rejected as an error, never reached for derivation.
    let crafted =
        "$argon2id$v=19$m=19456,t=2,p=536870912$c2FsdHNhbHRzYWx0$aGFzaGhhc2hoYXNoaGFzaA";
    assert!(verify_password("pw", crafted).is_err());
}
