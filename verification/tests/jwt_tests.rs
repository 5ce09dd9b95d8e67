use auth_session::error::AppError;
use auth_session::jwt::{generate_token, generate_token_at, verify_token, verify_token_at};

#[test]
fn test_token_roundtrip() {
    let now: i64 = 1_700_000_000;
    let token = generate_token_at("user-1", "a@x.com", "A", "secret-a", 3600, now)
        .expect("token generation failed");
    let claims = verify_token_at(&token, "secret-a", now).expect("verification failed");
    assert_eq!(claims.sub, "user-1");
    assert_eq!(claims.email, "a@x.com");
    assert_eq!(claims.name, "A");
    assert_eq!(claims.iat, 1_700_000_000);
    assert_eq!(claims.exp, 1_700_003_600);
}

#[test]
fn test_token_zero_ttl_fails_immediately() {
    // The expiry boundary is exclusive: a zero time-to-live token has
    // exp == iat, so it is already dead at its own issue instant.
    let now: i64 = 1_700_000_000;
    let token = generate_token_at("user-1", "a@x.com", "A", "secret-a", 0, now)
        .expect("token generation failed");
    assert!(matches!(verify_token_at(&token, "secret-a", now), Err(AppError::Jwt(_))));
    // It stays dead at the current wall-clock instant too.
    assert!(verify_token(&token, "secret-a").is_err());
}

#[test]
fn test_token_wrong_secret_fails() {
    let now: i64 = 1_700_000_000;
    let token = generate_token_at("user-1", "a@x.com", "A", "secret-a", 3600, now)
        .expect("token generation failed");
    assert!(matches!(verify_token_at(&token, "secret-b", now), Err(AppError::Jwt(_))));
}

#[test]
fn test_token_expiry_boundary() {
    let now: i64 = 1_700_000_000;
    let token = generate_token_at("user-1", "a@x.com", "A", "secret-a", 10, now)
        .expect("token generation failed");
    assert!(verify_token_at(&token, "secret-a", now + 9).is_ok());
    assert!(verify_token_at(&token, "secret-a", now + 10).is_err());
    assert!(verify_token_at(&token, "secret-a", now + 11).is_err());
}

#[test]
fn test_token_tampered_fails() {
    let now: i64 = 1_700_000_000;
    let token = generate_token_at("user-1", "a@x.com", "A", "secret-a", 3600, now)
        .expect("token generation failed");
    let mut tampered = token.clone();
    tampered.push('x');
    assert!(verify_token_at(&tampered, "secret-a", now).is_err());
}

#[test]
fn test_token_garbage_fails() {
    assert!(verify_token_at("not a token", "secret-a", 0).is_err());
    assert!(verify_token_at("", "secret-a", 0).is_err());
    assert!(verify_token_at("a.b.c", "secret-a", 0).is_err());
}

#[test]
fn test_generate_token_uses_clock() {
    let token = generate_token("user-1", "a@x.com", "A", "secret-a", 3600)
        .expect("token generation failed");
    let claims = verify_token(&token, "secret-a").expect("verification failed");
    assert_eq!(claims.exp - claims.iat, 3600);
}

#[test]
fn test_token_issue_instants_out_of_range() {
    // Issuance succeeds exactly when the instants are representable: a
    // negative issue instant or an out-of-range expiry is an internal
    // error, never a token.
    assert!(generate_token_at("u", "a@x.com", "A", "secret-a", 10, -5).is_err());
    assert!(generate_token_at("u", "a@x.com", "A", "secret-a", 1, i64::MAX).is_err());
    assert!(generate_token_at("u", "a@x.com", "A", "secret-a", -20, 10).is_err());
    // A negative time-to-live with a representable expiry still issues a
    // token; it is simply already expired.
    let token = generate_token_at("u", "a@x.com", "A", "secret-a", -20, 100)
        .expect("token generation failed");
    assert!(verify_token_at(&token, "secret-a", 100).is_err());
}

#[test]
fn test_token_deterministic() {
    // Equal claims under an equal secret give one token.
    let now: i64 = 1_700_000_000;
    let first = generate_token_at("u", "a@x.com", "A", "secret-a", 60, now).unwrap();
    let second = generate_token_at("u", "a@x.com", "A", "secret-a", 60, now).unwrap();
    assert_eq!(first, second);
}
