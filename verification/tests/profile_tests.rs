use auth_session::auth::{authenticate, get_profile};
use auth_session::error::AppError;
use auth_session::jwt::generate_token_at;
use auth_session::store::Store;

fn store_with_profile_user() -> (Store, String) {
    let mut store = Store::new();
    let user = store
        .create_user(
            "test@example.com".to_string(),
            "Test User".to_string(),
            None,
            Some("google".to_string()),
            Some("google-id-9".to_string()),
        )
        .expect("create_user failed");
    (store, user.id)
}

#[test]
fn test_get_profile_with_valid_token() {
    let (store, user_id) = store_with_profile_user();
    let now: i64 = 1_700_000_000;
    let token = generate_token_at(&user_id, "test@example.com", "Test User", "s3cret", 3600, now)
        .expect("token generation failed");
    let header = format!("Bearer {}", token);
    let profile =
        get_profile(&store, "s3cret", Some(&header), now).expect("profile fetch failed");
    assert_eq!(profile.id, user_id);
    assert_eq!(profile.email, "test@example.com");
    assert_eq!(profile.name, "Test User");
    assert_eq!(profile.oauth_provider.as_deref(), Some("google"));
    assert!(!profile.created_at.is_empty());
}

#[test]
fn test_get_profile_without_token() {
    let (store, _) = store_with_profile_user();
    let result = get_profile(&store, "s3cret", None, 1_700_000_000);
    assert!(matches!(result, Err(AppError::Unauthorized)));
}

#[test]
fn test_get_profile_with_invalid_token() {
    let (store, _) = store_with_profile_user();
    let result =
        get_profile(&store, "s3cret", Some("Bearer invalid_token_here"), 1_700_000_000);
    assert!(matches!(result, Err(AppError::Jwt(_))));
}

#[test]
fn test_get_profile_with_malformed_auth_header() {
    let (store, _) = store_with_profile_user();
    let result = get_profile(&store, "s3cret", Some("InvalidFormat"), 1_700_000_000);
    assert!(matches!(result, Err(AppError::Unauthorized)));
}

#[test]
fn test_get_profile_unknown_subject() {
    // A valid token whose subject is no longer stored: not found, unlike
    // the unauthorized signals above.
    let (store, _) = store_with_profile_user();
    let now: i64 = 1_700_000_000;
    let token = generate_token_at("gone-user", "x@x.com", "X", "s3cret", 3600, now)
        .expect("token generation failed");
    let header = format!("Bearer {}", token);
    let result = get_profile(&store, "s3cret", Some(&header), now);
    assert!(matches!(result, Err(AppError::NotFound)));
}

#[test]
fn test_get_profile_expired_token() {
    let (store, user_id) = store_with_profile_user();
    let now: i64 = 1_700_000_000;
    let token = generate_token_at(&user_id, "test@example.com", "Test User", "s3cret", 60, now)
        .expect("token generation failed");
    let header = format!("Bearer {}", token);
    assert!(get_profile(&store, "s3cret", Some(&header), now + 59).is_ok());
    assert!(matches!(
        get_profile(&store, "s3cret", Some(&header), now + 60),
        Err(AppError::Jwt(_))
    ));
}

#[test]
fn test_authenticate_returns_claims() {
    let now: i64 = 1_700_000_000;
    let token = generate_token_at("user-7", "a@x.com", "A", "s3cret", 3600, now)
        .expect("token generation failed");
    let header = format!("Bearer {}", token);
    let claims = authenticate(Some(&header), "s3cret", now).expect("authenticate failed");
    assert_eq!(claims.sub, "user-7");
    assert!(matches!(
        authenticate(Some(&token), "s3cret", now),
        Err(AppError::Unauthorized)
    ));
}
