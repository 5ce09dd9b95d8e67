use auth_session::auth::{login, login_attempt, login_gate, logout, register, register_at, LoginRequest, RegisterRequest};
use auth_session::config::JwtConfig;
use auth_session::error::AppError;
use auth_session::hashing::hash_password_with_params;
use auth_session::jwt::verify_token_at;
use auth_session::rate_limit::RateLimiter;
use auth_session::store::Store;

fn test_jwt_config() -> JwtConfig {
    JwtConfig { secret: "test_jwt_secret".to_string(), expiration: 3600 }
}

fn cheap_credential(password: &str) -> String {
    hash_password_with_params(password, 8, 1, 1).expect("hashing failed")
}

fn store_with_user(email: &str, password: &str) -> Store {
    let mut store = Store::new();
    store
        .create_user(
            email.to_string(),
            "Test User".to_string(),
            Some(cheap_credential(password)),
            None,
            None,
        )
        .expect("create_user failed");
    store
}

#[test]
fn test_register_success() {
    let mut store = Store::new();
    let jwt = test_jwt_config();
    let payload = RegisterRequest {
        email: "test@example.com".to_string(),
        password: "Test123!@#".to_string(),
        name: "Test User".to_string(),
    };
    let resp = register(&mut store, &jwt, payload).expect("register failed");
    assert!(!resp.token.is_empty());
    assert_eq!(resp.user.email, "test@example.com");
    assert_eq!(resp.user.name, "Test User");
    let found = store.find_user_by_email("test@example.com").unwrap();
    assert!(found.is_some());
}

#[test]
fn test_register_duplicate_email() {
    let mut store = store_with_user("test@example.com", "Test123!@#");
    let jwt = test_jwt_config();
    let payload = RegisterRequest {
        email: "test@example.com".to_string(),
        password: "Test123!@#".to_string(),
        name: "Test User".to_string(),
    };
    let result = register(&mut store, &jwt, payload);
    assert!(matches!(result, Err(AppError::BadRequest(_))));
    assert_eq!(store.users.len(), 1);
}

#[test]
fn test_login_success() {
    let store = store_with_user("test@example.com", "Test123!@#");
    let jwt = test_jwt_config();
    let mut limiter = RateLimiter::new(10, 5, 180);
    let now: u64 = 1_700_000_000;
    let payload = LoginRequest {
        email: "test@example.com".to_string(),
        password: "Test123!@#".to_string(),
    };
    let resp = login(&mut limiter, &store, &jwt, "10.0.0.1", payload, now).expect("login failed");
    assert!(!resp.token.is_empty());
    assert_eq!(resp.user.email, "test@example.com");
    let claims = verify_token_at(&resp.token, "test_jwt_secret", now as i64).expect("bad token");
    assert_eq!(claims.email, "test@example.com");
    assert_eq!(claims.sub, resp.user.id);
}

#[test]
fn test_login_wrong_password() {
    let store = store_with_user("test@example.com", "CorrectPassword123");
    let jwt = test_jwt_config();
    let mut limiter = RateLimiter::new(10, 5, 180);
    let payload = LoginRequest {
        email: "test@example.com".to_string(),
        password: "WrongPassword123".to_string(),
    };
    let result = login(&mut limiter, &store, &jwt, "10.0.0.1", payload, 1_700_000_000);
    assert!(matches!(result, Err(AppError::Unauthorized)));
}

#[test]
fn test_login_nonexistent_user() {
    let store = Store::new();
    let jwt = test_jwt_config();
    let mut limiter = RateLimiter::new(10, 5, 180);
    let payload = LoginRequest {
        email: "nonexistent@example.com".to_string(),
        password: "SomePassword123".to_string(),
    };
    let result = login(&mut limiter, &store, &jwt, "10.0.0.1", payload, 1_700_000_000);
    assert!(matches!(result, Err(AppError::Unauthorized)));
}

#[test]
fn test_login_oauth_only_account() {
    let mut store = Store::new();
    store
        .create_user(
            "oauth@example.com".to_string(),
            "OAuth User".to_string(),
            None,
            Some("google".to_string()),
            Some("google-id-1".to_string()),
        )
        .expect("create_user failed");
    let jwt = test_jwt_config();
    let mut limiter = RateLimiter::new(10, 5, 180);
    let payload = LoginRequest {
        email: "oauth@example.com".to_string(),
        password: "AnyPassword123".to_string(),
    };
    let result = login(&mut limiter, &store, &jwt, "10.0.0.1", payload, 1_700_000_000);
    assert!(matches!(result, Err(AppError::BadRequest(_))));
}

#[test]
fn test_end_to_end_register_then_login() {
    // Full-cost flow: register with the fixed parameters, then log in with
    // the same password and verify the returned token.
    let mut store = Store::new();
    let jwt = test_jwt_config();
    let payload = RegisterRequest {
        email: "a@x.com".to_string(),
        password: "P".to_string(),
        name: "A".to_string(),
    };
    register(&mut store, &jwt, payload).expect("register failed");
    let mut limiter = RateLimiter::new(10, 5, 180);
    let now: u64 = 1_700_000_000;
    let resp = login(
        &mut limiter,
        &store,
        &jwt,
        "10.0.0.1",
        LoginRequest { email: "a@x.com".to_string(), password: "P".to_string() },
        now,
    )
    .expect("login failed");
    let claims = verify_token_at(&resp.token, "test_jwt_secret", now as i64).expect("bad token");
    assert_eq!(claims.email, "a@x.com");
}

#[test]
fn test_login_rate_limited_after_failures() {
    // Five wrong-password attempts from one address, then a sixth attempt:
    // the email gate (threshold 5) rejects it with a positive retry hint.
    let store = store_with_user("victim@example.com", "RightPassword1");
    let jwt = test_jwt_config();
    let mut limiter = RateLimiter::new(10, 5, 180);
    let now: u64 = 1_700_000_000;
    for _ in 0..5 {
        let result = login(
            &mut limiter,
            &store,
            &jwt,
            "10.0.0.1",
            LoginRequest {
                email: "victim@example.com".to_string(),
                password: "WrongPassword1".to_string(),
            },
            now,
        );
        assert!(matches!(result, Err(AppError::Unauthorized)));
    }
    let result = login(
        &mut limiter,
        &store,
        &jwt,
        "10.0.0.1",
        LoginRequest {
            email: "victim@example.com".to_string(),
            password: "RightPassword1".to_string(),
        },
        now,
    );
    match result {
        Err(AppError::TooManyRequests(retry_after)) => assert!(retry_after > 0),
        other => panic!("expected TooManyRequests, got {:?}", other.map(|r| r.user.email)),
    }
}

#[test]
fn test_login_success_resets_email_gate() {
    // Failed attempts stand against the email until a successful login
    // wipes them; afterwards the email gate starts fresh.
    let store = store_with_user("reset@example.com", "RightPassword1");
    let jwt = test_jwt_config();
    let mut limiter = RateLimiter::new(100, 5, 180);
    let now: u64 = 1_700_000_000;
    for _ in 0..4 {
        let _ = login(
            &mut limiter,
            &store,
            &jwt,
            "10.0.0.1",
            LoginRequest {
                email: "reset@example.com".to_string(),
                password: "WrongPassword1".to_string(),
            },
            now,
        );
    }
    let ok = login(
        &mut limiter,
        &store,
        &jwt,
        "10.0.0.1",
        LoginRequest {
            email: "reset@example.com".to_string(),
            password: "RightPassword1".to_string(),
        },
        now,
    );
    assert!(ok.is_ok());
    // The fifth-and-successful login reset the email window: five more
    // attempts are available at the same instant.
    for _ in 0..5 {
        let result = login(
            &mut limiter,
            &store,
            &jwt,
            "10.0.0.1",
            LoginRequest {
                email: "reset@example.com".to_string(),
                password: "WrongPassword1".to_string(),
            },
            now,
        );
        assert!(matches!(result, Err(AppError::Unauthorized)));
    }
}

#[test]
fn test_logout() {
    assert_eq!(logout(), "Logged out successfully");
}

#[test]
fn test_login_gate_and_attempt_compose() {
    // The two-phase form the boundary uses: gates under a brief lock, the
    // credential work outside it, the email reset on success.
    let store = store_with_user("split@example.com", "RightPassword1");
    let jwt = test_jwt_config();
    let mut limiter = RateLimiter::new(10, 5, 180);
    let now: u64 = 1_700_000_000;
    for _ in 0..5 {
        assert!(login_gate(&mut limiter, "10.0.0.1", "split@example.com", now).is_ok());
        let result = login_attempt(&store, &jwt, "split@example.com", "WrongPassword1", now);
        assert!(matches!(result, Err(AppError::Unauthorized)));
    }
    // The email gate is now exhausted.
    assert!(matches!(
        login_gate(&mut limiter, "10.0.0.1", "split@example.com", now),
        Err(AppError::TooManyRequests(_))
    ));
    limiter.reset_email_limit("split@example.com");
    assert!(login_gate(&mut limiter, "10.0.0.1", "split@example.com", now).is_ok());
    let resp = login_attempt(&store, &jwt, "split@example.com", "RightPassword1", now)
        .expect("attempt failed");
    let claims = verify_token_at(&resp.token, "test_jwt_secret", now as i64).expect("bad token");
    assert_eq!(claims.email, "split@example.com");
}

#[test]
fn test_register_at_issues_exact_instants() {
    let mut store = Store::new();
    let jwt = test_jwt_config();
    let now: i64 = 1_700_000_000;
    let payload = RegisterRequest {
        email: "instant@example.com".to_string(),
        password: "Test123!@#".to_string(),
        name: "Test User".to_string(),
    };
    let resp = register_at(&mut store, &jwt, payload, now).expect("register failed");
    let claims = verify_token_at(&resp.token, "test_jwt_secret", now).expect("bad token");
    assert_eq!(claims.iat, now);
    assert_eq!(claims.exp, now + 3600);
    // An unrepresentable expiry is the one internal failure left.
    let result = register_at(
        &mut store,
        &jwt,
        RegisterRequest {
            email: "other@example.com".to_string(),
            password: "Test123!@#".to_string(),
            name: "Test User".to_string(),
        },
        i64::MAX,
    );
    assert!(matches!(result, Err(AppError::Internal(_))));
}
