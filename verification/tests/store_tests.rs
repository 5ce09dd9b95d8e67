use auth_session::error::AppError;
use auth_session::store::Store;

#[test]
fn test_store_create_and_find() {
    let mut store = Store::new();
    let user = store
        .create_user(
            "u@example.com".to_string(),
            "U".to_string(),
            Some("$argon2id$placeholder".to_string()),
            None,
            None,
        )
        .expect("create failed");
    assert!(!user.id.is_empty());
    let by_email = store.find_user_by_email("u@example.com").unwrap().expect("missing");
    assert_eq!(by_email.id, user.id);
    let by_id = store.find_user_by_id(&user.id).unwrap().expect("missing");
    assert_eq!(by_id.email, "u@example.com");
    assert!(store.find_user_by_email("other@example.com").unwrap().is_none());
    assert!(store.find_user_by_oauth("google", "nope").unwrap().is_none());
}

#[test]
fn test_store_rejects_duplicate_email() {
    let mut store = Store::new();
    store
        .create_user("u@example.com".to_string(), "U".to_string(), None, None, None)
        .expect("create failed");
    let result =
        store.create_user("u@example.com".to_string(), "V".to_string(), None, None, None);
    assert!(matches!(result, Err(AppError::BadRequest(_))));
    assert_eq!(store.users.len(), 1);
}

#[test]
fn test_store_update_user_password() {
    let mut store = Store::new();
    let user = store
        .create_user(
            "u@example.com".to_string(),
            "U".to_string(),
            Some("old-credential".to_string()),
            None,
            None,
        )
        .expect("create failed");
    let updated = store
        .update_user_password(&user.id, "new-credential".to_string())
        .expect("update failed");
    assert_eq!(updated.id, user.id);
    assert_eq!(updated.password_hash.as_deref(), Some("new-credential"));
    let fetched = store.find_user_by_id(&user.id).unwrap().expect("missing");
    assert_eq!(fetched.password_hash.as_deref(), Some("new-credential"));
    assert!(matches!(
        store.update_user_password("no-such-id", "x".to_string()),
        Err(AppError::NotFound)
    ));
}

#[test]
fn test_store_delete_user() {
    let mut store = Store::new();
    let first = store
        .create_user("a@example.com".to_string(), "A".to_string(), None, None, None)
        .expect("create failed");
    let second = store
        .create_user("b@example.com".to_string(), "B".to_string(), None, None, None)
        .expect("create failed");
    store.delete_user(&first.id).expect("delete failed");
    assert!(store.find_user_by_id(&first.id).unwrap().is_none());
    assert!(store.find_user_by_id(&second.id).unwrap().is_some());
    assert_eq!(store.users.len(), 1);
    // Deleting an absent id is no error.
    store.delete_user(&first.id).expect("delete failed");
    assert_eq!(store.users.len(), 1);
}
