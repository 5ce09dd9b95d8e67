use auth_session::error::AppError;

#[test]
fn test_error_status_codes() {
    assert_eq!(AppError::Unauthorized.status_code(), 401);
    assert_eq!(AppError::NotFound.status_code(), 404);
    assert_eq!(AppError::BadRequest("bad".to_string()).status_code(), 400);
    assert_eq!(AppError::TooManyRequests(42).status_code(), 429);
    assert_eq!(AppError::Jwt("boom".to_string()).status_code(), 401);
    assert_eq!(AppError::Internal("boom".to_string()).status_code(), 500);
}

#[test]
fn test_error_messages_collapse_detail() {
    // Internal token detail never reaches the caller; request-level detail
    // does.
    assert_eq!(AppError::Unauthorized.message(), "Unauthorized");
    assert_eq!(AppError::NotFound.message(), "Resource not found");
    assert_eq!(AppError::BadRequest("Email already exists".to_string()).message(),
        "Email already exists");
    assert_eq!(AppError::TooManyRequests(42).message(), "Too many requests");
    assert_eq!(AppError::Jwt("signature mismatch detail".to_string()).message(), "Invalid token");
    assert_eq!(AppError::Internal("boom detail".to_string()).message(), "Internal server error");
}
