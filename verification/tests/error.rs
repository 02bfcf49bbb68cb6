use showrunner_backend::error::AppError;

#[test]
fn from_io_error() {
    let io = std::io::Error::other("disk gone");
    let err: AppError = io.into();
    assert!(matches!(err, AppError::Io(_)));
    assert!(err.message().contains("disk gone"));
}

#[test]
fn from_json_error() {
    let parse_err = serde_json::from_str::<i64>("not json").unwrap_err();
    let err: AppError = parse_err.into();
    assert!(matches!(err, AppError::Json(_)));
}

#[test]
fn user_facing_errors_keep_their_text_and_status() {
    let e = AppError::NotFound("show 7 missing".into());
    assert_eq!(e.status_code(), 404);
    assert_eq!(e.client_message(), "show 7 missing");
    let e = AppError::InvalidData("bad".into());
    assert_eq!(e.status_code(), 400);
    assert_eq!(e.client_message(), "bad");
    let e = AppError::Config("missing".into());
    assert_eq!(e.status_code(), 500);
    assert_eq!(e.client_message(), "missing");
    let e = AppError::Upstream("tmdb 500".into());
    assert_eq!(e.status_code(), 502);
    assert_eq!(e.client_message(), "tmdb 500");
    let e = AppError::TooManyRequests("slow down".into());
    assert_eq!(e.status_code(), 429);
    assert_eq!(e.message(), "Too many requests: slow down");
}

#[test]
fn database_error_hidden_from_client_message() {
    let e: AppError = sqlx::Error::RowNotFound.into();
    assert_eq!(e.status_code(), 500);
    assert_eq!(e.client_message(), "An internal error occurred");
    assert!(e.message().starts_with("Database error: "));
}
