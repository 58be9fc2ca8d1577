use club_backend::config::AppConfig;
use club_backend::errors::AppError;
use club_backend::models::SuccessResponse;

#[test]
fn success_envelopes() {
    let r = SuccessResponse::new(7u32);
    assert!(r.success);
    assert_eq!(r.data, Some(7));
    assert_eq!(r.message, None);

    let r = SuccessResponse::with_message(1u8, "done".to_string());
    assert!(r.success);
    assert_eq!(r.data, Some(1));
    assert_eq!(r.message, Some("done".to_string()));

    let r: SuccessResponse<u8> = SuccessResponse::no_data();
    assert!(r.success);
    assert_eq!(r.data, None);
    assert_eq!(r.message, None);
}

#[test]
fn error_statuses_and_codes() {
    let cases: Vec<(AppError, u16, &str)> = vec![
        (AppError::DatabaseError("x".to_string()), 500, "DATABASE_ERROR"),
        (AppError::NotFound("x".to_string()), 404, "NOT_FOUND"),
        (AppError::BadRequest("x".to_string()), 400, "BAD_REQUEST"),
        (AppError::Unauthorized("x".to_string()), 401, "UNAUTHORIZED"),
        (AppError::Conflict("x".to_string()), 409, "CONFLICT"),
        (AppError::InternalServerError("x".to_string()), 500, "INTERNAL_SERVER_ERROR"),
        (AppError::FileTooLarge, 413, "FILE_TOO_LARGE"),
        (AppError::InvalidFileType, 400, "INVALID_FILE_TYPE"),
        (AppError::MultipartError("x".to_string()), 400, "MULTIPART_ERROR"),
    ];
    for (err, status, code) in cases {
        assert_eq!(err.status_code(), status);
        assert_eq!(err.code(), code);
    }
}

#[test]
fn error_messages() {
    assert_eq!(
        AppError::DatabaseError("broken pipe".to_string()).message(),
        "Database error: broken pipe"
    );
    assert_eq!(AppError::NotFound("Event not found".to_string()).message(), "Not found: Event not found");
    assert_eq!(AppError::FileTooLarge.message(), "File size exceeds maximum allowed size");
    assert_eq!(AppError::InvalidFileType.message(), "Invalid file type");
}

#[test]
fn error_response_shape() {
    let body = AppError::NotFound("gone".to_string()).to_error_response();
    assert_eq!(body.error, "Not found: gone");
    assert_eq!(body.details, None);
    assert_eq!(body.code, "NOT_FOUND");
}

#[test]
fn config_defaults() {
    let c = AppConfig::resolve("postgres://h/db".to_string(), None, None, None, None);
    assert_eq!(c.database_url, "postgres://h/db");
    assert_eq!(c.host, "127.0.0.1");
    assert_eq!(c.port, 8080);
    assert_eq!(c.max_file_size, 10485760);
    assert_eq!(c.rust_log, "info");

    let c = AppConfig::resolve(
        "u".to_string(),
        Some("0.0.0.0".to_string()),
        Some(9000),
        Some(1024),
        Some("debug".to_string()),
    );
    assert_eq!(c.host, "0.0.0.0");
    assert_eq!(c.port, 9000);
    assert_eq!(c.max_file_size, 1024);
    assert_eq!(c.rust_log, "debug");
}
