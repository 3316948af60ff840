use payment_service::errors::{AppError, DatabaseFailure};
use payment_service::handlers::{health, ready, root};

#[test]
fn errors_map_to_http_answers() {
    let (status, body) = AppError::bad_request("nope").into_error_response();
    assert_eq!((status, body.error, body.message.as_str()), (400, "bad_request", "nope"));
    let (status, body) = AppError::not_found("gone").into_error_response();
    assert_eq!((status, body.error, body.message.as_str()), (404, "not_found", "gone"));
    let (status, body) = AppError::conflict("again").into_error_response();
    assert_eq!((status, body.error, body.message.as_str()), (409, "conflict", "again"));
    let (status, body) = AppError::Internal.into_error_response();
    assert_eq!(
        (status, body.error, body.message.as_str()),
        (500, "internal_server_error", "an unexpected error occurred")
    );
}

#[test]
fn database_failures_are_internal_and_only_40001_is_retryable() {
    let failure = DatabaseFailure { code: Some("40001".to_owned()) };
    assert!(failure.is_serialization_failure());
    assert!(matches!(AppError::from(failure), AppError::Internal));
    assert!(!DatabaseFailure { code: Some("23505".to_owned()) }.is_serialization_failure());
    assert!(!DatabaseFailure { code: Some("400011".to_owned()) }.is_serialization_failure());
    assert!(!DatabaseFailure { code: None }.is_serialization_failure());
}

#[test]
fn informational_bodies() {
    assert_eq!(health().status, "healthy");
    assert_eq!(ready(true, true).unwrap().status, "ready");
    assert!(matches!(ready(false, true), Err(AppError::Internal)));
    assert!(matches!(ready(true, false), Err(AppError::Internal)));
    let about = root("1.2.3");
    assert_eq!((about.service, about.version), ("payment-service", "1.2.3"));
}
