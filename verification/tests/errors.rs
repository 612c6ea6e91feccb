use bundler::errors::{ApiError, ErrorResponse};

#[test]
fn bad_request_is_answered_with_400_and_its_message() {
    let (status, body) = ApiError::BadRequest("Invalid currency".to_string()).error_response();
    assert_eq!(status, 400);
    assert_eq!(body.message, "Invalid currency");
}

#[test]
fn not_found_is_answered_with_404() {
    let (status, body) = ApiError::NotFound("no such wallet".to_string()).error_response();
    assert_eq!(status, 404);
    assert_eq!(body.message, "no such wallet");
}

#[test]
fn internal_server_error_is_answered_with_500() {
    let (status, body) = ApiError::InternalServer("Failed to get balance".to_string()).error_response();
    assert_eq!(status, 500);
    assert_eq!(body.message, "Failed to get balance");
}

#[test]
fn status_code_matches_each_kind() {
    assert_eq!(ApiError::BadRequest(String::new()).status_code(), 400);
    assert_eq!(ApiError::NotFound(String::new()).status_code(), 404);
    assert_eq!(ApiError::InternalServer(String::new()).status_code(), 500);
}

#[test]
fn error_message_is_the_carried_text() {
    assert_eq!(ApiError::NotFound("gone".to_string()).message(), "gone");
    assert_eq!(ApiError::InternalServer(String::new()).message(), "");
}

#[test]
fn error_response_from_string_keeps_the_text() {
    let body = ErrorResponse::from("boom".to_string());
    assert_eq!(body.message, "boom");
}

#[test]
fn default_error_response_is_empty() {
    let body = ErrorResponse::default();
    assert_eq!(body.message, "");
}
