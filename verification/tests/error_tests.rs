//! The error taxonomy: which status each failure surfaces with, and the
//! exact response bodies.

use auth_gate::error::ClientError;
use auth_gate::error::RepositoryError;

#[test]
fn statuses_follow_the_taxonomy() {
    assert_eq!(ClientError::Authentication.status_code(), 401);
    assert_eq!(ClientError::Decode.status_code(), 401);
    assert_eq!(ClientError::NotFound("x".to_string()).status_code(), 401);
    assert_eq!(ClientError::UnsupportedAlgorithm("x".to_string()).status_code(), 401);
    assert_eq!(ClientError::NoPermission("x".to_string()).status_code(), 401);
    assert_eq!(ClientError::SendRequestError("x".to_string()).status_code(), 500);
    assert_eq!(ClientError::JsonPayloadError("x".to_string()).status_code(), 500);
}

#[test]
fn authentication_body() {
    let body = ClientError::Authentication.error_response();
    assert_eq!(body.error, None);
    assert_eq!(
        body.error_description.as_deref(),
        Some("Authorization header value must follow this format: Bearer access-token"),
    );
    assert_eq!(body.message, "Requires authentication");
}

#[test]
fn decode_body() {
    let body = ClientError::Decode.error_response();
    assert_eq!(body.error.as_deref(), Some("invalid_token"));
    assert_eq!(
        body.error_description.as_deref(),
        Some("Authorization header value must follow this format: Bearer access-token"),
    );
    assert_eq!(body.message, "Bad credentials");
}

#[test]
fn send_request_body_carries_the_cause() {
    let body = ClientError::SendRequestError("connection reset".to_string()).error_response();
    assert_eq!(body.error.as_deref(), Some("connection reset"));
    assert_eq!(body.error_description, None);
    assert_eq!(body.message, "Requires authentication");
}

#[test]
fn json_payload_body_carries_the_cause() {
    let body = ClientError::JsonPayloadError("bad json".to_string()).error_response();
    assert_eq!(body.error.as_deref(), Some("bad json"));
    assert_eq!(body.error_description, None);
    assert_eq!(body.message, "Requires authentication");
}

#[test]
fn not_found_body_carries_the_message() {
    let body = ClientError::NotFound("No JWK found for kid".to_string()).error_response();
    assert_eq!(body.error.as_deref(), Some("invalid_token"));
    assert_eq!(body.error_description.as_deref(), Some("No JWK found for kid"));
    assert_eq!(body.message, "Bad credentials");
}

#[test]
fn unsupported_algorithm_body_names_the_algorithm() {
    let body = ClientError::UnsupportedAlgorithm("ES256".to_string()).error_response();
    assert_eq!(body.error.as_deref(), Some("invalid_token"));
    assert_eq!(
        body.error_description.as_deref(),
        Some("Unsupported encryption algorithm expected RSA got ES256"),
    );
    assert_eq!(body.message, "Bad credentials");
}

#[test]
fn no_permission_body_names_the_level() {
    let body = ClientError::NoPermission("Write".to_string()).error_response();
    assert_eq!(body.error.as_deref(), Some("lack of permissions"));
    assert_eq!(
        body.error_description.as_deref(),
        Some("Your user doesn't have Write permission"),
    );
    assert_eq!(body.message, "Bad credentials");
}

#[test]
fn repository_errors_are_server_faults() {
    assert_eq!(RepositoryError::GeneralError("x".to_string()).status_code(), 500);
    assert_eq!(RepositoryError::CreateUpdateUser("x".to_string()).status_code(), 500);
    assert_eq!(RepositoryError::DeleteUser("x".to_string()).status_code(), 500);
}

#[test]
fn repository_messages() {
    assert_eq!(
        RepositoryError::CreateUpdateUser("disk full".to_string()).to_message(),
        "Error saving data to Database: disk full",
    );
    assert_eq!(
        RepositoryError::DeleteUser("gone".to_string()).to_message(),
        "Error deleting data in the Database: gone",
    );
    assert_eq!(RepositoryError::GeneralError("oops".to_string()).to_message(), "oops");
}

#[test]
fn repository_bodies() {
    let create = RepositoryError::CreateUpdateUser("disk full".to_string()).error_response();
    assert_eq!(create.error.as_deref(), Some("disk full"));
    assert_eq!(create.error_description, None);
    assert_eq!(create.message, "Error when inserting user");

    let delete = RepositoryError::DeleteUser("gone".to_string()).error_response();
    assert_eq!(delete.message, "Error when deleting user");

    let general = RepositoryError::GeneralError("oops".to_string()).error_response();
    assert_eq!(general.message, "General error");
}
