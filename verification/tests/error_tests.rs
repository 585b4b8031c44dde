//! Tests for the error taxonomy.

use triton::error::Error;
use triton::uuid::validate_uuid;

#[test]
fn test_error_codes() {
    assert_eq!(Error::ServiceUnavailable("test".to_string()).error_code(), "SERVICE_UNAVAILABLE");
    assert_eq!(Error::DiscoveryFailed("test".to_string()).error_code(), "DISCOVERY_FAILED");
    assert_eq!(Error::SapiParseError("test".to_string()).error_code(), "SAPI_PARSE_ERROR");
    assert_eq!(Error::InvalidUuid("test".to_string()).error_code(), "INVALID_UUID");
    assert_eq!(Error::InvalidNetwork("test".to_string()).error_code(), "INVALID_NETWORK");
    assert_eq!(Error::InvalidVmState("test".to_string()).error_code(), "INVALID_VM_STATE");
    assert_eq!(Error::ConfigError("test".to_string()).error_code(), "CONFIG_ERROR");
    assert_eq!(Error::HttpError("test".to_string()).error_code(), "HTTP_ERROR");
    assert_eq!(Error::Timeout("test".to_string()).error_code(), "TIMEOUT");
    assert_eq!(Error::NotFound("test".to_string()).error_code(), "NOT_FOUND");
    assert_eq!(Error::InvalidRequest("test".to_string()).error_code(), "INVALID_REQUEST");
    assert_eq!(Error::BadRequest("test".to_string()).error_code(), "BAD_REQUEST");
    assert_eq!(Error::ValidationError("test".to_string()).error_code(), "VALIDATION_ERROR");
    assert_eq!(Error::Conflict("test".to_string()).error_code(), "CONFLICT");
    assert_eq!(
        Error::ExternalServiceError { service: "test".to_string(), message: "msg".to_string() }
            .error_code(),
        "EXTERNAL_SERVICE_ERROR"
    );
    assert_eq!(Error::InternalError("test".to_string()).error_code(), "INTERNAL_ERROR");
    assert_eq!(Error::CacheError("test".to_string()).error_code(), "CACHE_ERROR");
    assert_eq!(Error::InvalidEndpoint("test".to_string()).error_code(), "INVALID_ENDPOINT");
    assert_eq!(Error::NotImplemented("test".to_string()).error_code(), "NOT_IMPLEMENTED");
}

#[test]
fn test_error_display() {
    let err = Error::ServiceUnavailable("vmapi".to_string());
    assert_eq!(err.message(), "Service unavailable: vmapi");

    let err = Error::ExternalServiceError {
        service: "cnapi".to_string(),
        message: "connection failed".to_string(),
    };
    assert_eq!(err.message(), "External service error: cnapi: connection failed");
}

#[test]
fn test_should_log() {
    assert!(Error::InternalError("test".to_string()).should_log());
    assert!(Error::ConfigError("test".to_string()).should_log());
    assert!(
        Error::ExternalServiceError { service: "test".to_string(), message: "msg".to_string() }
            .should_log()
    );

    assert!(!Error::NotFound("test".to_string()).should_log());
    assert!(!Error::InvalidRequest("test".to_string()).should_log());
}

#[test]
fn test_from_uuid_error() {
    let triton_err = validate_uuid("not-a-uuid").unwrap_err();
    assert!(matches!(triton_err, Error::InvalidUuid(_)));
    assert_eq!(triton_err.error_code(), "INVALID_UUID");
}

#[test]
fn test_error_clone() {
    let err = Error::NotFound("test".to_string());
    let cloned = err.clone();
    assert_eq!(err, cloned);
}

#[test]
fn test_error_partial_eq() {
    let err1 = Error::NotFound("test".to_string());
    let err2 = Error::NotFound("test".to_string());
    let err3 = Error::NotFound("other".to_string());

    assert_eq!(err1, err2);
    assert_ne!(err1, err3);
}

#[test]
fn test_into_error_response() {
    let err = Error::NotFound("vm-123".to_string());
    let response = err.clone().into_error_response();

    assert_eq!(response.error.code, "NOT_FOUND");
    assert_eq!(response.error.message, "Not found: vm-123");
    assert!(response.request_id.is_none());

    let response_with_id = err.into_error_response_with_id(Some("req-456".to_string()));
    assert_eq!(response_with_id.request_id, Some("req-456".to_string()));
}
