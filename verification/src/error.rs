//! Error types for client and discovery operations.
//!
//! The taxonomy distinguishes transient failures (timeouts, unavailable
//! services), client-caused failures (bad requests, missing resources) and
//! configuration failures detected at construction time.

use vstd::prelude::*;

verus! {

/// Main error type for client and discovery operations.
#[derive(Debug, PartialEq)]
pub enum Error {
    /// A service is unavailable (transient, retryable).
    ServiceUnavailable(String),
    /// Service discovery failed: no endpoints resolvable and no usable
    /// fallback.
    DiscoveryFailed(String),
    /// Failed to parse a directory-service response.
    SapiParseError(String),
    /// Invalid UUID format.
    InvalidUuid(String),
    /// Invalid network configuration.
    InvalidNetwork(String),
    /// Invalid VM state.
    InvalidVmState(String),
    /// Configuration error, detected at construction and fatal to startup.
    ConfigError(String),
    /// An HTTP request failed.
    HttpError(String),
    /// An operation timed out (transient, retryable).
    Timeout(String),
    /// A resource was not found (client-caused, not retryable).
    NotFound(String),
    /// An invalid request was made (client-caused, not retryable).
    InvalidRequest(String),
    /// A bad request with details.
    BadRequest(String),
    /// A validation error.
    ValidationError(String),
    /// A conflicting request.
    Conflict(String),
    /// An external collaborator failed.
    ExternalServiceError {
        /// Name of the service that failed.
        service: String,
        /// What went wrong.
        message: String,
    },
    /// An internal error.
    InternalError(String),
    /// An endpoint cache error.
    CacheError(String),
    /// An invalid endpoint.
    InvalidEndpoint(String),
    /// A feature that is not implemented.
    NotImplemented(String),
}

/// Specialized result type for client and discovery operations.
pub type Result<T> = core::result::Result<T, Error>;

impl Error {
    /// The error code of each variant, as a mathematical value.
    pub open spec fn error_code_spec(self) -> Seq<char> {
        match self {
            Error::ServiceUnavailable(_) => "SERVICE_UNAVAILABLE"@,
            Error::DiscoveryFailed(_) => "DISCOVERY_FAILED"@,
            Error::SapiParseError(_) => "SAPI_PARSE_ERROR"@,
            Error::InvalidUuid(_) => "INVALID_UUID"@,
            Error::InvalidNetwork(_) => "INVALID_NETWORK"@,
            Error::InvalidVmState(_) => "INVALID_VM_STATE"@,
            Error::ConfigError(_) => "CONFIG_ERROR"@,
            Error::HttpError(_) => "HTTP_ERROR"@,
            Error::Timeout(_) => "TIMEOUT"@,
            Error::NotFound(_) => "NOT_FOUND"@,
            Error::InvalidRequest(_) => "INVALID_REQUEST"@,
            Error::BadRequest(_) => "BAD_REQUEST"@,
            Error::ValidationError(_) => "VALIDATION_ERROR"@,
            Error::Conflict(_) => "CONFLICT"@,
            Error::ExternalServiceError { .. } => "EXTERNAL_SERVICE_ERROR"@,
            Error::InternalError(_) => "INTERNAL_ERROR"@,
            Error::CacheError(_) => "CACHE_ERROR"@,
            Error::InvalidEndpoint(_) => "INVALID_ENDPOINT"@,
            Error::NotImplemented(_) => "NOT_IMPLEMENTED"@,
        }
    }

    /// The human-readable message of each variant, as a mathematical value.
    pub open spec fn message_spec(self) -> Seq<char> {
        match self {
            Error::ServiceUnavailable(m) => "Service unavailable: "@ + m@,
            Error::DiscoveryFailed(m) => "Service discovery failed: "@ + m@,
            Error::SapiParseError(m) => "Failed to parse SAPI response: "@ + m@,
            Error::InvalidUuid(m) => "Invalid UUID: "@ + m@,
            Error::InvalidNetwork(m) => "Invalid network configuration: "@ + m@,
            Error::InvalidVmState(m) => "Invalid VM state: "@ + m@,
            Error::ConfigError(m) => "Configuration error: "@ + m@,
            Error::HttpError(m) => "HTTP request failed: "@ + m@,
            Error::Timeout(m) => "Timeout waiting for service: "@ + m@,
            Error::NotFound(m) => "Not found: "@ + m@,
            Error::InvalidRequest(m) => "Invalid request: "@ + m@,
            Error::BadRequest(m) => "Bad request: "@ + m@,
            Error::ValidationError(m) => "Validation error: "@ + m@,
            Error::Conflict(m) => "Conflict: "@ + m@,
            Error::ExternalServiceError { service, message } => "External service error: "@
                + service@ + ": "@ + message@,
            Error::InternalError(m) => "Internal error: "@ + m@,
            Error::CacheError(m) => "Endpoint cache error: "@ + m@,
            Error::InvalidEndpoint(m) => "Invalid endpoint: "@ + m@,
            Error::NotImplemented(m) => "Not implemented: "@ + m@,
        }
    }

    /// Returns the error code for this error value.
    pub fn error_code(&self) -> (r: &'static str)
        ensures
            r@ == self.error_code_spec(),
    {
        match self {
            Error::ServiceUnavailable(_) => "SERVICE_UNAVAILABLE",
            Error::DiscoveryFailed(_) => "DISCOVERY_FAILED",
            Error::SapiParseError(_) => "SAPI_PARSE_ERROR",
            Error::InvalidUuid(_) => "INVALID_UUID",
            Error::InvalidNetwork(_) => "INVALID_NETWORK",
            Error::InvalidVmState(_) => "INVALID_VM_STATE",
            Error::ConfigError(_) => "CONFIG_ERROR",
            Error::HttpError(_) => "HTTP_ERROR",
            Error::Timeout(_) => "TIMEOUT",
            Error::NotFound(_) => "NOT_FOUND",
            Error::InvalidRequest(_) => "INVALID_REQUEST",
            Error::BadRequest(_) => "BAD_REQUEST",
            Error::ValidationError(_) => "VALIDATION_ERROR",
            Error::Conflict(_) => "CONFLICT",
            Error::ExternalServiceError { .. } => "EXTERNAL_SERVICE_ERROR",
            Error::InternalError(_) => "INTERNAL_ERROR",
            Error::CacheError(_) => "CACHE_ERROR",
            Error::InvalidEndpoint(_) => "INVALID_ENDPOINT",
            Error::NotImplemented(_) => "NOT_IMPLEMENTED",
        }
    }

    /// Returns the human-readable message for this error value.
    pub fn message(&self) -> (r: String)
        ensures
            r@ == self.message_spec(),
    {
        match self {
            Error::ServiceUnavailable(m) => concat_prefix("Service unavailable: ", m),
            Error::DiscoveryFailed(m) => concat_prefix("Service discovery failed: ", m),
            Error::SapiParseError(m) => concat_prefix("Failed to parse SAPI response: ", m),
            Error::InvalidUuid(m) => concat_prefix("Invalid UUID: ", m),
            Error::InvalidNetwork(m) => concat_prefix("Invalid network configuration: ", m),
            Error::InvalidVmState(m) => concat_prefix("Invalid VM state: ", m),
            Error::ConfigError(m) => concat_prefix("Configuration error: ", m),
            Error::HttpError(m) => concat_prefix("HTTP request failed: ", m),
            Error::Timeout(m) => concat_prefix("Timeout waiting for service: ", m),
            Error::NotFound(m) => concat_prefix("Not found: ", m),
            Error::InvalidRequest(m) => concat_prefix("Invalid request: ", m),
            Error::BadRequest(m) => concat_prefix("Bad request: ", m),
            Error::ValidationError(m) => concat_prefix("Validation error: ", m),
            Error::Conflict(m) => concat_prefix("Conflict: ", m),
            Error::ExternalServiceError { service, message } => {
                let mut out = concat_prefix("External service error: ", service);
                out.append(": ");
                out.append(message.as_str());
                out
            },
            Error::InternalError(m) => concat_prefix("Internal error: ", m),
            Error::CacheError(m) => concat_prefix("Endpoint cache error: ", m),
            Error::InvalidEndpoint(m) => concat_prefix("Invalid endpoint: ", m),
            Error::NotImplemented(m) => concat_prefix("Not implemented: ", m),
        }
    }

    /// Returns true if this error should be logged as a serious error.
    pub fn should_log(&self) -> (r: bool)
        ensures
            r == (self is InternalError || self is ConfigError || self is ExternalServiceError),
    {
        match self {
            Error::InternalError(_) => true,
            Error::ConfigError(_) => true,
            Error::ExternalServiceError { .. } => true,
            _ => false,
        }
    }

    /// Converts the error into an [`ErrorResponse`].
    pub fn into_error_response(self) -> (r: ErrorResponse)
        ensures
            r.error.code@ == self.error_code_spec(),
            r.error.message@ == self.message_spec(),
            r.error.details is None,
            r.request_id is None,
    {
        self.into_error_response_with_id(None)
    }

    /// Converts the error into an [`ErrorResponse`] with a request ID.
    pub fn into_error_response_with_id(self, request_id: Option<String>) -> (r: ErrorResponse)
        ensures
            r.error.code@ == self.error_code_spec(),
            r.error.message@ == self.message_spec(),
            r.error.details is None,
            r.request_id == request_id,
    {
        let code = self.error_code();
        let message = self.message();
        ErrorResponse {
            error: ErrorDetail { code: code.to_owned(), message, details: None },
            request_id,
        }
    }
}

impl Clone for Error {
    /// An exact copy of the error value.
    fn clone(&self) -> (res: Self)
        ensures
            res == *self,
    {
        match self {
            Error::ServiceUnavailable(m) => Error::ServiceUnavailable(m.clone()),
            Error::DiscoveryFailed(m) => Error::DiscoveryFailed(m.clone()),
            Error::SapiParseError(m) => Error::SapiParseError(m.clone()),
            Error::InvalidUuid(m) => Error::InvalidUuid(m.clone()),
            Error::InvalidNetwork(m) => Error::InvalidNetwork(m.clone()),
            Error::InvalidVmState(m) => Error::InvalidVmState(m.clone()),
            Error::ConfigError(m) => Error::ConfigError(m.clone()),
            Error::HttpError(m) => Error::HttpError(m.clone()),
            Error::Timeout(m) => Error::Timeout(m.clone()),
            Error::NotFound(m) => Error::NotFound(m.clone()),
            Error::InvalidRequest(m) => Error::InvalidRequest(m.clone()),
            Error::BadRequest(m) => Error::BadRequest(m.clone()),
            Error::ValidationError(m) => Error::ValidationError(m.clone()),
            Error::Conflict(m) => Error::Conflict(m.clone()),
            Error::ExternalServiceError { service, message } => Error::ExternalServiceError {
                service: service.clone(),
                message: message.clone(),
            },
            Error::InternalError(m) => Error::InternalError(m.clone()),
            Error::CacheError(m) => Error::CacheError(m.clone()),
            Error::InvalidEndpoint(m) => Error::InvalidEndpoint(m.clone()),
            Error::NotImplemented(m) => Error::NotImplemented(m.clone()),
        }
    }
}

/// A fresh string holding `prefix` followed by `rest`.
fn concat_prefix(prefix: &str, rest: &String) -> (r: String)
    ensures
        r@ == prefix@ + rest@,
{
    let mut out = prefix.to_owned();
    out.append(rest.as_str());
    out
}

/// Structured error response for hand-off to transport layers.
#[derive(Debug, Clone, PartialEq)]
pub struct ErrorResponse {
    /// Error details.
    pub error: ErrorDetail,
    /// Optional request ID for tracing.
    pub request_id: Option<String>,
}

/// Error detail structure.
#[derive(Debug, Clone, PartialEq)]
pub struct ErrorDetail {
    /// Error code for programmatic handling.
    pub code: String,
    /// Human-readable error message.
    pub message: String,
    /// Additional error details, as raw JSON text.
    pub details: Option<String>,
}

} // verus!
