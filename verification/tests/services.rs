//! Tests for discovery status, credentials, and the telemetry proxy.

use triton::error::Error;
use triton::services::DiscoveryStatus;
use triton::services::ServiceDiscovery;
use triton::services::ServiceDiscoveryProxy;
use triton::services::UfdsCredentials;
use triton::types::TritonService;
use triton::uuid::AppUuid;

#[test]
fn test_ufds_credentials_new() {
    let uuid = AppUuid::new_v4();
    let creds = UfdsCredentials::new(
        "cn=admin,dc=example,dc=com".to_string(),
        "secret".to_string(),
        uuid,
    );

    assert_eq!(creds.admin_login, "cn=admin,dc=example,dc=com");
    assert_eq!(creds.admin_password, "secret");
    assert_eq!(creds.application_uuid, uuid);
}

#[test]
fn test_ufds_credentials_accessors() {
    let uuid = AppUuid::new_v4();
    let creds = UfdsCredentials::new(
        "cn=admin,dc=example,dc=com".to_string(),
        "secret".to_string(),
        uuid,
    );

    assert_eq!(creds.bind_dn(), "cn=admin,dc=example,dc=com");
    assert_eq!(creds.bind_password(), "secret");
    assert_eq!(creds.app_uuid(), &uuid);
}

#[test]
fn test_discovery_status_default() {
    let status = DiscoveryStatus::default();
    assert!(status.last_discovery_at.is_none());
    assert_eq!(status.discovered_services, 0);
}

#[test]
fn test_discovery_status_with_success() {
    let status = DiscoveryStatus::new().with_success(5);
    assert!(status.last_discovery_at.is_some());
    assert!(status.last_success_at.is_some());
    assert_eq!(status.discovered_services, 5);
    assert!(status.last_error.is_none());
}

#[test]
fn test_discovery_status_with_error() {
    let status =
        DiscoveryStatus::new().with_error("Test error".to_string(), Some("vmapi".to_string()));
    assert!(status.last_discovery_at.is_some());
    assert_eq!(status.last_error, Some("Test error".to_string()));
    assert_eq!(status.failed_services, vec!["vmapi"]);
}

#[test]
fn with_error_does_not_duplicate_a_failed_service() {
    let status = DiscoveryStatus::new()
        .with_error("first".to_string(), Some("vmapi".to_string()))
        .with_error("second".to_string(), Some("vmapi".to_string()))
        .with_error("third".to_string(), Some("cnapi".to_string()));
    assert_eq!(status.failed_services, vec!["vmapi", "cnapi"]);
    assert_eq!(status.last_error, Some("third".to_string()));
}

#[test]
fn test_discovery_status_cache_stats() {
    let status = DiscoveryStatus::new().with_cache_stats(10, 5);
    assert_eq!(status.cache_hits, 10);
    assert_eq!(status.cache_misses, 5);
}

#[test]
fn test_discovery_status_is_healthy() {
    let healthy = DiscoveryStatus::new().with_success(5);
    assert!(healthy.is_healthy());

    let unhealthy = DiscoveryStatus::new().with_error("Error".to_string(), None);
    assert!(!unhealthy.is_healthy());

    let no_services = DiscoveryStatus::new();
    assert!(!no_services.is_healthy());
}

#[test]
fn test_discovery_status_time_tracking() {
    let status = DiscoveryStatus::new().with_success(5);

    // Should have timestamps
    assert!(status.time_since_last_success().is_some());
    assert!(status.time_since_last_attempt().is_some());

    // Empty status should have None
    let empty = DiscoveryStatus::new();
    assert!(empty.time_since_last_success().is_none());
    assert!(empty.time_since_last_attempt().is_none());
}

#[test]
fn test_discovery_status_builder_chain() {
    let status = DiscoveryStatus::new().with_success(10).with_cache_stats(50, 10);

    assert_eq!(status.discovered_services, 10);
    assert_eq!(status.cache_hits, 50);
    assert_eq!(status.cache_misses, 10);
    assert!(status.is_healthy());
}

/// A discovery source with a fixed answer, for exercising the proxy.
struct StaticSource {
    endpoints: Vec<String>,
    fail: bool,
}

impl ServiceDiscovery for StaticSource {
    fn discover_service(&mut self, _service_name: &str) -> Result<Vec<String>, Error> {
        if self.fail {
            Err(Error::DiscoveryFailed("static source down".to_string()))
        } else {
            Ok(self.endpoints.clone())
        }
    }

    fn discover_all_services(&mut self) -> Result<Vec<String>, Error> {
        self.discover_service("all")
    }

    fn get_status(&self) -> triton::services::DiscoveryStatus {
        DiscoveryStatus::new()
    }

    fn clear_cache(&mut self) {}

    fn is_service_available(&mut self, service_name: &str) -> bool {
        self.discover_service(service_name).is_ok()
    }
}

#[test]
fn proxy_records_success_count() {
    let inner = StaticSource { endpoints: vec!["http://imgapi:80".to_string()], fail: false };
    let mut proxy = ServiceDiscoveryProxy::for_service(inner, TritonService::Imgapi);
    let endpoints = proxy.discover_service("imgapi").unwrap();
    assert_eq!(endpoints, vec!["http://imgapi:80"]);

    let status = proxy.get_status();
    assert_eq!(status.discovered_services, 1);
    assert!(status.last_error.is_none());
}

#[test]
fn proxy_records_failure_message() {
    let inner = StaticSource { endpoints: Vec::new(), fail: true };
    let mut proxy = ServiceDiscoveryProxy::for_service(inner, TritonService::Vmapi);
    let result = proxy.discover_service("vmapi");
    assert!(result.is_err());

    let status = proxy.get_status();
    assert_eq!(
        status.last_error,
        Some("Service discovery failed: static source down".to_string())
    );
}

#[test]
fn proxy_clear_cache_resets_only_counters() {
    let inner = StaticSource { endpoints: vec!["http://vmapi:80".to_string()], fail: false };
    let mut proxy = ServiceDiscoveryProxy::for_service(inner, TritonService::Vmapi);
    proxy.discover_service("vmapi").unwrap();
    proxy.clear_cache();
    let status = proxy.get_status();
    assert_eq!(status.cache_hits, 0);
    assert_eq!(status.cache_misses, 0);
    assert_eq!(status.discovered_services, 1);
}

#[test]
fn proxy_service_name_is_fixed() {
    let inner = StaticSource { endpoints: Vec::new(), fail: false };
    let proxy = ServiceDiscoveryProxy::for_service(inner, TritonService::Napi);
    assert_eq!(proxy.service_name(), "napi");
}
