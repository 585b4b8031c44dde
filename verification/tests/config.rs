//! Tests for client and discovery configuration.

use triton::config::ServiceDiscoveryConfig;
use triton::config::ServiceEndpointConfig;
use triton::config::ServiceEndpoints;
use triton::config::TritonClientConfig;

#[test]
fn test_triton_client_config_new() {
    let config = TritonClientConfig::new("https://sapi.example.com".to_string()).unwrap();
    assert_eq!(config.sapi_url, "https://sapi.example.com");
    assert!(config.tls_verify);
    assert_eq!(config.request_timeout_secs, 30);
    assert_eq!(config.max_retries, 3);
}

#[test]
fn test_triton_client_config_invalid_url() {
    let result = TritonClientConfig::new("not-a-url".to_string());
    assert!(result.is_err());
}

#[test]
fn test_triton_client_config_builder() {
    let config = TritonClientConfig::new("https://sapi.example.com".to_string())
        .unwrap()
        .with_api_key("test-key".to_string())
        .with_tls_verify(false)
        .with_timeout(60)
        .with_max_retries(5);

    assert_eq!(config.sapi_key, Some("test-key".to_string()));
    assert!(!config.tls_verify);
    assert_eq!(config.request_timeout_secs, 60);
    assert_eq!(config.max_retries, 5);
}

#[test]
fn test_triton_client_config_default() {
    let config = TritonClientConfig::default();
    assert_eq!(config.sapi_url, "http://localhost:8080");
    assert!(config.sapi_key.is_none());
    assert!(config.tls_verify);
}

#[test]
fn test_triton_client_config_timeout() {
    let config = TritonClientConfig::new("https://sapi.example.com".to_string())
        .unwrap()
        .with_timeout(45);
    assert_eq!(config.timeout_ms(), 45_000);
}

#[test]
fn test_service_discovery_config_new() {
    let config = ServiceDiscoveryConfig::new();
    assert!(config.enabled);
    assert_eq!(config.cache_ttl_secs, 300);
    assert_eq!(config.timeout_secs, 5);
    assert_eq!(config.retry_attempts, 3);
}

#[test]
fn test_service_discovery_config_disabled() {
    let config = ServiceDiscoveryConfig::new().disabled();
    assert!(!config.enabled);
}

#[test]
fn test_service_discovery_config_builder() {
    let config = ServiceDiscoveryConfig::new()
        .with_cache_ttl(600)
        .with_timeout(10)
        .with_retry_attempts(5);

    assert_eq!(config.cache_ttl_secs, 600);
    assert_eq!(config.timeout_secs, 10);
    assert_eq!(config.retry_attempts, 5);
}

#[test]
fn test_service_discovery_config_durations() {
    let config = ServiceDiscoveryConfig::new().with_cache_ttl(600).with_timeout(10);

    assert_eq!(config.cache_ttl_ms(), 600_000);
    assert_eq!(config.timeout_ms(), 10_000);
}

#[test]
fn test_service_endpoints_new() {
    let endpoints = ServiceEndpoints::new();
    assert!(endpoints.vmapi.is_none());
    assert!(endpoints.cnapi.is_none());
    assert!(endpoints.napi.is_none());
}

#[test]
fn test_service_endpoints_builder() {
    let vmapi = ServiceEndpointConfig::new("http://vmapi:80".to_string()).unwrap();
    let cnapi = ServiceEndpointConfig::new("http://cnapi:80".to_string()).unwrap();

    let endpoints = ServiceEndpoints::new().with_vmapi(vmapi).with_cnapi(cnapi);

    assert!(endpoints.vmapi.is_some());
    assert!(endpoints.cnapi.is_some());
    assert!(endpoints.napi.is_none());
}

#[test]
fn test_service_endpoint_config_invalid_url() {
    let result = ServiceEndpointConfig::new("not-a-url".to_string());
    assert!(result.is_err());
}

#[test]
fn test_service_endpoint_config_with_timeout() {
    let config = ServiceEndpointConfig::new("http://service:8080".to_string())
        .unwrap()
        .with_timeout(60);

    assert_eq!(config.timeout_override_secs, Some(60));
    assert_eq!(config.timeout_ms(), Some(60_000));
}

#[test]
fn test_config_validation_timeout_range() {
    let mut config = TritonClientConfig::default();
    config.request_timeout_secs = 0;
    assert!(config.validate().is_err());

    config.request_timeout_secs = 301;
    assert!(config.validate().is_err());

    config.request_timeout_secs = 30;
    assert!(config.validate().is_ok());
}

#[test]
fn test_config_validation_retries_range() {
    let mut config = TritonClientConfig::default();
    config.max_retries = 11;
    assert!(config.validate().is_err());

    config.max_retries = 3;
    assert!(config.validate().is_ok());
}

#[test]
fn test_discovery_config_validation_cache_ttl_range() {
    let mut config = ServiceDiscoveryConfig::default();
    config.cache_ttl_secs = 0;
    assert!(config.validate().is_err());

    config.cache_ttl_secs = 3601;
    assert!(config.validate().is_err());

    config.cache_ttl_secs = 300;
    assert!(config.validate().is_ok());
}

#[test]
fn test_discovery_config_validation_timeout_range() {
    let mut config = ServiceDiscoveryConfig::default();
    config.timeout_secs = 0;
    assert!(config.validate().is_err());

    config.timeout_secs = 61;
    assert!(config.validate().is_err());

    config.timeout_secs = 5;
    assert!(config.validate().is_ok());
}

#[test]
fn test_service_endpoint_config_new_valid() {
    let config = ServiceEndpointConfig::new("http://service:8080".to_string()).unwrap();
    assert_eq!(config.url, "http://service:8080");
    assert!(config.timeout_override_secs.is_none());
}
