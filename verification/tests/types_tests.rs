//! Tests for the service enumeration and endpoint metadata types.

use triton::types::EndpointDetails;
use triton::types::HealthCheckConfig;
use triton::types::TransportType;
use triton::types::TritonService;
use triton::types::DEFAULT_HTTP_PORT;
use triton::types::DEFAULT_LDAPS_PORT;

#[test]
fn test_triton_service_name() {
    assert_eq!(TritonService::Vmapi.name(), "vmapi");
    assert_eq!(TritonService::Cnapi.name(), "cnapi");
    assert_eq!(TritonService::Napi.name(), "napi");
    assert_eq!(TritonService::Imgapi.name(), "imgapi");
    assert_eq!(TritonService::Papi.name(), "papi");
    assert_eq!(TritonService::Fwapi.name(), "fwapi");
    assert_eq!(TritonService::Sapi.name(), "sapi");
    assert_eq!(TritonService::Ufds.name(), "ufds");
    assert_eq!(TritonService::Amon.name(), "amon");
    assert_eq!(TritonService::Workflow.name(), "workflow");
}

#[test]
fn test_triton_service_all() {
    let all = TritonService::all();
    assert_eq!(all.len(), 10);
    assert!(all.contains(&TritonService::Vmapi));
    assert!(all.contains(&TritonService::Workflow));
}

#[test]
fn test_triton_service_default_port() {
    assert_eq!(TritonService::Vmapi.default_port(), DEFAULT_HTTP_PORT);
    assert_eq!(TritonService::Ufds.default_port(), DEFAULT_LDAPS_PORT);
}

#[test]
fn test_triton_service_transport_type() {
    assert_eq!(TritonService::Vmapi.transport_type(), TransportType::Tcp);
}

#[test]
fn test_triton_service_from_str() {
    assert_eq!("vmapi".parse::<TritonService>().unwrap(), TritonService::Vmapi);
    assert_eq!("VMAPI".parse::<TritonService>().unwrap(), TritonService::Vmapi);
    assert_eq!("cnapi".parse::<TritonService>().unwrap(), TritonService::Cnapi);
    assert_eq!("workflow".parse::<TritonService>().unwrap(), TritonService::Workflow);

    assert!("invalid".parse::<TritonService>().is_err());
}

#[test]
fn test_triton_service_display() {
    assert_eq!(TritonService::Vmapi.name(), "vmapi");
    assert_eq!(TritonService::Workflow.name(), "workflow");
}

#[test]
fn test_transport_type_eq() {
    assert_eq!(TransportType::Http, TransportType::Http);
    assert_ne!(TransportType::Http, TransportType::Https);
}

#[test]
fn test_health_check_config_default() {
    let config = HealthCheckConfig::default();
    assert!(!config.enabled);
    assert_eq!(config.interval_secs, 30);
    assert_eq!(config.timeout_secs, 5);
    assert!(config.path.is_none());
}

#[test]
fn test_endpoint_details_default() {
    let details = EndpointDetails::default();
    assert!(details.weight.is_none());
    assert!(details.priority.is_none());
    assert!(details.region.is_none());
    assert!(details.zone.is_none());
    assert!(details.tags.is_empty());
}
