//! Tests for endpoint extraction from directory instance records.

use triton::error::Error;
use triton::sapi::classify_sapi_error;
use triton::sapi::extract_instance_endpoints;
use triton::sapi::resolve_endpoints;
use triton::sapi::Instance;
use triton::sapi::InstanceQuery;
use triton::sapi::ServiceQuery;
use triton::types::TritonService;
use triton::uuid::InstanceUuid;
use triton::uuid::ServiceUuid;

fn bare_instance() -> Instance {
    Instance {
        uuid: InstanceUuid::new_v4(),
        service_uuid: ServiceUuid::new_v4(),
        application_uuid: None,
        name: None,
        service_name: None,
        version: None,
        hostname: None,
        server_uuid: None,
        params: Vec::new(),
        metadata: Vec::new(),
        manifests: None,
        master: false,
        state: None,
        job_uuid: None,
        instance_type: None,
        created_at: None,
        updated_at: None,
    }
}

#[test]
fn hostname_synthesis_uses_protocol_and_port() {
    let mut instance = bare_instance();
    instance.hostname = Some("vmapi.local".to_string());
    let found = extract_instance_endpoints(TritonService::Vmapi, &instance);
    assert_eq!(found, vec!["http://vmapi.local:80".to_string()]);

    let found = extract_instance_endpoints(TritonService::Ufds, &instance);
    assert_eq!(found, vec!["ldaps://vmapi.local:636".to_string()]);
}

#[test]
fn explicit_urls_take_precedence_over_hostname() {
    let mut instance = bare_instance();
    instance.hostname = Some("ignored.local".to_string());
    instance.metadata.push(("vmapi_url".to_string(), "http://b:80".to_string()));
    instance.params.push(("url".to_string(), "http://a:80".to_string()));
    let found = extract_instance_endpoints(TritonService::Vmapi, &instance);
    assert_eq!(found, vec!["http://a:80".to_string(), "http://b:80".to_string()]);
}

#[test]
fn candidates_come_out_sorted_and_deduplicated() {
    let mut instance = bare_instance();
    instance.metadata.push(("vmapi_url".to_string(), "http://z:80".to_string()));
    instance.metadata.push(("vmapi_endpoint".to_string(), "http://a:80".to_string()));
    instance.params.push(("url".to_string(), "http://z:80".to_string()));
    let found = extract_instance_endpoints(TritonService::Vmapi, &instance);
    assert_eq!(found, vec!["http://a:80".to_string(), "http://z:80".to_string()]);
}

#[test]
fn resolve_endpoints_reports_missing_service_and_empty_instances() {
    let err = resolve_endpoints(TritonService::Vmapi, false, &Vec::new()).unwrap_err();
    assert_eq!(err, Error::NotFound("SAPI service `vmapi` not found".to_string()));

    let err = resolve_endpoints(TritonService::Vmapi, true, &Vec::new()).unwrap_err();
    assert_eq!(
        err,
        Error::DiscoveryFailed("No endpoints discovered for service `vmapi`".to_string())
    );

    let mut instance = bare_instance();
    instance.hostname = Some("vmapi.local".to_string());
    let found = resolve_endpoints(TritonService::Vmapi, true, &vec![instance]).unwrap();
    assert_eq!(found, vec!["http://vmapi.local:80".to_string()]);
}

#[test]
fn sapi_status_classification() {
    let (e, retry) = classify_sapi_error(404, "gone".to_string());
    assert_eq!(e, Error::NotFound("gone".to_string()));
    assert!(!retry);

    let (e, retry) = classify_sapi_error(401, "denied".to_string());
    assert!(matches!(e, Error::InvalidRequest(_)));
    assert!(!retry);

    let (e, retry) = classify_sapi_error(503, "busy".to_string());
    assert_eq!(e, Error::ServiceUnavailable("SAPI temporarily unavailable: busy".to_string()));
    assert!(retry);

    let (e, retry) = classify_sapi_error(500, "boom".to_string());
    assert_eq!(e, Error::ServiceUnavailable("SAPI server error 500: boom".to_string()));
    assert!(retry);

    let (e, retry) = classify_sapi_error(418, "teapot".to_string());
    assert_eq!(e, Error::HttpError("SAPI error 418: teapot".to_string()));
    assert!(!retry);
}

#[test]
fn query_builders_produce_expected_pairs() {
    let query = ServiceQuery::new().with_name("vmapi".to_string());
    assert_eq!(query.to_params(), vec![("name", "vmapi".to_string())]);

    let service_uuid = ServiceUuid::new_v4();
    let query = InstanceQuery::new().with_service_uuid(service_uuid).with_master_details(true);
    assert_eq!(
        query.to_params(),
        vec![
            ("service_uuid", service_uuid.to_uuid_string()),
            ("master_details", "true".to_string()),
        ]
    );
}
