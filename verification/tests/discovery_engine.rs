//! Scenario tests for the discovery engine: cache freshness, fallback
//! precedence, status bookkeeping and idempotent clearing.

use triton::config::ServiceDiscoveryConfig;
use triton::config::ServiceEndpointConfig;
use triton::config::ServiceEndpoints;
use triton::discovery::DiscoveryDecision;
use triton::discovery::DiscoveryEngine;
use triton::error::Error;

fn engine_with_ttl_300() -> DiscoveryEngine {
    let config = ServiceDiscoveryConfig::new().with_cache_ttl(300);
    DiscoveryEngine::new(&config)
}

fn endpoints() -> Vec<String> {
    vec!["http://vmapi.local:80".to_string()]
}

#[test]
fn cache_hit_within_ttl_and_refresh_after() {
    // With a 300 s TTL, a lookup 1 s after a successful refresh is a cache
    // hit; a lookup 301 s later asks the directory again.
    let mut engine = engine_with_ttl_300();
    let t0: u64 = 1_000_000;

    let step = engine.begin_discover("vmapi", t0);
    let key = match step {
        DiscoveryDecision::Refresh(key) => key,
        _ => panic!("expected a refresh on the first lookup"),
    };
    assert_eq!(key, "vmapi");
    engine.note_refresh_success(&key, &endpoints(), t0);

    match engine.begin_discover("vmapi", t0 + 1_000) {
        DiscoveryDecision::Resolved(found) => assert_eq!(found, endpoints()),
        _ => panic!("expected a cache hit one second after the refresh"),
    }

    match engine.begin_discover("vmapi", t0 + 301_000) {
        DiscoveryDecision::Refresh(key) => assert_eq!(key, "vmapi"),
        _ => panic!("expected a fresh directory query after the TTL"),
    }
}

#[test]
fn fallback_precedence_when_disabled() {
    // With discovery disabled and a fallback entry for vmapi, the lookup
    // returns exactly the fallback endpoints without any directory call.
    let config = ServiceDiscoveryConfig {
        enabled: false,
        cache_ttl_secs: 1,
        timeout_secs: 1,
        retry_attempts: 0,
        services: ServiceEndpoints::new()
            .with_vmapi(ServiceEndpointConfig::new("http://fallback:80".to_string()).unwrap()),
    };
    let mut engine = DiscoveryEngine::new(&config);

    match engine.begin_discover("vmapi", 0) {
        DiscoveryDecision::Resolved(found) => {
            assert_eq!(found, vec!["http://fallback:80".to_string()]);
        }
        _ => panic!("expected the fallback endpoints"),
    }

    match engine.begin_discover("cnapi", 0) {
        DiscoveryDecision::Failed(e) => assert!(matches!(e, Error::DiscoveryFailed(_))),
        _ => panic!("expected a failure without a fallback"),
    }
}

#[test]
fn status_counts_one_miss_then_one_hit() {
    // After one cache miss followed by one cache hit for the same service,
    // the status shows one hit and one miss.
    let mut engine = engine_with_ttl_300();
    let t0: u64 = 5_000;

    match engine.begin_discover("vmapi", t0) {
        DiscoveryDecision::Refresh(key) => {
            engine.note_refresh_success(&key, &endpoints(), t0);
        }
        _ => panic!("expected a refresh"),
    }
    match engine.begin_discover("vmapi", t0 + 10) {
        DiscoveryDecision::Resolved(_) => {}
        _ => panic!("expected a hit"),
    }

    let status = engine.get_status();
    assert_eq!(status.cache_hits, 1);
    assert_eq!(status.cache_misses, 1);
}

#[test]
fn clear_cache_twice_equals_once() {
    // Clearing the cache twice in a row is equivalent to clearing it once:
    // the counters reach and stay at zero, and subsequent lookups are
    // fresh misses.
    let mut engine = engine_with_ttl_300();
    let t0: u64 = 42_000;
    match engine.begin_discover("vmapi", t0) {
        DiscoveryDecision::Refresh(key) => engine.note_refresh_success(&key, &endpoints(), t0),
        _ => panic!("expected a refresh"),
    }
    engine.begin_discover("vmapi", t0 + 1);

    engine.clear_cache();
    let once = engine.get_status();
    assert_eq!(once.cache_hits, 0);
    assert_eq!(once.cache_misses, 0);

    engine.clear_cache();
    let twice = engine.get_status();
    assert_eq!(once, twice);

    match engine.begin_discover("vmapi", t0 + 2) {
        DiscoveryDecision::Refresh(_) => {}
        _ => panic!("a cleared cache treats lookups as fresh misses"),
    }
}

#[test]
fn refresh_failure_records_error_and_fallback_answers() {
    let config = ServiceDiscoveryConfig {
        enabled: true,
        cache_ttl_secs: 300,
        timeout_secs: 1,
        retry_attempts: 0,
        services: ServiceEndpoints::new()
            .with_vmapi(ServiceEndpointConfig::new("http://fallback:80".to_string()).unwrap()),
    };
    let mut engine = DiscoveryEngine::new(&config);
    let t0: u64 = 9_000;

    let key = match engine.begin_discover("VMAPI", t0) {
        DiscoveryDecision::Refresh(key) => key,
        _ => panic!("expected a refresh"),
    };
    assert_eq!(key, "vmapi");

    let err = Error::ServiceUnavailable("directory down".to_string());
    engine.note_refresh_failure(&key, Some(&err), t0);
    let status = engine.get_status();
    assert_eq!(status.failed_services, vec!["vmapi"]);
    assert!(status.last_error.is_some());

    // The fallback still answers the lookup, and the failure stays
    // visible in the status.
    let found = engine.conclude_failure(&key, Some(err)).unwrap();
    assert_eq!(found, vec!["http://fallback:80".to_string()]);
    assert_eq!(engine.get_status().failed_services, vec!["vmapi"]);
}

#[test]
fn conclude_failure_surfaces_the_last_error() {
    let mut engine = engine_with_ttl_300();
    let key = match engine.begin_discover("cnapi", 0) {
        DiscoveryDecision::Refresh(key) => key,
        _ => panic!("expected a refresh"),
    };
    let err = Error::Timeout("directory slow".to_string());
    engine.note_refresh_failure(&key, Some(&err), 0);
    let surfaced = engine.conclude_failure(&key, Some(err)).unwrap_err();
    assert!(matches!(surfaced, Error::Timeout(_)));

    let synthesized = engine.conclude_failure(&key, None).unwrap_err();
    assert_eq!(
        synthesized,
        Error::DiscoveryFailed("Failed to discover endpoints for `cnapi`".to_string())
    );
}

#[test]
fn refresh_success_clears_failure_record() {
    let mut engine = engine_with_ttl_300();
    let key = match engine.begin_discover("napi", 100) {
        DiscoveryDecision::Refresh(key) => key,
        _ => panic!("expected a refresh"),
    };
    let err = Error::ServiceUnavailable("down".to_string());
    engine.note_refresh_failure(&key, Some(&err), 100);
    assert_eq!(engine.get_status().failed_services, vec!["napi"]);

    engine.note_refresh_success(&key, &endpoints(), 200);
    let status = engine.get_status();
    assert!(status.failed_services.is_empty());
    assert!(status.last_error.is_none());
    assert_eq!(status.discovered_services, 1);
}
