//! Tests for the retry policy and executor-side configuration.

use triton::client::ClientConfig;
use triton::client::AMON_DEFAULT_TIMEOUT;
use triton::client::CNAPI_DEFAULT_TIMEOUT;
use triton::client::DEFAULT_POOL_IDLE_TIMEOUT;
use triton::client::DEFAULT_POOL_MAX_IDLE_PER_HOST;
use triton::client::FWAPI_DEFAULT_TIMEOUT;
use triton::client::IMGAPI_DEFAULT_TIMEOUT;
use triton::client::NAPI_DEFAULT_TIMEOUT;
use triton::client::PAPI_DEFAULT_TIMEOUT;
use triton::client::SAPI_DEFAULT_TIMEOUT;
use triton::client::UFDS_DEFAULT_TIMEOUT;
use triton::client::VMAPI_DEFAULT_TIMEOUT;
use triton::client::WORKFLOW_DEFAULT_TIMEOUT;
use triton::retry::RetryPolicy;
use triton::retry::DEFAULT_MAX_RETRIES;
use triton::retry::DEFAULT_RETRY_DELAY_MS;
use triton::retry::DEFAULT_RETRY_MAX_DELAY_MS;

#[test]
fn test_timeout_constants() {
    assert_eq!(VMAPI_DEFAULT_TIMEOUT, 30);
    assert_eq!(CNAPI_DEFAULT_TIMEOUT, 30);
    assert_eq!(NAPI_DEFAULT_TIMEOUT, 20);
    assert_eq!(IMGAPI_DEFAULT_TIMEOUT, 60);
    assert_eq!(PAPI_DEFAULT_TIMEOUT, 20);
    assert_eq!(FWAPI_DEFAULT_TIMEOUT, 20);
    assert_eq!(SAPI_DEFAULT_TIMEOUT, 20);
    assert_eq!(UFDS_DEFAULT_TIMEOUT, 15);
    assert_eq!(AMON_DEFAULT_TIMEOUT, 20);
    assert_eq!(WORKFLOW_DEFAULT_TIMEOUT, 30);
}

#[test]
fn test_retry_policy_new() {
    let policy = RetryPolicy::new();
    assert_eq!(policy.max_retries, DEFAULT_MAX_RETRIES);
    assert_eq!(policy.initial_delay_ms, DEFAULT_RETRY_DELAY_MS);
    assert_eq!(policy.max_delay_ms, DEFAULT_RETRY_MAX_DELAY_MS);
    assert_eq!(policy.backoff_multiplier, 2);
}

#[test]
fn test_retry_policy_no_retry() {
    let policy = RetryPolicy::no_retry();
    assert_eq!(policy.max_retries, 0);
    assert!(!policy.has_retries());
}

#[test]
fn test_retry_policy_builder() {
    let policy = RetryPolicy::new()
        .with_max_retries(5)
        .with_initial_delay_ms(100)
        .with_max_delay_ms(10_000)
        .with_backoff_multiplier(3);

    assert_eq!(policy.max_retries, 5);
    assert_eq!(policy.initial_delay_ms, 100);
    assert_eq!(policy.max_delay_ms, 10_000);
    assert_eq!(policy.backoff_multiplier, 3);
}

#[test]
fn test_retry_policy_delay_calculation() {
    let policy = RetryPolicy::new();

    // Attempt 0 should return 0
    assert_eq!(policy.delay_for_attempt(0), 0);

    // Attempt 1: initial_delay * 2^0 = 500ms
    assert_eq!(policy.delay_for_attempt(1), 500);

    // Attempt 2: initial_delay * 2^1 = 1000ms
    assert_eq!(policy.delay_for_attempt(2), 1000);

    // Attempt 3: initial_delay * 2^2 = 2000ms
    assert_eq!(policy.delay_for_attempt(3), 2000);

    // Attempt 4: initial_delay * 2^3 = 4000ms
    assert_eq!(policy.delay_for_attempt(4), 4000);

    // Attempt 5: would be 8000ms but capped at max_delay (5000ms)
    assert_eq!(policy.delay_for_attempt(5), 5000);
}

#[test]
fn test_retry_policy_has_retries() {
    assert!(RetryPolicy::new().has_retries());
    assert!(!RetryPolicy::no_retry().has_retries());
}

#[test]
fn test_client_config_new() {
    let config = ClientConfig::new();
    assert_eq!(config.timeout_ms, 30_000);
    assert_eq!(config.retry_policy.max_retries, DEFAULT_MAX_RETRIES);
    assert!(config.enable_logging);
    assert!(config.enable_compression);
}

#[test]
fn test_client_config_default() {
    let config = ClientConfig::default();
    assert_eq!(config.timeout_ms, 30_000);
}

#[test]
fn test_client_config_builder() {
    let config = ClientConfig::new()
        .with_timeout_ms(60_000)
        .with_retry_policy(RetryPolicy::no_retry())
        .with_pool_idle_timeout(120)
        .with_pool_max_idle(20)
        .with_logging(false)
        .with_compression(false);

    assert_eq!(config.timeout_ms, 60_000);
    assert_eq!(config.retry_policy.max_retries, 0);
    assert_eq!(config.pool_idle_timeout_secs, 120);
    assert_eq!(config.pool_max_idle_per_host, 20);
    assert!(!config.enable_logging);
    assert!(!config.enable_compression);
}

#[test]
fn test_client_config_without_retries() {
    let config = ClientConfig::new().without_retries();
    assert_eq!(config.retry_policy.max_retries, 0);
}

#[test]
fn test_retry_policy_default() {
    let policy = RetryPolicy::default();
    assert_eq!(policy.max_retries, DEFAULT_MAX_RETRIES);
}

#[test]
fn test_retry_policy_exponential_backoff() {
    let policy = RetryPolicy::new()
        .with_initial_delay_ms(100)
        .with_backoff_multiplier(2)
        .with_max_delay_ms(5_000);

    // Test exponential growth
    assert_eq!(policy.delay_for_attempt(1), 100);
    assert_eq!(policy.delay_for_attempt(2), 200);
    assert_eq!(policy.delay_for_attempt(3), 400);
    assert_eq!(policy.delay_for_attempt(4), 800);
    assert_eq!(policy.delay_for_attempt(5), 1600);
    assert_eq!(policy.delay_for_attempt(6), 3200);

    // Should cap at max_delay (5000ms)
    assert_eq!(policy.delay_for_attempt(7), 5000);
    assert_eq!(policy.delay_for_attempt(10), 5000);
}

#[test]
fn test_pool_constants() {
    assert_eq!(DEFAULT_POOL_IDLE_TIMEOUT, 90);
    assert_eq!(DEFAULT_POOL_MAX_IDLE_PER_HOST, 10);
}

#[test]
fn test_retry_constants() {
    assert_eq!(DEFAULT_MAX_RETRIES, 3);
    assert_eq!(DEFAULT_RETRY_DELAY_MS, 500);
    assert_eq!(DEFAULT_RETRY_MAX_DELAY_MS, 5000);
}

#[test]
fn backoff_is_monotonic_up_to_the_cap() {
    let policy = RetryPolicy::new()
        .with_initial_delay_ms(70)
        .with_backoff_multiplier(3)
        .with_max_delay_ms(4_000);
    let mut previous: u64 = policy.delay_for_attempt(1);
    for attempt in 2..12u32 {
        let delay = policy.delay_for_attempt(attempt);
        assert!(delay >= previous);
        assert!(delay <= policy.max_delay_ms);
        previous = delay;
    }
    assert_eq!(policy.delay_for_attempt(0), 0);
}
