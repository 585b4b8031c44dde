//! Scenario tests for the retry executor decision core: the retry
//! boundary and the no-retry-on-client-error rule.

use triton::client::is_retryable_error;
use triton::client::should_retry;
use triton::client::transport_error;
use triton::client::RetryDriver;
use triton::client::RetryStep;
use triton::client::TransportFailure;
use triton::error::Error;
use triton::retry::RetryPolicy;
use triton::vmapi::map_status_to_error;

#[test]
fn executor_retries_exactly_max_retries_times_on_503() {
    // An executor with max_retries = 3 against a backend that always
    // answers 503 performs exactly 4 total attempts, then surfaces an
    // unavailable-service error.
    let policy = RetryPolicy::new().with_max_retries(3);
    let mut driver = RetryDriver::new(policy);
    let mut attempts: u32 = 0;
    let outcome = loop {
        attempts += 1;
        // Every attempt comes back with status 503.
        let status: u16 = 503;
        assert!(should_retry(status));
        let error = map_status_to_error(status, "overloaded".to_string());
        match driver.on_retryable_failure(error) {
            RetryStep::Retry { delay_ms } => {
                assert_eq!(delay_ms, policy.delay_for_attempt(attempts));
            }
            RetryStep::GiveUp(error) => break error,
        }
    };
    assert_eq!(attempts, 4);
    assert!(matches!(outcome, Error::ServiceUnavailable(_)));
}

#[test]
fn executor_does_not_retry_a_404() {
    // A backend answering 404 on the first attempt causes exactly one
    // attempt and an immediate missing-resource error.
    let policy = RetryPolicy::new().with_max_retries(3);
    let driver = RetryDriver::new(policy);
    let mut attempts: u32 = 0;

    attempts += 1;
    let status: u16 = 404;
    let error = map_status_to_error(status, "missing".to_string());
    assert!(!should_retry(status));
    // The executor returns terminal errors at once; the driver never sees
    // them and no further attempt happens.
    assert!(matches!(error, Error::NotFound(_)));
    assert_eq!(attempts, 1);
    assert_eq!(driver.attempts_failed, 0);
}

#[test]
fn transport_failures_map_and_classify() {
    let e = transport_error(TransportFailure::TimedOut, "slow".to_string());
    assert!(matches!(e, Error::Timeout(_)));
    assert!(is_retryable_error(&e));

    let e = transport_error(TransportFailure::ConnectFailed, "refused".to_string());
    assert!(matches!(e, Error::ServiceUnavailable(_)));
    assert!(is_retryable_error(&e));

    let e = transport_error(TransportFailure::Other, "odd".to_string());
    assert!(matches!(e, Error::HttpError(_)));
    assert!(is_retryable_error(&e));

    assert!(!is_retryable_error(&Error::NotFound("x".to_string())));
}

#[test]
fn give_up_error_prefers_the_recorded_failure() {
    let mut driver = RetryDriver::new(RetryPolicy::new().with_max_retries(1));
    driver.on_retryable_failure(Error::Timeout("slow".to_string()));
    let err = driver.give_up_error("fallback".to_string());
    assert!(matches!(err, Error::Timeout(_)));

    let empty = RetryDriver::new(RetryPolicy::new());
    let err = empty.give_up_error("vmapi request failed after retries".to_string());
    assert_eq!(
        err,
        Error::ServiceUnavailable("vmapi request failed after retries".to_string())
    );
}

#[test]
fn retryable_status_set_is_exact() {
    assert!(should_retry(429));
    assert!(should_retry(502));
    assert!(should_retry(503));
    assert!(should_retry(504));
    assert!(should_retry(500));
    assert!(should_retry(599));
    assert!(!should_retry(200));
    assert!(!should_retry(400));
    assert!(!should_retry(401));
    assert!(!should_retry(404));
    assert!(!should_retry(409));
}
