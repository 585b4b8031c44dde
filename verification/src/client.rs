//! Executor-side configuration and the attempt-by-attempt retry driver.
//!
//! A request executor issues one logical operation against a fixed base
//! endpoint and retries transient failures according to a
//! [`RetryPolicy`](crate::retry::RetryPolicy).  The decisions of that loop —
//! which failures are retryable, how long to wait, when to give up and with
//! which error — live here as verified functions; the transport that sends
//! bytes over the network drives them from outside.

use vstd::prelude::*;

use crate::error::Error;
use crate::retry::RetryPolicy;

verus! {

/// Default timeout for VMAPI requests, in seconds.
pub const VMAPI_DEFAULT_TIMEOUT: u64 = 30;

/// Default timeout for CNAPI requests, in seconds.
pub const CNAPI_DEFAULT_TIMEOUT: u64 = 30;

/// Default timeout for NAPI requests, in seconds.
pub const NAPI_DEFAULT_TIMEOUT: u64 = 20;

/// Default timeout for IMGAPI requests, in seconds (larger for image
/// operations).
pub const IMGAPI_DEFAULT_TIMEOUT: u64 = 60;

/// Default timeout for PAPI requests, in seconds.
pub const PAPI_DEFAULT_TIMEOUT: u64 = 20;

/// Default timeout for FWAPI requests, in seconds.
pub const FWAPI_DEFAULT_TIMEOUT: u64 = 20;

/// Default timeout for SAPI requests, in seconds.
pub const SAPI_DEFAULT_TIMEOUT: u64 = 20;

/// Default timeout for UFDS requests, in seconds.
pub const UFDS_DEFAULT_TIMEOUT: u64 = 15;

/// Default timeout for Amon requests, in seconds.
pub const AMON_DEFAULT_TIMEOUT: u64 = 20;

/// Default timeout for Workflow requests, in seconds.
pub const WORKFLOW_DEFAULT_TIMEOUT: u64 = 30;

/// Default idle timeout for connection pools, in seconds.
pub const DEFAULT_POOL_IDLE_TIMEOUT: u64 = 90;

/// Default maximum idle connections per host.
pub const DEFAULT_POOL_MAX_IDLE_PER_HOST: usize = 10;

/// HTTP client configuration.
///
/// Configures client behavior including timeouts, retries, and connection
/// pooling.
#[derive(Debug, Clone, Copy, PartialEq, Eq, Structural)]
pub struct ClientConfig {
    /// Request timeout, in milliseconds.
    pub timeout_ms: u64,
    /// Retry policy.
    pub retry_policy: RetryPolicy,
    /// Connection pool idle timeout, in seconds.
    pub pool_idle_timeout_secs: u64,
    /// Maximum idle connections per host.
    pub pool_max_idle_per_host: usize,
    /// Enable request/response logging.
    pub enable_logging: bool,
    /// Enable response compression.
    pub enable_compression: bool,
}

impl ClientConfig {
    /// Create a new client configuration with default values.
    pub fn new() -> (r: Self)
        ensures
            r.timeout_ms == 30_000,
            r.retry_policy.max_retries == crate::retry::DEFAULT_MAX_RETRIES,
            r.retry_policy.initial_delay_ms == crate::retry::DEFAULT_RETRY_DELAY_MS,
            r.retry_policy.max_delay_ms == crate::retry::DEFAULT_RETRY_MAX_DELAY_MS,
            r.retry_policy.backoff_multiplier == 2,
            r.pool_idle_timeout_secs == DEFAULT_POOL_IDLE_TIMEOUT,
            r.pool_max_idle_per_host == DEFAULT_POOL_MAX_IDLE_PER_HOST,
            r.enable_logging,
            r.enable_compression,
    {
        Self {
            timeout_ms: 30_000,
            retry_policy: RetryPolicy::new(),
            pool_idle_timeout_secs: DEFAULT_POOL_IDLE_TIMEOUT,
            pool_max_idle_per_host: DEFAULT_POOL_MAX_IDLE_PER_HOST,
            enable_logging: true,
            enable_compression: true,
        }
    }

    /// Set the request timeout, in milliseconds.
    pub fn with_timeout_ms(self, timeout_ms: u64) -> (r: Self)
        ensures
            r == (Self { timeout_ms, ..self }),
    {
        Self { timeout_ms, ..self }
    }

    /// Set the retry policy.
    pub fn with_retry_policy(self, policy: RetryPolicy) -> (r: Self)
        ensures
            r == (Self { retry_policy: policy, ..self }),
    {
        Self { retry_policy: policy, ..self }
    }

    /// Disable retries.
    pub fn without_retries(self) -> (r: Self)
        ensures
            r.retry_policy.max_retries == 0,
            r.timeout_ms == self.timeout_ms,
            r.pool_idle_timeout_secs == self.pool_idle_timeout_secs,
            r.pool_max_idle_per_host == self.pool_max_idle_per_host,
            r.enable_logging == self.enable_logging,
            r.enable_compression == self.enable_compression,
    {
        Self { retry_policy: RetryPolicy::no_retry(), ..self }
    }

    /// Set the connection pool idle timeout, in seconds.
    pub fn with_pool_idle_timeout(self, timeout_secs: u64) -> (r: Self)
        ensures
            r == (Self { pool_idle_timeout_secs: timeout_secs, ..self }),
    {
        Self { pool_idle_timeout_secs: timeout_secs, ..self }
    }

    /// Set the maximum idle connections per host.
    pub fn with_pool_max_idle(self, max: usize) -> (r: Self)
        ensures
            r == (Self { pool_max_idle_per_host: max, ..self }),
    {
        Self { pool_max_idle_per_host: max, ..self }
    }

    /// Enable or disable logging.
    pub fn with_logging(self, enabled: bool) -> (r: Self)
        ensures
            r == (Self { enable_logging: enabled, ..self }),
    {
        Self { enable_logging: enabled, ..self }
    }

    /// Enable or disable compression.
    pub fn with_compression(self, enabled: bool) -> (r: Self)
        ensures
            r == (Self { enable_compression: enabled, ..self }),
    {
        Self { enable_compression: enabled, ..self }
    }
}

impl Default for ClientConfig {
    /// The default configuration: 30 s timeout and the default retry policy.
    fn default() -> (r: Self)
        ensures
            r.timeout_ms == 30_000,
            r.retry_policy.max_retries == crate::retry::DEFAULT_MAX_RETRIES,
    {
        Self::new()
    }
}

/// Whether an HTTP status code reports success: the 2xx range.
pub open spec fn success_status(status: u16) -> bool {
    200 <= status < 300
}

/// Classify an HTTP status code as success or failure.
pub fn is_success_status(status: u16) -> (r: bool)
    ensures
        r == success_status(status),
{
    200 <= status && status < 300
}

/// Whether an HTTP status code counts as retryable: 429, 502, 503, 504, or
/// any 5xx.
pub open spec fn retryable_status(status: u16) -> bool {
    status == 429 || status == 502 || status == 503 || status == 504 || (500 <= status < 600)
}

/// Classify an HTTP status code as retryable or terminal.
pub fn should_retry(status: u16) -> (r: bool)
    ensures
        r == retryable_status(status),
{
    status == 429 || status == 502 || status == 503 || status == 504 || (500 <= status && status
        < 600)
}

/// How a transport-level attempt failed, as reported by the transport.
#[derive(Debug, Clone, Copy, PartialEq, Eq, Structural)]
pub enum TransportFailure {
    /// The attempt timed out.
    TimedOut,
    /// The connection could not be established.
    ConnectFailed,
    /// Any other transport-level failure.
    Other,
}

/// Map a transport-level failure to the error taxonomy: timeouts become
/// [`Error::Timeout`], connection failures become
/// [`Error::ServiceUnavailable`], and everything else becomes
/// [`Error::HttpError`].
pub fn transport_error(kind: TransportFailure, detail: String) -> (r: Error)
    ensures
        kind is TimedOut ==> r == Error::Timeout(detail),
        kind is ConnectFailed ==> r == Error::ServiceUnavailable(detail),
        kind is Other ==> r == Error::HttpError(detail),
{
    match kind {
        TransportFailure::TimedOut => Error::Timeout(detail),
        TransportFailure::ConnectFailed => Error::ServiceUnavailable(detail),
        TransportFailure::Other => Error::HttpError(detail),
    }
}

/// Whether an error counts as transient for the executor: timeouts,
/// unavailable services and transport-level HTTP failures.
pub open spec fn spec_retryable_error(e: Error) -> bool {
    e is Timeout || e is ServiceUnavailable || e is HttpError
}

/// Classify an error value as retryable or terminal.
pub fn is_retryable_error(e: &Error) -> (r: bool)
    ensures
        r == spec_retryable_error(*e),
{
    match e {
        Error::Timeout(_) => true,
        Error::ServiceUnavailable(_) => true,
        Error::HttpError(_) => true,
        _ => false,
    }
}

/// What the executor must do after a failed attempt.
#[derive(Debug, PartialEq)]
pub enum RetryStep {
    /// Sleep for the given number of milliseconds, then try again.
    Retry {
        /// Backoff delay before the next attempt, in milliseconds.
        delay_ms: u64,
    },
    /// Stop: retries are exhausted, surface the given error.
    GiveUp(Error),
}

/// The decision core of the resilient request executor.
///
/// The transport performs one attempt at a time and reports each retryable
/// failure here; the driver counts attempts, remembers the last transient
/// error, computes the backoff delay, and says when to give up.  Terminal
/// failures never reach the driver: the executor returns them to the caller
/// at once.
#[derive(Debug)]
pub struct RetryDriver {
    /// The policy this driver applies.
    pub policy: RetryPolicy,
    /// How many attempts have failed so far.
    pub attempts_failed: u32,
    /// The most recent retryable error, if any.
    pub last_error: Option<Error>,
}

impl RetryDriver {
    /// A fresh driver for one logical operation.
    pub fn new(policy: RetryPolicy) -> (r: Self)
        ensures
            r.policy == policy,
            r.attempts_failed == 0,
            r.last_error is None,
    {
        Self { policy, attempts_failed: 0, last_error: None }
    }

    /// Record a retryable failure and decide what to do next.
    ///
    /// Failure number `k` (counting from 1) leads to a retry with delay
    /// `delay_for_attempt(k)` while `k <= max_retries`; the failure after
    /// the last permitted retry gives up with the error just recorded.
    pub fn on_retryable_failure(&mut self, error: Error) -> (r: RetryStep)
        ensures
            final(self).policy == old(self).policy,
            final(self).last_error == Some(error),
            old(self).attempts_failed >= old(self).policy.max_retries ==> {
                &&& r == RetryStep::GiveUp(error)
                &&& final(self).attempts_failed == old(self).attempts_failed
            },
            old(self).attempts_failed < old(self).policy.max_retries ==> {
                &&& final(self).attempts_failed == old(self).attempts_failed + 1
                &&& r matches RetryStep::Retry { delay_ms } && delay_ms as int
                    == old(self).policy.delay_spec(old(self).attempts_failed as nat + 1)
            },
    {
        if self.attempts_failed >= self.policy.max_retries {
            self.last_error = Some(error.clone());
            RetryStep::GiveUp(error)
        } else {
            self.attempts_failed = self.attempts_failed + 1;
            let delay_ms = self.policy.delay_for_attempt(self.attempts_failed);
            self.last_error = Some(error);
            RetryStep::Retry { delay_ms }
        }
    }

    /// The error to surface once every attempt has been used up without a
    /// retryable failure being recorded: a generic unavailable-service
    /// error built from the given detail (a defensive fallback — with at
    /// least one recorded failure, [`Self::on_retryable_failure`] already
    /// returned the real error).
    pub fn give_up_error(self, detail: String) -> (r: Error)
        ensures
            surfaces_recorded_error(self.last_error, r, detail),
    {
        match self.last_error {
            Some(e) => e,
            None => Error::ServiceUnavailable(detail),
        }
    }
}

/// Relates the executor's final error to the driver's recorded state: the
/// last recorded error when there is one, else the defensive fallback.
pub open spec fn surfaces_recorded_error(last: Option<Error>, r: Error, detail: String) -> bool {
    match last {
        Some(e) => r == e,
        None => r == Error::ServiceUnavailable(detail),
    }
}

} // verus!
