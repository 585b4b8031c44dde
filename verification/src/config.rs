//! Configuration structures for clients and service discovery.
//!
//! Construction validates the configuration: URLs must parse, and the
//! numeric knobs must lie in their documented ranges.  Validation failures
//! are fatal to startup and surface as [`Error::ConfigError`].

use vstd::prelude::*;

use crate::error::Error;
use crate::retry::saturating_mul_u64;

verus! {

/// What `url::Url::parse` accepts: whether a string is a well-formed
/// absolute URL.
pub uninterp spec fn url_ok(s: Seq<char>) -> bool;

/// Relies on `url::Url::parse`: returns whether the string is a
/// well-formed absolute URL.  The result is a function of the string alone.
#[verifier::external_body]
pub fn parse_url_ok(s: &str) -> (r: bool)
    ensures
        r == url_ok(s@),
{
    url::Url::parse(s).is_ok()
}

/// Configuration for a client instance.
///
/// This is the main configuration structure that controls how a client
/// connects to and interacts with the backend services.
#[derive(Debug)]
pub struct TritonClientConfig {
    /// Directory service (SAPI) base URL.
    pub sapi_url: String,
    /// Optional API key for authentication.
    pub sapi_key: Option<String>,
    /// Whether to verify TLS certificates.
    pub tls_verify: bool,
    /// Optional path to a custom CA certificate.
    pub tls_ca_cert: Option<String>,
    /// Request timeout in seconds (1 to 300).
    pub request_timeout_secs: u64,
    /// Maximum number of retry attempts (0 to 10).
    pub max_retries: u32,
    /// Service discovery configuration.
    pub service_discovery: ServiceDiscoveryConfig,
}

impl TritonClientConfig {
    /// A valid configuration: the URL parses and every knob is in range.
    pub open spec fn valid_spec(self) -> bool {
        &&& url_ok(self.sapi_url@)
        &&& 1 <= self.request_timeout_secs <= 300
        &&& self.max_retries <= 10
        &&& self.service_discovery.valid_spec()
    }

    /// Create a new client configuration with the given directory-service
    /// URL and defaults everywhere else.  Fails with [`Error::ConfigError`]
    /// when the URL is not well-formed.
    pub fn new(sapi_url: String) -> (r: Result<Self, Error>)
        ensures
            match r {
                Ok(config) => {
                    &&& url_ok(sapi_url@)
                    &&& config.sapi_url == sapi_url
                    &&& config.sapi_key is None
                    &&& config.tls_verify
                    &&& config.tls_ca_cert is None
                    &&& config.request_timeout_secs == 30
                    &&& config.max_retries == 3
                    &&& config.service_discovery.is_default()
                },
                Err(e) => !url_ok(sapi_url@) && e is ConfigError,
            },
    {
        let config = Self {
            sapi_url,
            sapi_key: None,
            tls_verify: true,
            tls_ca_cert: None,
            request_timeout_secs: 30,
            max_retries: 3,
            service_discovery: ServiceDiscoveryConfig::new(),
        };
        match config.validate() {
            Ok(()) => Ok(config),
            Err(_) => Err(
                Error::ConfigError("Invalid configuration: malformed base URL".to_owned()),
            ),
        }
    }

    /// Check the configuration against its documented ranges: the URL must
    /// parse, the timeout must lie in 1–300 s, the retry count in 0–10, and
    /// the discovery section must be valid too.
    pub fn validate(&self) -> (r: Result<(), Error>)
        ensures
            r is Ok <==> self.valid_spec(),
            r matches Err(e) ==> e is ValidationError,
    {
        if !parse_url_ok(self.sapi_url.as_str()) {
            return Err(Error::ValidationError("sapi_url is not a valid URL".to_owned()));
        }
        if self.request_timeout_secs < 1 || self.request_timeout_secs > 300 {
            return Err(
                Error::ValidationError("request_timeout_secs must be 1 to 300".to_owned()),
            );
        }
        if self.max_retries > 10 {
            return Err(Error::ValidationError("max_retries must be 0 to 10".to_owned()));
        }
        self.service_discovery.validate()
    }

    /// Set the API key for authentication.
    pub fn with_api_key(self, api_key: String) -> (r: Self)
        ensures
            r == (Self { sapi_key: Some(api_key), ..self }),
    {
        Self { sapi_key: Some(api_key), ..self }
    }

    /// Set whether to verify TLS certificates.
    pub fn with_tls_verify(self, verify: bool) -> (r: Self)
        ensures
            r == (Self { tls_verify: verify, ..self }),
    {
        Self { tls_verify: verify, ..self }
    }

    /// Set a custom CA certificate path.
    pub fn with_ca_cert(self, path: String) -> (r: Self)
        ensures
            r == (Self { tls_ca_cert: Some(path), ..self }),
    {
        Self { tls_ca_cert: Some(path), ..self }
    }

    /// Set the request timeout in seconds.
    pub fn with_timeout(self, seconds: u64) -> (r: Self)
        ensures
            r == (Self { request_timeout_secs: seconds, ..self }),
    {
        Self { request_timeout_secs: seconds, ..self }
    }

    /// Set the maximum retry attempts.
    pub fn with_max_retries(self, retries: u32) -> (r: Self)
        ensures
            r == (Self { max_retries: retries, ..self }),
    {
        Self { max_retries: retries, ..self }
    }

    /// Set the service discovery configuration.
    pub fn with_service_discovery(self, config: ServiceDiscoveryConfig) -> (r: Self)
        ensures
            r == (Self { service_discovery: config, ..self }),
    {
        Self { service_discovery: config, ..self }
    }

    /// The request timeout in milliseconds (saturating).
    pub fn timeout_ms(&self) -> (r: u64)
        ensures
            r as int == vstd::math::min(self.request_timeout_secs as int * 1000, u64::MAX as int),
    {
        saturating_mul_u64(self.request_timeout_secs, 1000)
    }
}

impl Default for TritonClientConfig {
    /// The default configuration: a localhost directory URL, TLS
    /// verification on, 30 s timeout, 3 retries, default discovery.
    fn default() -> (r: Self)
        ensures
            r.sapi_url@ == "http://localhost:8080"@,
            r.sapi_key is None,
            r.tls_verify,
            r.tls_ca_cert is None,
            r.request_timeout_secs == 30,
            r.max_retries == 3,
            r.service_discovery.is_default(),
    {
        Self {
            sapi_url: "http://localhost:8080".to_owned(),
            sapi_key: None,
            tls_verify: true,
            tls_ca_cert: None,
            request_timeout_secs: 30,
            max_retries: 3,
            service_discovery: ServiceDiscoveryConfig::new(),
        }
    }
}

/// Configuration for service discovery.
///
/// Controls how services are discovered and cached.
#[derive(Debug)]
pub struct ServiceDiscoveryConfig {
    /// Whether service discovery is enabled.
    pub enabled: bool,
    /// Cache TTL in seconds (1 to 3600).
    pub cache_ttl_secs: u64,
    /// Discovery timeout in seconds (1 to 60).
    pub timeout_secs: u64,
    /// Number of retry attempts for discovery (0 to 10).
    pub retry_attempts: u32,
    /// Static service endpoints used as fallback.
    pub services: ServiceEndpoints,
}

impl ServiceDiscoveryConfig {
    /// A valid discovery configuration: every knob in its documented range.
    pub open spec fn valid_spec(self) -> bool {
        &&& 1 <= self.cache_ttl_secs <= 3600
        &&& 1 <= self.timeout_secs <= 60
        &&& self.retry_attempts <= 10
    }

    /// The default values: enabled, 300 s TTL, 5 s timeout, 3 retries, no
    /// static endpoints.
    pub open spec fn is_default(self) -> bool {
        &&& self.enabled
        &&& self.cache_ttl_secs == 300
        &&& self.timeout_secs == 5
        &&& self.retry_attempts == 3
        &&& self.services.is_empty_spec()
    }

    /// Create a new service discovery configuration with defaults.
    pub fn new() -> (r: Self)
        ensures
            r.is_default(),
    {
        Self {
            enabled: true,
            cache_ttl_secs: 300,
            timeout_secs: 5,
            retry_attempts: 3,
            services: ServiceEndpoints::new(),
        }
    }

    /// Check the discovery knobs against their documented ranges.
    pub fn validate(&self) -> (r: Result<(), Error>)
        ensures
            r is Ok <==> self.valid_spec(),
            r matches Err(e) ==> e is ValidationError,
    {
        if self.cache_ttl_secs < 1 || self.cache_ttl_secs > 3600 {
            return Err(Error::ValidationError("cache_ttl_secs must be 1 to 3600".to_owned()));
        }
        if self.timeout_secs < 1 || self.timeout_secs > 60 {
            return Err(Error::ValidationError("timeout_secs must be 1 to 60".to_owned()));
        }
        if self.retry_attempts > 10 {
            return Err(Error::ValidationError("retry_attempts must be 0 to 10".to_owned()));
        }
        Ok(())
    }

    /// Disable service discovery (use static endpoints only).
    pub fn disabled(self) -> (r: Self)
        ensures
            r == (Self { enabled: false, ..self }),
    {
        Self { enabled: false, ..self }
    }

    /// Set the cache TTL in seconds.
    pub fn with_cache_ttl(self, seconds: u64) -> (r: Self)
        ensures
            r == (Self { cache_ttl_secs: seconds, ..self }),
    {
        Self { cache_ttl_secs: seconds, ..self }
    }

    /// Set the discovery timeout in seconds.
    pub fn with_timeout(self, seconds: u64) -> (r: Self)
        ensures
            r == (Self { timeout_secs: seconds, ..self }),
    {
        Self { timeout_secs: seconds, ..self }
    }

    /// Set the retry attempts.
    pub fn with_retry_attempts(self, attempts: u32) -> (r: Self)
        ensures
            r == (Self { retry_attempts: attempts, ..self }),
    {
        Self { retry_attempts: attempts, ..self }
    }

    /// The cache TTL in milliseconds (saturating).
    pub fn cache_ttl_ms(&self) -> (r: u64)
        ensures
            r as int == vstd::math::min(self.cache_ttl_secs as int * 1000, u64::MAX as int),
    {
        saturating_mul_u64(self.cache_ttl_secs, 1000)
    }

    /// The discovery timeout in milliseconds (saturating).
    pub fn timeout_ms(&self) -> (r: u64)
        ensures
            r as int == vstd::math::min(self.timeout_secs as int * 1000, u64::MAX as int),
    {
        saturating_mul_u64(self.timeout_secs, 1000)
    }
}

impl Default for ServiceDiscoveryConfig {
    /// The default discovery configuration.
    fn default() -> (r: Self)
        ensures
            r.is_default(),
    {
        Self::new()
    }
}

/// Static service endpoint configurations.
///
/// Provides fallback endpoints when service discovery is unavailable or
/// disabled.
#[derive(Debug)]
pub struct ServiceEndpoints {
    /// VMAPI endpoint.
    pub vmapi: Option<ServiceEndpointConfig>,
    /// CNAPI endpoint.
    pub cnapi: Option<ServiceEndpointConfig>,
    /// NAPI endpoint.
    pub napi: Option<ServiceEndpointConfig>,
    /// IMGAPI endpoint.
    pub imgapi: Option<ServiceEndpointConfig>,
    /// PAPI endpoint.
    pub papi: Option<ServiceEndpointConfig>,
    /// FWAPI endpoint.
    pub fwapi: Option<ServiceEndpointConfig>,
}

impl ServiceEndpoints {
    /// No endpoint is configured.
    pub open spec fn is_empty_spec(self) -> bool {
        &&& self.vmapi is None
        &&& self.cnapi is None
        &&& self.napi is None
        &&& self.imgapi is None
        &&& self.papi is None
        &&& self.fwapi is None
    }

    /// Create a new empty service endpoints collection.
    pub fn new() -> (r: Self)
        ensures
            r.is_empty_spec(),
    {
        Self { vmapi: None, cnapi: None, napi: None, imgapi: None, papi: None, fwapi: None }
    }

    /// Set the VMAPI endpoint.
    pub fn with_vmapi(self, endpoint: ServiceEndpointConfig) -> (r: Self)
        ensures
            r == (Self { vmapi: Some(endpoint), ..self }),
    {
        Self { vmapi: Some(endpoint), ..self }
    }

    /// Set the CNAPI endpoint.
    pub fn with_cnapi(self, endpoint: ServiceEndpointConfig) -> (r: Self)
        ensures
            r == (Self { cnapi: Some(endpoint), ..self }),
    {
        Self { cnapi: Some(endpoint), ..self }
    }

    /// Set the NAPI endpoint.
    pub fn with_napi(self, endpoint: ServiceEndpointConfig) -> (r: Self)
        ensures
            r == (Self { napi: Some(endpoint), ..self }),
    {
        Self { napi: Some(endpoint), ..self }
    }

    /// Set the IMGAPI endpoint.
    pub fn with_imgapi(self, endpoint: ServiceEndpointConfig) -> (r: Self)
        ensures
            r == (Self { imgapi: Some(endpoint), ..self }),
    {
        Self { imgapi: Some(endpoint), ..self }
    }

    /// Set the PAPI endpoint.
    pub fn with_papi(self, endpoint: ServiceEndpointConfig) -> (r: Self)
        ensures
            r == (Self { papi: Some(endpoint), ..self }),
    {
        Self { papi: Some(endpoint), ..self }
    }

    /// Set the FWAPI endpoint.
    pub fn with_fwapi(self, endpoint: ServiceEndpointConfig) -> (r: Self)
        ensures
            r == (Self { fwapi: Some(endpoint), ..self }),
    {
        Self { fwapi: Some(endpoint), ..self }
    }
}

impl Default for ServiceEndpoints {
    /// No endpoints are configured by default.
    fn default() -> (r: Self)
        ensures
            r.is_empty_spec(),
    {
        Self::new()
    }
}

/// Configuration for a single service endpoint.
#[derive(Debug)]
pub struct ServiceEndpointConfig {
    /// Service base URL.
    pub url: String,
    /// Optional timeout override for this service, in seconds (1 to 300).
    pub timeout_override_secs: Option<u64>,
}

impl ServiceEndpointConfig {
    /// A valid endpoint configuration: the URL parses and the override,
    /// when present, lies in 1–300 s.
    pub open spec fn valid_spec(self) -> bool {
        &&& url_ok(self.url@)
        &&& match self.timeout_override_secs {
            Some(t) => 1 <= t <= 300,
            None => true,
        }
    }

    /// Create a new service endpoint configuration.  Fails with
    /// [`Error::ConfigError`] when the URL is not well-formed.
    pub fn new(url: String) -> (r: Result<Self, Error>)
        ensures
            match r {
                Ok(config) => {
                    &&& url_ok(url@)
                    &&& config.url == url
                    &&& config.timeout_override_secs is None
                },
                Err(e) => !url_ok(url@) && e is ConfigError,
            },
    {
        if parse_url_ok(url.as_str()) {
            Ok(Self { url, timeout_override_secs: None })
        } else {
            Err(Error::ConfigError("Invalid endpoint configuration: malformed URL".to_owned()))
        }
    }

    /// Set the timeout override in seconds.
    pub fn with_timeout(self, seconds: u64) -> (r: Self)
        ensures
            r == (Self { timeout_override_secs: Some(seconds), ..self }),
    {
        Self { timeout_override_secs: Some(seconds), ..self }
    }

    /// The timeout override in milliseconds (saturating), if set.
    pub fn timeout_ms(&self) -> (r: Option<u64>)
        ensures
            match self.timeout_override_secs {
                Some(t) => r matches Some(ms) && ms as int == vstd::math::min(
                    t as int * 1000,
                    u64::MAX as int,
                ),
                None => r is None,
            },
    {
        match self.timeout_override_secs {
            Some(t) => Some(saturating_mul_u64(t, 1000)),
            None => None,
        }
    }

    /// Check the endpoint configuration: the URL must parse and the
    /// override, when present, must lie in 1–300 s.
    pub fn validate(&self) -> (r: Result<(), Error>)
        ensures
            r is Ok <==> self.valid_spec(),
            r matches Err(e) ==> e is ValidationError,
    {
        if !parse_url_ok(self.url.as_str()) {
            return Err(Error::ValidationError("url is not a valid URL".to_owned()));
        }
        match self.timeout_override_secs {
            Some(t) => {
                if t < 1 || t > 300 {
                    return Err(
                        Error::ValidationError(
                            "timeout_override_secs must be 1 to 300".to_owned(),
                        ),
                    );
                }
                Ok(())
            },
            None => Ok(()),
        }
    }
}

impl Clone for ServiceEndpointConfig {
    /// An exact copy of the endpoint configuration.
    fn clone(&self) -> (res: Self)
        ensures
            res.url@ == self.url@,
            res.timeout_override_secs == self.timeout_override_secs,
    {
        let url = self.url.clone();
        Self { url, timeout_override_secs: self.timeout_override_secs }
    }
}

} // verus!
