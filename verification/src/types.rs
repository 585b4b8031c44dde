//! Core domain types: the service enumeration, endpoint transports, and
//! endpoint metadata.

use vstd::prelude::*;

use crate::error::Error;
use crate::text::lower_chars;
use crate::text::str_eq;
use crate::text::to_ascii_lowercase_str;

verus! {

/// Name of the application under which services register for discovery.
pub const DISCOVERY_APP_NAME: &'static str = "sdc";

/// Default HTTP port.
pub const DEFAULT_HTTP_PORT: u16 = 80;

/// Default HTTPS port.
pub const DEFAULT_HTTPS_PORT: u16 = 443;

/// Default LDAPS port.
pub const DEFAULT_LDAPS_PORT: u16 = 636;

/// Supported services.
#[derive(Debug, Clone, Copy, PartialEq, Eq, Hash, Structural)]
pub enum TritonService {
    /// Virtual Machine API.
    Vmapi,
    /// Compute Node API.
    Cnapi,
    /// Network API.
    Napi,
    /// Image API.
    Imgapi,
    /// Package API.
    Papi,
    /// Firewall API.
    Fwapi,
    /// Service API (for service discovery).
    Sapi,
    /// User/Directory Service (LDAP).
    Ufds,
    /// Monitoring service.
    Amon,
    /// Workflow API.
    Workflow,
}

impl TritonService {
    /// The name of each service, as a mathematical value.
    pub open spec fn name_spec(self) -> Seq<char> {
        match self {
            TritonService::Vmapi => "vmapi"@,
            TritonService::Cnapi => "cnapi"@,
            TritonService::Napi => "napi"@,
            TritonService::Imgapi => "imgapi"@,
            TritonService::Papi => "papi"@,
            TritonService::Fwapi => "fwapi"@,
            TritonService::Sapi => "sapi"@,
            TritonService::Ufds => "ufds"@,
            TritonService::Amon => "amon"@,
            TritonService::Workflow => "workflow"@,
        }
    }

    /// The service that a name resolves to, after ASCII lower-casing; `None`
    /// for an unknown name.
    pub open spec fn for_name_spec(s: Seq<char>) -> Option<TritonService> {
        let l = lower_chars(s);
        if l == "vmapi"@ {
            Some(TritonService::Vmapi)
        } else if l == "cnapi"@ {
            Some(TritonService::Cnapi)
        } else if l == "napi"@ {
            Some(TritonService::Napi)
        } else if l == "imgapi"@ {
            Some(TritonService::Imgapi)
        } else if l == "papi"@ {
            Some(TritonService::Papi)
        } else if l == "fwapi"@ {
            Some(TritonService::Fwapi)
        } else if l == "sapi"@ {
            Some(TritonService::Sapi)
        } else if l == "ufds"@ {
            Some(TritonService::Ufds)
        } else if l == "amon"@ {
            Some(TritonService::Amon)
        } else if l == "workflow"@ {
            Some(TritonService::Workflow)
        } else {
            None
        }
    }

    /// Returns the service name as a string.
    pub fn name(&self) -> (r: &'static str)
        ensures
            r@ == self.name_spec(),
    {
        match self {
            TritonService::Vmapi => "vmapi",
            TritonService::Cnapi => "cnapi",
            TritonService::Napi => "napi",
            TritonService::Imgapi => "imgapi",
            TritonService::Papi => "papi",
            TritonService::Fwapi => "fwapi",
            TritonService::Sapi => "sapi",
            TritonService::Ufds => "ufds",
            TritonService::Amon => "amon",
            TritonService::Workflow => "workflow",
        }
    }

    /// Returns all supported services.
    pub fn all() -> (r: Vec<TritonService>)
        ensures
            r@ =~= seq![
                TritonService::Vmapi,
                TritonService::Cnapi,
                TritonService::Napi,
                TritonService::Imgapi,
                TritonService::Papi,
                TritonService::Fwapi,
                TritonService::Sapi,
                TritonService::Ufds,
                TritonService::Amon,
                TritonService::Workflow,
            ],
    {
        let mut v: Vec<TritonService> = Vec::new();
        v.push(TritonService::Vmapi);
        v.push(TritonService::Cnapi);
        v.push(TritonService::Napi);
        v.push(TritonService::Imgapi);
        v.push(TritonService::Papi);
        v.push(TritonService::Fwapi);
        v.push(TritonService::Sapi);
        v.push(TritonService::Ufds);
        v.push(TritonService::Amon);
        v.push(TritonService::Workflow);
        v
    }

    /// Returns the default port for the service: the LDAPS port for the
    /// directory service, the HTTP port for everything else.
    pub fn default_port(&self) -> (r: u16)
        ensures
            r == if self is Ufds {
                DEFAULT_LDAPS_PORT as int
            } else {
                DEFAULT_HTTP_PORT as int
            },
    {
        match self {
            TritonService::Ufds => DEFAULT_LDAPS_PORT,
            _ => DEFAULT_HTTP_PORT,
        }
    }

    /// Returns the default transport type for the service.
    pub fn transport_type(&self) -> (r: TransportType)
        ensures
            r == TransportType::Tcp,
    {
        TransportType::Tcp
    }

    /// Resolve a service name, case-insensitively.  Returns
    /// [`Error::InvalidRequest`] for a name that matches no service.
    pub fn from_name(s: &str) -> (r: Result<TritonService, Error>)
        ensures
            match Self::for_name_spec(s@) {
                Some(svc) => r == Ok::<TritonService, Error>(svc),
                None => r matches Err(e) && e matches Error::InvalidRequest(m) && m@
                    == "Unknown service: "@ + s@,
            },
    {
        let lower = to_ascii_lowercase_str(s);
        let l = lower.as_str();
        if str_eq(l, "vmapi") {
            Ok(TritonService::Vmapi)
        } else if str_eq(l, "cnapi") {
            Ok(TritonService::Cnapi)
        } else if str_eq(l, "napi") {
            Ok(TritonService::Napi)
        } else if str_eq(l, "imgapi") {
            Ok(TritonService::Imgapi)
        } else if str_eq(l, "papi") {
            Ok(TritonService::Papi)
        } else if str_eq(l, "fwapi") {
            Ok(TritonService::Fwapi)
        } else if str_eq(l, "sapi") {
            Ok(TritonService::Sapi)
        } else if str_eq(l, "ufds") {
            Ok(TritonService::Ufds)
        } else if str_eq(l, "amon") {
            Ok(TritonService::Amon)
        } else if str_eq(l, "workflow") {
            Ok(TritonService::Workflow)
        } else {
            let mut msg = "Unknown service: ".to_owned();
            msg.append(s);
            Err(Error::InvalidRequest(msg))
        }
    }
}

impl core::str::FromStr for TritonService {
    type Err = Error;

    fn from_str(s: &str) -> core::result::Result<Self, Error> {
        Self::from_name(s)
    }
}

/// Type of transport protocol used by an endpoint.
#[derive(Debug, Clone, Copy, PartialEq, Eq, Hash, Structural)]
pub enum TransportType {
    /// TCP transport.
    Tcp,
    /// HTTP transport.
    Http,
    /// HTTPS transport.
    Https,
    /// gRPC transport.
    Grpc,
}

/// Health check configuration for an endpoint.
#[derive(Debug, Clone, PartialEq)]
pub struct HealthCheckConfig {
    /// Whether health checks are enabled.
    pub enabled: bool,
    /// Interval between health checks, in seconds.
    pub interval_secs: u64,
    /// Timeout for each health check, in seconds.
    pub timeout_secs: u64,
    /// Optional path for HTTP/HTTPS health checks.
    pub path: Option<String>,
}

impl Default for HealthCheckConfig {
    /// Health checks are off by default: 30 s interval, 5 s timeout, no
    /// path.
    fn default() -> (r: Self)
        ensures
            !r.enabled,
            r.interval_secs == 30,
            r.timeout_secs == 5,
            r.path is None,
    {
        Self { enabled: false, interval_secs: 30, timeout_secs: 5, path: None }
    }
}

/// Details about a specific endpoint.
#[derive(Debug, Clone, PartialEq)]
pub struct EndpointDetails {
    /// Load balancing weight.
    pub weight: Option<u32>,
    /// Priority (lower is higher priority).
    pub priority: Option<u32>,
    /// Region identifier.
    pub region: Option<String>,
    /// Availability zone.
    pub zone: Option<String>,
    /// Tags for filtering/selection.
    pub tags: Vec<String>,
}

impl Default for EndpointDetails {
    /// No details are set by default.
    fn default() -> (r: Self)
        ensures
            r.weight is None,
            r.priority is None,
            r.region is None,
            r.zone is None,
            r.tags@.len() == 0,
    {
        Self { weight: None, priority: None, region: None, zone: None, tags: Vec::new() }
    }
}

} // verus!
