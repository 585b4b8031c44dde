//! FWAPI (firewall API) models and service adapters.

use vstd::prelude::*;

use crate::client::retryable_status;
use crate::error::Error;
use crate::query::opt_pair;
use crate::query::pair_views;
use crate::query::QueryParams;
use crate::services::DiscoveryStatus;
use crate::services::ServiceDiscovery;
use crate::services::ServiceDiscoveryProxy;
use crate::text::bool_str;
use crate::text::bool_to_string;
use crate::text::dec_str;
use crate::text::u16_to_string;
use crate::text::u32_to_string;
use crate::types::TritonService;
use crate::uuid::uuid_chars;
use crate::uuid::OwnerUuid;

verus! {

/// Parameters supported by the firewall rules list endpoint.
#[derive(Debug)]
pub struct FirewallRuleListParams {
    /// Filter by owner UUID.
    pub owner_uuid: Option<OwnerUuid>,
    /// Filter global rules.
    pub global: Option<bool>,
    /// Filter enabled rules.
    pub enabled: Option<bool>,
    /// Filter by VM UUID.
    pub vm: Option<OwnerUuid>,
    /// Limit.
    pub limit: Option<u32>,
    /// Offset.
    pub offset: Option<u32>,
}

impl FirewallRuleListParams {
    /// The query pairs these parameters produce, in order.
    pub open spec fn pairs_spec(self) -> Seq<(Seq<char>, Seq<char>)> {
        opt_pair(
            "owner_uuid"@,
            match self.owner_uuid {
                Some(u) => Some(uuid_chars(u.0.hi, u.0.lo)),
                None => None,
            },
        ) + opt_pair(
            "global"@,
            match self.global {
                Some(b) => Some(bool_str(b)),
                None => None,
            },
        ) + opt_pair(
            "enabled"@,
            match self.enabled {
                Some(b) => Some(bool_str(b)),
                None => None,
            },
        ) + opt_pair(
            "vm"@,
            match self.vm {
                Some(u) => Some(uuid_chars(u.0.hi, u.0.lo)),
                None => None,
            },
        ) + opt_pair(
            "limit"@,
            match self.limit {
                Some(x) => Some(dec_str(x as nat)),
                None => None,
            },
        ) + opt_pair(
            "offset"@,
            match self.offset {
                Some(x) => Some(dec_str(x as nat)),
                None => None,
            },
        )
    }

    /// Convert the parameters into URL query pairs.
    pub fn to_pairs(&self) -> (r: Vec<(&'static str, String)>)
        ensures
            pair_views(r@) == self.pairs_spec(),
    {
        let mut params = QueryParams::new();
        params.push_opt(
            "owner_uuid",
            match &self.owner_uuid {
                Some(u) => Some(u.to_uuid_string()),
                None => None,
            },
        );
        params.push_opt(
            "global",
            match &self.global {
                Some(b) => Some(bool_to_string(*b)),
                None => None,
            },
        );
        params.push_opt(
            "enabled",
            match &self.enabled {
                Some(b) => Some(bool_to_string(*b)),
                None => None,
            },
        );
        params.push_opt(
            "vm",
            match &self.vm {
                Some(u) => Some(u.to_uuid_string()),
                None => None,
            },
        );
        params.push_opt(
            "limit",
            match &self.limit {
                Some(x) => Some(u32_to_string(*x)),
                None => None,
            },
        );
        params.push_opt(
            "offset",
            match &self.offset {
                Some(x) => Some(u32_to_string(*x)),
                None => None,
            },
        );
        let r = params.into_pairs();
        proof {
            assert(pair_views(r@) =~= self.pairs_spec());
        }
        r
    }
}

impl Default for FirewallRuleListParams {
    /// No filters are set by default.
    fn default() -> (r: Self)
        ensures
            r.owner_uuid is None,
            r.global is None,
            r.enabled is None,
            r.vm is None,
            r.limit is None,
            r.offset is None,
    {
        Self {
            owner_uuid: None,
            global: None,
            enabled: None,
            vm: None,
            limit: None,
            offset: None,
        }
    }
}

/// Classify a non-success FWAPI response status into the error taxonomy.
/// 404 is a missing resource; 400 is a bad request; 409 a conflict; 401 and 403 are authentication
/// failures; 429, 502, 503, 504 and other 5xx are transient; everything
/// else is a terminal HTTP failure.
pub fn map_status_to_error(status: u16, text: String) -> (r: Error)
    ensures
        status == 404 ==> r == Error::NotFound(text),
        status == 400 ==> r == Error::BadRequest(text),
        status == 409 ==> r == Error::Conflict(text),
        (status == 401 || status == 403) ==> (r matches Error::InvalidRequest(m) && m@
            == "FWAPI authentication failed: "@ + text@),
        (status == 429 || status == 502 || status == 503 || status == 504) ==> (r matches
            Error::ServiceUnavailable(m) && m@ == "FWAPI temporarily unavailable: "@ + text@),
        (500 <= status < 600 && status != 502 && status != 503 && status != 504) ==> (r matches
            Error::ServiceUnavailable(m) && m@ == "FWAPI server error "@ + dec_str(status as nat)
            + ": "@ + text@),
        !(status == 404 || status == 400 || status == 409 || status == 401 || status == 403 || retryable_status(status))
            ==> (r matches Error::HttpError(m) && m@ == "FWAPI error "@ + dec_str(status as nat)
            + ": "@ + text@),
{
    if status == 404 {
        Error::NotFound(text)
    } else if status == 400 {
        Error::BadRequest(text)
    } else if status == 409 {
        Error::Conflict(text)
    } else if status == 401 || status == 403 {
        let mut m = "FWAPI authentication failed: ".to_owned();
        m.append(text.as_str());
        Error::InvalidRequest(m)
    } else if status == 429 || status == 502 || status == 503 || status == 504 {
        let mut m = "FWAPI temporarily unavailable: ".to_owned();
        m.append(text.as_str());
        Error::ServiceUnavailable(m)
    } else if 500 <= status && status < 600 {
        let mut m = "FWAPI server error ".to_owned();
        let st = u16_to_string(status);
        m.append(st.as_str());
        m.append(": ");
        m.append(text.as_str());
        Error::ServiceUnavailable(m)
    } else {
        let mut m = "FWAPI error ".to_owned();
        let st = u16_to_string(status);
        m.append(st.as_str());
        m.append(": ");
        m.append(text.as_str());
        Error::HttpError(m)
    }
}

/// Discovery adapter that narrows a shared discovery source to the FWAPI
/// service, with its own telemetry.
pub struct FwapiDiscovery<D: ServiceDiscovery> {
    /// The per-service telemetry proxy over the shared source.
    pub proxy: ServiceDiscoveryProxy<D>,
}

impl<D: ServiceDiscovery> FwapiDiscovery<D> {
    /// Create a discovery wrapper from an existing discovery source.
    pub fn new(discovery_source: D) -> (r: Self)
        ensures
            r.proxy.service_name@ == TritonService::Fwapi.name_spec(),
            r.proxy.status.last_error is None,
            r.proxy.status.discovered_services == 0,
            r.proxy.status.cache_hits == 0,
            r.proxy.status.cache_misses == 0,
    {
        Self { proxy: ServiceDiscoveryProxy::for_service(discovery_source, TritonService::Fwapi) }
    }
}

impl<D: ServiceDiscovery> ServiceDiscovery for FwapiDiscovery<D> {
    fn discover_service(&mut self, service_name: &str) -> Result<Vec<String>, Error> {
        self.proxy.discover_recorded(service_name)
    }

    fn discover_all_services(&mut self) -> Result<Vec<String>, Error> {
        self.proxy.discover_own_service()
    }

    fn get_status(&self) -> DiscoveryStatus {
        self.proxy.status_snapshot()
    }

    fn clear_cache(&mut self) {
        self.proxy.reset_counters()
    }

    fn is_service_available(&mut self, service_name: &str) -> bool {
        match self.proxy.discover_recorded(service_name) {
            Ok(_) => true,
            Err(_) => false,
        }
    }
}


/// Request payload for creating a firewall rule.
#[derive(Debug)]
pub struct CreateFirewallRuleRequest {
    /// Rule string.
    pub rule: String,
    /// Enabled flag.
    pub enabled: Option<bool>,
    /// Description.
    pub description: Option<String>,
    /// Owner UUID.
    pub owner_uuid: Option<OwnerUuid>,
    /// Global flag.
    pub global: Option<bool>,
    /// VM UUIDs.
    pub vms: Option<Vec<OwnerUuid>>,
}

/// Request payload for updating a firewall rule.
#[derive(Debug)]
pub struct UpdateFirewallRuleRequest {
    /// Rule string.
    pub rule: Option<String>,
    /// Enabled flag.
    pub enabled: Option<bool>,
    /// Description.
    pub description: Option<String>,
    /// Owner UUID.
    pub owner_uuid: Option<OwnerUuid>,
    /// Global flag.
    pub global: Option<bool>,
    /// VM UUIDs.
    pub vms: Option<Vec<OwnerUuid>>,
}

} // verus!
