//! PAPI (package API) models and service adapters.

use vstd::prelude::*;

use crate::client::retryable_status;
use crate::error::Error;
use crate::query::opt_pair;
use crate::query::pair_views;
use crate::query::QueryParams;
use crate::services::DiscoveryStatus;
use crate::services::ServiceDiscovery;
use crate::services::ServiceDiscoveryProxy;
use crate::text::bool_str;
use crate::text::bool_to_string;
use crate::text::dec_str;
use crate::text::u16_to_string;
use crate::text::u32_to_string;
use crate::text::u64_to_string;
use crate::types::TritonService;
use crate::uuid::uuid_chars;
use crate::uuid::OwnerUuid;

verus! {

/// Parameters supported by the `/packages` list endpoint.
#[derive(Debug)]
pub struct PackageListParams {
    /// Filter by name.
    pub name: Option<String>,
    /// Filter by version.
    pub version: Option<String>,
    /// Filter by memory requirement.
    pub memory: Option<u64>,
    /// Filter by vCPU count.
    pub vcpus: Option<u32>,
    /// Filter by brand.
    pub brand: Option<String>,
    /// Filter by OS.
    pub os: Option<String>,
    /// Filter by group.
    pub group: Option<String>,
    /// Active flag.
    pub active: Option<bool>,
    /// Default flag.
    pub default: Option<bool>,
    /// Owner UUID filter.
    pub owner_uuid: Option<OwnerUuid>,
    /// Trait identifier filter.
    pub trait_id: Option<String>,
    /// Trait value filter.
    pub trait_val: Option<bool>,
    /// Limit results.
    pub limit: Option<u32>,
    /// Offset.
    pub offset: Option<u32>,
}

impl PackageListParams {
    /// The query pairs these parameters produce, in order.
    pub open spec fn pairs_spec(self) -> Seq<(Seq<char>, Seq<char>)> {
        opt_pair(
            "name"@,
            match self.name {
                Some(v) => Some(v@),
                None => None,
            },
        ) + opt_pair(
            "version"@,
            match self.version {
                Some(v) => Some(v@),
                None => None,
            },
        ) + opt_pair(
            "memory"@,
            match self.memory {
                Some(x) => Some(dec_str(x as nat)),
                None => None,
            },
        ) + opt_pair(
            "vcpus"@,
            match self.vcpus {
                Some(x) => Some(dec_str(x as nat)),
                None => None,
            },
        ) + opt_pair(
            "brand"@,
            match self.brand {
                Some(v) => Some(v@),
                None => None,
            },
        ) + opt_pair(
            "os"@,
            match self.os {
                Some(v) => Some(v@),
                None => None,
            },
        ) + opt_pair(
            "group"@,
            match self.group {
                Some(v) => Some(v@),
                None => None,
            },
        ) + opt_pair(
            "active"@,
            match self.active {
                Some(b) => Some(bool_str(b)),
                None => None,
            },
        ) + opt_pair(
            "default"@,
            match self.default {
                Some(b) => Some(bool_str(b)),
                None => None,
            },
        ) + opt_pair(
            "owner_uuid"@,
            match self.owner_uuid {
                Some(u) => Some(uuid_chars(u.0.hi, u.0.lo)),
                None => None,
            },
        ) + opt_pair(
            "trait"@,
            match self.trait_id {
                Some(v) => Some(v@),
                None => None,
            },
        ) + opt_pair(
            "trait_val"@,
            match self.trait_val {
                Some(b) => Some(bool_str(b)),
                None => None,
            },
        ) + opt_pair(
            "limit"@,
            match self.limit {
                Some(x) => Some(dec_str(x as nat)),
                None => None,
            },
        ) + opt_pair(
            "offset"@,
            match self.offset {
                Some(x) => Some(dec_str(x as nat)),
                None => None,
            },
        )
    }

    /// Convert the parameters into URL query pairs.
    pub fn to_pairs(&self) -> (r: Vec<(&'static str, String)>)
        ensures
            pair_views(r@) == self.pairs_spec(),
    {
        let mut params = QueryParams::new();
        params.push_opt(
            "name",
            match &self.name {
                Some(v) => Some(v.clone()),
                None => None,
            },
        );
        params.push_opt(
            "version",
            match &self.version {
                Some(v) => Some(v.clone()),
                None => None,
            },
        );
        params.push_opt(
            "memory",
            match &self.memory {
                Some(x) => Some(u64_to_string(*x)),
                None => None,
            },
        );
        params.push_opt(
            "vcpus",
            match &self.vcpus {
                Some(x) => Some(u32_to_string(*x)),
                None => None,
            },
        );
        params.push_opt(
            "brand",
            match &self.brand {
                Some(v) => Some(v.clone()),
                None => None,
            },
        );
        params.push_opt(
            "os",
            match &self.os {
                Some(v) => Some(v.clone()),
                None => None,
            },
        );
        params.push_opt(
            "group",
            match &self.group {
                Some(v) => Some(v.clone()),
                None => None,
            },
        );
        params.push_opt(
            "active",
            match &self.active {
                Some(b) => Some(bool_to_string(*b)),
                None => None,
            },
        );
        params.push_opt(
            "default",
            match &self.default {
                Some(b) => Some(bool_to_string(*b)),
                None => None,
            },
        );
        params.push_opt(
            "owner_uuid",
            match &self.owner_uuid {
                Some(u) => Some(u.to_uuid_string()),
                None => None,
            },
        );
        params.push_opt(
            "trait",
            match &self.trait_id {
                Some(v) => Some(v.clone()),
                None => None,
            },
        );
        params.push_opt(
            "trait_val",
            match &self.trait_val {
                Some(b) => Some(bool_to_string(*b)),
                None => None,
            },
        );
        params.push_opt(
            "limit",
            match &self.limit {
                Some(x) => Some(u32_to_string(*x)),
                None => None,
            },
        );
        params.push_opt(
            "offset",
            match &self.offset {
                Some(x) => Some(u32_to_string(*x)),
                None => None,
            },
        );
        let r = params.into_pairs();
        proof {
            assert(pair_views(r@) =~= self.pairs_spec());
        }
        r
    }
}

impl Default for PackageListParams {
    /// No filters are set by default.
    fn default() -> (r: Self)
        ensures
            r.name is None,
            r.version is None,
            r.memory is None,
            r.vcpus is None,
            r.brand is None,
            r.os is None,
            r.group is None,
            r.active is None,
            r.default is None,
            r.owner_uuid is None,
            r.trait_id is None,
            r.trait_val is None,
            r.limit is None,
            r.offset is None,
    {
        Self {
            name: None,
            version: None,
            memory: None,
            vcpus: None,
            brand: None,
            os: None,
            group: None,
            active: None,
            default: None,
            owner_uuid: None,
            trait_id: None,
            trait_val: None,
            limit: None,
            offset: None,
        }
    }
}

/// Classify a non-success PAPI response status into the error taxonomy.
/// 404 is a missing resource; 400 is a bad request; 409 a conflict; 401 and 403 are authentication
/// failures; 429, 502, 503, 504 and other 5xx are transient; everything
/// else is a terminal HTTP failure.
pub fn map_status_to_error(status: u16, text: String) -> (r: Error)
    ensures
        status == 404 ==> r == Error::NotFound(text),
        status == 400 ==> r == Error::BadRequest(text),
        status == 409 ==> r == Error::Conflict(text),
        (status == 401 || status == 403) ==> (r matches Error::InvalidRequest(m) && m@
            == "PAPI authentication failed: "@ + text@),
        (status == 429 || status == 502 || status == 503 || status == 504) ==> (r matches
            Error::ServiceUnavailable(m) && m@ == "PAPI temporarily unavailable: "@ + text@),
        (500 <= status < 600 && status != 502 && status != 503 && status != 504) ==> (r matches
            Error::ServiceUnavailable(m) && m@ == "PAPI server error "@ + dec_str(status as nat)
            + ": "@ + text@),
        !(status == 404 || status == 400 || status == 409 || status == 401 || status == 403 || retryable_status(status))
            ==> (r matches Error::HttpError(m) && m@ == "PAPI error "@ + dec_str(status as nat)
            + ": "@ + text@),
{
    if status == 404 {
        Error::NotFound(text)
    } else if status == 400 {
        Error::BadRequest(text)
    } else if status == 409 {
        Error::Conflict(text)
    } else if status == 401 || status == 403 {
        let mut m = "PAPI authentication failed: ".to_owned();
        m.append(text.as_str());
        Error::InvalidRequest(m)
    } else if status == 429 || status == 502 || status == 503 || status == 504 {
        let mut m = "PAPI temporarily unavailable: ".to_owned();
        m.append(text.as_str());
        Error::ServiceUnavailable(m)
    } else if 500 <= status && status < 600 {
        let mut m = "PAPI server error ".to_owned();
        let st = u16_to_string(status);
        m.append(st.as_str());
        m.append(": ");
        m.append(text.as_str());
        Error::ServiceUnavailable(m)
    } else {
        let mut m = "PAPI error ".to_owned();
        let st = u16_to_string(status);
        m.append(st.as_str());
        m.append(": ");
        m.append(text.as_str());
        Error::HttpError(m)
    }
}

/// Discovery adapter that narrows a shared discovery source to the PAPI
/// service, with its own telemetry.
pub struct PapiDiscovery<D: ServiceDiscovery> {
    /// The per-service telemetry proxy over the shared source.
    pub proxy: ServiceDiscoveryProxy<D>,
}

impl<D: ServiceDiscovery> PapiDiscovery<D> {
    /// Create a discovery wrapper from an existing discovery source.
    pub fn new(discovery_source: D) -> (r: Self)
        ensures
            r.proxy.service_name@ == TritonService::Papi.name_spec(),
            r.proxy.status.last_error is None,
            r.proxy.status.discovered_services == 0,
            r.proxy.status.cache_hits == 0,
            r.proxy.status.cache_misses == 0,
    {
        Self { proxy: ServiceDiscoveryProxy::for_service(discovery_source, TritonService::Papi) }
    }
}

impl<D: ServiceDiscovery> ServiceDiscovery for PapiDiscovery<D> {
    fn discover_service(&mut self, service_name: &str) -> Result<Vec<String>, Error> {
        self.proxy.discover_recorded(service_name)
    }

    fn discover_all_services(&mut self) -> Result<Vec<String>, Error> {
        self.proxy.discover_own_service()
    }

    fn get_status(&self) -> DiscoveryStatus {
        self.proxy.status_snapshot()
    }

    fn clear_cache(&mut self) {
        self.proxy.reset_counters()
    }

    fn is_service_available(&mut self, service_name: &str) -> bool {
        match self.proxy.discover_recorded(service_name) {
            Ok(_) => true,
            Err(_) => false,
        }
    }
}


/// Package network definition.
#[derive(Debug)]
pub struct PackageNetwork {
    /// Network name.
    pub name: Option<String>,
    /// Description.
    pub description: Option<String>,
    /// Gateway address.
    pub gateway: Option<String>,
    /// IP address.
    pub ip: Option<String>,
    /// Netmask.
    pub netmask: Option<String>,
    /// Network UUID.
    pub network_uuid: Option<crate::uuid::NetworkUuid>,
    /// Whether this NIC should be primary.
    pub primary: Option<bool>,
    /// Subnet.
    pub subnet: Option<String>,
    /// VLAN identifier.
    pub vlan_id: Option<u16>,
    /// NIC tag name.
    pub nic_tag: Option<String>,
    /// Whether the NIC is physical.
    pub physical: Option<bool>,
}

} // verus!
