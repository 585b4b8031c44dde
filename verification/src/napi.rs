//! NAPI (network API) models and service adapters.

use vstd::prelude::*;

use crate::client::retryable_status;
use crate::error::Error;
use crate::query::opt_pair;
use crate::query::pair_views;
use crate::query::QueryParams;
use crate::services::DiscoveryStatus;
use crate::services::ServiceDiscovery;
use crate::services::ServiceDiscoveryProxy;
use crate::text::bool_str;
use crate::text::bool_to_string;
use crate::text::dec_str;
use crate::text::u16_to_string;
use crate::text::u32_to_string;
use crate::types::TritonService;
use crate::uuid::uuid_chars;
use crate::uuid::NetworkUuid;
use crate::uuid::OwnerUuid;

verus! {

/// Parameters supported by the `/networks` list endpoint.
#[derive(Debug)]
pub struct NetworkListParams {
    /// Filter by human-friendly network name.
    pub name: Option<String>,
    /// Filter by network UUID.
    pub uuid: Option<NetworkUuid>,
    /// Filter by VLAN identifier.
    pub vlan_id: Option<u16>,
    /// Filter by owning account UUID.
    pub owner_uuid: Option<OwnerUuid>,
    /// Filter by directory user allowed to provision.
    pub provisionable_by: Option<String>,
    /// Limit to fabric networks.
    pub fabric: Option<bool>,
    /// Maximum number of results (1-1000).
    pub limit: Option<u32>,
    /// Offset for pagination.
    pub offset: Option<u32>,
}

impl NetworkListParams {
    /// The query pairs these parameters produce, in order.
    pub open spec fn pairs_spec(self) -> Seq<(Seq<char>, Seq<char>)> {
        opt_pair(
            "name"@,
            match self.name {
                Some(v) => Some(v@),
                None => None,
            },
        ) + opt_pair(
            "uuid"@,
            match self.uuid {
                Some(u) => Some(uuid_chars(u.0.hi, u.0.lo)),
                None => None,
            },
        ) + opt_pair(
            "vlan_id"@,
            match self.vlan_id {
                Some(x) => Some(dec_str(x as nat)),
                None => None,
            },
        ) + opt_pair(
            "owner_uuid"@,
            match self.owner_uuid {
                Some(u) => Some(uuid_chars(u.0.hi, u.0.lo)),
                None => None,
            },
        ) + opt_pair(
            "provisionable_by"@,
            match self.provisionable_by {
                Some(v) => Some(v@),
                None => None,
            },
        ) + opt_pair(
            "fabric"@,
            match self.fabric {
                Some(b) => Some(bool_str(b)),
                None => None,
            },
        ) + opt_pair(
            "limit"@,
            match self.limit {
                Some(x) => Some(dec_str(x as nat)),
                None => None,
            },
        ) + opt_pair(
            "offset"@,
            match self.offset {
                Some(x) => Some(dec_str(x as nat)),
                None => None,
            },
        )
    }

    /// Convert the parameters into URL query pairs.
    pub fn to_pairs(&self) -> (r: Vec<(&'static str, String)>)
        ensures
            pair_views(r@) == self.pairs_spec(),
    {
        let mut params = QueryParams::new();
        params.push_opt(
            "name",
            match &self.name {
                Some(v) => Some(v.clone()),
                None => None,
            },
        );
        params.push_opt(
            "uuid",
            match &self.uuid {
                Some(u) => Some(u.to_uuid_string()),
                None => None,
            },
        );
        params.push_opt(
            "vlan_id",
            match &self.vlan_id {
                Some(x) => Some(u16_to_string(*x)),
                None => None,
            },
        );
        params.push_opt(
            "owner_uuid",
            match &self.owner_uuid {
                Some(u) => Some(u.to_uuid_string()),
                None => None,
            },
        );
        params.push_opt(
            "provisionable_by",
            match &self.provisionable_by {
                Some(v) => Some(v.clone()),
                None => None,
            },
        );
        params.push_opt(
            "fabric",
            match &self.fabric {
                Some(b) => Some(bool_to_string(*b)),
                None => None,
            },
        );
        params.push_opt(
            "limit",
            match &self.limit {
                Some(x) => Some(u32_to_string(*x)),
                None => None,
            },
        );
        params.push_opt(
            "offset",
            match &self.offset {
                Some(x) => Some(u32_to_string(*x)),
                None => None,
            },
        );
        let r = params.into_pairs();
        proof {
            assert(pair_views(r@) =~= self.pairs_spec());
        }
        r
    }
}

impl Default for NetworkListParams {
    /// No filters are set by default.
    fn default() -> (r: Self)
        ensures
            r.name is None,
            r.uuid is None,
            r.vlan_id is None,
            r.owner_uuid is None,
            r.provisionable_by is None,
            r.fabric is None,
            r.limit is None,
            r.offset is None,
    {
        Self {
            name: None,
            uuid: None,
            vlan_id: None,
            owner_uuid: None,
            provisionable_by: None,
            fabric: None,
            limit: None,
            offset: None,
        }
    }
}

/// Classify a non-success NAPI response status into the error taxonomy.
/// 404 is a missing resource; 401 and 403 are authentication
/// failures; 429, 502, 503, 504 and other 5xx are transient; everything
/// else is a terminal HTTP failure.
pub fn map_status_to_error(status: u16, text: String) -> (r: Error)
    ensures
        status == 404 ==> r == Error::NotFound(text),
        (status == 401 || status == 403) ==> (r matches Error::InvalidRequest(m) && m@
            == "NAPI authentication failed: "@ + text@),
        (status == 429 || status == 502 || status == 503 || status == 504) ==> (r matches
            Error::ServiceUnavailable(m) && m@ == "NAPI temporarily unavailable: "@ + text@),
        (500 <= status < 600 && status != 502 && status != 503 && status != 504) ==> (r matches
            Error::ServiceUnavailable(m) && m@ == "NAPI server error "@ + dec_str(status as nat)
            + ": "@ + text@),
        !(status == 404 || status == 401 || status == 403 || retryable_status(status))
            ==> (r matches Error::HttpError(m) && m@ == "NAPI error "@ + dec_str(status as nat)
            + ": "@ + text@),
{
    if status == 404 {
        Error::NotFound(text)
    } else if status == 401 || status == 403 {
        let mut m = "NAPI authentication failed: ".to_owned();
        m.append(text.as_str());
        Error::InvalidRequest(m)
    } else if status == 429 || status == 502 || status == 503 || status == 504 {
        let mut m = "NAPI temporarily unavailable: ".to_owned();
        m.append(text.as_str());
        Error::ServiceUnavailable(m)
    } else if 500 <= status && status < 600 {
        let mut m = "NAPI server error ".to_owned();
        let st = u16_to_string(status);
        m.append(st.as_str());
        m.append(": ");
        m.append(text.as_str());
        Error::ServiceUnavailable(m)
    } else {
        let mut m = "NAPI error ".to_owned();
        let st = u16_to_string(status);
        m.append(st.as_str());
        m.append(": ");
        m.append(text.as_str());
        Error::HttpError(m)
    }
}

/// Discovery adapter that narrows a shared discovery source to the NAPI
/// service, with its own telemetry.
pub struct NapiDiscovery<D: ServiceDiscovery> {
    /// The per-service telemetry proxy over the shared source.
    pub proxy: ServiceDiscoveryProxy<D>,
}

impl<D: ServiceDiscovery> NapiDiscovery<D> {
    /// Create a discovery wrapper from an existing discovery source.
    pub fn new(discovery_source: D) -> (r: Self)
        ensures
            r.proxy.service_name@ == TritonService::Napi.name_spec(),
            r.proxy.status.last_error is None,
            r.proxy.status.discovered_services == 0,
            r.proxy.status.cache_hits == 0,
            r.proxy.status.cache_misses == 0,
    {
        Self { proxy: ServiceDiscoveryProxy::for_service(discovery_source, TritonService::Napi) }
    }
}

impl<D: ServiceDiscovery> ServiceDiscovery for NapiDiscovery<D> {
    fn discover_service(&mut self, service_name: &str) -> Result<Vec<String>, Error> {
        self.proxy.discover_recorded(service_name)
    }

    fn discover_all_services(&mut self) -> Result<Vec<String>, Error> {
        self.proxy.discover_own_service()
    }

    fn get_status(&self) -> DiscoveryStatus {
        self.proxy.status_snapshot()
    }

    fn clear_cache(&mut self) {
        self.proxy.reset_counters()
    }

    fn is_service_available(&mut self, service_name: &str) -> bool {
        match self.proxy.discover_recorded(service_name) {
            Ok(_) => true,
            Err(_) => false,
        }
    }
}


/// Network representation returned by the network API.
#[derive(Debug)]
pub struct Network {
    /// Network UUID.
    pub uuid: NetworkUuid,
    /// Network name.
    pub name: String,
    /// VLAN identifier.
    pub vlan_id: u16,
    /// Subnet in CIDR notation.
    pub subnet: String,
    /// Netmask string.
    pub netmask: String,
    /// Default gateway.
    pub gateway: Option<String>,
    /// Start of the provisionable IP range.
    pub provision_start_ip: Option<String>,
    /// End of the provisionable IP range.
    pub provision_end_ip: Option<String>,
    /// NIC tag associated with the network.
    pub nic_tag: String,
    /// Optional description.
    pub description: Option<String>,
    /// Owner UUIDs that can manage the network.
    pub owner_uuids: Option<Vec<OwnerUuid>>,
    /// Static routes, keyed by destination.
    pub routes: Option<Vec<(String, String)>>,
    /// Resolver IP addresses.
    pub resolvers: Option<Vec<String>>,
    /// Whether the network is a fabric network.
    pub fabric: Option<bool>,
    /// Internet NAT flag.
    pub internet_nat: Option<bool>,
    /// MTU value.
    pub mtu: Option<u32>,
    /// Address family (ipv4/ipv6).
    pub family: Option<String>,
    /// VNET identifier.
    pub vnet_id: Option<u32>,
    /// Gateway provisioning flag.
    pub gateway_provisioned: Option<bool>,
}

/// Network pool representation.
#[derive(Debug)]
pub struct NetworkPool {
    /// Pool UUID.
    pub uuid: String,
    /// Pool name.
    pub name: String,
    /// Optional description.
    pub description: Option<String>,
    /// Networks in the pool.
    pub networks: Vec<NetworkUuid>,
    /// Primary NIC tag.
    pub nic_tag: Option<String>,
    /// Present NIC tags.
    pub nic_tags_present: Option<Vec<String>>,
    /// Address family.
    pub family: Option<String>,
    /// Owner UUIDs.
    pub owner_uuids: Option<Vec<OwnerUuid>>,
}


/// Request payload to create a network.
#[derive(Debug)]
pub struct CreateNetworkRequest {
    /// Network name.
    pub name: String,
    /// VLAN identifier.
    pub vlan_id: u16,
    /// Subnet in CIDR notation.
    pub subnet: String,
    /// Netmask string.
    pub netmask: String,
    /// Default gateway.
    pub gateway: Option<String>,
    /// Provision start IP.
    pub provision_start_ip: Option<String>,
    /// Provision end IP.
    pub provision_end_ip: Option<String>,
    /// NIC tag.
    pub nic_tag: String,
    /// Optional description.
    pub description: Option<String>,
    /// Owner UUIDs.
    pub owner_uuids: Option<Vec<OwnerUuid>>,
    /// Static routes, keyed by destination.
    pub routes: Option<Vec<(String, String)>>,
    /// DNS resolvers.
    pub resolvers: Option<Vec<String>>,
    /// Fabric network flag.
    pub fabric: Option<bool>,
    /// Internet NAT flag.
    pub internet_nat: Option<bool>,
    /// MTU value.
    pub mtu: Option<u32>,
}

/// Request payload to update a network.
#[derive(Debug)]
pub struct UpdateNetworkRequest {
    /// New network name.
    pub name: Option<String>,
    /// Updated provision start IP.
    pub provision_start_ip: Option<String>,
    /// Updated provision end IP.
    pub provision_end_ip: Option<String>,
    /// Updated resolvers.
    pub resolvers: Option<Vec<String>>,
    /// Updated static routes, keyed by destination.
    pub routes: Option<Vec<(String, String)>>,
    /// Updated owner UUIDs.
    pub owner_uuids: Option<Vec<OwnerUuid>>,
}

} // verus!
