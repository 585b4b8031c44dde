//! CNAPI (compute node API) models and service adapters.

use vstd::prelude::*;

use crate::client::retryable_status;
use crate::error::Error;
use crate::query::opt_pair;
use crate::query::pair_views;
use crate::query::QueryParams;
use crate::services::DiscoveryStatus;
use crate::services::ServiceDiscovery;
use crate::services::ServiceDiscoveryProxy;
use crate::text::bool_str;
use crate::text::bool_to_string;
use crate::text::dec_str;
use crate::text::u16_to_string;
use crate::text::u32_to_string;
use crate::types::TritonService;
use crate::uuid::uuid_chars;
use crate::uuid::ServerUuid;

verus! {

/// The hyphenated texts of a list of server UUIDs, joined with commas.
pub open spec fn join_uuids(us: Seq<ServerUuid>) -> Seq<char>
    decreases us.len(),
{
    if us.len() == 0 {
        Seq::empty()
    } else if us.len() == 1 {
        uuid_chars(us[0].0.hi, us[0].0.lo)
    } else {
        uuid_chars(us[0].0.hi, us[0].0.lo) + ","@ + join_uuids(us.drop_first())
    }
}

proof fn lemma_join_uuids_push(us: Seq<ServerUuid>, x: ServerUuid)
    ensures
        join_uuids(us.push(x)) == if us.len() == 0 {
            uuid_chars(x.0.hi, x.0.lo)
        } else {
            join_uuids(us) + ","@ + uuid_chars(x.0.hi, x.0.lo)
        },
    decreases us.len(),
{
    let up = us.push(x);
    if us.len() == 0 {
        assert(up.len() == 1);
        assert(up[0] == x);
    } else {
        assert(up[0] == us[0]);
        assert(up.drop_first() =~= us.drop_first().push(x));
        lemma_join_uuids_push(us.drop_first(), x);
        if us.len() == 1 {
            assert(us.drop_first().len() == 0);
        } else {
            assert(uuid_chars(us[0].0.hi, us[0].0.lo) + ","@ + (join_uuids(us.drop_first())
                + ","@ + uuid_chars(x.0.hi, x.0.lo)) =~= (uuid_chars(us[0].0.hi, us[0].0.lo)
                + ","@ + join_uuids(us.drop_first())) + ","@ + uuid_chars(x.0.hi, x.0.lo));
        }
    }
}

/// Join a list of server UUIDs with commas.
fn join_uuid_list(us: &Vec<ServerUuid>) -> (r: String)
    ensures
        r@ == join_uuids(us@),
{
    let mut out = String::new();
    let mut i: usize = 0;
    while i < us.len()
        invariant
            i <= us@.len(),
            out@ == join_uuids(us@.subrange(0, i as int)),
        decreases us@.len() - i,
    {
        if i > 0 {
            out.push(',');
        }
        let piece = us[i].to_uuid_string();
        out.append(piece.as_str());
        proof {
            reveal_strlit(",");
            let prefix = us@.subrange(0, i as int);
            assert(us@.subrange(0, i + 1) =~= prefix.push(us@[i as int]));
            lemma_join_uuids_push(prefix, us@[i as int]);
            if i == 0 {
                assert(out@ =~= uuid_chars(us@[i as int].0.hi, us@[i as int].0.lo));
            } else {
                assert(out@ =~= join_uuids(prefix) + ","@ + uuid_chars(
                    us@[i as int].0.hi,
                    us@[i as int].0.lo,
                ));
            }
        }
        i = i + 1;
    }
    proof {
        assert(us@.subrange(0, us@.len() as int) =~= us@);
    }
    out
}

/// Parameters supported by the `/servers` list endpoint.
#[derive(Debug)]
pub struct ServerListParams {
    /// Filter by datacenter name.
    pub datacenter: Option<String>,
    /// Filter by hostname (exact match).
    pub hostname: Option<String>,
    /// Filter by a single server UUID.
    pub uuid: Option<ServerUuid>,
    /// Filter by multiple UUIDs.
    pub uuids: Option<Vec<ServerUuid>>,
    /// Only setup servers.
    pub setup: Option<bool>,
    /// Only reserved servers.
    pub reserved: Option<bool>,
    /// Only headnodes.
    pub headnode: Option<bool>,
    /// Only reservoir servers.
    pub reservoir: Option<bool>,
    /// Comma-separated extras (agents, vms, sysinfo, capacity, all).
    pub extras: Option<String>,
    /// Comma-separated list of explicit fields to return.
    pub fields: Option<String>,
    /// Maximum number of results (1-1000).
    pub limit: Option<u32>,
    /// Offset for pagination.
    pub offset: Option<u32>,
}

impl ServerListParams {
    /// The query pairs these parameters produce, in order.
    pub open spec fn pairs_spec(self) -> Seq<(Seq<char>, Seq<char>)> {
        opt_pair(
            "datacenter"@,
            match self.datacenter {
                Some(v) => Some(v@),
                None => None,
            },
        ) + opt_pair(
            "hostname"@,
            match self.hostname {
                Some(v) => Some(v@),
                None => None,
            },
        ) + opt_pair(
            "uuid"@,
            match self.uuid {
                Some(u) => Some(uuid_chars(u.0.hi, u.0.lo)),
                None => None,
            },
        ) + opt_pair(
            "uuids"@,
            match self.uuids {
                Some(us) => Some(join_uuids(us@)),
                None => None,
            },
        ) + opt_pair(
            "setup"@,
            match self.setup {
                Some(b) => Some(bool_str(b)),
                None => None,
            },
        ) + opt_pair(
            "reserved"@,
            match self.reserved {
                Some(b) => Some(bool_str(b)),
                None => None,
            },
        ) + opt_pair(
            "headnode"@,
            match self.headnode {
                Some(b) => Some(bool_str(b)),
                None => None,
            },
        ) + opt_pair(
            "reservoir"@,
            match self.reservoir {
                Some(b) => Some(bool_str(b)),
                None => None,
            },
        ) + opt_pair(
            "extras"@,
            match self.extras {
                Some(v) => Some(v@),
                None => None,
            },
        ) + opt_pair(
            "fields"@,
            match self.fields {
                Some(v) => Some(v@),
                None => None,
            },
        ) + opt_pair(
            "limit"@,
            match self.limit {
                Some(x) => Some(dec_str(x as nat)),
                None => None,
            },
        ) + opt_pair(
            "offset"@,
            match self.offset {
                Some(x) => Some(dec_str(x as nat)),
                None => None,
            },
        )
    }

    /// Convert the parameters into URL query pairs.
    #[verifier::rlimit(100)]
    pub fn to_pairs(&self) -> (r: Vec<(&'static str, String)>)
        ensures
            pair_views(r@) == self.pairs_spec(),
    {
        let mut params = QueryParams::new();
        params.push_opt(
            "datacenter",
            match &self.datacenter {
                Some(v) => Some(v.clone()),
                None => None,
            },
        );
        params.push_opt(
            "hostname",
            match &self.hostname {
                Some(v) => Some(v.clone()),
                None => None,
            },
        );
        params.push_opt(
            "uuid",
            match &self.uuid {
                Some(u) => Some(u.to_uuid_string()),
                None => None,
            },
        );
        params.push_opt(
            "uuids",
            match &self.uuids {
                Some(us) => Some(join_uuid_list(us)),
                None => None,
            },
        );
        params.push_opt(
            "setup",
            match &self.setup {
                Some(b) => Some(bool_to_string(*b)),
                None => None,
            },
        );
        params.push_opt(
            "reserved",
            match &self.reserved {
                Some(b) => Some(bool_to_string(*b)),
                None => None,
            },
        );
        params.push_opt(
            "headnode",
            match &self.headnode {
                Some(b) => Some(bool_to_string(*b)),
                None => None,
            },
        );
        params.push_opt(
            "reservoir",
            match &self.reservoir {
                Some(b) => Some(bool_to_string(*b)),
                None => None,
            },
        );
        params.push_opt(
            "extras",
            match &self.extras {
                Some(v) => Some(v.clone()),
                None => None,
            },
        );
        params.push_opt(
            "fields",
            match &self.fields {
                Some(v) => Some(v.clone()),
                None => None,
            },
        );
        params.push_opt(
            "limit",
            match &self.limit {
                Some(x) => Some(u32_to_string(*x)),
                None => None,
            },
        );
        params.push_opt(
            "offset",
            match &self.offset {
                Some(x) => Some(u32_to_string(*x)),
                None => None,
            },
        );
        let r = params.into_pairs();
        proof {
            assert(pair_views(r@) =~= self.pairs_spec());
        }
        r
    }
}

impl Default for ServerListParams {
    /// No filters are set by default.
    fn default() -> (r: Self)
        ensures
            r.datacenter is None,
            r.hostname is None,
            r.uuid is None,
            r.uuids is None,
            r.setup is None,
            r.reserved is None,
            r.headnode is None,
            r.reservoir is None,
            r.extras is None,
            r.fields is None,
            r.limit is None,
            r.offset is None,
    {
        Self {
            datacenter: None,
            hostname: None,
            uuid: None,
            uuids: None,
            setup: None,
            reserved: None,
            headnode: None,
            reservoir: None,
            extras: None,
            fields: None,
            limit: None,
            offset: None,
        }
    }
}

/// Classify a non-success CNAPI response status into the error taxonomy.
/// 404 is a missing resource; 401 and 403 are authentication
/// failures; 429, 502, 503, 504 and other 5xx are transient; everything
/// else is a terminal HTTP failure.
pub fn map_status_to_error(status: u16, text: String) -> (r: Error)
    ensures
        status == 404 ==> r == Error::NotFound(text),
        (status == 401 || status == 403) ==> (r matches Error::InvalidRequest(m) && m@
            == "CNAPI authentication failed: "@ + text@),
        (status == 429 || status == 502 || status == 503 || status == 504) ==> (r matches
            Error::ServiceUnavailable(m) && m@ == "CNAPI temporarily unavailable: "@ + text@),
        (500 <= status < 600 && status != 502 && status != 503 && status != 504) ==> (r matches
            Error::ServiceUnavailable(m) && m@ == "CNAPI server error "@ + dec_str(status as nat)
            + ": "@ + text@),
        !(status == 404 || status == 401 || status == 403 || retryable_status(status))
            ==> (r matches Error::HttpError(m) && m@ == "CNAPI error "@ + dec_str(status as nat)
            + ": "@ + text@),
{
    if status == 404 {
        Error::NotFound(text)
    } else if status == 401 || status == 403 {
        let mut m = "CNAPI authentication failed: ".to_owned();
        m.append(text.as_str());
        Error::InvalidRequest(m)
    } else if status == 429 || status == 502 || status == 503 || status == 504 {
        let mut m = "CNAPI temporarily unavailable: ".to_owned();
        m.append(text.as_str());
        Error::ServiceUnavailable(m)
    } else if 500 <= status && status < 600 {
        let mut m = "CNAPI server error ".to_owned();
        let st = u16_to_string(status);
        m.append(st.as_str());
        m.append(": ");
        m.append(text.as_str());
        Error::ServiceUnavailable(m)
    } else {
        let mut m = "CNAPI error ".to_owned();
        let st = u16_to_string(status);
        m.append(st.as_str());
        m.append(": ");
        m.append(text.as_str());
        Error::HttpError(m)
    }
}

/// Discovery adapter that narrows a shared discovery source to the CNAPI
/// service, with its own telemetry.
pub struct CnapiDiscovery<D: ServiceDiscovery> {
    /// The per-service telemetry proxy over the shared source.
    pub proxy: ServiceDiscoveryProxy<D>,
}

impl<D: ServiceDiscovery> CnapiDiscovery<D> {
    /// Create a discovery wrapper from an existing discovery source.
    pub fn new(discovery_source: D) -> (r: Self)
        ensures
            r.proxy.service_name@ == TritonService::Cnapi.name_spec(),
            r.proxy.status.last_error is None,
            r.proxy.status.discovered_services == 0,
            r.proxy.status.cache_hits == 0,
            r.proxy.status.cache_misses == 0,
    {
        Self { proxy: ServiceDiscoveryProxy::for_service(discovery_source, TritonService::Cnapi) }
    }
}

impl<D: ServiceDiscovery> ServiceDiscovery for CnapiDiscovery<D> {
    fn discover_service(&mut self, service_name: &str) -> Result<Vec<String>, Error> {
        self.proxy.discover_recorded(service_name)
    }

    fn discover_all_services(&mut self) -> Result<Vec<String>, Error> {
        self.proxy.discover_own_service()
    }

    fn get_status(&self) -> DiscoveryStatus {
        self.proxy.status_snapshot()
    }

    fn clear_cache(&mut self) {
        self.proxy.reset_counters()
    }

    fn is_service_available(&mut self, service_name: &str) -> bool {
        match self.proxy.discover_recorded(service_name) {
            Ok(_) => true,
            Err(_) => false,
        }
    }
}


/// Compute node capacity summary.
#[derive(Debug, Clone, Copy, PartialEq, Eq, Structural)]
pub struct ServerCapacity {
    /// Unreserved CPU (cores).
    pub unreserved_cpu: i64,
    /// Unreserved RAM in MiB.
    pub unreserved_ram: i64,
    /// Unreserved disk in GiB.
    pub unreserved_disk: i64,
}

impl Default for ServerCapacity {
    /// No capacity is unreserved by default.
    fn default() -> (r: Self)
        ensures
            r.unreserved_cpu == 0,
            r.unreserved_ram == 0,
            r.unreserved_disk == 0,
    {
        Self { unreserved_cpu: 0, unreserved_ram: 0, unreserved_disk: 0 }
    }
}

/// Representation of a server NIC.
#[derive(Debug)]
pub struct ServerNic {
    /// Logical interface name.
    pub interface: String,
    /// MAC address.
    pub mac: String,
    /// IPv4 address if present.
    pub ip4addr: Option<String>,
    /// Netmask string.
    pub netmask: Option<String>,
    /// Supplied NIC tags.
    pub nic_tags_provided: Option<Vec<String>>,
    /// Link status (up/down).
    pub link_status: Option<String>,
}

} // verus!
