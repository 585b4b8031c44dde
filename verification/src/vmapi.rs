//! VMAPI (virtual machine API) models and service adapters.

use vstd::prelude::*;

use crate::client::retryable_status;
use crate::error::Error;
use crate::query::opt_pair;
use crate::query::pair_views;
use crate::query::QueryParams;
use crate::services::DiscoveryStatus;
use crate::services::ServiceDiscovery;
use crate::services::ServiceDiscoveryProxy;
use crate::text::dec_str;
use crate::text::u16_to_string;
use crate::text::u32_to_string;
use crate::types::TritonService;
use crate::uuid::uuid_chars;
use crate::uuid::ImageUuid;
use crate::uuid::InstanceUuid;
use crate::uuid::NetworkUuid;
use crate::uuid::OwnerUuid;
use crate::uuid::ServerUuid;

verus! {

/// Parameters supported by the `/vms` list endpoint.
#[derive(Debug)]
pub struct VMListParams {
    /// Filter by owning account UUID.
    pub owner_uuid: Option<OwnerUuid>,
    /// Filter by VM state (running, stopped, and so on).
    pub state: Option<String>,
    /// Filter by alias (hostname).
    pub alias: Option<String>,
    /// Filter by compute node UUID.
    pub server_uuid: Option<ServerUuid>,
    /// Filter by image UUID.
    pub image_uuid: Option<ImageUuid>,
    /// Filter by VM brand (joyent, kvm, bhyve, and so on).
    pub brand: Option<String>,
    /// Maximum number of results (1-1000).
    pub limit: Option<u32>,
    /// Offset for pagination.
    pub offset: Option<u32>,
    /// Comma-separated list of fields to return.
    pub fields: Option<String>,
}

impl VMListParams {
    /// The query pairs these parameters produce, in order.
    pub open spec fn pairs_spec(self) -> Seq<(Seq<char>, Seq<char>)> {
        opt_pair(
            "owner_uuid"@,
            match self.owner_uuid {
                Some(u) => Some(uuid_chars(u.0.hi, u.0.lo)),
                None => None,
            },
        ) + opt_pair(
            "state"@,
            match self.state {
                Some(v) => Some(v@),
                None => None,
            },
        ) + opt_pair(
            "alias"@,
            match self.alias {
                Some(v) => Some(v@),
                None => None,
            },
        ) + opt_pair(
            "server_uuid"@,
            match self.server_uuid {
                Some(u) => Some(uuid_chars(u.0.hi, u.0.lo)),
                None => None,
            },
        ) + opt_pair(
            "image_uuid"@,
            match self.image_uuid {
                Some(u) => Some(uuid_chars(u.0.hi, u.0.lo)),
                None => None,
            },
        ) + opt_pair(
            "brand"@,
            match self.brand {
                Some(v) => Some(v@),
                None => None,
            },
        ) + opt_pair(
            "limit"@,
            match self.limit {
                Some(x) => Some(dec_str(x as nat)),
                None => None,
            },
        ) + opt_pair(
            "offset"@,
            match self.offset {
                Some(x) => Some(dec_str(x as nat)),
                None => None,
            },
        ) + opt_pair(
            "fields"@,
            match self.fields {
                Some(v) => Some(v@),
                None => None,
            },
        )
    }

    /// Convert the parameters into URL query pairs.
    pub fn to_pairs(&self) -> (r: Vec<(&'static str, String)>)
        ensures
            pair_views(r@) == self.pairs_spec(),
    {
        let mut params = QueryParams::new();
        params.push_opt(
            "owner_uuid",
            match &self.owner_uuid {
                Some(u) => Some(u.to_uuid_string()),
                None => None,
            },
        );
        params.push_opt(
            "state",
            match &self.state {
                Some(v) => Some(v.clone()),
                None => None,
            },
        );
        params.push_opt(
            "alias",
            match &self.alias {
                Some(v) => Some(v.clone()),
                None => None,
            },
        );
        params.push_opt(
            "server_uuid",
            match &self.server_uuid {
                Some(u) => Some(u.to_uuid_string()),
                None => None,
            },
        );
        params.push_opt(
            "image_uuid",
            match &self.image_uuid {
                Some(u) => Some(u.to_uuid_string()),
                None => None,
            },
        );
        params.push_opt(
            "brand",
            match &self.brand {
                Some(v) => Some(v.clone()),
                None => None,
            },
        );
        params.push_opt(
            "limit",
            match &self.limit {
                Some(x) => Some(u32_to_string(*x)),
                None => None,
            },
        );
        params.push_opt(
            "offset",
            match &self.offset {
                Some(x) => Some(u32_to_string(*x)),
                None => None,
            },
        );
        params.push_opt(
            "fields",
            match &self.fields {
                Some(v) => Some(v.clone()),
                None => None,
            },
        );
        let r = params.into_pairs();
        proof {
            assert(pair_views(r@) =~= self.pairs_spec());
        }
        r
    }
}

impl Default for VMListParams {
    /// No filters are set by default.
    fn default() -> (r: Self)
        ensures
            r.owner_uuid is None,
            r.state is None,
            r.alias is None,
            r.server_uuid is None,
            r.image_uuid is None,
            r.brand is None,
            r.limit is None,
            r.offset is None,
            r.fields is None,
    {
        Self {
            owner_uuid: None,
            state: None,
            alias: None,
            server_uuid: None,
            image_uuid: None,
            brand: None,
            limit: None,
            offset: None,
            fields: None,
        }
    }
}

/// Parameters supported by the jobs list endpoint.
#[derive(Debug)]
pub struct JobListParams {
    /// VM UUID filter.
    pub vm_uuid: Option<InstanceUuid>,
    /// Execution filter (running/succeeded/failed).
    pub execution: Option<String>,
    /// Task filter (provision, start, stop, and so on).
    pub task: Option<String>,
    /// Limit.
    pub limit: Option<u32>,
    /// Offset.
    pub offset: Option<u32>,
}

impl JobListParams {
    /// The query pairs these parameters produce, in order.
    pub open spec fn pairs_spec(self) -> Seq<(Seq<char>, Seq<char>)> {
        opt_pair(
            "vm_uuid"@,
            match self.vm_uuid {
                Some(u) => Some(uuid_chars(u.0.hi, u.0.lo)),
                None => None,
            },
        ) + opt_pair(
            "execution"@,
            match self.execution {
                Some(v) => Some(v@),
                None => None,
            },
        ) + opt_pair(
            "task"@,
            match self.task {
                Some(v) => Some(v@),
                None => None,
            },
        ) + opt_pair(
            "limit"@,
            match self.limit {
                Some(x) => Some(dec_str(x as nat)),
                None => None,
            },
        ) + opt_pair(
            "offset"@,
            match self.offset {
                Some(x) => Some(dec_str(x as nat)),
                None => None,
            },
        )
    }

    /// Convert the parameters into URL query pairs.
    pub fn to_pairs(&self) -> (r: Vec<(&'static str, String)>)
        ensures
            pair_views(r@) == self.pairs_spec(),
    {
        let mut params = QueryParams::new();
        params.push_opt(
            "vm_uuid",
            match &self.vm_uuid {
                Some(u) => Some(u.to_uuid_string()),
                None => None,
            },
        );
        params.push_opt(
            "execution",
            match &self.execution {
                Some(v) => Some(v.clone()),
                None => None,
            },
        );
        params.push_opt(
            "task",
            match &self.task {
                Some(v) => Some(v.clone()),
                None => None,
            },
        );
        params.push_opt(
            "limit",
            match &self.limit {
                Some(x) => Some(u32_to_string(*x)),
                None => None,
            },
        );
        params.push_opt(
            "offset",
            match &self.offset {
                Some(x) => Some(u32_to_string(*x)),
                None => None,
            },
        );
        let r = params.into_pairs();
        proof {
            assert(pair_views(r@) =~= self.pairs_spec());
        }
        r
    }
}

impl Default for JobListParams {
    /// No filters are set by default.
    fn default() -> (r: Self)
        ensures
            r.vm_uuid is None,
            r.execution is None,
            r.task is None,
            r.limit is None,
            r.offset is None,
    {
        Self {
            vm_uuid: None,
            execution: None,
            task: None,
            limit: None,
            offset: None,
        }
    }
}

/// Classify a non-success VMAPI response status into the error taxonomy.
/// 404 is a missing resource; 401 and 403 are authentication
/// failures; 429, 502, 503, 504 and other 5xx are transient; everything
/// else is a terminal HTTP failure.
pub fn map_status_to_error(status: u16, text: String) -> (r: Error)
    ensures
        status == 404 ==> r == Error::NotFound(text),
        (status == 401 || status == 403) ==> (r matches Error::InvalidRequest(m) && m@
            == "VMAPI authentication failed: "@ + text@),
        (status == 429 || status == 502 || status == 503 || status == 504) ==> (r matches
            Error::ServiceUnavailable(m) && m@ == "VMAPI temporarily unavailable: "@ + text@),
        (500 <= status < 600 && status != 502 && status != 503 && status != 504) ==> (r matches
            Error::ServiceUnavailable(m) && m@ == "VMAPI server error "@ + dec_str(status as nat)
            + ": "@ + text@),
        !(status == 404 || status == 401 || status == 403 || retryable_status(status))
            ==> (r matches Error::HttpError(m) && m@ == "VMAPI error "@ + dec_str(status as nat)
            + ": "@ + text@),
{
    if status == 404 {
        Error::NotFound(text)
    } else if status == 401 || status == 403 {
        let mut m = "VMAPI authentication failed: ".to_owned();
        m.append(text.as_str());
        Error::InvalidRequest(m)
    } else if status == 429 || status == 502 || status == 503 || status == 504 {
        let mut m = "VMAPI temporarily unavailable: ".to_owned();
        m.append(text.as_str());
        Error::ServiceUnavailable(m)
    } else if 500 <= status && status < 600 {
        let mut m = "VMAPI server error ".to_owned();
        let st = u16_to_string(status);
        m.append(st.as_str());
        m.append(": ");
        m.append(text.as_str());
        Error::ServiceUnavailable(m)
    } else {
        let mut m = "VMAPI error ".to_owned();
        let st = u16_to_string(status);
        m.append(st.as_str());
        m.append(": ");
        m.append(text.as_str());
        Error::HttpError(m)
    }
}

/// Discovery adapter that narrows a shared discovery source to the VMAPI
/// service, with its own telemetry.
pub struct VmapiDiscovery<D: ServiceDiscovery> {
    /// The per-service telemetry proxy over the shared source.
    pub proxy: ServiceDiscoveryProxy<D>,
}

impl<D: ServiceDiscovery> VmapiDiscovery<D> {
    /// Create a discovery wrapper from an existing discovery source.
    pub fn new(discovery_source: D) -> (r: Self)
        ensures
            r.proxy.service_name@ == TritonService::Vmapi.name_spec(),
            r.proxy.status.last_error is None,
            r.proxy.status.discovered_services == 0,
            r.proxy.status.cache_hits == 0,
            r.proxy.status.cache_misses == 0,
    {
        Self { proxy: ServiceDiscoveryProxy::for_service(discovery_source, TritonService::Vmapi) }
    }
}

impl<D: ServiceDiscovery> ServiceDiscovery for VmapiDiscovery<D> {
    fn discover_service(&mut self, service_name: &str) -> Result<Vec<String>, Error> {
        self.proxy.discover_recorded(service_name)
    }

    fn discover_all_services(&mut self) -> Result<Vec<String>, Error> {
        self.proxy.discover_own_service()
    }

    fn get_status(&self) -> DiscoveryStatus {
        self.proxy.status_snapshot()
    }

    fn clear_cache(&mut self) {
        self.proxy.reset_counters()
    }

    fn is_service_available(&mut self, service_name: &str) -> bool {
        match self.proxy.discover_recorded(service_name) {
            Ok(_) => true,
            Err(_) => false,
        }
    }
}


/// Minimal network configuration details.
#[derive(Debug)]
pub struct NetworkConfig {
    /// Network UUID.
    pub uuid: NetworkUuid,
    /// Primary flag.
    pub primary: Option<bool>,
    /// Assigned IP.
    pub ip: Option<String>,
}

/// Request payload for updating a VM.
#[derive(Debug)]
pub struct UpdateVMRequest {
    /// Alias override.
    pub alias: Option<String>,
    /// RAM override, in MiB.
    pub ram: Option<u32>,
    /// CPU shares override.
    pub cpu_shares: Option<u32>,
    /// CPU cap override.
    pub cpu_cap: Option<u32>,
    /// Disk quota override in MiB.
    pub quota: Option<u32>,
    /// Updated tags.
    pub tags: Option<Vec<(String, String)>>,
    /// Updated customer metadata.
    pub customer_metadata: Option<Vec<(String, String)>>,
    /// Updated internal metadata.
    pub internal_metadata: Option<Vec<(String, String)>>,
    /// Firewall enable/disable toggle.
    pub firewall_enabled: Option<bool>,
}

/// Request payload for creating a snapshot.
#[derive(Debug)]
pub struct CreateSnapshotRequest {
    /// Snapshot name.
    pub name: Option<String>,
}

/// Supported batch VM actions.
#[derive(Debug, Clone, Copy, PartialEq, Eq, Structural)]
pub enum BatchVMAction {
    /// Start VMs.
    Start,
    /// Stop VMs.
    Stop,
    /// Reboot VMs.
    Reboot,
    /// Delete VMs.
    Delete,
}

impl BatchVMAction {
    /// The lowercase wire text of each action.
    pub open spec fn as_str_spec(self) -> Seq<char> {
        match self {
            BatchVMAction::Start => "start"@,
            BatchVMAction::Stop => "stop"@,
            BatchVMAction::Reboot => "reboot"@,
            BatchVMAction::Delete => "delete"@,
        }
    }

    /// Returns the action as its lowercase wire text.
    pub fn as_str(&self) -> (r: &'static str)
        ensures
            r@ == self.as_str_spec(),
    {
        match self {
            BatchVMAction::Start => "start",
            BatchVMAction::Stop => "stop",
            BatchVMAction::Reboot => "reboot",
            BatchVMAction::Delete => "delete",
        }
    }
}

/// Request payload for batch VM actions.
#[derive(Debug)]
pub struct BatchVMRequest {
    /// VM UUIDs to operate on.
    pub vm_uuids: Vec<InstanceUuid>,
    /// Maximum concurrent operations.
    pub concurrency: usize,
}

/// Result of an individual VM action inside a batch.
#[derive(Debug)]
pub struct VMBatchResult {
    /// VM UUID.
    pub vm_uuid: InstanceUuid,
    /// Whether the action succeeded.
    pub success: bool,
    /// Optional error message.
    pub error: Option<String>,
}

/// Summary of a batch execution.
#[derive(Debug, Clone, Copy, PartialEq, Eq, Structural)]
pub struct BatchSummary {
    /// Total VMs targeted.
    pub total: usize,
    /// Number of successful actions.
    pub succeeded: usize,
    /// Number of failed actions.
    pub failed: usize,
}

/// Response payload for batch VM operations.
#[derive(Debug)]
pub struct BatchVMResponse {
    /// Summary details.
    pub summary: BatchSummary,
    /// Individual results.
    pub results: Vec<VMBatchResult>,
}

/// Result of an individual job step.
#[derive(Debug)]
pub struct ChainResult {
    /// Result message.
    pub result: String,
    /// Error message, if any.
    pub error: String,
    /// Start timestamp text.
    pub started_at: String,
    /// Finish timestamp text.
    pub finished_at: String,
}

} // verus!
