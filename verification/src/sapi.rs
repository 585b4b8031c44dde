//! Directory-service (SAPI) domain models, query builders, status
//! classification for the directory client, and the endpoint-extraction
//! algorithm.
//!
//! Discovery resolves a logical service name to endpoint URLs read out of
//! the registered service instances: explicit URLs from the instances'
//! metadata and parameter maps take precedence, a URL synthesized from the
//! instance hostname and the service's well-known port is the fallback, and
//! the union over all instances comes out deduplicated in a deterministic
//! sorted order.

use vstd::prelude::*;

use crate::client::retryable_status;
use crate::error::Error;
use crate::kv::first_entry;
use crate::kv::find_first;
use crate::query::pair_views;
use crate::query::opt_pair;
use crate::query::QueryParams;
use crate::text::contains_str;
use crate::text::dec_str;
use crate::text::sorted_dedup;
use crate::text::sorted_views;
use crate::text::u16_to_string;
use crate::types::TritonService;
use crate::uuid::uuid_chars;
use crate::uuid::AppUuid;
use crate::uuid::InstanceUuid;
use crate::uuid::JobUuid;
use crate::uuid::ServerUuid;
use crate::uuid::ServiceUuid;
use crate::uuid::OwnerUuid;

verus! {

/// Enumeration of known instance types.
#[derive(Debug, Clone, Copy, PartialEq, Eq, Structural)]
pub enum InstanceType {
    /// VM instance that runs on a compute node.
    Vm,
    /// Non-VM agent instance.
    Agent,
    /// Other/unknown instance type.
    Other,
}

impl InstanceType {
    /// The lowercase text of each instance type.
    pub open spec fn as_str_spec(self) -> Seq<char> {
        match self {
            InstanceType::Vm => "vm"@,
            InstanceType::Agent => "agent"@,
            InstanceType::Other => "other"@,
        }
    }

    /// Returns the instance type as a lowercase string.
    pub fn as_str(&self) -> (r: &'static str)
        ensures
            r@ == self.as_str_spec(),
    {
        match self {
            InstanceType::Vm => "vm",
            InstanceType::Agent => "agent",
            InstanceType::Other => "other",
        }
    }
}

impl Default for InstanceType {
    /// VM is the default instance type.
    fn default() -> (r: Self)
        ensures
            r == InstanceType::Vm,
    {
        InstanceType::Vm
    }
}

/// A directory application definition.
#[derive(Debug)]
pub struct Application {
    /// Application UUID.
    pub uuid: AppUuid,
    /// Application name.
    pub name: String,
    /// Owning account UUID.
    pub owner_uuid: OwnerUuid,
    /// Application parameters (string-valued entries).
    pub params: Vec<(String, String)>,
    /// Application metadata (string-valued entries).
    pub metadata: Vec<(String, String)>,
    /// Manifest definitions, as raw JSON text.
    pub manifests: Option<String>,
    /// Creation timestamp text.
    pub created_at: Option<String>,
    /// Update timestamp text.
    pub updated_at: Option<String>,
    /// Optional master definition, as raw JSON text.
    pub master: Option<String>,
    /// Optional application description.
    pub description: Option<String>,
}

/// A directory service definition.
#[derive(Debug)]
pub struct Service {
    /// Service UUID.
    pub uuid: ServiceUuid,
    /// Human-readable service name.
    pub name: String,
    /// Owning application UUID.
    pub application_uuid: AppUuid,
    /// Service parameters (string-valued entries).
    pub params: Vec<(String, String)>,
    /// Service metadata (string-valued entries).
    pub metadata: Vec<(String, String)>,
    /// Manifest data, as raw JSON text.
    pub manifests: Option<String>,
    /// Optional master data, as raw JSON text.
    pub master: Option<String>,
    /// Service type.
    pub service_type: Option<InstanceType>,
    /// Creation timestamp text.
    pub created_at: Option<String>,
    /// Update timestamp text.
    pub updated_at: Option<String>,
}

/// A directory service instance.
#[derive(Debug)]
pub struct Instance {
    /// Instance UUID.
    pub uuid: InstanceUuid,
    /// Parent service UUID.
    pub service_uuid: ServiceUuid,
    /// Parent application UUID.
    pub application_uuid: Option<AppUuid>,
    /// Instance name.
    pub name: Option<String>,
    /// Service name for this instance.
    pub service_name: Option<String>,
    /// Published version of the service.
    pub version: Option<String>,
    /// Hostname or IP address.
    pub hostname: Option<String>,
    /// Physical server hosting the instance.
    pub server_uuid: Option<ServerUuid>,
    /// Instance parameters (string-valued entries).
    pub params: Vec<(String, String)>,
    /// Instance metadata (string-valued entries).
    pub metadata: Vec<(String, String)>,
    /// Instance manifests, as raw JSON text.
    pub manifests: Option<String>,
    /// Whether this instance is the master.
    pub master: bool,
    /// Optional instance state (running, stopped, ...).
    pub state: Option<String>,
    /// Associated provisioning job UUID.
    pub job_uuid: Option<JobUuid>,
    /// Instance type.
    pub instance_type: Option<InstanceType>,
    /// Creation timestamp text.
    pub created_at: Option<String>,
    /// Update timestamp text.
    pub updated_at: Option<String>,
}

/// The view of an optional map value.
pub open spec fn first_str(pairs: Seq<(String, String)>, k: Seq<char>) -> Option<Seq<char>> {
    match first_entry(pairs, k) {
        Some(s) => Some(s@),
        None => None,
    }
}

/// An optional value as a sequence of zero or one elements.
pub open spec fn opt_seq(v: Option<Seq<char>>) -> Seq<Seq<char>> {
    match v {
        Some(x) => seq![x],
        None => Seq::empty(),
    }
}

/// The protocol used when synthesizing an endpoint from a hostname: a
/// secure directory protocol for the directory service, plain HTTP for
/// everything else.
pub open spec fn synth_protocol(service: TritonService) -> Seq<char> {
    if service is Ufds {
        "ldaps"@
    } else {
        "http"@
    }
}

/// The endpoint synthesized from an instance's hostname, if it has one:
/// `protocol://hostname:default_port`.
pub open spec fn synth_candidate(service: TritonService, instance: Instance) -> Option<
    Seq<char>,
> {
    match instance.hostname {
        Some(h) => Some(
            synth_protocol(service) + "://"@ + h@ + ":"@ + dec_str(
                if service is Ufds {
                    636 as nat
                } else {
                    80 as nat
                },
            ),
        ),
        None => None,
    }
}

/// The endpoint candidates of one instance, in collection order: the
/// explicit URLs found in the metadata and parameter maps under the keys
/// `{service}_url`, `{service}_endpoint` and `url`; when none of those
/// yield a value, the endpoint synthesized from the hostname.
pub open spec fn candidate_list(service: TritonService, instance: Instance) -> Seq<Seq<char>> {
    let key_url = service.name_spec() + "_url"@;
    let key_ep = service.name_spec() + "_endpoint"@;
    let explicit = opt_seq(first_str(instance.metadata@, key_url)) + opt_seq(
        first_str(instance.params@, key_url),
    ) + opt_seq(first_str(instance.metadata@, key_ep)) + opt_seq(
        first_str(instance.params@, key_ep),
    ) + opt_seq(first_str(instance.metadata@, "url"@)) + opt_seq(
        first_str(instance.params@, "url"@),
    );
    if explicit.len() > 0 {
        explicit
    } else {
        opt_seq(synth_candidate(service, instance))
    }
}

/// Append the value found under a key, if any.
fn push_found(out: &mut Vec<String>, pairs: &Vec<(String, String)>, key: &str)
    ensures
        crate::text::str_views(final(out)@) == crate::text::str_views(old(out)@) + opt_seq(
            first_str(pairs@, key@),
        ),
{
    let found = find_first(pairs, key);
    match found {
        Some(v) => {
            let ghost before = out@;
            out.push(v.clone());
            proof {
                assert(crate::text::str_views(out@) =~= crate::text::str_views(before) + opt_seq(
                    first_str(pairs@, key@),
                ));
            }
        },
        None => {
            proof {
                assert(crate::text::str_views(out@) =~= crate::text::str_views(out@) + opt_seq(
                    first_str(pairs@, key@),
                ));
            }
        },
    }
}

/// The raw endpoint candidates of one instance, in collection order.
fn raw_candidates(service: TritonService, instance: &Instance) -> (r: Vec<String>)
    ensures
        crate::text::str_views(r@) == candidate_list(service, *instance),
{
    let name = service.name();
    let mut key_url = name.to_owned();
    key_url.append("_url");
    let mut key_ep = name.to_owned();
    key_ep.append("_endpoint");
    let mut out: Vec<String> = Vec::new();
    push_found(&mut out, &instance.metadata, key_url.as_str());
    push_found(&mut out, &instance.params, key_url.as_str());
    push_found(&mut out, &instance.metadata, key_ep.as_str());
    push_found(&mut out, &instance.params, key_ep.as_str());
    push_found(&mut out, &instance.metadata, "url");
    push_found(&mut out, &instance.params, "url");
    if out.len() == 0 {
        match &instance.hostname {
            Some(h) => {
                let is_directory = match service {
                    TritonService::Ufds => true,
                    _ => false,
                };
                let mut url = if is_directory {
                    "ldaps".to_owned()
                } else {
                    "http".to_owned()
                };
                url.append("://");
                url.append(h.as_str());
                url.append(":");
                let port = service.default_port();
                let port_text = u16_to_string(port);
                url.append(port_text.as_str());
                out.push(url);
                proof {
                    assert(crate::text::str_views(out@) =~= candidate_list(service, *instance));
                }
            },
            None => {
                proof {
                    assert(crate::text::str_views(out@) =~= candidate_list(service, *instance));
                }
            },
        }
    } else {
        proof {
            assert(crate::text::str_views(out@) =~= candidate_list(service, *instance));
        }
    }
    out
}

/// The endpoint candidates of one instance, deduplicated and in sorted
/// order, so that repeated calls against unchanged backing data are stable
/// and comparable.
pub fn extract_instance_endpoints(service: TritonService, instance: &Instance) -> (r: Vec<
    String,
>)
    ensures
        sorted_views(r@),
        forall|x: Seq<char>|
            contains_str(r@, x) <==> candidate_list(service, *instance).contains(x),
{
    let raw = raw_candidates(service, instance);
    let r = sorted_dedup(&raw);
    proof {
        assert forall|x: Seq<char>|
            contains_str(r@, x) <==> candidate_list(service, *instance).contains(x) by {
            let cl = candidate_list(service, *instance);
            if contains_str(raw@, x) {
                let i = choose|i: int| 0 <= i < raw@.len() && raw@[i]@ == x;
                assert(crate::text::str_views(raw@)[i] == x);
                assert(cl.contains(x));
            }
            if cl.contains(x) {
                let i = choose|i: int| 0 <= i < cl.len() && cl[i] == x;
                assert(crate::text::str_views(raw@)[i] == x);
                assert(raw@[i]@ == x);
                assert(contains_str(raw@, x));
            }
        }
    }
    r
}

/// Union the endpoint candidates of several instances, deduplicated and
/// sorted.
pub fn collect_service_endpoints(service: TritonService, instances: &Vec<Instance>) -> (r: Vec<
    String,
>)
    ensures
        sorted_views(r@),
        forall|x: Seq<char>|
            contains_str(r@, x) <==> exists|i: int|
                0 <= i < instances@.len() && #[trigger] candidate_list(
                    service,
                    instances@[i],
                ).contains(x),
{
    let mut raw: Vec<String> = Vec::new();
    let mut i: usize = 0;
    while i < instances.len()
        invariant
            i <= instances@.len(),
            forall|x: Seq<char>|
                contains_str(raw@, x) <==> exists|j: int|
                    0 <= j < i && #[trigger] candidate_list(service, instances@[j]).contains(x),
        decreases instances@.len() - i,
    {
        let ghost before = raw@;
        let mut more = raw_candidates(service, &instances[i]);
        let ghost more_v = more@;
        raw.append(&mut more);
        proof {
            let cl = candidate_list(service, instances@[i as int]);
            assert(raw@.subrange(before.len() as int, raw@.len() as int) =~= more_v);
            assert forall|x: Seq<char>|
                contains_str(raw@, x) <==> (contains_str(before, x) || cl.contains(x)) by {
                if contains_str(raw@, x) {
                    let j = choose|j: int| 0 <= j < raw@.len() && raw@[j]@ == x;
                    if j < before.len() {
                        assert(before[j]@ == x);
                        assert(contains_str(before, x));
                    } else {
                        let k = j - before.len();
                        assert(crate::text::str_views(
                            raw@.subrange(before.len() as int, raw@.len() as int),
                        )[k] == x);
                        assert(cl[k] == x);
                    }
                }
                if contains_str(before, x) {
                    let j = choose|j: int| 0 <= j < before.len() && before[j]@ == x;
                    assert(raw@[j]@ == x);
                    assert(contains_str(raw@, x));
                }
                if cl.contains(x) {
                    let k = choose|k: int| 0 <= k < cl.len() && cl[k] == x;
                    assert(crate::text::str_views(
                        raw@.subrange(before.len() as int, raw@.len() as int),
                    ) =~= cl);
                    assert(raw@[before.len() + k]@ == x);
                    assert(contains_str(raw@, x));
                }
            }
            assert forall|x: Seq<char>|
                contains_str(raw@, x) <==> exists|j: int|
                    0 <= j < i + 1 && #[trigger] candidate_list(service, instances@[j]).contains(
                        x,
                    ) by {
                if contains_str(raw@, x) {
                    if contains_str(before, x) {
                        let j = choose|j: int|
                            0 <= j < i && #[trigger] candidate_list(
                                service,
                                instances@[j],
                            ).contains(x);
                        assert(candidate_list(service, instances@[j]).contains(x));
                    } else {
                        assert(cl.contains(x));
                        assert(candidate_list(service, instances@[i as int]).contains(x));
                    }
                }
                if exists|j: int|
                    0 <= j < i + 1 && #[trigger] candidate_list(service, instances@[j]).contains(
                        x,
                    ) {
                    let j = choose|j: int|
                        0 <= j < i + 1 && #[trigger] candidate_list(
                            service,
                            instances@[j],
                        ).contains(x);
                    if j < i {
                        assert(contains_str(before, x));
                    } else {
                        assert(cl.contains(x));
                    }
                    assert(contains_str(raw@, x));
                }
            }
        }
        i = i + 1;
    }
    sorted_dedup(&raw)
}

/// The decisions of one whole endpoint discovery against the directory:
/// with no services registered under the name, the lookup fails with
/// [`Error::NotFound`]; with services but no extractable endpoints, it
/// fails with [`Error::DiscoveryFailed`]; otherwise the union of every
/// instance's candidates comes back sorted and duplicate-free.
pub fn resolve_endpoints(
    service: TritonService,
    services_found: bool,
    instances: &Vec<Instance>,
) -> (r: Result<Vec<String>, Error>)
    ensures
        !services_found ==> (r matches Err(e) && e matches Error::NotFound(m) && m@
            == "SAPI service `"@ + service.name_spec() + "` not found"@),
        services_found ==> match r {
            Ok(v) => {
                &&& sorted_views(v@)
                &&& v@.len() > 0
                &&& forall|x: Seq<char>|
                    contains_str(v@, x) <==> exists|i: int|
                        0 <= i < instances@.len() && #[trigger] candidate_list(
                            service,
                            instances@[i],
                        ).contains(x)
            },
            Err(e) => {
                &&& e matches Error::DiscoveryFailed(m) && m@
                    == "No endpoints discovered for service `"@ + service.name_spec() + "`"@
                &&& forall|i: int, x: Seq<char>|
                    0 <= i < instances@.len() ==> !#[trigger] candidate_list(
                        service,
                        instances@[i],
                    ).contains(x)
            },
        },
{
    if !services_found {
        let mut msg = "SAPI service `".to_owned();
        msg.append(service.name());
        msg.append("` not found");
        return Err(Error::NotFound(msg));
    }
    let endpoints = collect_service_endpoints(service, instances);
    if endpoints.len() == 0 {
        proof {
            assert forall|i: int, x: Seq<char>|
                0 <= i < instances@.len() implies !#[trigger] candidate_list(
                service,
                instances@[i],
            ).contains(x) by {
                if candidate_list(service, instances@[i]).contains(x) {
                    assert(contains_str(endpoints@, x));
                }
            }
        }
        let mut msg = "No endpoints discovered for service `".to_owned();
        msg.append(service.name());
        msg.append("`");
        return Err(Error::DiscoveryFailed(msg));
    }
    Ok(endpoints)
}

/// Classify a non-success directory response status: which error it maps
/// to, and whether the request may be retried.  404 is a missing resource;
/// 401 and 403 are authentication failures; 429, 502, 503, 504 and other
/// 5xx are transient; everything else is a terminal HTTP failure.
pub fn classify_sapi_error(status: u16, message: String) -> (r: (Error, bool))
    ensures
        r.1 == retryable_status(status),
        status == 404 ==> r.0 == Error::NotFound(message),
        (status == 401 || status == 403) ==> (r.0 matches Error::InvalidRequest(m) && m@
            == "SAPI authentication failed: "@ + message@),
        (status == 429 || status == 502 || status == 503 || status == 504) ==> (r.0 matches
            Error::ServiceUnavailable(m) && m@ == "SAPI temporarily unavailable: "@ + message@),
        (500 <= status < 600 && status != 502 && status != 503 && status != 504) ==> (r.0 matches
            Error::ServiceUnavailable(m) && m@ == "SAPI server error "@ + dec_str(status as nat)
            + ": "@ + message@),
        !(status == 404 || status == 401 || status == 403 || retryable_status(status))
            ==> (r.0 matches Error::HttpError(m) && m@ == "SAPI error "@ + dec_str(status as nat)
            + ": "@ + message@),
{
    if status == 404 {
        (Error::NotFound(message), false)
    } else if status == 401 || status == 403 {
        let mut m = "SAPI authentication failed: ".to_owned();
        m.append(message.as_str());
        (Error::InvalidRequest(m), false)
    } else if status == 429 || status == 502 || status == 503 || status == 504 {
        let mut m = "SAPI temporarily unavailable: ".to_owned();
        m.append(message.as_str());
        (Error::ServiceUnavailable(m), true)
    } else if 500 <= status && status < 600 {
        let mut m = "SAPI server error ".to_owned();
        let st = u16_to_string(status);
        m.append(st.as_str());
        m.append(": ");
        m.append(message.as_str());
        (Error::ServiceUnavailable(m), true)
    } else {
        let mut m = "SAPI error ".to_owned();
        let st = u16_to_string(status);
        m.append(st.as_str());
        m.append(": ");
        m.append(message.as_str());
        (Error::HttpError(m), false)
    }
}

/// Query parameters for listing services.
#[derive(Debug)]
pub struct ServiceQuery {
    /// Filter by service name.
    pub name: Option<String>,
    /// Filter by owning application UUID.
    pub application_uuid: Option<AppUuid>,
    /// Filter by service type.
    pub service_type: Option<InstanceType>,
    /// Whether to ask for master configuration details in responses.
    pub master_details: bool,
}

impl ServiceQuery {
    /// The query pairs this filter produces.
    pub open spec fn pairs_spec(self) -> Seq<(Seq<char>, Seq<char>)> {
        opt_pair(
            "name"@,
            match self.name {
                Some(n) => Some(n@),
                None => None,
            },
        ) + opt_pair(
            "application_uuid"@,
            match self.application_uuid {
                Some(u) => Some(uuid_chars(u.0.hi, u.0.lo)),
                None => None,
            },
        ) + opt_pair(
            "type"@,
            match self.service_type {
                Some(t) => Some(t.as_str_spec()),
                None => None,
            },
        ) + opt_pair(
            "master_details"@,
            if self.master_details {
                Some("true"@)
            } else {
                None
            },
        )
    }

    /// Create an empty query.
    pub fn new() -> (r: Self)
        ensures
            r.name is None,
            r.application_uuid is None,
            r.service_type is None,
            !r.master_details,
    {
        Self { name: None, application_uuid: None, service_type: None, master_details: false }
    }

    /// Filter by service name.
    pub fn with_name(self, name: String) -> (r: Self)
        ensures
            r == (Self { name: Some(name), ..self }),
    {
        Self { name: Some(name), ..self }
    }

    /// Filter by owning application UUID.
    pub fn with_application_uuid(self, uuid: AppUuid) -> (r: Self)
        ensures
            r == (Self { application_uuid: Some(uuid), ..self }),
    {
        Self { application_uuid: Some(uuid), ..self }
    }

    /// Filter by service type.
    pub fn with_type(self, service_type: InstanceType) -> (r: Self)
        ensures
            r == (Self { service_type: Some(service_type), ..self }),
    {
        Self { service_type: Some(service_type), ..self }
    }

    /// Ask for master configuration details in responses.
    pub fn with_master_details(self, wanted: bool) -> (r: Self)
        ensures
            r == (Self { master_details: wanted, ..self }),
    {
        Self { master_details: wanted, ..self }
    }

    /// The query parameter pairs of this filter.
    pub fn to_params(&self) -> (r: Vec<(&'static str, String)>)
        ensures
            pair_views(r@) == self.pairs_spec(),
    {
        let mut params = QueryParams::new();
        params.push_opt(
            "name",
            match &self.name {
                Some(n) => Some(n.clone()),
                None => None,
            },
        );
        params.push_opt(
            "application_uuid",
            match &self.application_uuid {
                Some(u) => Some(u.to_uuid_string()),
                None => None,
            },
        );
        params.push_opt(
            "type",
            match &self.service_type {
                Some(t) => Some(t.as_str().to_owned()),
                None => None,
            },
        );
        if self.master_details {
            params.push("master_details", "true".to_owned());
        }
        let r = params.into_pairs();
        proof {
            assert(pair_views(r@) =~= self.pairs_spec());
        }
        r
    }
}

impl Default for ServiceQuery {
    /// The empty query.
    fn default() -> (r: Self)
        ensures
            r.name is None,
            r.application_uuid is None,
            r.service_type is None,
            !r.master_details,
    {
        Self::new()
    }
}

/// Query parameters for listing instances.
#[derive(Debug)]
pub struct InstanceQuery {
    /// Filter by service UUID.
    pub service_uuid: Option<ServiceUuid>,
    /// Filter by instance type.
    pub service_type: Option<InstanceType>,
    /// Whether to ask for master configuration details.
    pub master_details: bool,
}

impl InstanceQuery {
    /// The query pairs this filter produces.
    pub open spec fn pairs_spec(self) -> Seq<(Seq<char>, Seq<char>)> {
        opt_pair(
            "service_uuid"@,
            match self.service_uuid {
                Some(u) => Some(uuid_chars(u.0.hi, u.0.lo)),
                None => None,
            },
        ) + opt_pair(
            "type"@,
            match self.service_type {
                Some(t) => Some(t.as_str_spec()),
                None => None,
            },
        ) + opt_pair(
            "master_details"@,
            if self.master_details {
                Some("true"@)
            } else {
                None
            },
        )
    }

    /// Create an empty query.
    pub fn new() -> (r: Self)
        ensures
            r.service_uuid is None,
            r.service_type is None,
            !r.master_details,
    {
        Self { service_uuid: None, service_type: None, master_details: false }
    }

    /// Filter by service UUID.
    pub fn with_service_uuid(self, uuid: ServiceUuid) -> (r: Self)
        ensures
            r == (Self { service_uuid: Some(uuid), ..self }),
    {
        Self { service_uuid: Some(uuid), ..self }
    }

    /// Filter by instance type.
    pub fn with_type(self, instance_type: InstanceType) -> (r: Self)
        ensures
            r == (Self { service_type: Some(instance_type), ..self }),
    {
        Self { service_type: Some(instance_type), ..self }
    }

    /// Ask for master configuration details.
    pub fn with_master_details(self, wanted: bool) -> (r: Self)
        ensures
            r == (Self { master_details: wanted, ..self }),
    {
        Self { master_details: wanted, ..self }
    }

    /// The query parameter pairs of this filter.
    pub fn to_params(&self) -> (r: Vec<(&'static str, String)>)
        ensures
            pair_views(r@) == self.pairs_spec(),
    {
        let mut params = QueryParams::new();
        params.push_opt(
            "service_uuid",
            match &self.service_uuid {
                Some(u) => Some(u.to_uuid_string()),
                None => None,
            },
        );
        params.push_opt(
            "type",
            match &self.service_type {
                Some(t) => Some(t.as_str().to_owned()),
                None => None,
            },
        );
        if self.master_details {
            params.push("master_details", "true".to_owned());
        }
        let r = params.into_pairs();
        proof {
            assert(pair_views(r@) =~= self.pairs_spec());
        }
        r
    }
}

impl Default for InstanceQuery {
    /// The empty query.
    fn default() -> (r: Self)
        ensures
            r.service_uuid is None,
            r.service_type is None,
            !r.master_details,
    {
        Self::new()
    }
}

} // verus!
