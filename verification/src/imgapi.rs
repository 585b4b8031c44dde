//! IMGAPI (image API) models and service adapters.

use vstd::prelude::*;

use crate::client::retryable_status;
use crate::error::Error;
use crate::query::opt_pair;
use crate::query::pair_views;
use crate::query::QueryParams;
use crate::services::DiscoveryStatus;
use crate::services::ServiceDiscovery;
use crate::services::ServiceDiscoveryProxy;
use crate::text::bool_str;
use crate::text::bool_to_string;
use crate::text::dec_str;
use crate::text::u16_to_string;
use crate::text::u32_to_string;
use crate::types::TritonService;
use crate::uuid::uuid_chars;
use crate::uuid::ImageUuid;
use crate::uuid::OwnerUuid;

verus! {

/// Parameters supported by the `/images` list endpoint.
#[derive(Debug)]
pub struct ImageListParams {
    /// Filter by name.
    pub name: Option<String>,
    /// Filter by version.
    pub version: Option<String>,
    /// Filter by operating system.
    pub os: Option<String>,
    /// Filter by owner UUID.
    pub owner: Option<OwnerUuid>,
    /// Account visibility scope.
    pub account: Option<OwnerUuid>,
    /// Filter by image state.
    pub state: Option<String>,
    /// Filter by public flag.
    pub public: Option<bool>,
    /// Filter by type.
    pub type_filter: Option<String>,
    /// Filter by tag key/value.
    pub tag: Option<String>,
    /// Filter by billing tag.
    pub billing_tag: Option<String>,
    /// Filter by trait name.
    pub trait_filter: Option<String>,
    /// Filter by channel.
    pub channel: Option<String>,
    /// Maximum number of results.
    pub limit: Option<u32>,
    /// Pagination offset.
    pub offset: Option<u32>,
    /// Pagination marker.
    pub marker: Option<String>,
    /// Only return the latest version.
    pub latest_only: Option<bool>,
    /// Sort field.
    pub sort_by: Option<String>,
    /// Sort order.
    pub sort_order: Option<String>,
}

impl ImageListParams {
    /// The query pairs these parameters produce, in order.
    pub open spec fn pairs_spec(self) -> Seq<(Seq<char>, Seq<char>)> {
        opt_pair(
            "name"@,
            match self.name {
                Some(v) => Some(v@),
                None => None,
            },
        ) + opt_pair(
            "version"@,
            match self.version {
                Some(v) => Some(v@),
                None => None,
            },
        ) + opt_pair(
            "os"@,
            match self.os {
                Some(v) => Some(v@),
                None => None,
            },
        ) + opt_pair(
            "owner"@,
            match self.owner {
                Some(u) => Some(uuid_chars(u.0.hi, u.0.lo)),
                None => None,
            },
        ) + opt_pair(
            "account"@,
            match self.account {
                Some(u) => Some(uuid_chars(u.0.hi, u.0.lo)),
                None => None,
            },
        ) + opt_pair(
            "state"@,
            match self.state {
                Some(v) => Some(v@),
                None => None,
            },
        ) + opt_pair(
            "public"@,
            match self.public {
                Some(b) => Some(bool_str(b)),
                None => None,
            },
        ) + opt_pair(
            "type"@,
            match self.type_filter {
                Some(v) => Some(v@),
                None => None,
            },
        ) + opt_pair(
            "tag"@,
            match self.tag {
                Some(v) => Some(v@),
                None => None,
            },
        ) + opt_pair(
            "billing_tag"@,
            match self.billing_tag {
                Some(v) => Some(v@),
                None => None,
            },
        ) + opt_pair(
            "trait"@,
            match self.trait_filter {
                Some(v) => Some(v@),
                None => None,
            },
        ) + opt_pair(
            "channel"@,
            match self.channel {
                Some(v) => Some(v@),
                None => None,
            },
        ) + opt_pair(
            "limit"@,
            match self.limit {
                Some(x) => Some(dec_str(x as nat)),
                None => None,
            },
        ) + opt_pair(
            "offset"@,
            match self.offset {
                Some(x) => Some(dec_str(x as nat)),
                None => None,
            },
        ) + opt_pair(
            "marker"@,
            match self.marker {
                Some(v) => Some(v@),
                None => None,
            },
        ) + opt_pair(
            "latest_only"@,
            match self.latest_only {
                Some(b) => Some(bool_str(b)),
                None => None,
            },
        ) + opt_pair(
            "sort_by"@,
            match self.sort_by {
                Some(v) => Some(v@),
                None => None,
            },
        ) + opt_pair(
            "sort_order"@,
            match self.sort_order {
                Some(v) => Some(v@),
                None => None,
            },
        )
    }

    /// Convert the parameters into URL query pairs.
    #[verifier::rlimit(100)]
    pub fn to_pairs(&self) -> (r: Vec<(&'static str, String)>)
        ensures
            pair_views(r@) == self.pairs_spec(),
    {
        let mut params = QueryParams::new();
        params.push_opt(
            "name",
            match &self.name {
                Some(v) => Some(v.clone()),
                None => None,
            },
        );
        params.push_opt(
            "version",
            match &self.version {
                Some(v) => Some(v.clone()),
                None => None,
            },
        );
        params.push_opt(
            "os",
            match &self.os {
                Some(v) => Some(v.clone()),
                None => None,
            },
        );
        params.push_opt(
            "owner",
            match &self.owner {
                Some(u) => Some(u.to_uuid_string()),
                None => None,
            },
        );
        params.push_opt(
            "account",
            match &self.account {
                Some(u) => Some(u.to_uuid_string()),
                None => None,
            },
        );
        params.push_opt(
            "state",
            match &self.state {
                Some(v) => Some(v.clone()),
                None => None,
            },
        );
        params.push_opt(
            "public",
            match &self.public {
                Some(b) => Some(bool_to_string(*b)),
                None => None,
            },
        );
        params.push_opt(
            "type",
            match &self.type_filter {
                Some(v) => Some(v.clone()),
                None => None,
            },
        );
        params.push_opt(
            "tag",
            match &self.tag {
                Some(v) => Some(v.clone()),
                None => None,
            },
        );
        params.push_opt(
            "billing_tag",
            match &self.billing_tag {
                Some(v) => Some(v.clone()),
                None => None,
            },
        );
        params.push_opt(
            "trait",
            match &self.trait_filter {
                Some(v) => Some(v.clone()),
                None => None,
            },
        );
        params.push_opt(
            "channel",
            match &self.channel {
                Some(v) => Some(v.clone()),
                None => None,
            },
        );
        params.push_opt(
            "limit",
            match &self.limit {
                Some(x) => Some(u32_to_string(*x)),
                None => None,
            },
        );
        params.push_opt(
            "offset",
            match &self.offset {
                Some(x) => Some(u32_to_string(*x)),
                None => None,
            },
        );
        params.push_opt(
            "marker",
            match &self.marker {
                Some(v) => Some(v.clone()),
                None => None,
            },
        );
        params.push_opt(
            "latest_only",
            match &self.latest_only {
                Some(b) => Some(bool_to_string(*b)),
                None => None,
            },
        );
        params.push_opt(
            "sort_by",
            match &self.sort_by {
                Some(v) => Some(v.clone()),
                None => None,
            },
        );
        params.push_opt(
            "sort_order",
            match &self.sort_order {
                Some(v) => Some(v.clone()),
                None => None,
            },
        );
        let r = params.into_pairs();
        proof {
            assert(pair_views(r@) =~= self.pairs_spec());
        }
        r
    }
}

impl Default for ImageListParams {
    /// No filters are set by default.
    fn default() -> (r: Self)
        ensures
            r.name is None,
            r.version is None,
            r.os is None,
            r.owner is None,
            r.account is None,
            r.state is None,
            r.public is None,
            r.type_filter is None,
            r.tag is None,
            r.billing_tag is None,
            r.trait_filter is None,
            r.channel is None,
            r.limit is None,
            r.offset is None,
            r.marker is None,
            r.latest_only is None,
            r.sort_by is None,
            r.sort_order is None,
    {
        Self {
            name: None,
            version: None,
            os: None,
            owner: None,
            account: None,
            state: None,
            public: None,
            type_filter: None,
            tag: None,
            billing_tag: None,
            trait_filter: None,
            channel: None,
            limit: None,
            offset: None,
            marker: None,
            latest_only: None,
            sort_by: None,
            sort_order: None,
        }
    }
}

/// Supported actions for image lifecycle endpoints.
#[derive(Debug, Clone, Copy, PartialEq, Eq, Structural)]
pub enum ImageAction {
    /// Activate an image.
    Activate,
    /// Disable an image.
    Disable,
    /// Enable an image.
    Enable,
}

impl ImageAction {
    /// The path segment of each action.
    pub open spec fn as_str_spec(self) -> Seq<char> {
        match self {
            ImageAction::Activate => "activate"@,
            ImageAction::Disable => "disable"@,
            ImageAction::Enable => "enable"@,
        }
    }

    /// Return the path segment for this action.
    pub fn as_str(&self) -> (r: &'static str)
        ensures
            r@ == self.as_str_spec(),
    {
        match self {
            ImageAction::Activate => "activate",
            ImageAction::Disable => "disable",
            ImageAction::Enable => "enable",
        }
    }
}

/// Classify a non-success IMGAPI response status into the error taxonomy.
/// 404 is a missing resource; 400 is a bad request; 409 a conflict; 401 and 403 are authentication
/// failures; 429, 502, 503, 504 and other 5xx are transient; everything
/// else is a terminal HTTP failure.
pub fn map_status_to_error(status: u16, text: String) -> (r: Error)
    ensures
        status == 404 ==> r == Error::NotFound(text),
        status == 400 ==> r == Error::BadRequest(text),
        status == 409 ==> r == Error::Conflict(text),
        (status == 401 || status == 403) ==> (r matches Error::InvalidRequest(m) && m@
            == "IMGAPI authentication failed: "@ + text@),
        (status == 429 || status == 502 || status == 503 || status == 504) ==> (r matches
            Error::ServiceUnavailable(m) && m@ == "IMGAPI temporarily unavailable: "@ + text@),
        (500 <= status < 600 && status != 502 && status != 503 && status != 504) ==> (r matches
            Error::ServiceUnavailable(m) && m@ == "IMGAPI server error "@ + dec_str(status as nat)
            + ": "@ + text@),
        !(status == 404 || status == 400 || status == 409 || status == 401 || status == 403 || retryable_status(status))
            ==> (r matches Error::HttpError(m) && m@ == "IMGAPI error "@ + dec_str(status as nat)
            + ": "@ + text@),
{
    if status == 404 {
        Error::NotFound(text)
    } else if status == 400 {
        Error::BadRequest(text)
    } else if status == 409 {
        Error::Conflict(text)
    } else if status == 401 || status == 403 {
        let mut m = "IMGAPI authentication failed: ".to_owned();
        m.append(text.as_str());
        Error::InvalidRequest(m)
    } else if status == 429 || status == 502 || status == 503 || status == 504 {
        let mut m = "IMGAPI temporarily unavailable: ".to_owned();
        m.append(text.as_str());
        Error::ServiceUnavailable(m)
    } else if 500 <= status && status < 600 {
        let mut m = "IMGAPI server error ".to_owned();
        let st = u16_to_string(status);
        m.append(st.as_str());
        m.append(": ");
        m.append(text.as_str());
        Error::ServiceUnavailable(m)
    } else {
        let mut m = "IMGAPI error ".to_owned();
        let st = u16_to_string(status);
        m.append(st.as_str());
        m.append(": ");
        m.append(text.as_str());
        Error::HttpError(m)
    }
}

/// Discovery adapter that narrows a shared discovery source to the IMGAPI
/// service, with its own telemetry.
pub struct ImgapiDiscovery<D: ServiceDiscovery> {
    /// The per-service telemetry proxy over the shared source.
    pub proxy: ServiceDiscoveryProxy<D>,
}

impl<D: ServiceDiscovery> ImgapiDiscovery<D> {
    /// Create a discovery wrapper from an existing discovery source.
    pub fn new(discovery_source: D) -> (r: Self)
        ensures
            r.proxy.service_name@ == TritonService::Imgapi.name_spec(),
            r.proxy.status.last_error is None,
            r.proxy.status.discovered_services == 0,
            r.proxy.status.cache_hits == 0,
            r.proxy.status.cache_misses == 0,
    {
        Self { proxy: ServiceDiscoveryProxy::for_service(discovery_source, TritonService::Imgapi) }
    }
}

impl<D: ServiceDiscovery> ServiceDiscovery for ImgapiDiscovery<D> {
    fn discover_service(&mut self, service_name: &str) -> Result<Vec<String>, Error> {
        self.proxy.discover_recorded(service_name)
    }

    fn discover_all_services(&mut self) -> Result<Vec<String>, Error> {
        self.proxy.discover_own_service()
    }

    fn get_status(&self) -> DiscoveryStatus {
        self.proxy.status_snapshot()
    }

    fn clear_cache(&mut self) {
        self.proxy.reset_counters()
    }

    fn is_service_available(&mut self, service_name: &str) -> bool {
        match self.proxy.discover_recorded(service_name) {
            Ok(_) => true,
            Err(_) => false,
        }
    }
}


/// Representation of an image as returned by the image API.
#[derive(Debug)]
pub struct Image {
    /// Image UUID.
    pub uuid: ImageUuid,
    /// Image name.
    pub name: String,
    /// Image version.
    pub version: Option<String>,
    /// Operating system.
    pub os: String,
    /// Image type.
    pub image_type: String,
    /// Current state.
    pub state: String,
    /// Description.
    pub description: Option<String>,
    /// Homepage.
    pub homepage: Option<String>,
    /// Published timestamp text.
    pub published_at: Option<String>,
    /// Owner UUID.
    pub owner: Option<OwnerUuid>,
    /// Public flag.
    pub public: Option<bool>,
    /// Access control list.
    pub acl: Option<Vec<OwnerUuid>>,
    /// Key-value tags.
    pub tags: Option<Vec<(String, String)>>,
    /// Disabled flag.
    pub disabled: Option<bool>,
    /// Origin image UUID.
    pub origin: Option<ImageUuid>,
    /// Error payload.
    pub error: Option<ImageError>,
    /// File descriptors.
    pub files: Option<Vec<ImageFile>>,
    /// Icon path.
    pub icon: Option<String>,
    /// Requirements.
    pub requirements: Option<ImageRequirements>,
    /// Provisioned users.
    pub users: Option<Vec<ImageUser>>,
    /// Billing tags.
    pub billing_tags: Option<Vec<String>>,
    /// Traits.
    pub traits: Option<Vec<(String, bool)>>,
    /// Channels.
    pub channels: Option<Vec<String>>,
    /// Expiration timestamp text.
    pub expires_at: Option<String>,
    /// Inherited directories.
    pub inherited_directories: Option<Vec<String>>,
    /// Generate passwords flag.
    pub generate_passwords: Option<bool>,
    /// NIC driver.
    pub nic_driver: Option<String>,
    /// Disk driver.
    pub disk_driver: Option<String>,
    /// CPU type.
    pub cpu_type: Option<String>,
    /// Image size, in bytes.
    pub image_size: Option<u64>,
    /// Virtual size, in bytes.
    pub virtual_size: Option<u64>,
    /// Minimum memory, in MiB.
    pub min_memory: Option<u64>,
    /// Minimum disk, in MiB.
    pub min_disk: Option<u64>,
    /// Minimum platform requirements.
    pub min_platform: Option<Vec<(String, String)>>,
    /// Created timestamp text.
    pub created: Option<String>,
    /// Updated timestamp text.
    pub updated: Option<String>,
}

/// Error details embedded within image responses.
#[derive(Debug)]
pub struct ImageError {
    /// Error code.
    pub code: String,
    /// Error message.
    pub message: String,
}

/// Metadata describing an individual image file.
#[derive(Debug)]
pub struct ImageFile {
    /// Compression type (gzip, bzip2, and so on).
    pub compression: Option<String>,
    /// SHA1 hash.
    pub sha1: String,
    /// File size in bytes.
    pub size: u64,
    /// Storage back-end identifier.
    pub storage: Option<String>,
    /// MD5 hash.
    pub md5: Option<String>,
    /// Optional download path.
    pub path: Option<String>,
}

/// Requirements enforcing how the image must be provisioned.
#[derive(Debug)]
pub struct ImageRequirements {
    /// Network requirements.
    pub networks: Option<Vec<ImageNetworkRequirement>>,
    /// SSH key requirement.
    pub ssh_key: Option<bool>,
    /// Password requirement.
    pub password: Option<bool>,
    /// Maximum physical memory, in MiB.
    pub max_physical_memory: Option<u64>,
    /// Minimum platform requirements.
    pub min_platform: Option<Vec<(String, String)>>,
}

/// Network requirement for an image.
#[derive(Debug)]
pub struct ImageNetworkRequirement {
    /// Network name.
    pub name: String,
    /// Description.
    pub description: Option<String>,
    /// IP address.
    pub ip: Option<String>,
    /// Primary flag.
    pub primary: Option<bool>,
}

/// Provisioned system user shipped with the image.
#[derive(Debug)]
pub struct ImageUser {
    /// Username.
    pub name: String,
    /// UID.
    pub uid: Option<u32>,
    /// GID.
    pub gid: Option<u32>,
    /// Shell path.
    pub shell: Option<String>,
    /// Home directory.
    pub home_dir: Option<String>,
}

/// Request payload for creating a new image record.
#[derive(Debug)]
pub struct CreateImageRequest {
    /// Name for the image.
    pub name: String,
    /// Version identifier.
    pub version: String,
    /// Operating system.
    pub os: String,
    /// Image type.
    pub image_type: String,
    /// Optional description.
    pub description: Option<String>,
    /// Homepage URL.
    pub homepage: Option<String>,
    /// Public flag.
    pub public: Option<bool>,
    /// Owner UUID.
    pub owner: Option<OwnerUuid>,
    /// Key-value tags.
    pub tags: Option<Vec<(String, String)>>,
    /// Origin UUID.
    pub origin: Option<ImageUuid>,
    /// Files metadata (manifest).
    pub files: Option<Vec<ImageFile>>,
    /// Requirements.
    pub requirements: Option<ImageRequirements>,
    /// Users.
    pub users: Option<Vec<ImageUser>>,
    /// Billing tags.
    pub billing_tags: Option<Vec<String>>,
    /// Traits.
    pub traits: Option<Vec<(String, bool)>>,
    /// Channels.
    pub channels: Option<Vec<String>>,
    /// NIC driver.
    pub nic_driver: Option<String>,
    /// Disk driver.
    pub disk_driver: Option<String>,
    /// CPU type.
    pub cpu_type: Option<String>,
    /// Image size, in bytes.
    pub image_size: Option<u64>,
    /// Virtual size, in bytes.
    pub virtual_size: Option<u64>,
    /// Minimum memory, in MiB.
    pub min_memory: Option<u64>,
    /// Minimum disk, in MiB.
    pub min_disk: Option<u64>,
    /// Generate passwords flag.
    pub generate_passwords: Option<bool>,
    /// Inherited directories.
    pub inherited_directories: Option<Vec<String>>,
}

/// Request payload for updating an image.
#[derive(Debug)]
pub struct UpdateImageRequest {
    /// Name.
    pub name: Option<String>,
    /// Version.
    pub version: Option<String>,
    /// Description.
    pub description: Option<String>,
    /// Homepage.
    pub homepage: Option<String>,
    /// Public flag.
    pub public: Option<bool>,
    /// State.
    pub state: Option<String>,
    /// Disabled flag.
    pub disabled: Option<bool>,
    /// Tags.
    pub tags: Option<Vec<(String, String)>>,
    /// Billing tags.
    pub billing_tags: Option<Vec<String>>,
    /// Requirements.
    pub requirements: Option<ImageRequirements>,
    /// Traits.
    pub traits: Option<Vec<(String, bool)>>,
    /// Channels.
    pub channels: Option<Vec<String>>,
    /// Generate passwords flag.
    pub generate_passwords: Option<bool>,
    /// Inherited directories.
    pub inherited_directories: Option<Vec<String>>,
}

/// Request payload for importing an image file.
#[derive(Debug)]
pub struct ImageImportRequest {
    /// Desired image UUID.
    pub uuid: ImageUuid,
    /// Compression algorithm.
    pub compression: Option<String>,
    /// SHA1 checksum.
    pub sha1: String,
    /// Storage backend.
    pub storage: Option<String>,
    /// File path.
    pub file_path: String,
    /// File size, in bytes.
    pub size: u64,
    /// Optional source descriptor.
    pub source: Option<String>,
    /// Optional MD5 checksum.
    pub md5: Option<String>,
}

/// Request payload for exporting an image to object storage.
#[derive(Debug)]
pub struct ExportImageRequest {
    /// Destination object-storage path.
    pub manta_path: String,
    /// Optional storage backend.
    pub storage: Option<String>,
}

} // verus!
