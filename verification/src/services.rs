//! Service discovery abstraction, discovery telemetry, and directory
//! credentials.
//!
//! [`DiscoveryStatus`] records the health of one discovery source.
//! [`ServiceDiscovery`] is the capability interface that concrete sources
//! implement, and [`ServiceDiscoveryProxy`] decorates any such source with
//! independent telemetry without altering what it returns.

use vstd::prelude::*;

use crate::error::Result;
use crate::types::TritonService;
use crate::text::contains_str;
use crate::text::contains_string;
use crate::uuid::AppUuid;

verus! {

/// Relies on `std::time::SystemTime::now` (read through
/// `duration_since(UNIX_EPOCH)` and `as_millis`): the current wall-clock
/// time as milliseconds since the Unix epoch, truncated to 64 bits, or 0
/// when the clock reads before the epoch.  Nothing is promised of the
/// value: wall clocks move.
#[verifier::external_body]
pub fn now_millis() -> u64 {
    match std::time::SystemTime::now().duration_since(std::time::UNIX_EPOCH) {
        Ok(elapsed) => elapsed.as_millis() as u64,
        Err(_) => 0,
    }
}

/// Directory-service (UFDS) credentials, used to authenticate with the
/// LDAP-based directory for user and account management.
#[derive(Debug)]
pub struct UfdsCredentials {
    /// Admin login (a distinguished name).
    pub admin_login: String,
    /// Admin password.
    pub admin_password: String,
    /// Application UUID that owns these credentials.
    pub application_uuid: AppUuid,
}

impl UfdsCredentials {
    /// Create new directory credentials.
    pub fn new(admin_login: String, admin_password: String, application_uuid: AppUuid) -> (r:
        Self)
        ensures
            r.admin_login == admin_login,
            r.admin_password == admin_password,
            r.application_uuid == application_uuid,
    {
        Self { admin_login, admin_password, application_uuid }
    }

    /// Get the LDAP bind DN.
    pub fn bind_dn(&self) -> (r: &str)
        ensures
            r@ == self.admin_login@,
    {
        self.admin_login.as_str()
    }

    /// Get the LDAP bind password.
    pub fn bind_password(&self) -> (r: &str)
        ensures
            r@ == self.admin_password@,
    {
        self.admin_password.as_str()
    }

    /// Get the application UUID.
    pub fn app_uuid(&self) -> (r: &AppUuid)
        ensures
            *r == self.application_uuid,
    {
        &self.application_uuid
    }
}

impl Clone for UfdsCredentials {
    /// An exact copy of the credentials.
    fn clone(&self) -> (res: Self)
        ensures
            res == *self,
    {
        Self {
            admin_login: self.admin_login.clone(),
            admin_password: self.admin_password.clone(),
            application_uuid: self.application_uuid,
        }
    }
}

/// An exact copy of a vector of strings.
pub fn clone_string_vec(v: &Vec<String>) -> (r: Vec<String>)
    ensures
        r@ == v@,
{
    let mut out: Vec<String> = Vec::new();
    let mut i: usize = 0;
    while i < v.len()
        invariant
            i <= v@.len(),
            out@ =~= v@.subrange(0, i as int),
        decreases v@.len() - i,
    {
        out.push(v[i].clone());
        proof {
            assert(out@ =~= v@.subrange(0, i + 1));
        }
        i = i + 1;
    }
    proof {
        assert(v@.subrange(0, v@.len() as int) =~= v@);
    }
    out
}

/// Discovery status for monitoring service discovery operations.
///
/// Tracks the health and performance of service discovery, including cache
/// statistics and error tracking.  Timestamps are milliseconds since the
/// Unix epoch.
#[derive(Debug, PartialEq)]
pub struct DiscoveryStatus {
    /// When discovery was last attempted.
    pub last_discovery_at: Option<u64>,
    /// When discovery last succeeded.
    pub last_success_at: Option<u64>,
    /// Last error message, if any.
    pub last_error: Option<String>,
    /// Number of services successfully discovered.
    pub discovered_services: usize,
    /// Services that failed discovery.
    pub failed_services: Vec<String>,
    /// Number of cache hits.
    pub cache_hits: u64,
    /// Number of cache misses.
    pub cache_misses: u64,
}

impl DiscoveryStatus {
    /// Create a new discovery status with nothing recorded yet.
    pub fn new() -> (r: Self)
        ensures
            r.last_discovery_at is None,
            r.last_success_at is None,
            r.last_error is None,
            r.discovered_services == 0,
            r.failed_services@.len() == 0,
            r.cache_hits == 0,
            r.cache_misses == 0,
    {
        Self {
            last_discovery_at: None,
            last_success_at: None,
            last_error: None,
            discovered_services: 0,
            failed_services: Vec::new(),
            cache_hits: 0,
            cache_misses: 0,
        }
    }

    /// Record a successful discovery of `service_count` services at the
    /// current time: both timestamps are set to the same instant, the error
    /// is cleared, and the cache statistics and failed-service list are
    /// untouched.
    pub fn with_success(self, service_count: usize) -> (r: Self)
        ensures
            r.last_discovery_at is Some,
            r.last_success_at is Some,
            r.last_discovery_at == r.last_success_at,
            r.last_error is None,
            r.discovered_services == service_count,
            r.failed_services == self.failed_services,
            r.cache_hits == self.cache_hits,
            r.cache_misses == self.cache_misses,
    {
        let now = now_millis();
        Self {
            last_discovery_at: Some(now),
            last_success_at: Some(now),
            last_error: None,
            discovered_services: service_count,
            ..self
        }
    }

    /// Record a failed discovery at the current time: the attempt timestamp
    /// is set, the error is recorded, and the failed service, when given,
    /// joins the failed-service list only if it is not already there — the
    /// list is a deduplicated set in insertion order.
    pub fn with_error(self, error: String, failed_service: Option<String>) -> (r: Self)
        ensures
            r.last_discovery_at is Some,
            r.last_success_at == self.last_success_at,
            r.last_error == Some(error),
            r.discovered_services == self.discovered_services,
            match failed_service {
                Some(service) => if contains_str(self.failed_services@, service@) {
                    r.failed_services@ == self.failed_services@
                } else {
                    r.failed_services@ == self.failed_services@.push(service)
                },
                None => r.failed_services@ == self.failed_services@,
            },
            r.cache_hits == self.cache_hits,
            r.cache_misses == self.cache_misses,
    {
        let now = now_millis();
        let mut failed = self.failed_services;
        match failed_service {
            Some(service) => {
                if !contains_string(&failed, service.as_str()) {
                    failed.push(service);
                }
            },
            None => (),
        }
        Self {
            last_discovery_at: Some(now),
            last_error: Some(error),
            failed_services: failed,
            ..self
        }
    }

    /// Update the cache statistics, leaving everything else untouched.
    pub fn with_cache_stats(self, hits: u64, misses: u64) -> (r: Self)
        ensures
            r == (Self { cache_hits: hits, cache_misses: misses, ..self }),
    {
        Self { cache_hits: hits, cache_misses: misses, ..self }
    }

    /// Check if discovery is healthy: no recorded error, and at least one
    /// service discovered.
    pub fn is_healthy(&self) -> (r: bool)
        ensures
            r == (self.last_error is None && self.discovered_services > 0),
    {
        self.last_error.is_none() && self.discovered_services > 0
    }

    /// Milliseconds elapsed since the last successful discovery, if any
    /// (zero when the clock has moved backwards past it).
    pub fn time_since_last_success(&self) -> (r: Option<u64>)
        ensures
            r is Some <==> self.last_success_at is Some,
    {
        match self.last_success_at {
            Some(t) => {
                let now = now_millis();
                Some(if now >= t {
                    now - t
                } else {
                    0
                })
            },
            None => None,
        }
    }

    /// Milliseconds elapsed since the last discovery attempt, if any (zero
    /// when the clock has moved backwards past it).
    pub fn time_since_last_attempt(&self) -> (r: Option<u64>)
        ensures
            r is Some <==> self.last_discovery_at is Some,
    {
        match self.last_discovery_at {
            Some(t) => {
                let now = now_millis();
                Some(if now >= t {
                    now - t
                } else {
                    0
                })
            },
            None => None,
        }
    }
}

/// Two status values that agree on every field (comparing the
/// failed-service lists by their contents).
pub open spec fn status_matches(a: DiscoveryStatus, b: DiscoveryStatus) -> bool {
    &&& a.last_discovery_at == b.last_discovery_at
    &&& a.last_success_at == b.last_success_at
    &&& a.last_error == b.last_error
    &&& a.discovered_services == b.discovered_services
    &&& a.failed_services@ == b.failed_services@
    &&& a.cache_hits == b.cache_hits
    &&& a.cache_misses == b.cache_misses
}

impl Clone for DiscoveryStatus {
    /// An exact copy of the status snapshot.
    fn clone(&self) -> (res: Self)
        ensures
            status_matches(res, *self),
    {
        let last_error = match &self.last_error {
            Some(e) => Some(e.clone()),
            None => None,
        };
        Self {
            last_discovery_at: self.last_discovery_at,
            last_success_at: self.last_success_at,
            last_error,
            discovered_services: self.discovered_services,
            failed_services: clone_string_vec(&self.failed_services),
            cache_hits: self.cache_hits,
            cache_misses: self.cache_misses,
        }
    }
}

impl Default for DiscoveryStatus {
    /// The empty status: nothing recorded yet.
    fn default() -> (r: Self)
        ensures
            r.last_discovery_at is None,
            r.last_success_at is None,
            r.last_error is None,
            r.discovered_services == 0,
            r.failed_services@.len() == 0,
            r.cache_hits == 0,
            r.cache_misses == 0,
    {
        Self::new()
    }
}

/// Service discovery abstraction.
///
/// The interface for resolving service endpoints, implementable by
/// different discovery mechanisms (a directory-backed engine, static
/// configuration, a telemetry proxy).  The trait itself promises nothing of
/// its results: each implementation states its own guarantees on its
/// inherent methods.
pub trait ServiceDiscovery {
    /// Discover endpoints for a specific service by name.
    fn discover_service(&mut self, service_name: &str) -> Result<Vec<String>>;

    /// Discover all available services, best-effort.
    fn discover_all_services(&mut self) -> Result<Vec<String>>;

    /// A snapshot of the current discovery status.
    fn get_status(&self) -> DiscoveryStatus;

    /// Clear any cached discovery data.
    fn clear_cache(&mut self);

    /// Check if a service is available.
    fn is_service_available(&mut self, service_name: &str) -> bool;
}

/// Generic discovery proxy that records discovery status while delegating
/// to another implementation.  It owns no cache, only telemetry, and never
/// alters what the inner source returns.
pub struct ServiceDiscoveryProxy<D: ServiceDiscovery> {
    /// The wrapped discovery source.
    pub inner: D,
    /// This proxy's own telemetry.
    pub status: DiscoveryStatus,
    /// The one service this proxy is about.
    pub service_name: String,
}

impl<D: ServiceDiscovery> ServiceDiscoveryProxy<D> {
    /// Create a proxy for a specific service name.
    pub fn new(inner: D, service_name: String) -> (r: Self)
        ensures
            r.status.last_discovery_at is None,
            r.status.last_success_at is None,
            r.status.last_error is None,
            r.status.discovered_services == 0,
            r.status.failed_services@.len() == 0,
            r.status.cache_hits == 0,
            r.status.cache_misses == 0,
            r.service_name == service_name,
    {
        Self { inner, status: DiscoveryStatus::new(), service_name }
    }

    /// Create a proxy for a [`TritonService`].
    pub fn for_service(inner: D, service: TritonService) -> (r: Self)
        ensures
            r.status.last_error is None,
            r.status.discovered_services == 0,
            r.status.cache_hits == 0,
            r.status.cache_misses == 0,
            r.service_name@ == service.name_spec(),
    {
        let name = service.name().to_owned();
        Self::new(inner, name)
    }

    /// Return the service name associated with this proxy.
    pub fn service_name(&self) -> (r: &str)
        ensures
            r@ == self.service_name@,
    {
        self.service_name.as_str()
    }

    /// Delegate discovery to the inner source and record the outcome in
    /// this proxy's own status: a success sets the discovered count to the
    /// number of endpoints returned and clears the error; a failure records
    /// the error message.  The inner result is passed through unchanged.
    pub fn discover_recorded(&mut self, service_name: &str) -> (r: Result<Vec<String>>)
        ensures
            final(self).service_name == old(self).service_name,
            match r {
                Ok(endpoints) => {
                    &&& final(self).status.discovered_services == endpoints@.len()
                    &&& final(self).status.last_error is None
                    &&& final(self).status.last_discovery_at is Some
                    &&& final(self).status.last_success_at is Some
                    &&& final(self).status.failed_services == old(self).status.failed_services
                    &&& final(self).status.cache_hits == old(self).status.cache_hits
                    &&& final(self).status.cache_misses == old(self).status.cache_misses
                },
                Err(ref e) => {
                    &&& final(self).status.last_error matches Some(m) && m@ == e.message_spec()
                    &&& final(self).status.last_discovery_at == old(self).status.last_discovery_at
                    &&& final(self).status.last_success_at == old(self).status.last_success_at
                    &&& final(self).status.discovered_services == old(
                        self,
                    ).status.discovered_services
                    &&& final(self).status.failed_services == old(self).status.failed_services
                    &&& final(self).status.cache_hits == old(self).status.cache_hits
                    &&& final(self).status.cache_misses == old(self).status.cache_misses
                },
            },
    {
        let result = self.inner.discover_service(service_name);
        match result {
            Ok(endpoints) => {
                let now = now_millis();
                self.status.last_discovery_at = Some(now);
                self.status.last_success_at = Some(now);
                self.status.last_error = None;
                self.status.discovered_services = endpoints.len();
                Ok(endpoints)
            },
            Err(err) => {
                self.status.last_error = Some(err.message());
                Err(err)
            },
        }
    }

    /// Discover the proxy's own configured service through the inner
    /// source, without touching this proxy's telemetry.  This proxy is
    /// per-service: "all services" means its one service.
    pub fn discover_own_service(&mut self) -> (r: Result<Vec<String>>)
        ensures
            final(self).status == old(self).status,
            final(self).service_name == old(self).service_name,
    {
        let name = self.service_name.clone();
        self.inner.discover_service(name.as_str())
    }

    /// A snapshot of this proxy's own telemetry.
    pub fn status_snapshot(&self) -> (r: DiscoveryStatus)
        ensures
            status_matches(r, self.status),
    {
        self.status.clone()
    }

    /// Reset this proxy's own hit/miss counters.  The wrapped source —
    /// cache and all — is untouched.
    pub fn reset_counters(&mut self)
        ensures
            final(self).status == (DiscoveryStatus {
                cache_hits: 0,
                cache_misses: 0,
                ..old(self).status
            }),
            final(self).service_name == old(self).service_name,
            final(self).inner == old(self).inner,
    {
        self.status.cache_hits = 0;
        self.status.cache_misses = 0;
    }
}

impl<D: ServiceDiscovery> ServiceDiscovery for ServiceDiscoveryProxy<D> {
    /// Delegates to the inner source and records the outcome in this
    /// proxy's own status.
    fn discover_service(&mut self, service_name: &str) -> Result<Vec<String>> {
        self.discover_recorded(service_name)
    }

    /// Delegates to discovering this proxy's own configured service name —
    /// the proxy is per-service, not global.
    fn discover_all_services(&mut self) -> Result<Vec<String>> {
        self.discover_own_service()
    }

    fn get_status(&self) -> DiscoveryStatus {
        self.status_snapshot()
    }

    /// Resets only this proxy's own hit/miss counters.
    fn clear_cache(&mut self) {
        self.reset_counters()
    }

    fn is_service_available(&mut self, service_name: &str) -> bool {
        match self.discover_recorded(service_name) {
            Ok(_) => true,
            Err(_) => false,
        }
    }
}

} // verus!
