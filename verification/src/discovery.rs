//! The directory-backed discovery engine: a TTL-bounded cache of resolved
//! endpoints keyed by lower-cased service name, with static fallback
//! endpoints and status bookkeeping.
//!
//! The engine holds every decision of the discovery algorithm; the one
//! thing it cannot do itself — query the directory over the network — is
//! driven from outside.  A caller asks [`DiscoveryEngine::begin_discover`]
//! what to do; when the answer is to refresh, the caller queries the
//! directory (retrying under its own backoff loop) and reports the outcome
//! through [`DiscoveryEngine::note_refresh_success`] or
//! [`DiscoveryEngine::note_refresh_failure`], then settles the result with
//! [`DiscoveryEngine::conclude_failure`] if the refresh did not succeed.

use vstd::prelude::*;

use crate::config::ServiceDiscoveryConfig;
use crate::error::Error;
use crate::services::clone_string_vec;
use crate::services::status_matches;
use crate::services::DiscoveryStatus;
use crate::text::contains_str;
use crate::text::contains_string;
use crate::text::lower_chars;
use crate::text::str_eq;
use crate::text::str_views;
use crate::text::to_ascii_lowercase_str;

verus! {

broadcast use vstd::string::group_string_axioms;

/// Whether an association list holds the given key.
pub open spec fn has_key<T>(entries: Seq<(String, T)>, k: Seq<char>) -> bool {
    exists|i: int| 0 <= i < entries.len() && entries[i].0@ == k
}

/// The value stored under a key (well-defined when the keys are unique).
pub open spec fn value_at<T>(entries: Seq<(String, T)>, k: Seq<char>) -> T {
    entries[choose|i: int| 0 <= i < entries.len() && entries[i].0@ == k].1
}

/// No two entries share a key.
pub open spec fn keys_unique<T>(entries: Seq<(String, T)>) -> bool {
    forall|i: int, j: int|
        0 <= i < j < entries.len() ==> entries[i].0@ != entries[j].0@
}

/// One cached discovery result: the endpoints resolved for a service, and
/// when they were fetched (milliseconds since the Unix epoch).
#[derive(Debug)]
pub struct CachedEndpointEntry {
    /// The resolved endpoint URLs, in their stable sorted order.
    pub endpoints: Vec<String>,
    /// When this entry was written.
    pub fetched_at: u64,
}

/// A cache entry fetched at `fetched_at` is still usable at `now`:
/// no more than `ttl_ms` milliseconds have passed (an entry from the
/// future — a clock that moved backwards — counts as fresh).
pub open spec fn entry_fresh(fetched_at: u64, now: u64, ttl_ms: u64) -> bool {
    now <= fetched_at || now - fetched_at <= ttl_ms
}

/// What the engine asks its driver to do for one lookup.
#[derive(Debug)]
pub enum DiscoveryDecision {
    /// The lookup is answered from the engine's own state.
    Resolved(Vec<String>),
    /// The lookup fails without touching the directory.
    Failed(Error),
    /// The driver must query the directory for this (lower-cased) key.
    Refresh(String),
}

/// `failed` with every occurrence of the key removed, in order.
pub open spec fn remove_all(s: Seq<String>, k: Seq<char>) -> Seq<String>
    decreases s.len(),
{
    if s.len() == 0 {
        Seq::empty()
    } else if s.last()@ == k {
        remove_all(s.drop_last(), k)
    } else {
        remove_all(s.drop_last(), k).push(s.last())
    }
}

/// `x + 1`, saturating at `u64::MAX`.
pub open spec fn inc_sat(x: u64) -> u64 {
    if x < u64::MAX {
        (x + 1) as u64
    } else {
        x
    }
}

/// The observable state of a discovery engine, used to state laws that
/// relate whole operations.
pub ghost struct EngineView {
    /// The cache: key, endpoints, fetch time.
    pub cache: Seq<(Seq<char>, Seq<Seq<char>>, u64)>,
    /// When discovery was last attempted.
    pub last_discovery_at: Option<u64>,
    /// When discovery last succeeded.
    pub last_success_at: Option<u64>,
    /// The last error message.
    pub last_error: Option<Seq<char>>,
    /// Number of services successfully discovered.
    pub discovered_services: int,
    /// Services that failed discovery.
    pub failed_services: Seq<Seq<char>>,
    /// Cache hit counter.
    pub cache_hits: u64,
    /// Cache miss counter.
    pub cache_misses: u64,
    /// The freshness bound, in milliseconds.
    pub ttl_ms: u64,
    /// Retry attempts per refresh.
    pub retry_attempts: u32,
    /// The static fallback table.
    pub fallback: Seq<(Seq<char>, Seq<Seq<char>>)>,
    /// Whether discovery is enabled.
    pub enabled: bool,
}

impl EngineView {
    /// The view after `clear_cache`: the cache is empty and both counters
    /// are zero; everything else is untouched.
    pub open spec fn cleared(self) -> EngineView {
        EngineView {
            cache: Seq::empty(),
            cache_hits: 0,
            cache_misses: 0,
            ..self
        }
    }
}

/// The cached, fallback-capable discovery engine.
///
/// State: the endpoint cache, the discovery status, the freshness bound,
/// the per-refresh retry budget, the static fallback table, and the
/// enabled flag.  All time is passed in explicitly as milliseconds since
/// the Unix epoch, so every decision is a function of the engine state and
/// its arguments.
#[derive(Debug)]
pub struct DiscoveryEngine {
    /// Cached endpoints, keyed by lower-cased service name.
    pub cache: Vec<(String, CachedEndpointEntry)>,
    /// Health and telemetry of this engine.
    pub status: DiscoveryStatus,
    /// How long a cache entry stays usable, in milliseconds.
    pub ttl_ms: u64,
    /// How many retries the driver should attempt per refresh.
    pub retry_attempts: u32,
    /// Static fallback endpoints, keyed by lower-cased service name.
    pub fallback: Vec<(String, Vec<String>)>,
    /// Whether discovery is enabled at all.
    pub enabled: bool,
}

impl View for DiscoveryEngine {
    type V = EngineView;

    open spec fn view(&self) -> EngineView {
        EngineView {
            cache: self.cache@.map_values(
                |e: (String, CachedEndpointEntry)|
                    (e.0@, e.1.endpoints@.map_values(|s: String| s@), e.1.fetched_at),
            ),
            last_discovery_at: self.status.last_discovery_at,
            last_success_at: self.status.last_success_at,
            last_error: match self.status.last_error {
                Some(m) => Some(m@),
                None => None,
            },
            discovered_services: self.status.discovered_services as int,
            failed_services: self.status.failed_services@.map_values(|s: String| s@),
            cache_hits: self.status.cache_hits,
            cache_misses: self.status.cache_misses,
            ttl_ms: self.ttl_ms,
            retry_attempts: self.retry_attempts,
            fallback: self.fallback@.map_values(
                |e: (String, Vec<String>)| (e.0@, e.1@.map_values(|s: String| s@)),
            ),
            enabled: self.enabled,
        }
    }
}

impl DiscoveryEngine {
    /// Keys are unique in both tables.
    pub open spec fn wf(self) -> bool {
        keys_unique(self.cache@) && keys_unique(self.fallback@)
    }

    /// The fallback endpoints stored under a key, as character sequences.
    pub open spec fn fallback_urls(self, k: Seq<char>) -> Option<Seq<Seq<char>>> {
        if has_key(self.fallback@, k) {
            Some(value_at(self.fallback@, k)@.map_values(|s: String| s@))
        } else {
            None
        }
    }

    /// The cached entry stored under a key.
    pub open spec fn cached_entry(self, k: Seq<char>) -> Option<CachedEndpointEntry> {
        if has_key(self.cache@, k) {
            Some(value_at(self.cache@, k))
        } else {
            None
        }
    }

    /// Create a new engine from a discovery configuration: an empty cache,
    /// an empty status, the configured TTL (in milliseconds), retry budget
    /// and enabled flag, and one fallback entry per configured static
    /// endpoint.
    pub fn new(config: &ServiceDiscoveryConfig) -> (r: Self)
        ensures
            r.wf(),
            r.cache@.len() == 0,
            r.status.last_discovery_at is None,
            r.status.last_success_at is None,
            r.status.last_error is None,
            r.status.discovered_services == 0,
            r.status.failed_services@.len() == 0,
            r.status.cache_hits == 0,
            r.status.cache_misses == 0,
            r.ttl_ms as int == vstd::math::min(
                config.cache_ttl_secs as int * 1000,
                u64::MAX as int,
            ),
            r.retry_attempts == config.retry_attempts,
            r.enabled == config.enabled,
            r.fallback_urls("vmapi"@) == (match config.services.vmapi {
                Some(c) => Some(seq![c.url@]),
                None => None::<Seq<Seq<char>>>,
            }),
            r.fallback_urls("cnapi"@) == (match config.services.cnapi {
                Some(c) => Some(seq![c.url@]),
                None => None::<Seq<Seq<char>>>,
            }),
            r.fallback_urls("napi"@) == (match config.services.napi {
                Some(c) => Some(seq![c.url@]),
                None => None::<Seq<Seq<char>>>,
            }),
            r.fallback_urls("imgapi"@) == (match config.services.imgapi {
                Some(c) => Some(seq![c.url@]),
                None => None::<Seq<Seq<char>>>,
            }),
            r.fallback_urls("papi"@) == (match config.services.papi {
                Some(c) => Some(seq![c.url@]),
                None => None::<Seq<Seq<char>>>,
            }),
            r.fallback_urls("fwapi"@) == (match config.services.fwapi {
                Some(c) => Some(seq![c.url@]),
                None => None::<Seq<Seq<char>>>,
            }),
            forall|k: Seq<char>|
                (#[trigger] r.fallback_urls(k)) is Some ==> (k == "vmapi"@ || k == "cnapi"@ || k
                    == "napi"@ || k == "imgapi"@ || k == "papi"@ || k == "fwapi"@),
    {
        proof {
            reveal_strlit("vmapi");
            reveal_strlit("cnapi");
            reveal_strlit("napi");
            reveal_strlit("imgapi");
            reveal_strlit("papi");
            reveal_strlit("fwapi");
            assert("vmapi"@[0] == 'v' && "cnapi"@[0] == 'c' && "napi"@[0] == 'n' && "imgapi"@[0]
                == 'i' && "papi"@[0] == 'p' && "fwapi"@[0] == 'f');
            assert("vmapi"@ != "cnapi"@ && "vmapi"@ != "napi"@ && "vmapi"@ != "imgapi"@
                && "vmapi"@ != "papi"@ && "vmapi"@ != "fwapi"@);
            assert("cnapi"@ != "napi"@ && "cnapi"@ != "imgapi"@ && "cnapi"@ != "papi"@
                && "cnapi"@ != "fwapi"@);
            assert("napi"@ != "imgapi"@ && "napi"@ != "papi"@ && "napi"@ != "fwapi"@);
            assert("imgapi"@ != "papi"@ && "imgapi"@ != "fwapi"@);
            assert("papi"@ != "fwapi"@);
        }
        let mut fallback: Vec<(String, Vec<String>)> = Vec::new();
        push_fallback(&mut fallback, "vmapi", &config.services.vmapi);
        push_fallback(&mut fallback, "cnapi", &config.services.cnapi);
        push_fallback(&mut fallback, "napi", &config.services.napi);
        push_fallback(&mut fallback, "imgapi", &config.services.imgapi);
        push_fallback(&mut fallback, "papi", &config.services.papi);
        push_fallback(&mut fallback, "fwapi", &config.services.fwapi);
        proof {
            assert forall|k: Seq<char>| has_key(fallback@, k) implies (k == "vmapi"@ || k
                == "cnapi"@ || k == "napi"@ || k == "imgapi"@ || k == "papi"@ || k
                == "fwapi"@) by {
                assert(!has_key(Seq::<(String, Vec<String>)>::empty(), k));
            }
        }
        let r = Self {
            cache: Vec::new(),
            status: DiscoveryStatus::new(),
            ttl_ms: config.cache_ttl_ms(),
            retry_attempts: config.retry_attempts,
            fallback,
            enabled: config.enabled,
        };
        r
    }
}

/// Append one fallback entry when the endpoint is configured, under a key
/// not yet present.
fn push_fallback(
    fallback: &mut Vec<(String, Vec<String>)>,
    name: &str,
    endpoint: &Option<crate::config::ServiceEndpointConfig>,
)
    requires
        !has_key(old(fallback)@, name@),
        keys_unique(old(fallback)@),
    ensures
        keys_unique(final(fallback)@),
        final(fallback)@.len() >= old(fallback)@.len(),
        match endpoint {
            Some(c) => final(fallback)@ == old(fallback)@.push(
                (final(fallback)@.last().0, final(fallback)@.last().1),
            ) && final(fallback)@.last().0@ == name@ && final(fallback)@.last().1@.map_values(
                |s: String| s@,
            ) == seq![c.url@],
            None => final(fallback)@ == old(fallback)@,
        },
        forall|k: Seq<char>|
            k != name@ ==> (has_key(final(fallback)@, k) == has_key(old(fallback)@, k)
                && (has_key(old(fallback)@, k) ==> value_at(final(fallback)@, k) == value_at(
                old(fallback)@,
                k,
            ))),
        has_key(final(fallback)@, name@) == endpoint is Some,
        (endpoint matches Some(c) ==> has_key(final(fallback)@, name@) && value_at(
            final(fallback)@,
            name@,
        )@.map_values(|s: String| s@) == seq![c.url@]),
{
    match endpoint {
        Some(config) => {
            let mut urls: Vec<String> = Vec::new();
            urls.push(config.url.clone());
            let n = fallback.len();
            fallback.push((name.to_owned(), urls));
            proof {
                assert(fallback@[n as int].0@ == name@);
                assert(has_key(fallback@, name@));
                lemma_push_preserves_assoc(old(fallback)@, fallback@, name@);
                assert(value_at(fallback@, name@)@.map_values(|s: String| s@) =~= seq![
                    config.url@,
                ]);
            }
        },
        None => {
            proof {
                assert(!has_key(fallback@, name@));
            }
        },
    }
}

impl DiscoveryEngine {
    /// Decide how to answer one lookup at time `now_ms`.
    ///
    /// The service name is lower-cased to form the cache key.  With
    /// discovery disabled, a non-empty fallback entry answers the lookup
    /// and anything else fails with [`Error::DiscoveryFailed`]; no counter
    /// moves.  With discovery enabled, a fresh cache entry is a cache hit
    /// (the hit counter moves, nothing else); otherwise the caller must
    /// refresh the returned key against the directory.
    pub fn begin_discover(&mut self, service_name: &str, now_ms: u64) -> (r: DiscoveryDecision)
        requires
            old(self).wf(),
        ensures
            final(self).wf(),
            final(self).ttl_ms == old(self).ttl_ms,
            final(self).retry_attempts == old(self).retry_attempts,
            final(self).enabled == old(self).enabled,
            final(self).fallback == old(self).fallback,
            final(self).cache == old(self).cache,
            final(self).status.last_discovery_at == old(self).status.last_discovery_at,
            final(self).status.last_success_at == old(self).status.last_success_at,
            final(self).status.last_error == old(self).status.last_error,
            final(self).status.discovered_services == old(self).status.discovered_services,
            final(self).status.failed_services == old(self).status.failed_services,
            final(self).status.cache_misses == old(self).status.cache_misses,
            ({
                let key = lower_chars(service_name@);
                if !old(self).enabled {
                    &&& final(self).status.cache_hits == old(self).status.cache_hits
                    &&& match old(self).fallback_urls(key) {
                        Some(urls) => if urls.len() > 0 {
                            r matches DiscoveryDecision::Resolved(v) && str_views(v@) == urls
                        } else {
                            begin_disabled_failure(r, service_name@)
                        },
                        None => begin_disabled_failure(r, service_name@),
                    }
                } else {
                    match old(self).cached_entry(key) {
                        Some(entry) => if entry_fresh(entry.fetched_at, now_ms, old(self).ttl_ms) {
                            &&& final(self).status.cache_hits == inc_sat(
                                old(self).status.cache_hits,
                            )
                            &&& r matches DiscoveryDecision::Resolved(v) && str_views(v@)
                                == str_views(entry.endpoints@)
                        } else {
                            &&& final(self).status.cache_hits == old(self).status.cache_hits
                            &&& r matches DiscoveryDecision::Refresh(k) && k@ == key
                        },
                        None => {
                            &&& final(self).status.cache_hits == old(self).status.cache_hits
                            &&& r matches DiscoveryDecision::Refresh(k) && k@ == key
                        },
                    }
                }
            }),
    {
        let key = to_ascii_lowercase_str(service_name);
        if !self.enabled {
            let found = assoc_find(&self.fallback, key.as_str());
            match found {
                Some(i) => {
                    proof {
                        lemma_value_at_unique(self.fallback@, key@, i as int);
                    }
                    if self.fallback[i].1.len() > 0 {
                        let urls = clone_string_vec(&self.fallback[i].1);
                        proof {
                            assert(str_views(urls@) =~= self.fallback_urls(key@).unwrap());
                        }
                        return DiscoveryDecision::Resolved(urls);
                    }
                    return DiscoveryDecision::Failed(disabled_error(service_name));
                },
                None => {
                    return DiscoveryDecision::Failed(disabled_error(service_name));
                },
            }
        }
        let found = assoc_find(&self.cache, key.as_str());
        match found {
            Some(i) => {
                proof {
                    lemma_value_at_unique(self.cache@, key@, i as int);
                }
                let fetched = self.cache[i].1.fetched_at;
                let fresh = if now_ms <= fetched {
                    true
                } else {
                    now_ms - fetched <= self.ttl_ms
                };
                if fresh {
                    let endpoints = clone_string_vec(&self.cache[i].1.endpoints);
                    if self.status.cache_hits < u64::MAX {
                        self.status.cache_hits = self.status.cache_hits + 1;
                    }
                    return DiscoveryDecision::Resolved(endpoints);
                }
                DiscoveryDecision::Refresh(key)
            },
            None => DiscoveryDecision::Refresh(key),
        }
    }

    /// Record a successful refresh of `key` at time `now_ms`: the cache
    /// gets a fresh entry holding these endpoints, the status records the
    /// success (error cleared, the key removed from the failed list, the
    /// miss counter moved), and nothing else changes.
    pub fn note_refresh_success(&mut self, key: &str, endpoints: &Vec<String>, now_ms: u64)
        requires
            old(self).wf(),
        ensures
            final(self).wf(),
            final(self).ttl_ms == old(self).ttl_ms,
            final(self).retry_attempts == old(self).retry_attempts,
            final(self).enabled == old(self).enabled,
            final(self).fallback == old(self).fallback,
            final(self).status.last_discovery_at == Some(now_ms),
            final(self).status.last_success_at == Some(now_ms),
            final(self).status.last_error is None,
            final(self).status.discovered_services == endpoints@.len(),
            final(self).status.failed_services@ == remove_all(
                old(self).status.failed_services@,
                key@,
            ),
            final(self).status.cache_hits == old(self).status.cache_hits,
            final(self).status.cache_misses == inc_sat(old(self).status.cache_misses),
            has_key(final(self).cache@, key@),
            str_views(value_at(final(self).cache@, key@).endpoints@) == str_views(endpoints@),
            value_at(final(self).cache@, key@).fetched_at == now_ms,
            forall|k2: Seq<char>|
                k2 != key@ ==> (has_key(final(self).cache@, k2) == has_key(old(self).cache@, k2)
                    && (has_key(old(self).cache@, k2) ==> value_at(final(self).cache@, k2)
                    == value_at(old(self).cache@, k2))),
    {
        self.status.last_discovery_at = Some(now_ms);
        self.status.last_success_at = Some(now_ms);
        self.status.last_error = None;
        self.status.discovered_services = endpoints.len();
        remove_string(&mut self.status.failed_services, key);
        if self.status.cache_misses < u64::MAX {
            self.status.cache_misses = self.status.cache_misses + 1;
        }
        remove_key(&mut self.cache, key);
        let ghost before = self.cache@;
        let entry = CachedEndpointEntry {
            endpoints: clone_string_vec(endpoints),
            fetched_at: now_ms,
        };
        proof {
            assert(str_views(entry.endpoints@) =~= str_views(endpoints@));
        }
        self.cache.push((key.to_owned(), entry));
        proof {
            lemma_push_preserves_assoc(before, self.cache@, key@);
        }
    }

    /// Record a failed refresh of `key` at time `now_ms`: the attempt
    /// timestamp is set, the error message (when one is given) is
    /// recorded, the key joins the failed list if it is not already there,
    /// and nothing else — cache included — changes.
    pub fn note_refresh_failure(&mut self, key: &str, error: Option<&Error>, now_ms: u64)
        requires
            old(self).wf(),
        ensures
            final(self).wf(),
            final(self).ttl_ms == old(self).ttl_ms,
            final(self).retry_attempts == old(self).retry_attempts,
            final(self).enabled == old(self).enabled,
            final(self).fallback == old(self).fallback,
            final(self).cache == old(self).cache,
            final(self).status.last_discovery_at == Some(now_ms),
            final(self).status.last_success_at == old(self).status.last_success_at,
            match error {
                Some(e) => final(self).status.last_error matches Some(m) && m@
                    == e.message_spec(),
                None => final(self).status.last_error == old(self).status.last_error,
            },
            final(self).status.discovered_services == old(self).status.discovered_services,
            final(self).status.cache_hits == old(self).status.cache_hits,
            final(self).status.cache_misses == old(self).status.cache_misses,
            if contains_str(old(self).status.failed_services@, key@) {
                str_views(final(self).status.failed_services@) == str_views(
                    old(self).status.failed_services@,
                )
            } else {
                str_views(final(self).status.failed_services@) == str_views(
                    old(self).status.failed_services@,
                ).push(key@)
            },
    {
        self.status.last_discovery_at = Some(now_ms);
        match error {
            Some(e) => {
                self.status.last_error = Some(e.message());
            },
            None => (),
        }
        let already = contains_string(&self.status.failed_services, key);
        if !already {
            let ghost before = self.status.failed_services@;
            self.status.failed_services.push(key.to_owned());
            proof {
                assert(str_views(self.status.failed_services@) =~= str_views(before).push(key@));
            }
        }
    }

    /// Settle a lookup whose refresh failed: a non-empty fallback entry for
    /// the key answers the lookup after all (the directory failure stays
    /// visible in the status); otherwise the last recorded error is
    /// surfaced, or a synthesized [`Error::DiscoveryFailed`] when none was.
    pub fn conclude_failure(&self, key: &str, last_error: Option<Error>) -> (r: Result<
        Vec<String>,
        Error,
    >)
        requires
            self.wf(),
        ensures
            ({
                let fb = self.fallback_urls(key@);
                if fb matches Some(urls) && urls.len() > 0 {
                    r matches Ok(v) && str_views(v@) == fb.unwrap()
                } else {
                    r matches Err(e) && match last_error {
                        Some(le) => e == le,
                        None => e matches Error::DiscoveryFailed(m) && m@
                            == "Failed to discover endpoints for `"@ + key@ + "`"@,
                    }
                }
            }),
    {
        let found = assoc_find(&self.fallback, key);
        match found {
            Some(i) => {
                proof {
                    lemma_value_at_unique(self.fallback@, key@, i as int);
                }
                if self.fallback[i].1.len() > 0 {
                    let urls = clone_string_vec(&self.fallback[i].1);
                    proof {
                        assert(str_views(urls@) =~= self.fallback_urls(key@).unwrap());
                    }
                    return Ok(urls);
                }
                Err(synthesize_failure(key, last_error))
            },
            None => Err(synthesize_failure(key, last_error)),
        }
    }

    /// A snapshot of the engine's status.
    pub fn get_status(&self) -> (r: DiscoveryStatus)
        ensures
            status_matches(r, self.status),
    {
        self.status.clone()
    }

    /// Empty the cache and zero the hit/miss counters.  The error and
    /// failed-service records, the fallback table, and the configuration
    /// are untouched, so subsequent lookups are treated as fresh misses.
    pub fn clear_cache(&mut self)
        requires
            old(self).wf(),
        ensures
            final(self).wf(),
            final(self)@ == old(self)@.cleared(),
            final(self).fallback == old(self).fallback,
            final(self).status.last_error == old(self).status.last_error,
            final(self).status.failed_services == old(self).status.failed_services,
            final(self).cache@.len() == 0,
            final(self).status.cache_hits == 0,
            final(self).status.cache_misses == 0,
    {
        self.cache = Vec::new();
        self.status.cache_hits = 0;
        self.status.cache_misses = 0;
        proof {
            assert(final(self)@.cache =~= old(self)@.cleared().cache);
            assert(final(self)@ == old(self)@.cleared());
        }
    }
}

/// Law: clearing the cache is idempotent.  Clearing an engine twice in a
/// row leaves exactly the observable state that clearing it once leaves:
/// the counters reach zero and stay there, the cache stays empty, and
/// nothing else moves.
pub proof fn lemma_clear_cache_idempotent(v: EngineView)
    ensures
        v.cleared().cleared() == v.cleared(),
{
}

/// The decision when discovery is disabled and no usable fallback exists:
/// the lookup fails with [`Error::DiscoveryFailed`] naming the service.
pub open spec fn begin_disabled_failure(r: DiscoveryDecision, service_name: Seq<char>) -> bool {
    r matches DiscoveryDecision::Failed(e) && e matches Error::DiscoveryFailed(m) && m@
        == "Service discovery disabled and no fallback for `"@ + service_name + "`"@
}

/// The disabled-discovery error for a service name.
fn disabled_error(service_name: &str) -> (r: Error)
    ensures
        r matches Error::DiscoveryFailed(m) && m@
            == "Service discovery disabled and no fallback for `"@ + service_name@ + "`"@,
{
    let mut msg = "Service discovery disabled and no fallback for `".to_owned();
    msg.append(service_name);
    msg.append("`");
    Error::DiscoveryFailed(msg)
}

/// The error surfaced when a refresh failed and no fallback applies.
fn synthesize_failure(key: &str, last_error: Option<Error>) -> (r: Error)
    ensures
        match last_error {
            Some(le) => r == le,
            None => r matches Error::DiscoveryFailed(m) && m@
                == "Failed to discover endpoints for `"@ + key@ + "`"@,
        },
{
    match last_error {
        Some(e) => e,
        None => {
            let mut msg = "Failed to discover endpoints for `".to_owned();
            msg.append(key);
            msg.append("`");
            Error::DiscoveryFailed(msg)
        },
    }
}

/// Find the index of the entry holding the given key.
fn assoc_find<T>(entries: &Vec<(String, T)>, key: &str) -> (r: Option<usize>)
    ensures
        match r {
            Some(i) => i < entries@.len() && entries@[i as int].0@ == key@,
            None => !has_key(entries@, key@),
        },
{
    let mut i: usize = 0;
    while i < entries.len()
        invariant
            i <= entries@.len(),
            forall|j: int| 0 <= j < i ==> entries@[j].0@ != key@,
        decreases entries@.len() - i,
    {
        if str_eq(entries[i].0.as_str(), key) {
            return Some(i);
        }
        i = i + 1;
    }
    None
}

/// With unique keys, the entry found at an index is the value the key maps
/// to.
proof fn lemma_value_at_unique<T>(entries: Seq<(String, T)>, k: Seq<char>, i: int)
    requires
        keys_unique(entries),
        0 <= i < entries.len(),
        entries[i].0@ == k,
    ensures
        has_key(entries, k),
        value_at(entries, k) == entries[i].1,
{
    assert(has_key(entries, k));
    let j = choose|j: int| 0 <= j < entries.len() && entries[j].0@ == k;
    if i != j {
        if i < j {
            assert(entries[i].0@ != entries[j].0@);
        } else {
            assert(entries[j].0@ != entries[i].0@);
        }
        assert(false);
    }
}

/// Remove the entry holding the given key, if any.  Every other key keeps
/// its presence and value.
fn remove_key<T>(entries: &mut Vec<(String, T)>, key: &str)
    requires
        keys_unique(old(entries)@),
    ensures
        keys_unique(final(entries)@),
        !has_key(final(entries)@, key@),
        forall|k2: Seq<char>|
            k2 != key@ ==> (has_key(final(entries)@, k2) == has_key(old(entries)@, k2) && (
            has_key(old(entries)@, k2) ==> value_at(final(entries)@, k2) == value_at(
                old(entries)@,
                k2,
            ))),
{
    let found = assoc_find(entries, key);
    match found {
        Some(i) => {
            let ghost before = entries@;
            entries.remove(i);
            proof {
                lemma_remove_preserves_assoc(before, entries@, i as int, key@);
            }
        },
        None => {
            proof {
                assert(final(entries)@ == old(entries)@);
            }
        },
    }
}

/// After removing the one entry holding a key, every other key keeps its
/// presence and value.
proof fn lemma_remove_preserves_assoc<T>(
    before: Seq<(String, T)>,
    after: Seq<(String, T)>,
    i: int,
    k: Seq<char>,
)
    requires
        keys_unique(before),
        0 <= i < before.len(),
        before[i].0@ == k,
        after == before.remove(i),
    ensures
        keys_unique(after),
        !has_key(after, k),
        forall|k2: Seq<char>|
            k2 != k ==> (has_key(after, k2) == has_key(before, k2) && (has_key(before, k2)
                ==> value_at(after, k2) == value_at(before, k2))),
{
    assert(after.len() == before.len() - 1);
    assert forall|j: int| 0 <= j < after.len() implies after[j].0@ != k by {
        if j < i {
            assert(after[j] == before[j]);
        } else {
            assert(after[j] == before[j + 1]);
        }
    }
    assert forall|a: int, b: int| 0 <= a < b < after.len() implies after[a].0@ != after[b].0@ by {
        let a0 = if a < i {
            a
        } else {
            a + 1
        };
        let b0 = if b < i {
            b
        } else {
            b + 1
        };
        assert(after[a] == before[a0]);
        assert(after[b] == before[b0]);
    }
    assert forall|k2: Seq<char>| k2 != k implies (has_key(after, k2) == has_key(before, k2) && (
    has_key(before, k2) ==> value_at(after, k2) == value_at(before, k2))) by {
        if has_key(after, k2) {
            let j = choose|j: int| 0 <= j < after.len() && after[j].0@ == k2;
            let j0 = if j < i {
                j
            } else {
                j + 1
            };
            assert(before[j0].0@ == k2);
            assert(has_key(before, k2));
        }
        if has_key(before, k2) {
            let j0 = choose|j: int| 0 <= j < before.len() && before[j].0@ == k2;
            let j = if j0 < i {
                j0
            } else {
                j0 - 1
            };
            assert(j0 != i);
            if j0 < i {
                assert(after[j] == before[j0]);
            } else {
                assert(after[j] == before[j0]);
            }
            assert(has_key(after, k2));
            lemma_value_at_unique(after, k2, j);
            lemma_value_at_unique(before, k2, j0);
        }
    }
}

/// Remove every element reading `key` from the vector, keeping the order
/// of the rest.
fn remove_string(v: &mut Vec<String>, key: &str)
    ensures
        final(v)@ == remove_all(old(v)@, key@),
{
    let mut out: Vec<String> = Vec::new();
    let mut i: usize = 0;
    proof {
        assert(v@.subrange(0, 0) =~= Seq::<String>::empty());
    }
    while i < v.len()
        invariant
            i <= v@.len(),
            out@ == remove_all(v@.subrange(0, i as int), key@),
        decreases v@.len() - i,
    {
        proof {
            assert(v@.subrange(0, i + 1).drop_last() =~= v@.subrange(0, i as int));
            assert(v@.subrange(0, i + 1).last() == v@[i as int]);
        }
        if !str_eq(v[i].as_str(), key) {
            out.push(v[i].clone());
        }
        i = i + 1;
    }
    proof {
        assert(v@.subrange(0, v@.len() as int) =~= v@);
    }
    *v = out;
}

/// After pushing one entry with a fresh key, every other key keeps its
/// presence and value, and the fresh key maps to the pushed entry.
proof fn lemma_push_preserves_assoc<T>(before: Seq<(String, T)>, after: Seq<(String, T)>, k: Seq<char>)
    requires
        keys_unique(before),
        !has_key(before, k),
        after == before.push((after.last().0, after.last().1)),
        after.last().0@ == k,
    ensures
        keys_unique(after),
        has_key(after, k),
        value_at(after, k) == after.last().1,
        forall|k2: Seq<char>|
            k2 != k ==> (has_key(after, k2) == has_key(before, k2) && (has_key(before, k2)
                ==> value_at(after, k2) == value_at(before, k2))),
{
    let n = before.len() as int;
    assert(after[n].0@ == k);
    assert(has_key(after, k));
    assert forall|i: int, j: int| 0 <= i < j < after.len() implies after[i].0@ != after[j].0@ by {
        if j < n {
            assert(after[i] == before[i] && after[j] == before[j]);
        } else {
            assert(after[i] == before[i]);
            if after[i].0@ == k {
                assert(has_key(before, k));
            }
        }
    }
    let w = choose|i: int| 0 <= i < after.len() && after[i].0@ == k;
    if w < n {
        assert(before[w].0@ == k);
        assert(has_key(before, k));
    }
    assert(value_at(after, k) == after[n].1);
    assert forall|k2: Seq<char>| k2 != k implies (has_key(after, k2) == has_key(before, k2) && (
    has_key(before, k2) ==> value_at(after, k2) == value_at(before, k2))) by {
        if has_key(after, k2) {
            let i = choose|i: int| 0 <= i < after.len() && after[i].0@ == k2;
            if i == n {
                assert(k2 == k);
            } else {
                assert(before[i].0@ == k2);
                assert(has_key(before, k2));
            }
        }
        if has_key(before, k2) {
            let i = choose|i: int| 0 <= i < before.len() && before[i].0@ == k2;
            assert(after[i].0@ == k2);
            assert(has_key(after, k2));
            let i1 = choose|i: int| 0 <= i < after.len() && after[i].0@ == k2;
            let i2 = choose|i: int| 0 <= i < before.len() && before[i].0@ == k2;
            assert(after[i2].0@ == k2);
            if i1 != i2 {
                if i1 < n {
                    assert(after[i1] == before[i1] && after[i2] == before[i2]);
                    assert(false);
                } else {
                    assert(after[i1].0@ == k);
                    assert(false);
                }
            }
            assert(value_at(after, k2) == value_at(before, k2));
        }
    }
}

} // verus!
