//! Client-side runtime for talking to a set of independently deployed
//! backend services whose network locations are discovered at run time.
//!
//! The crate centres on a resilient request core and a service-discovery
//! subsystem: a pure exponential-backoff policy, a retry driver that
//! classifies failures as transient or terminal, a cached and
//! fallback-capable discovery engine keyed by service name, and a
//! status-recording proxy that decorates any discovery source.

pub mod client;
pub mod cnapi;
pub mod config;
pub mod discovery;
pub mod dn;
pub mod error;
pub mod fwapi;
pub mod group;
pub mod imgapi;
pub mod kv;
pub mod napi;
pub mod papi;
pub mod query;
pub mod retry;
pub mod sapi;
pub mod services;
pub mod text;
pub mod types;
pub mod ufds;
pub mod user;
pub mod uuid;
pub mod vmapi;

pub use error::Error;
pub use error::Result;
pub use retry::RetryPolicy;
