//! Event-driven dynamic DNS: the decisions of the update pipeline, verified.
//!
//! The library holds every rule of the pipeline as a function on plain values:
//! which addresses a source accepts and selects, when a record is updated,
//! retried, skipped or rate limited, how state is written so that a crash
//! never leaves a half-written file, and how the configuration is validated.
//! Sockets, HTTP, files, timers and the async runtime stay with the caller,
//! which performs the commands that the state machines here hand out and
//! reports back what happened.

pub mod cloudflare;
pub mod config;
pub mod daemon;
pub mod engine;
pub mod error;
pub mod http;
pub mod ip;
pub mod netlink;
pub mod registry;
pub mod state;
pub mod table;
pub mod text;
pub mod time;
pub mod traits;

pub use config::{DdnsConfig, IpSourceConfig, ProviderConfig};
pub use engine::DdnsEngine;
pub use error::Error;
pub use registry::ProviderRegistry;
pub use state::{FileStateStore, MemoryStateStore};
