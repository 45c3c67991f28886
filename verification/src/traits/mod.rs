//! The values that cross the three collaborator interfaces: what an IP source
//! reports, what a DNS provider answers, and what a state store keeps.

pub mod dns_provider;
pub mod ip_source;
pub mod state_store;

pub use dns_provider::{RecordMetadata, UpdateResult};
pub use ip_source::{IpChangeEvent, IpVersion};
pub use state_store::{StateRecord, StateRecordView};
