//! The engine: the reconciliation loop as a state machine.
//!
//! The caller drives it: it performs each [`Command`] outside, on the source,
//! the provider, the store, the clock or the channel, and hands the answer to
//! the next step. Everything that is decided is decided here.

pub mod laws;
pub mod machine;
pub mod model;
pub mod protocol;
pub mod session;

pub use machine::DdnsEngine;
pub use model::{EngineModel, Lifecycle, Phase};
pub use protocol::{Command, EngineEvent, Input, Output};
