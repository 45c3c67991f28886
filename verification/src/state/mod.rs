//! The two reference stores: one in memory, one behind a crash-safe file.

pub mod durability;
pub mod file;
pub mod memory;
pub mod records;

pub use file::FileStateStore;
pub use memory::MemoryStateStore;
