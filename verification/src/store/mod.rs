pub mod laws;
pub mod memory;
pub mod spec;

pub use memory::{MemoryStore, ReserveResult, StartResult, StoreError};
