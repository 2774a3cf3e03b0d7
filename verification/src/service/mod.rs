pub mod channel;
pub mod ingest;
pub mod sweeper;

pub use channel::SendOutcome;
pub use ingest::{IngestCounters, IngestPlan, IngestResult, IngestService};
pub use sweeper::Sweeper;
pub mod handler;
pub mod laws;
pub mod processor;
