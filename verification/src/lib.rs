//! Eventful: an in-memory event processing core.
//!
//! The library holds the event model, the record store with its retry state
//! machine, the ingestion and sweeping decisions, and the replies the HTTP
//! layer gives. The asynchronous runtime, the HTTP server and the metrics
//! registry live in the application around it.

pub mod clock;
pub mod domain;
pub mod http;
pub mod service;
pub mod store;
