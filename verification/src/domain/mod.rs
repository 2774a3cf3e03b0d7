pub mod event;
pub mod hash;
pub mod laws;
pub mod state;

pub use event::{Event, EventPayload, EventRecord, EventType};
pub use state::EventStatus;
