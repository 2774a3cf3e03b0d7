pub mod reply;

pub use reply::post_events_reply;
