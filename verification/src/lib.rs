//! The request layer of an nginx module written in Rust: the per-request
//! counters, module contexts, upstream set-up and the hand-off of requests
//! to background work, over a model of the nginx structures they touch.
pub mod background;
pub mod effects;
pub mod laws;
pub mod memory;
pub mod request;
pub mod status;
pub mod upstream;
