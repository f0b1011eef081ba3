//! Decisions behind a sermon podcast publisher: which seconds of a service
//! video become the episode, and which browser actions save it as a draft.
//!
//! Everything here works on plain values; downloading, transcoding and the
//! browser round-trips are left to the caller.

pub mod text;
pub mod timestamp;
pub mod chapters;
pub mod segment;
pub mod automation;
pub mod script;
pub mod discovery;
pub mod pacing;
pub mod metadata;
pub mod trim;
pub mod pipeline;
pub mod log;
pub mod types;
pub mod history;
