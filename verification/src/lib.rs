//! Session controller for a terminal data-generation workflow tool.
//!
//! The crate models the controller itself: the hierarchical navigation and
//! focus state machine behind every panel, the bounded log buffer with its
//! eviction-aware scroll pin, and the job-orchestration protocol that gates
//! long-running external jobs behind per-kind busy flags and completion
//! sentinels. Rendering, file access and process handling live outside; the
//! controller exchanges plain values with them.

pub mod app;
pub mod channel;
pub mod data;
pub mod events;
pub mod jobs;
pub mod keys;
pub mod launch;
pub mod laws;
pub mod logbuf;
pub mod nav;
pub mod numfmt;
pub mod preview;
pub mod sections;
pub mod topics;
