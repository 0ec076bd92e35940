//! Patch orchestration engine: applies an ordered sequence of incremental
//! update packages to a local file tree and to a packed resource archive,
//! resuming across interruptions through a persisted checkpoint.
//!
//! The engine itself is free of I/O: it is a state machine that an embedding
//! program drives, handing it the outcome of each network or filesystem step
//! and receiving the next decision (what to download, where to apply a
//! package, which checkpoint to persist, which status to report).

pub mod checkpoint;
pub mod manifest;
pub mod messages;
pub mod pipeline;
pub mod status;
pub mod urls;
