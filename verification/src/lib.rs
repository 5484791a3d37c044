//! Orchestration logic for driving a remote Luau execution task:
//! staging a binary payload, spawning the task, polling it to a
//! terminal state with exponential backoff, paginating through its
//! structured logs, and aggregating the final result.
//!
//! All network traffic and file handling live outside this crate;
//! the functions here are the pure decisions of the pipeline, each
//! with a verified contract.

pub mod aggregate;
pub mod backoff;
pub mod fatal;
pub mod logs;
pub mod poll;
pub mod protocol;
pub mod stage;
pub mod text;
