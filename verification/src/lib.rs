//! Supervisor for external download jobs: a registry of in-flight
//! external-process jobs with progress-stream parsing, cooperative
//! cancellation, process-tree termination decisions, and idempotent
//! partial-file cleanup.
//!
//! The library holds the decisions and the data; the process spawning,
//! stream reads, polling cadence, killing and file deletion that those
//! decisions drive are the embedding application's side.

pub mod cleanup;
pub mod events;
pub mod fanout;
pub mod ids;
pub mod launcher;
pub mod lifecycle;
pub mod meta;
pub mod paths;
pub mod progress;
pub mod registry;
pub mod strutil;
pub mod supervisor;
pub mod tool;
pub mod url;
