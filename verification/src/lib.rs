//! Core of a concurrent download orchestrator: task lifecycle management,
//! concurrency-bounded fan-out/fan-in fetching, and progress reporting.
//!
//! The library holds the decision logic only. Network fetches, the filesystem
//! and the async runtime live outside; they drive these state machines and
//! hand every result back in as a plain value.

pub mod catalog;
pub mod comic;
pub mod config;
pub mod error;
pub mod limiter;
pub mod manager;
pub mod registry;
pub mod sync;
pub mod task;
pub mod util;
