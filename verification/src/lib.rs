//! Orchestration of a pool of storage-index clients and one scan-notification
//! client: a two-phase builder, a polling cycle and a random pick from the pool.
//!
//! The clients themselves are the caller's: the library is generic in their
//! types, decides what has to happen next and keeps what was built.

pub mod assembly;
pub mod builder;
pub mod config;
pub mod error;
pub mod guarantees;
pub mod orchestrator;
mod random;
