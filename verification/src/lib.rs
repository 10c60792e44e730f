//! The dispatch-and-measurement core of a load generator for a remote
//! key-value store.
//!
//! Workers take work items from a shared queue, turn each into a backend
//! operation, bound it by a deadline, classify what came back and count it.
//! Everything that waits (the queue, the backend, the clock) is left to the
//! caller: the library decides, the caller performs. Each decision is a
//! function from a state and an event to the next state and an action.

pub mod config;
pub mod dispatch;
pub mod error;
pub mod identity;
pub mod launcher;
pub mod laws;
pub mod metrics;
pub mod pool;
pub mod store;
pub mod worker;
pub mod workload;
