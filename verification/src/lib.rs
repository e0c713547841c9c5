//! Control-plane core of a distributed job-scheduling cluster.
//!
//! The crate decides which cluster node owns the right to schedule a given
//! application's jobs (optimistic leader election over a shared store), runs
//! the periodic three-phase scheduling tick for the apps this node owns, and
//! coordinates graceful shutdown through a broadcast-and-barrier drain
//! protocol. The persistence backend, the wire transport, and the three
//! dispatch sub-systems are abstract collaborators, reached through traits.

pub mod box_new_service;
pub mod collaborators;
pub mod digits;
pub mod drain;
pub mod error;
pub mod mem_store;
pub mod model;
pub mod registry;
pub mod worker_manager;
