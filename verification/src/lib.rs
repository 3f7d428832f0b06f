//! Lifecycle orchestration for a long-running network node process.
//!
//! The library selects a network profile, resolves it to a protocol
//! identity, supervises the node's background run loop, and coordinates
//! cancellation on an external shutdown signal.  The node collaborator
//! itself (peer-to-peer protocol, validation, storage, RPC) is out of
//! scope: the host program constructs and runs it and reports the
//! outcomes back to the orchestrator, which decides every transition.

pub mod config;
pub mod coordinator;
pub mod identity;
pub mod lifecycle;
pub mod orchestrator;
pub mod outcome;
pub mod task;
