//! Node-local client front end for a replicated consensus engine.
//!
//! A cluster node accepts application commands and membership changes,
//! decides whether the local node is the current leader, and either submits
//! the request to the local engine or forwards it to the leader, retrying on
//! recoverable failures.  The decision logic is verified here; an embedding
//! runtime performs the network sends, timer delays and engine calls that the
//! decisions ask for.

pub mod client;
pub mod engine;
pub mod laws;
pub mod messages;
