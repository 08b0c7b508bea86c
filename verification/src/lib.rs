//! Per-participant harness for joining a Byzantine-fault-tolerant ordering
//! session: signature aggregation with quorum thresholds, a sequential data
//! feed, an order-preserving finalization channel, an append-only recovery
//! store, a point-to-point address table, and the orchestrator state machine
//! that decides when a session is complete.

pub mod backup;
pub mod data;
pub mod finalizer;
pub mod keychain;
pub mod multisig;
pub mod network;
pub mod orchestrator;
pub mod signature;
pub mod spawner;
