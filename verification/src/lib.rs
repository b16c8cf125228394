//! Core of a pipelined, leader-based BFT consensus replica.
//!
//! The library is the decision logic of the replica's consensus task: it
//! consumes a stream of network and internal events, maintains the replicated
//! consensus state (high QC, locked and decided views, saved leaves, payloads,
//! DA certificates and VID shares), aggregates votes into certificates when
//! the node is a leader, and emits the actions (broadcasts, application
//! events, network polling intents, timer commands) that an asynchronous
//! shell must perform.

pub mod types;
pub mod membership;
pub mod kv;
pub mod store;
pub mod accumulator;
pub mod events;
pub mod task;
pub mod props;
pub mod spinning;
pub mod clock;
