//! Orchestration logic for a live packet-capture session: device selection,
//! session configuration, the per-packet persistence plan, the persistence
//! consumer's state machine and the shutdown coordinator.
pub mod source;
pub mod text;
pub mod persist;
pub mod consumer;
pub mod device;
pub mod session;
