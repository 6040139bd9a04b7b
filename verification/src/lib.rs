//! Per-user settings synchronization core.
//!
//! A client stores one opaque settings blob per authenticated user. The
//! library covers the storage contract: how a user identifier is mapped to a
//! fixed storage key, how a table of settings records behaves under lookup,
//! upsert and delete, and how conditional reads and guarded writes are
//! decided from that state.

pub mod config;
pub mod decimal;
pub mod keying;
pub mod laws;
pub mod protocol;
pub mod store;
