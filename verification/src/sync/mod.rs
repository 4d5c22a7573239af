//! Sync protocols and the actors driving them.
pub mod actors;
pub mod log_sync;
