//! Eventually consistent, local-first sync protocol based on append-only logs.
//!
//! After initial sync has finished, nodes switch to live mode and push new
//! messages to the network using a gossip protocol.
pub mod api;
pub mod builder;

pub use api::LogSyncError;
pub use builder::{Builder, LOG_SYNC_PROTOCOL_ID};
