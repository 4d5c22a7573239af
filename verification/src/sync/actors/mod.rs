//! Actors of the sync layer.
pub mod poller;

pub use poller::{SyncPoller, ToSyncPoller};
