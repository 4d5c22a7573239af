//! Verified core of the p2panda networking layer: the address book's store
//! handle and builder, the endpoint configuration, the sync event poller and
//! the log-sync protocol's builder and shutdown sequence.
//!
//! Everything that waits on a future, talks to an actor or touches a socket
//! lives outside this crate; what remains here are the decisions those
//! components make, written as plain state machines over plain values.
pub mod address_book;
pub mod iroh_endpoint;
pub mod sync;
