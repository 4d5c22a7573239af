//! Builder for a log-sync instance.
use vstd::prelude::*;
use vstd::slice::slice_to_vec;
use vstd::string::StringSliceAdditionalSpecFns;

verus! {

/// Default sync protocol identifier (ALPN), used when a builder does not name
/// its own.
///
/// The endpoint routes incoming connections by protocol id and keeps exactly
/// one handler per id, so two log-sync instances sharing one endpoint must
/// name distinct ids via [`Builder::protocol_id`]; otherwise the second
/// registration silently replaces the first and receives all of its inbound
/// sync sessions.
pub const LOG_SYNC_PROTOCOL_ID: &'static str = "p2panda/log_sync/v1";

/// Collects what a log-sync instance is spawned with: its store, the
/// endpoint and gossip it runs over, and the protocol id it answers to.
pub struct Builder<S, N, G> {
    store: S,
    endpoint: N,
    gossip: G,
    protocol_id: Vec<u8>,
}

impl<S, N, G> Builder<S, N, G> {
    pub closed spec fn store(self) -> S {
        self.store
    }

    pub closed spec fn endpoint(self) -> N {
        self.endpoint
    }

    pub closed spec fn gossip(self) -> G {
        self.gossip
    }

    /// The protocol id (ALPN) the instance will answer to.
    pub closed spec fn alpn(self) -> Seq<u8> {
        self.protocol_id@
    }

    /// A builder that answers to the default protocol id.
    pub fn new(store: S, endpoint: N, gossip: G) -> (b: Self)
        ensures
            b.store() == store,
            b.endpoint() == endpoint,
            b.gossip() == gossip,
            b.alpn() == LOG_SYNC_PROTOCOL_ID.spec_bytes(),
    {
        Builder { store, endpoint, gossip, protocol_id: slice_to_vec(LOG_SYNC_PROTOCOL_ID.as_bytes()) }
    }

    /// Name this instance's sync protocol id (ALPN).
    ///
    /// The endpoint keeps exactly one handler per protocol id, so every
    /// log-sync instance sharing an endpoint must name a distinct id: with
    /// the shared default, the last-spawned instance silently receives all
    /// inbound sync sessions and every other instance stops converging. Both
    /// peers must name the same id for the same lane, since the initiating
    /// side dials this id and the accepting side routes by it.
    pub fn protocol_id(self, protocol_id: &[u8]) -> (b: Self)
        ensures
            b.alpn() == protocol_id@,
            b.store() == self.store(),
            b.endpoint() == self.endpoint(),
            b.gossip() == self.gossip(),
    {
        Builder { protocol_id: slice_to_vec(protocol_id), ..self }
    }

    /// What the sync manager's actor is spawned with: the protocol id, the
    /// store, the endpoint and the gossip, in that order.
    pub fn into_parts(self) -> (parts: (Vec<u8>, S, N, G))
        ensures
            parts.0@ == self.alpn(),
            parts.1 == self.store(),
            parts.2 == self.endpoint(),
            parts.3 == self.gossip(),
    {
        (self.protocol_id, self.store, self.endpoint, self.gossip)
    }
}

} // verus!
