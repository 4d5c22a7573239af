//! Configuration of the transport endpoint.
//!
//! Addresses are held as their bits and durations as whole seconds plus
//! nanoseconds, so that the configuration is made of plain values.
use vstd::prelude::*;

verus! {

/// A span of time: whole seconds and the nanoseconds beyond them.
#[derive(Clone, Copy, Debug, PartialEq, Eq, Structural)]
pub struct TimeSpan {
    pub secs: u64,
    pub subsec_nanos: u32,
}

impl TimeSpan {
    /// The nanoseconds beyond the whole seconds are less than one second.
    pub open spec fn wf(self) -> bool {
        self.subsec_nanos < 1_000_000_000
    }

    /// The span's length in nanoseconds.
    pub open spec fn as_nanos(self) -> int {
        self.secs * 1_000_000_000 + self.subsec_nanos
    }

    /// A span of `secs` whole seconds.
    pub fn from_secs(secs: u64) -> (t: Self)
        ensures
            t.wf(),
            t.secs == secs,
            t.subsec_nanos == 0,
    {
        TimeSpan { secs, subsec_nanos: 0 }
    }
}

/// Where and how the endpoint binds, and how it keeps observed addresses.
#[derive(Clone, Copy, Debug, PartialEq, Eq, Structural)]
pub struct IrohConfig {
    /// IPv4 address to bind to, as its 32 bits (first octet most significant).
    pub bind_ip_v4: u32,
    /// Port used for IPv4 socket address.
    ///
    /// Setting the port to `0` will use a random port. If the port specified is already in use, it
    /// will fallback to choosing a random port.
    pub bind_port_v4: u16,
    /// IPv6 address to bind to, as its 128 bits (first octet most significant).
    pub bind_ip_v6: u128,
    /// Port used for IPv6 socket address.
    ///
    /// Setting the port to `0` will use a random port. If the port specified is already in use, it
    /// will fallback to choosing a random port.
    pub bind_port_v6: u16,
    /// Maximum authenticated inbound dial hints retained locally. Zero disables caching.
    pub observed_address_capacity: usize,
    /// How long an observed inbound path remains eligible as a fallback dial hint.
    pub observed_address_ttl: TimeSpan,
}

impl Default for IrohConfig {
    /// Binds to the unspecified IPv4 and IPv6 addresses (all bits zero) on random ports, and
    /// keeps up to 4096 observed addresses for 30 minutes each.
    fn default() -> (c: Self)
        ensures
            c.bind_ip_v4 == 0,
            c.bind_port_v4 == 0,
            c.bind_ip_v6 == 0,
            c.bind_port_v6 == 0,
            c.observed_address_capacity == 4096,
            c.observed_address_ttl.wf(),
            c.observed_address_ttl.as_nanos() == 30 * 60 * 1_000_000_000,
    {
        let c = IrohConfig {
            bind_ip_v4: 0,
            bind_port_v4: 0,
            bind_ip_v6: 0,
            bind_port_v6: 0,
            observed_address_capacity: 4096,
            observed_address_ttl: TimeSpan::from_secs(30 * 60),
        };
        c
    }
}

} // verus!
