# p2panda-net (verified core)

`src/` is a Verus library holding the decisions of the networking layer's
components as state machines with exact contracts: the address book's
store writes (`address_book::store::Write`), the sync event poller
(`sync::actors::poller`), the log-sync shutdown sequence and builder
(`sync::log_sync`), and the endpoint configuration (`iroh_endpoint`).
Each module also states and proves the laws of its machine (for example,
that a transacted write commits only an operation that succeeded, or that
the poller forwards every event in order).

`app/` is the ordinary Rust around it: the ractor actor, the awaited store
calls behind a trait object, and the std types (`Ipv4Addr`, `Duration`) that
the library holds as plain values.
