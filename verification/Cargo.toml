[package]
name = "p2panda-net"
version = "0.1.0"
edition = "2021"
publish = false

[dependencies]
futures-util = "=0.3.34"
p2panda-core = "=0.6.1"
p2panda-store = "=0.6.1"
p2panda-sync = "=0.6.1"
ractor = "=0.16.5"
thiserror = "=2.0.21"
tokio = { version = "=1.54.1", features = ["sync", "macros", "rt"] }
