//! Configuration of the transport endpoint.
pub mod config;

pub use config::{IrohConfig, TimeSpan};
