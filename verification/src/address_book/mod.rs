//! Address book: where information about other nodes is kept.
pub mod builder;
pub mod store;

pub use builder::{AddressBookError, Builder};


