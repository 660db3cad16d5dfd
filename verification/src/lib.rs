//! A client-side model of a key-value store's HTTP interface.
//!
//! The crate performs no I/O. For every operation of the store it builds the
//! request that has to be sent ([`Keystore`]) and interprets the reply that
//! came back ([`reply`]); sending is left to the caller.

pub mod json;
pub mod keystore;
pub mod record;
pub mod reply;
pub mod request;
pub mod text;

pub use keystore::Keystore;
pub use record::KVPair;
pub use request::Request;
