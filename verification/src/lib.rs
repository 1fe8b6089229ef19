//! A verified core for a small product service backed by a remote
//! key-value store.
//!
//! The library holds everything the service decides or computes: the JSON
//! encoding of a product record, the commands sent to the store, and the
//! translation of store replies into HTTP responses. The surrounding
//! process (HTTP server, store connection) lives outside the library and
//! hands it plain values.

pub mod handlers;
pub mod json;
pub mod product;
pub mod store;
