//! Listings of a vector store, rendered as JSON text.
//!
//! The library turns what a vector-storage service returns (buckets, indexes,
//! vectors with their metadata documents) into `serde_json` values and into
//! the JSON text handed on to a user interface. Talking to the service is the
//! caller's business: the library starts from the outcome of a request.

pub mod json;
pub mod document;
pub mod listing;
