//! An in-memory user directory with its HTTP-facing request handling.
//!
//! `user` holds the record type, `store` the id-keyed mapping and its
//! lock-guarded shared form, `path` the reading of an id from a URL segment,
//! `handlers` the translation of requests into store operations and
//! responses, and `laws` what holds across several requests.
pub mod user;
pub mod store;
pub mod path;
pub mod handlers;
pub mod laws;
