//! A remote cache for function-evaluation results.
//!
//! The library holds the protocol and storage rules of the service as
//! verified code: the framing of a request body into metadata and blob, the
//! integrity check of an upload against its claimed content hash, the
//! transaction that records a blob and an eval exactly once, and the two forms
//! of credential. Network, database and object-store traffic is driven by the
//! program around the library, which feeds it events and carries out the
//! actions it decides on.

pub mod config;
pub mod content_hash;
pub mod extractors;
pub mod handlers;
pub mod http_error;
pub mod middlewares;
pub mod models;
pub mod msg_pack;
pub mod persisters;
pub mod text;
pub mod trusted;
