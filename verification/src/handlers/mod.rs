//! What the endpoints take from a request and how they answer.

pub mod api_key;
pub mod blob;
pub mod eval;
pub mod experiment;
pub mod login;
pub mod user;
pub mod waitlist;
