//! The rows of the database and the errors of reading and writing them.

pub mod api_key;
pub mod eval;
pub mod user;
