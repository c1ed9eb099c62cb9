//! Storing and fetching what the service keeps: blobs in the object store,
//! rows in the database.
//!
//! The database and the object store are driven by the program around the
//! library. What stands here is what is decided before and after each of
//! their answers: who may ask, what is asked, in which order, and what an
//! answer comes to.

pub mod api_key;
pub mod blob;
pub mod db_error;
pub mod eval;
pub mod experiment;
pub mod s3store;
pub mod user;
pub mod waitlist;
