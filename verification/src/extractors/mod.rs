//! Extraction of typed values from request bodies.

pub mod with_blob;
