//! The blob endpoints.

use vstd::prelude::*;

verus! {

/// The path of a request for a blob.
#[derive(Debug)]
pub struct BlobParams {
    pub content_hash: String,
}

/// The path of a request that asks whether a blob is there.
#[derive(Debug)]
pub struct BlobParamsHead {
    pub content_hash: String,
}

} // verus!
