//! The endpoint that hands out API keys.

use vstd::prelude::*;

verus! {

/// A request of a user for a new API key.
#[derive(Debug)]
pub struct GenRequest {
    pub label: String,
}

} // verus!
