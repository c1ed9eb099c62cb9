//! The request for an API key by address.

use vstd::prelude::*;

verus! {

/// A request for a new API key for the user with the given address.
#[derive(Debug)]
pub struct GenRequest {
    pub email: String,
    pub label: String,
}

} // verus!
