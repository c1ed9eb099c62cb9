//! The waitlist endpoint.

use vstd::prelude::*;

verus! {

/// An address to be put on the waitlist.
#[derive(Debug)]
pub struct WaitlistInsert {
    pub email: String,
}

} // verus!
