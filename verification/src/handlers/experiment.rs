//! The experiment endpoints.

use vstd::prelude::*;

verus! {

/// The query of a request for the latest experiments.
#[derive(Debug)]
pub struct Params {
    /// How many experiments to return at most.
    pub count: i64,
}

} // verus!
