//! The eval endpoints.

use vstd::prelude::*;

verus! {

/// The query of a request for evals. A field that is absent matches every
/// eval.
#[derive(Debug)]
pub struct Params {
    pub fn_key: Option<String>,
    pub fn_hash: Option<String>,
    pub args_hash: Option<String>,
    pub is_experiment: Option<bool>,
    /// Whether the request counts as an access to the evals it finds.
    pub poll: Option<bool>,
}

} // verus!
