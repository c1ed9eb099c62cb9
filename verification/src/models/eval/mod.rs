//! Evals: cached results of function evaluations.

use vstd::prelude::*;
use vstd::std_specs::convert::FromSpecImpl;

use crate::http_error::{shows, HttpError, INTERNAL_SERVER_ERROR, NOT_FOUND, UNAUTHORIZED};

pub mod eval_dao;
pub mod eval_routes;

verus! {

/// A point in time: seconds since the epoch and the nanoseconds of the
/// second that has begun.
#[derive(Clone, Copy, PartialEq, Eq, Structural, Debug)]
pub struct Timestamp {
    pub secs: i64,
    pub nanos: u32,
}

/// An eval as the service returns it.
#[derive(Debug)]
pub struct Eval {
    /// The function that was evaluated.
    pub fn_key: String,
    /// The hash of the code of the function.
    pub fn_hash: String,
    /// The arguments of the call, where they were recorded.
    pub args: Option<serde_json::Value>,
    /// The hash of the arguments.
    pub args_hash: String,
    /// What the client recorded of the result beside the blob.
    pub result_json: serde_json::Value,
    /// The hash of the blob that holds the result.
    pub content_hash: String,
    pub is_experiment: bool,
    pub start_time: Timestamp,
    pub elapsed_process_time: i64,
    /// How often the eval was polled.
    pub accesses: i64,
}

/// Why evals could not be read or written.
#[derive(Debug)]
pub enum EvalError {
    Unauthorized,
    NotFound(sqlx::Error),
    Sqlx(sqlx::Error),
}

impl EvalError {
    /// How the failure is shown to the client.
    pub fn http_error(&self) -> (e: HttpError)
        ensures
            match *self {
                EvalError::NotFound(_) => shows(e, NOT_FOUND, "evals not found for params"),
                EvalError::Sqlx(_) => shows(e, INTERNAL_SERVER_ERROR, "unknown error"),
                EvalError::Unauthorized => shows(e, UNAUTHORIZED, "unauthorized"),
            },
    {
        match self {
            EvalError::NotFound(_) => HttpError::new(NOT_FOUND, "evals not found for params"),
            EvalError::Sqlx(_) => HttpError::new(INTERNAL_SERVER_ERROR, "unknown error"),
            EvalError::Unauthorized => HttpError::new(UNAUTHORIZED, "unauthorized"),
        }
    }
}

impl From<sqlx::Error> for EvalError {
    fn from(e: sqlx::Error) -> (out: Self) {
        EvalError::Sqlx(e)
    }
}

impl FromSpecImpl<sqlx::Error> for EvalError {
    open spec fn obeys_from_spec() -> bool {
        true
    }

    open spec fn from_spec(e: sqlx::Error) -> Self {
        EvalError::Sqlx(e)
    }
}

} // verus!
