//! Reading evals by the three hashes that name them.

use vstd::prelude::*;

use crate::models::eval::{Eval, EvalError};

verus! {

/// The full name of an eval.
#[derive(Debug)]
pub struct QueryParams {
    pub fn_key: String,
    pub fn_hash: String,
    pub args_hash: String,
}

/// The statement that reads an eval by its identifier.
pub const SELECT_EVAL_BY_ID: &'static str =
    "SELECT fn_key, fn_hash, args, args_hash, result FROM evals WHERE id = $1";

/// The statement that reads the evals of a name for the owner of an API key.
pub const SELECT_EVALS_BY_PARAMS: &'static str = "SELECT fn_key, fn_hash, args, args_hash, result FROM evals
WHERE fn_key = $1
  AND fn_hash = $2
  AND args_hash = $3
  AND user_id = (SELECT id FROM auth_api_key($4))";

/// The statement that writes an eval for the owner of an API key.
pub const INSERT_EVAL: &'static str = "INSERT INTO evals (fn_key, fn_hash, args, args_hash, result, user_id)
SELECT $1, $2, $3, $4, $5, id FROM auth_api_key($6) LIMIT 1
RETURNING evals.id";

impl QueryParams {
    /// What reading the evals of the name comes to: the rows, or `NotFound`
    /// with the failure of the statement.
    pub fn get_evals_by_params(self, rows: Result<Vec<Eval>, sqlx::Error>) -> (out: Result<
        Vec<Eval>,
        EvalError,
    >)
        ensures
            out == match rows {
                Ok(evals) => Ok::<Vec<Eval>, EvalError>(evals),
                Err(e) => Err(EvalError::NotFound(e)),
            },
    {
        match rows {
            Ok(evals) => Ok(evals),
            Err(e) => Err(EvalError::NotFound(e)),
        }
    }
}

} // verus!
