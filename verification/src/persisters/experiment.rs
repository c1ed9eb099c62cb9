//! Reading the latest experiments of a user.

use vstd::prelude::*;

use crate::handlers::experiment::Params;
use crate::middlewares::api_auth::Auth;
use crate::models::eval::{Eval, EvalError};

verus! {

/// The statement that reads the latest experiments of the owner of an API
/// key.
pub const SELECT_EXPERIMENTS: &'static str = "SELECT fn_key, fn_hash, args, args_hash, content_hash, is_experiment, start_time,
    elapsed_process_time, accesses
FROM evals e
JOIN blobs b
    ON b.id = e.blob_id
WHERE e.user_id = user_from_key($1)
    AND is_experiment = true
ORDER BY start_time DESC
LIMIT $2";

/// A request for experiments that may be put to the database.
#[derive(Debug)]
pub struct ExperimentQuery {
    pub api_key: String,
    pub count: i64,
}

impl Params {
    /// Whose experiments are read and how many: those of the owner of the
    /// API key. Without a credential the request is unauthorized.
    pub fn fetch(self, auth: Option<&Auth>) -> (out: Result<ExperimentQuery, EvalError>)
        ensures
            match auth {
                None => out == Err::<ExperimentQuery, EvalError>(EvalError::Unauthorized),
                Some(a) => out == Ok::<ExperimentQuery, EvalError>(
                    (ExperimentQuery { api_key: a.key, count: self.count }),
                ),
            },
    {
        match auth {
            None => Err(EvalError::Unauthorized),
            Some(a) => Ok(ExperimentQuery { api_key: a.key.clone(), count: self.count }),
        }
    }
}

impl ExperimentQuery {
    /// What the request comes to, from what the statement gave.
    pub fn fetched(self, rows: Result<Vec<Eval>, sqlx::Error>) -> (out: Result<Vec<Eval>, EvalError>)
        ensures
            out == match rows {
                Ok(evals) => Ok::<Vec<Eval>, EvalError>(evals),
                Err(e) => Err(EvalError::Sqlx(e)),
            },
    {
        match rows {
            Ok(evals) => Ok(evals),
            Err(e) => Err(EvalError::Sqlx(e)),
        }
    }
}

} // verus!
