//! How the failures of the routes that take evals without blobs are shown
//! to the client.

use vstd::prelude::*;
use vstd::string::StringExecFns;

use crate::http_error::{shows, HttpError, INTERNAL_SERVER_ERROR, UNAUTHORIZED};
use crate::persisters::db_error::{from_database, has_code, reported_as, INVALID_PASSWORD};
use crate::trusted::{reported_by_database, sqlx_error_text};

verus! {

/// How a failure to write an eval is shown to the client: a key that the
/// database does not accept is unauthorized; of any other failure that the
/// database reported nothing is told; a failure of the driver is shown in
/// its own words.
pub fn put_failure(e: &sqlx::Error) -> (shown: HttpError)
    ensures
        if has_code(*e, INVALID_PASSWORD) {
            shows(shown, UNAUTHORIZED, "invalid API key")
        } else if reported_by_database(*e) {
            shows(shown, INTERNAL_SERVER_ERROR, "unknwon error")
        } else {
            shown.status == INTERNAL_SERVER_ERROR
        },
{
    if reported_as(e, INVALID_PASSWORD) {
        HttpError::new(UNAUTHORIZED, "invalid API key")
    } else if from_database(e) {
        HttpError::new(INTERNAL_SERVER_ERROR, "unknwon error")
    } else {
        HttpError { status: INTERNAL_SERVER_ERROR, message: sqlx_error_text(e) }
    }
}

} // verus!
