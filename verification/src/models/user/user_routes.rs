//! How the failures of the route that writes a user are shown to the
//! client.

use vstd::prelude::*;

use crate::http_error::{shows, HttpError, BAD_REQUEST, INTERNAL_SERVER_ERROR};
use crate::persisters::db_error::{from_database, has_code, reported_as, UNIQUE_VIOLATION};
use crate::trusted::reported_by_database;

verus! {

/// How a failure to write a user is shown to the client: a breach of
/// uniqueness means that the address is taken; of any other failure that the
/// database reported nothing is told; whatever else went wrong is put down
/// to the request.
pub fn put_failure(e: &sqlx::Error) -> (shown: HttpError)
    ensures
        if has_code(*e, UNIQUE_VIOLATION) {
            shows(shown, BAD_REQUEST, "email already exists")
        } else if reported_by_database(*e) {
            shows(shown, INTERNAL_SERVER_ERROR, "unknown error")
        } else {
            shows(shown, BAD_REQUEST, "could not insert new user")
        },
{
    if reported_as(e, UNIQUE_VIOLATION) {
        HttpError::new(BAD_REQUEST, "email already exists")
    } else if from_database(e) {
        HttpError::new(INTERNAL_SERVER_ERROR, "unknown error")
    } else {
        HttpError::new(BAD_REQUEST, "could not insert new user")
    }
}

} // verus!
