//! Writing an API key for a user.

use vstd::prelude::*;

use crate::models::api_key::ApiKeyError;
use crate::persisters::db_error::{has_code, reported_as, FOREIGN_KEY_VIOLATION};

verus! {

/// What is written for a new API key. The key is stored as it is: it is
/// drawn at random, cannot be guessed and is used like a session token, so
/// that hashing it on every request would cost much and protect little.
#[derive(Debug)]
pub struct InsertKey<'a> {
    pub user_id: uuid::Uuid,
    pub label: String,
    pub key: &'a String,
}

/// The statement that writes an API key.
pub const INSERT_KEY: &'static str = "INSERT INTO api_keys AS a (user_id, label, key) VALUES ($1, $2, $3)
RETURNING key, user_id";

/// How a failure of the statement that writes an API key is reported: a key
/// for a user that is not there is unauthorized, any other failure is passed
/// on.
pub open spec fn insert_key_failure(e: sqlx::Error) -> ApiKeyError {
    if has_code(e, FOREIGN_KEY_VIOLATION) {
        ApiKeyError::Unauthorized
    } else {
        ApiKeyError::Sqlx(e)
    }
}

/// What writing an API key comes to, from what the statement gave.
pub fn insert_key(written: Result<(), sqlx::Error>) -> (out: Result<(), ApiKeyError>)
    ensures
        out == match written {
            Ok(_) => Ok::<(), ApiKeyError>(()),
            Err(e) => Err(insert_key_failure(e)),
        },
{
    match written {
        Ok(_) => Ok(()),
        Err(err) => if reported_as(&err, FOREIGN_KEY_VIOLATION) {
            Err(ApiKeyError::Unauthorized)
        } else {
            Err(ApiKeyError::Sqlx(err))
        },
    }
}

} // verus!
