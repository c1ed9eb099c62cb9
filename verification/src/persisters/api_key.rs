//! Writing the API key that a logged-in user asked for.

use vstd::prelude::*;

use crate::middlewares::auth::Auth;
use crate::models::api_key::api_key_dao::insert_key_failure;
use crate::models::api_key::ApiKeyError;
use crate::persisters::db_error::{reported_as, FOREIGN_KEY_VIOLATION};

verus! {

/// What is written for a new API key, beside the user who asked for it.
#[derive(Debug)]
pub struct KeyInsert<'a> {
    pub label: String,
    pub key: &'a String,
}

/// The statement that writes an API key.
pub const INSERT_KEY: &'static str = "INSERT INTO api_keys AS a (user_id, label, key) VALUES ($1, $2, $3)
RETURNING key, user_id";

/// A key that is about to be written for a user.
#[derive(Debug)]
pub struct KeyStatement<'a> {
    pub user_id: uuid::Uuid,
    pub label: String,
    pub key: &'a String,
}

impl<'a> KeyInsert<'a> {
    /// Whom the key is written for: the subject of the claims. Only claims
    /// give the right to a new key; without a credential, or with an API key,
    /// the request is unauthorized and nothing is written.
    pub fn persist(self, auth: Option<&Auth>) -> (out: Result<KeyStatement<'a>, ApiKeyError>)
        ensures
            match auth {
                Some(Auth::Jwt(claims)) => out == Ok::<KeyStatement<'a>, ApiKeyError>(
                    (KeyStatement { user_id: claims.sub, label: self.label, key: self.key }),
                ),
                _ => out == Err::<KeyStatement<'a>, ApiKeyError>(ApiKeyError::Unauthorized),
            },
    {
        match auth {
            Some(Auth::Jwt(claims)) => Ok(
                KeyStatement { user_id: claims.sub, label: self.label, key: self.key },
            ),
            _ => Err(ApiKeyError::Unauthorized),
        }
    }
}

impl<'a> KeyStatement<'a> {
    /// What writing the key comes to, from what the statement gave: a key
    /// for a user that is not there is unauthorized, any other failure is
    /// passed on.
    pub fn written(self, row: Result<(), sqlx::Error>) -> (out: Result<(), ApiKeyError>)
        ensures
            out == match row {
                Ok(_) => Ok::<(), ApiKeyError>(()),
                Err(e) => Err(insert_key_failure(e)),
            },
    {
        match row {
            Ok(_) => Ok(()),
            Err(err) => if reported_as(&err, FOREIGN_KEY_VIOLATION) {
                Err(ApiKeyError::Unauthorized)
            } else {
                Err(ApiKeyError::Sqlx(err))
            },
        }
    }
}

} // verus!
