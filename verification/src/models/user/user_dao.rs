//! Inserting a user that logged in.

use vstd::prelude::*;
use vstd::std_specs::convert::FromSpecImpl;

use crate::persisters::db_error::{has_code, reported_as, UNIQUE_VIOLATION};

verus! {

/// Why a user could not be inserted.
#[derive(Debug)]
pub enum UserInsertError {
    /// A user with this address is there already.
    AlreadyExists,
    /// The statement gave no row. It returns the row it inserted or the row
    /// that was there, so this is not expected to happen.
    UpsertError,
    Sqlx(sqlx::Error),
}

/// The user that a login inserts.
#[derive(Debug)]
pub struct AddUser {
    pub gh_id: i32,
    pub gh_email: String,
    pub gh_login: String,
    pub gh_token: String,
    pub gh_avatar_url: String,
    pub email_verified: bool,
}

/// The row that the insert statement gives.
#[derive(Debug)]
pub struct UpsertResult {
    pub id: Option<uuid::Uuid>,
}

impl UpsertResult {
    /// The identifier of the user, or `UpsertError` where the row has none.
    pub fn resolve(self) -> (out: Result<uuid::Uuid, UserInsertError>)
        ensures
            out == match self.id {
                Some(id) => Ok::<uuid::Uuid, UserInsertError>(id),
                None => Err(UserInsertError::UpsertError),
            },
    {
        match self.id {
            Some(id) => Ok(id),
            None => Err(UserInsertError::UpsertError),
        }
    }
}

impl From<sqlx::Error> for UserInsertError {
    /// A breach of uniqueness means that the user exists; any other failure
    /// is passed on.
    fn from(e: sqlx::Error) -> (out: Self) {
        if reported_as(&e, UNIQUE_VIOLATION) {
            UserInsertError::AlreadyExists
        } else {
            UserInsertError::Sqlx(e)
        }
    }
}

impl FromSpecImpl<sqlx::Error> for UserInsertError {
    open spec fn obeys_from_spec() -> bool {
        true
    }

    open spec fn from_spec(e: sqlx::Error) -> Self {
        if has_code(e, UNIQUE_VIOLATION) {
            UserInsertError::AlreadyExists
        } else {
            UserInsertError::Sqlx(e)
        }
    }
}

} // verus!
