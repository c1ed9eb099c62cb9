//! Reading and writing users.

use vstd::prelude::*;
use vstd::std_specs::convert::FromSpecImpl;

use crate::persisters::db_error::{has_code, reported_as, UNIQUE_VIOLATION};

verus! {

/// Why a user could not be written.
#[derive(Debug)]
pub enum UserUpsertError {
    /// A user with this address is there already.
    AlreadyExists,
    /// The statement gave no row. It returns the row it inserted or the row
    /// that was there, so this is not expected to happen.
    Unreachable,
    Sqlx(sqlx::Error),
}

/// A user to be written if it is not there yet.
#[derive(Debug)]
pub struct UserUpsert {
    pub gh_id: i32,
    pub gh_email: String,
    pub gh_login: String,
    pub gh_token: String,
    pub gh_avatar_url: String,
    pub email_verified: bool,
}

/// The request for a user.
#[derive(Debug)]
pub struct UserGet {
    pub id: uuid::Uuid,
}

/// Why a user could not be read.
#[derive(Debug)]
pub enum UserGetError {
    Unauthorized,
    Sqlx(sqlx::Error),
}

/// The row that the upsert statement gives.
#[derive(Debug)]
pub struct UpsertResult {
    pub id: Option<uuid::Uuid>,
}

/// The statement that writes a user unless a user with the same GitHub
/// account is there, and gives the identifier of the row that is there
/// afterwards.
pub const UPSERT_USER: &'static str = "WITH e AS(
    INSERT INTO users (gh_id, gh_email, gh_login, gh_token, gh_avatar_url, email_verified)
    VALUES ($1, $2, $3, $4, $5, $6)
    ON CONFLICT(gh_id) DO NOTHING
    RETURNING id
)
SELECT id FROM e UNION
SELECT id FROM users WHERE gh_id = $1;";

/// The statement that reads a user.
pub const SELECT_USER: &'static str = "SELECT id, gh_id, gh_email, gh_login, gh_token, gh_avatar_url, email_verified
FROM users
WHERE id = $1";

/// How a failure of the upsert statement is reported.
pub open spec fn upsert_failure(e: sqlx::Error) -> UserUpsertError {
    if has_code(e, UNIQUE_VIOLATION) {
        UserUpsertError::AlreadyExists
    } else {
        UserUpsertError::Sqlx(e)
    }
}

impl UserUpsert {
    /// What writing the user comes to, from what the statement gave: the
    /// identifier of the user; `Unreachable` where the row has none;
    /// `AlreadyExists` for a breach of uniqueness; any other failure as it is.
    pub fn persist(self, row: Result<UpsertResult, sqlx::Error>) -> (out: Result<
        uuid::Uuid,
        UserUpsertError,
    >)
        ensures
            out == match row {
                Ok(r) => match r.id {
                    Some(id) => Ok::<uuid::Uuid, UserUpsertError>(id),
                    None => Err(UserUpsertError::Unreachable),
                },
                Err(e) => Err(upsert_failure(e)),
            },
    {
        match row {
            Ok(r) => match r.id {
                Some(id) => Ok(id),
                None => Err(UserUpsertError::Unreachable),
            },
            Err(e) => Err(UserUpsertError::from(e)),
        }
    }
}

impl From<sqlx::Error> for UserGetError {
    fn from(e: sqlx::Error) -> (out: Self) {
        UserGetError::Sqlx(e)
    }
}

impl FromSpecImpl<sqlx::Error> for UserGetError {
    open spec fn obeys_from_spec() -> bool {
        true
    }

    open spec fn from_spec(e: sqlx::Error) -> Self {
        UserGetError::Sqlx(e)
    }
}

impl From<sqlx::Error> for UserUpsertError {
    /// A breach of uniqueness means that the user exists; any other failure
    /// is passed on.
    fn from(e: sqlx::Error) -> (out: Self) {
        if reported_as(&e, UNIQUE_VIOLATION) {
            UserUpsertError::AlreadyExists
        } else {
            UserUpsertError::Sqlx(e)
        }
    }
}

impl FromSpecImpl<sqlx::Error> for UserUpsertError {
    open spec fn obeys_from_spec() -> bool {
        true
    }

    open spec fn from_spec(e: sqlx::Error) -> Self {
        upsert_failure(e)
    }
}

} // verus!
