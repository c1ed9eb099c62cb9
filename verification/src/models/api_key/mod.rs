//! API keys.

use vstd::prelude::*;
use vstd::std_specs::convert::FromSpecImpl;

use crate::http_error::{shows, HttpError, BAD_REQUEST, INTERNAL_SERVER_ERROR, UNAUTHORIZED};
use crate::trusted::random_alphanumeric;

pub mod api_key_dao;
pub mod api_key_routes;

verus! {

/// The number of characters of an API key.
pub const KEY_LEN: usize = 72;

/// An API key: what a request for a new key is answered with, and what a
/// request to a protected route carries.
#[derive(Debug)]
pub struct ApiKey {
    pub key: String,
}

/// Whether `c` is an ASCII letter or digit.
pub open spec fn is_alphanumeric(c: char) -> bool {
    ('a' <= c <= 'z') || ('A' <= c <= 'Z') || ('0' <= c <= '9')
}

impl ApiKey {
    /// A new key: letters and digits drawn at random from a generator that
    /// is seeded by the operating system.
    pub fn random() -> (k: ApiKey)
        ensures
            k.key@.len() == KEY_LEN,
            forall|i: int| 0 <= i < k.key@.len() ==> is_alphanumeric(#[trigger] k.key@[i]),
    {
        ApiKey { key: random_alphanumeric(KEY_LEN) }
    }
}

/// Why an API key could not be made.
#[derive(Debug)]
pub enum ApiKeyError {
    /// The database failed.
    Sqlx(sqlx::Error),
    /// The key was asked for an address that the database does not know.
    InvalidEmail,
    /// The key was asked for by nobody the database knows.
    Unauthorized,
}

impl ApiKeyError {
    /// How the failure is shown to the client.
    pub fn http_error(&self) -> (e: HttpError)
        ensures
            match *self {
                ApiKeyError::Unauthorized => shows(
                    e,
                    UNAUTHORIZED,
                    "not authorized to generate new API key",
                ),
                ApiKeyError::InvalidEmail => shows(e, BAD_REQUEST, "unknown email address"),
                ApiKeyError::Sqlx(_) => shows(
                    e,
                    INTERNAL_SERVER_ERROR,
                    "could not generate new API key",
                ),
            },
    {
        match self {
            ApiKeyError::Unauthorized => HttpError::new(
                UNAUTHORIZED,
                "not authorized to generate new API key",
            ),
            ApiKeyError::InvalidEmail => HttpError::new(BAD_REQUEST, "unknown email address"),
            ApiKeyError::Sqlx(_) => HttpError::new(
                INTERNAL_SERVER_ERROR,
                "could not generate new API key",
            ),
        }
    }
}

impl From<sqlx::Error> for ApiKeyError {
    fn from(err: sqlx::Error) -> (out: Self) {
        ApiKeyError::Sqlx(err)
    }
}

impl FromSpecImpl<sqlx::Error> for ApiKeyError {
    open spec fn obeys_from_spec() -> bool {
        true
    }

    open spec fn from_spec(err: sqlx::Error) -> Self {
        ApiKeyError::Sqlx(err)
    }
}

} // verus!
