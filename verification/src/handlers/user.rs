//! How the failures of the user endpoints are shown to the client.

use vstd::prelude::*;

use crate::handlers::login::LoginError;
use crate::http_error::{shows, HttpError, BAD_REQUEST, INTERNAL_SERVER_ERROR, UNAUTHORIZED};
use crate::models::user::user_dao::UserInsertError;
use crate::persisters::user::{UserGetError, UserUpsertError};

verus! {

/// The request body of a login: the code that GitHub handed to the client.
#[derive(Debug)]
pub struct Login {
    pub code: String,
}

impl UserUpsertError {
    /// How the failure is shown to the client.
    pub fn http_error(&self) -> (e: HttpError)
        ensures
            match *self {
                UserUpsertError::AlreadyExists => shows(e, BAD_REQUEST, "email already exists"),
                _ => shows(
                    e,
                    INTERNAL_SERVER_ERROR,
                    "unknown error: could not insert new user",
                ),
            },
    {
        match self {
            UserUpsertError::AlreadyExists => HttpError::new(BAD_REQUEST, "email already exists"),
            _ => HttpError::new(INTERNAL_SERVER_ERROR, "unknown error: could not insert new user"),
        }
    }
}

impl UserInsertError {
    /// How the failure is shown to the client.
    pub fn http_error(&self) -> (e: HttpError)
        ensures
            match *self {
                UserInsertError::AlreadyExists => shows(e, BAD_REQUEST, "email already exists"),
                _ => shows(
                    e,
                    INTERNAL_SERVER_ERROR,
                    "unknown error: could not insert new user",
                ),
            },
    {
        match self {
            UserInsertError::AlreadyExists => HttpError::new(BAD_REQUEST, "email already exists"),
            _ => HttpError::new(INTERNAL_SERVER_ERROR, "unknown error: could not insert new user"),
        }
    }
}

impl LoginError {
    /// The text that the client is shown for a login that failed inside
    /// the server.
    pub open spec fn text(&self) -> &'static str {
        match *self {
            LoginError::UserInfoNotAvailable =>
                "unable to login with GitHub; user information not available",
            LoginError::NoPrimaryEmail => "unable to login with GitHub; primary email not available",
            _ => "unable to login with GitHub",
        }
    }

    /// How the failure is shown to the client: as the failure to insert the
    /// user where it is one, as a failure of the server otherwise.
    pub fn http_error(&self) -> (e: HttpError)
        ensures
            match *self {
                LoginError::UserInsert(UserInsertError::AlreadyExists) => shows(
                    e,
                    BAD_REQUEST,
                    "email already exists",
                ),
                LoginError::UserInsert(_) => shows(
                    e,
                    INTERNAL_SERVER_ERROR,
                    "unknown error: could not insert new user",
                ),
                _ => shows(e, INTERNAL_SERVER_ERROR, self.text()),
            },
    {
        match self {
            LoginError::UserInsert(inner) => inner.http_error(),
            LoginError::UserInfoNotAvailable => HttpError::new(
                INTERNAL_SERVER_ERROR,
                "unable to login with GitHub; user information not available",
            ),
            LoginError::NoPrimaryEmail => HttpError::new(
                INTERNAL_SERVER_ERROR,
                "unable to login with GitHub; primary email not available",
            ),
            _ => HttpError::new(INTERNAL_SERVER_ERROR, "unable to login with GitHub"),
        }
    }
}

impl UserGetError {
    /// How the failure is shown to the client.
    pub fn http_error(&self) -> (e: HttpError)
        ensures
            match *self {
                UserGetError::Unauthorized => shows(e, UNAUTHORIZED, "Error: Unauthorized"),
                UserGetError::Sqlx(_) => shows(e, INTERNAL_SERVER_ERROR, "unable to retrieve user"),
            },
    {
        match self {
            UserGetError::Unauthorized => HttpError::new(UNAUTHORIZED, "Error: Unauthorized"),
            UserGetError::Sqlx(_) => HttpError::new(INTERNAL_SERVER_ERROR, "unable to retrieve user"),
        }
    }
}

} // verus!
