//! Putting an address on the waitlist.

use vstd::prelude::*;
use vstd::std_specs::convert::FromSpecImpl;

use crate::handlers::waitlist::WaitlistInsert;
use crate::http_error::{shows, HttpError, CONFLICT, INTERNAL_SERVER_ERROR};
use crate::persisters::db_error::{has_code, reported_as, UNIQUE_VIOLATION};

verus! {

/// Why an address could not be put on the waitlist.
#[derive(Debug)]
pub enum WaitlistInsertError {
    /// The address is on the waitlist already.
    AlreadyExists,
    Sqlx(sqlx::Error),
}

/// The statement that puts an address on the waitlist.
pub const INSERT_WAITLIST: &'static str = "INSERT INTO waitlist (email)
VALUES ($1)
RETURNING id";

/// How a failure of the waitlist statement is reported.
pub open spec fn waitlist_failure(e: sqlx::Error) -> WaitlistInsertError {
    if has_code(e, UNIQUE_VIOLATION) {
        WaitlistInsertError::AlreadyExists
    } else {
        WaitlistInsertError::Sqlx(e)
    }
}

impl WaitlistInsert {
    /// What putting the address on the waitlist comes to, from what the
    /// statement gave.
    pub fn persist(self, row: Result<(), sqlx::Error>) -> (out: Result<(), WaitlistInsertError>)
        ensures
            out == match row {
                Ok(_) => Ok::<(), WaitlistInsertError>(()),
                Err(e) => Err(waitlist_failure(e)),
            },
    {
        match row {
            Ok(_) => Ok(()),
            Err(e) => Err(WaitlistInsertError::from(e)),
        }
    }
}

impl WaitlistInsertError {
    /// How the failure is shown to the client.
    pub fn http_error(&self) -> (e: HttpError)
        ensures
            match *self {
                WaitlistInsertError::AlreadyExists => shows(e, CONFLICT, "Already on waitlist."),
                WaitlistInsertError::Sqlx(_) => shows(
                    e,
                    INTERNAL_SERVER_ERROR,
                    "unable to add to waitlist",
                ),
            },
    {
        match self {
            WaitlistInsertError::AlreadyExists => HttpError::new(CONFLICT, "Already on waitlist."),
            WaitlistInsertError::Sqlx(_) => HttpError::new(
                INTERNAL_SERVER_ERROR,
                "unable to add to waitlist",
            ),
        }
    }
}

impl From<sqlx::Error> for WaitlistInsertError {
    /// A breach of uniqueness means that the address is on the list; any
    /// other failure is passed on.
    fn from(e: sqlx::Error) -> (out: Self) {
        if reported_as(&e, UNIQUE_VIOLATION) {
            WaitlistInsertError::AlreadyExists
        } else {
            WaitlistInsertError::Sqlx(e)
        }
    }
}

impl FromSpecImpl<sqlx::Error> for WaitlistInsertError {
    open spec fn obeys_from_spec() -> bool {
        true
    }

    open spec fn from_spec(e: sqlx::Error) -> Self {
        waitlist_failure(e)
    }
}

} // verus!
