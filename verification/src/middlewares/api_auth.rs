//! The API key of a request, taken as it is.
//!
//! The key is not looked up when the request comes in. It is checked by the
//! one statement that reads or writes what the request asks for, so that no
//! round trip to the database is spent on the check alone.

use vstd::prelude::*;
use vstd::string::StringExecFns;

use crate::http_error::{shows, HttpError, UNAUTHORIZED};

verus! {

/// The API key of a request.
#[derive(Debug)]
pub struct Auth {
    pub key: String,
}

impl Auth {
    /// The credential that holds `key`.
    pub fn from_str(key: &str) -> (auth: Self)
        ensures
            auth.key@ == key@,
    {
        Auth { key: String::from_str(key) }
    }

    /// The credential of a request, from its `Authorization` header if it
    /// has one that is text.
    pub fn from_request(header: Option<&str>) -> (out: Result<Auth, HttpError>)
        ensures
            match header {
                Some(k) => out matches Ok(a) && a.key@ == k@,
                None => out matches Err(e) && shows(
                    e,
                    UNAUTHORIZED,
                    "no Authorization header present",
                ),
            },
    {
        match header {
            Some(k) => Ok(Auth::from_str(k)),
            None => Err(HttpError::new(UNAUTHORIZED, "no Authorization header present")),
        }
    }
}

/// The API key of a request, under the name that the eval routes know it by.
#[derive(Debug)]
pub struct ApiAuthService {
    pub key: String,
}

impl ApiAuthService {
    /// The credential that holds `key`.
    pub fn from_str(key: &str) -> (auth: Self)
        ensures
            auth.key@ == key@,
    {
        ApiAuthService { key: String::from_str(key) }
    }

    /// The credential of a request, from its `Authorization` header if it
    /// has one that is text.
    pub fn from_request(header: Option<&str>) -> (out: Result<ApiAuthService, HttpError>)
        ensures
            match header {
                Some(k) => out matches Ok(a) && a.key@ == k@,
                None => out matches Err(e) && shows(
                    e,
                    UNAUTHORIZED,
                    "no Authorization header present",
                ),
            },
    {
        match header {
            Some(k) => Ok(ApiAuthService::from_str(k)),
            None => Err(HttpError::new(UNAUTHORIZED, "no Authorization header present")),
        }
    }
}

} // verus!
