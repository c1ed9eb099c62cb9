//! The claims of a request that must carry a signed token.

use vstd::prelude::*;
use vstd::string::StrSliceExecFns;

use crate::handlers::login::Claims;
use crate::http_error::{shows, HttpError, UNAUTHORIZED};
use crate::middlewares::auth::bearer_token;
use crate::text::{chars_of, find, trim_range};

verus! {

/// The checked claims of a request.
#[derive(Debug)]
pub struct AuthorizationService {
    pub claims: Claims,
}

/// Why a request has no claims.
#[derive(Debug)]
pub enum AuthError {
    NoAuthHeader,
    InvalidToken(jsonwebtoken::errors::Error),
}

impl AuthError {
    /// How the failure is shown to the client: as unauthorized, in the same
    /// words whether the header is missing or its token was refused.
    pub fn http_error(&self) -> (e: HttpError)
        ensures
            shows(e, UNAUTHORIZED, "no Authorization header included in request"),
    {
        HttpError::new(UNAUTHORIZED, "no Authorization header included in request")
    }
}

/// What a checked token comes to.
pub open spec fn verified_service(checked: Result<Claims, jsonwebtoken::errors::Error>) -> Result<
    AuthorizationService,
    AuthError,
> {
    match checked {
        Ok(claims) => Ok(AuthorizationService { claims }),
        Err(e) => Err(AuthError::InvalidToken(e)),
    }
}

impl AuthorizationService {
    /// The claims of a request, from its `Authorization` header if it has
    /// one that is text. The token is what follows the first `Bearer` in the
    /// header, up to the next one, without the white space around it; a
    /// header without `Bearer` counts as no header. `verify` checks the
    /// signature and the expiry of the token.
    pub fn from_request<F>(header: Option<&str>, verify: F) -> (out: Result<
        AuthorizationService,
        AuthError,
    >) where F: FnOnce(&str) -> Result<Claims, jsonwebtoken::errors::Error>
        requires
            forall|token: &str| verify.requires((token,)),
        ensures
            match header {
                None => out == Err::<AuthorizationService, AuthError>(AuthError::NoAuthHeader),
                Some(h) => match bearer_token(h@) {
                    None => out == Err::<AuthorizationService, AuthError>(AuthError::NoAuthHeader),
                    Some(t) => exists|
                        token: &str,
                        checked: Result<Claims, jsonwebtoken::errors::Error>,
                    |
                        token@ == t && verify.ensures((token,), checked) && out
                            == verified_service(checked),
                },
            },
    {
        let h = match header {
            Some(h) => h,
            None => {
                return Err(AuthError::NoAuthHeader);
            },
        };
        let chars = chars_of(h);
        let pat = chars_of("Bearer");
        let first = match find(&chars, &pat, 0) {
            Some(i) => i,
            None => {
                return Err(AuthError::NoAuthHeader);
            },
        };
        let start: usize = first + pat.len();
        let end: usize = match find(&chars, &pat, start) {
            Some(j) => j,
            None => chars.len(),
        };
        let (a, b) = trim_range(&chars, start, end);
        let token: &str = h.substring_char(a, b);
        match verify(token) {
            Ok(claims) => Ok(AuthorizationService { claims }),
            Err(e) => Err(AuthError::InvalidToken(e)),
        }
    }
}

} // verus!
