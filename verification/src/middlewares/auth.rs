//! The two forms of credential and how an operation asks for one of them.

use vstd::prelude::*;
use vstd::string::StrSliceExecFns;
use vstd::string::StringExecFns;

use crate::handlers::login::Claims;
use crate::http_error::{shows, HttpError, FORBIDDEN, UNAUTHORIZED};
use crate::text::{
    chars_of, find, matches_at, occurs_at, second_piece, starts_with, trim, trim_range,
};

verus! {

/// The credential of a request. The forms do not mix: an API key is an
/// opaque text that nothing has looked at yet, claims have been checked.
#[derive(Debug)]
pub enum Auth {
    /// An API key. It is not validated until a query uses it.
    ApiKey(String),
    /// The claims of a signed token whose signature and expiry were checked.
    Jwt(Claims),
}

/// Why a request has no credential.
#[derive(Debug)]
pub enum AuthError {
    NoAuthHeader,
    InvalidAuthHeader(String),
    InvalidJwt(jsonwebtoken::errors::Error),
}

/// The token of a `Bearer` header: the second of the pieces into which
/// `Bearer` cuts the header, without the white space around it.
pub open spec fn bearer_token(header: Seq<char>) -> Option<Seq<char>> {
    match second_piece(header, "Bearer"@) {
        Some((from, to)) => Some(trim(header.subrange(from, to))),
        None => None,
    }
}

/// What a checked token comes to.
pub open spec fn verified_auth(checked: Result<Claims, jsonwebtoken::errors::Error>) -> Result<
    Auth,
    AuthError,
> {
    match checked {
        Ok(claims) => Ok(Auth::Jwt(claims)),
        Err(e) => Err(AuthError::InvalidJwt(e)),
    }
}

/// Whether `out` is what `header` comes to as a `Bearer` header when
/// `verify` checks its token.
pub open spec fn jwt_outcome<F: FnOnce(&str) -> Result<Claims, jsonwebtoken::errors::Error>>(
    header: Seq<char>,
    verify: F,
    out: Result<Auth, AuthError>,
) -> bool {
    match bearer_token(header) {
        None => out matches Err(AuthError::InvalidAuthHeader(m)) && m@
            == "Header should be of the form `Bearer {token}`"@,
        Some(t) => exists|token: &str, checked: Result<Claims, jsonwebtoken::errors::Error>|
            token@ == t && verify.ensures((token,), checked) && out == verified_auth(checked),
    }
}

impl Auth {
    /// The credential that the check of a token gives: its claims, or the
    /// reason for which the token was refused.
    pub fn from_verified(checked: Result<Claims, jsonwebtoken::errors::Error>) -> (out: Result<
        Auth,
        AuthError,
    >)
        ensures
            out == verified_auth(checked),
    {
        match checked {
            Ok(claims) => Ok(Auth::Jwt(claims)),
            Err(e) => Err(AuthError::InvalidJwt(e)),
        }
    }

    /// The credential of a `Bearer` header. The token is cut out of the
    /// header and handed to `verify`, which checks signature and expiry.
    pub fn from_jwt<F>(s: &str, verify: F) -> (out: Result<Auth, AuthError>) where
        F: FnOnce(&str) -> Result<Claims, jsonwebtoken::errors::Error>,
        requires
            forall|token: &str| verify.requires((token,)),
        ensures
            jwt_outcome(s@, verify, out),
    {
        let chars = chars_of(s);
        let pat = chars_of("Bearer");
        let first = match find(&chars, &pat, 0) {
            Some(i) => i,
            None => {
                return Err(
                    AuthError::InvalidAuthHeader(
                        String::from_str("Header should be of the form `Bearer {token}`"),
                    ),
                );
            },
        };
        let start: usize = first + pat.len();
        let end: usize = match find(&chars, &pat, start) {
            Some(j) => j,
            None => chars.len(),
        };
        let (a, b) = trim_range(&chars, start, end);
        let token: &str = s.substring_char(a, b);
        let checked = verify(token);
        Auth::from_verified(checked)
    }

    /// The credential of a header that is taken as an API key: the header
    /// itself, unchecked.
    pub fn from_api_key(s: &str) -> (out: Result<Auth, AuthError>)
        ensures
            out matches Ok(Auth::ApiKey(key)) && key@ == s@,
    {
        Ok(Auth::ApiKey(String::from_str(s)))
    }

    /// The credential of an `Authorization` header: a header that begins
    /// with `Bearer ` holds a token, which `verify` checks; any other header
    /// is an API key.
    pub fn from_str<F>(s: &str, verify: F) -> (out: Result<Auth, AuthError>) where
        F: FnOnce(&str) -> Result<Claims, jsonwebtoken::errors::Error>,
        requires
            forall|token: &str| verify.requires((token,)),
        ensures
            if starts_with(s@, "Bearer "@) {
                jwt_outcome(s@, verify, out)
            } else {
                out matches Ok(Auth::ApiKey(key)) && key@ == s@
            },
    {
        let chars = chars_of(s);
        let prefix = chars_of("Bearer ");
        if matches_at(&chars, &prefix, 0) {
            Auth::from_jwt(s, verify)
        } else {
            Auth::from_api_key(s)
        }
    }

    /// The credential of a request, from its `Authorization` header if it
    /// has one that is text.
    pub fn from_request<F>(header: Option<&str>, verify: F) -> (out: Result<Auth, AuthError>) where
        F: FnOnce(&str) -> Result<Claims, jsonwebtoken::errors::Error>,
        requires
            forall|token: &str| verify.requires((token,)),
        ensures
            match header {
                None => out == Err::<Auth, AuthError>(AuthError::NoAuthHeader),
                Some(s) => if starts_with(s@, "Bearer "@) {
                    jwt_outcome(s@, verify, out)
                } else {
                    out matches Ok(Auth::ApiKey(key)) && key@ == s@
                },
            },
    {
        match header {
            Some(token) => Auth::from_str(token, verify),
            None => Err(AuthError::NoAuthHeader),
        }
    }

    /// Whether the credential is a set of claims.
    pub fn is_jwt(&self) -> (b: bool)
        ensures
            b == (*self is Jwt),
    {
        match self {
            Auth::ApiKey(_) => false,
            Auth::Jwt(_) => true,
        }
    }

    /// Whether the credential is an API key.
    pub fn is_api_key(&self) -> (b: bool)
        ensures
            b == (*self is ApiKey),
    {
        match self {
            Auth::ApiKey(_) => true,
            Auth::Jwt(_) => false,
        }
    }

    /// The API key, if the credential is one.
    pub fn api_key(&self) -> (key: Option<&str>)
        ensures
            match *self {
                Auth::ApiKey(s) => key matches Some(k) && k@ == s@,
                Auth::Jwt(_) => key is None,
            },
    {
        match self {
            Auth::ApiKey(s) => Some(s.as_str()),
            Auth::Jwt(_) => None,
        }
    }

    /// The claims, if the credential is claims.
    pub fn jwt(&self) -> (claims: Option<&Claims>)
        ensures
            match *self {
                Auth::ApiKey(_) => claims is None,
                Auth::Jwt(c) => claims == Some(&c),
            },
    {
        match self {
            Auth::ApiKey(_) => None,
            Auth::Jwt(c) => Some(c),
        }
    }

    /// Narrows the credential to claims, for an operation that takes
    /// nothing else. An API key is refused as forbidden.
    pub fn allow_only_jwt(&self) -> (out: Result<&Claims, HttpError>)
        ensures
            match *self {
                Auth::Jwt(c) => out == Ok::<&Claims, HttpError>(&c),
                Auth::ApiKey(_) => out matches Err(e) && shows(
                    e,
                    FORBIDDEN,
                    "Invalid `Authorization` header. Expected JWT.",
                ),
            },
    {
        match self {
            Auth::Jwt(c) => Ok(c),
            Auth::ApiKey(_) => Err(
                HttpError::new(FORBIDDEN, "Invalid `Authorization` header. Expected JWT."),
            ),
        }
    }

    /// Narrows the credential to an API key, for an operation that takes
    /// nothing else. Claims are refused as forbidden.
    pub fn allow_only_api_key(&self) -> (out: Result<&str, HttpError>)
        ensures
            match *self {
                Auth::ApiKey(s) => out matches Ok(k) && k@ == s@,
                Auth::Jwt(_) => out matches Err(e) && shows(
                    e,
                    FORBIDDEN,
                    "Invalid `Authorization` header. Expected API key.",
                ),
            },
    {
        match self {
            Auth::Jwt(_) => Err(
                HttpError::new(FORBIDDEN, "Invalid `Authorization` header. Expected API key."),
            ),
            Auth::ApiKey(k) => Ok(k.as_str()),
        }
    }
}

impl AuthError {
    /// How the failure is shown to the client. A token that was refused is
    /// forbidden, without a word on why; a missing or malformed header is
    /// unauthorized.
    pub fn http_error(&self) -> (e: HttpError)
        ensures
            match *self {
                AuthError::NoAuthHeader => shows(
                    e,
                    UNAUTHORIZED,
                    "Error: No `Authorization` header present on request.",
                ),
                AuthError::InvalidAuthHeader(s) => e.status == UNAUTHORIZED && e.message@
                    == "Error: Invalid `Authorization` header. "@ + s@,
                AuthError::InvalidJwt(_) => shows(e, FORBIDDEN, "Error: Invalid JWT provided."),
            },
    {
        match self {
            AuthError::NoAuthHeader => HttpError::new(
                UNAUTHORIZED,
                "Error: No `Authorization` header present on request.",
            ),
            AuthError::InvalidAuthHeader(s) => HttpError {
                status: UNAUTHORIZED,
                message: String::from_str("Error: Invalid `Authorization` header. ").concat(
                    s.as_str(),
                ),
            },
            AuthError::InvalidJwt(_) => HttpError::new(FORBIDDEN, "Error: Invalid JWT provided."),
        }
    }
}

/// A header that begins with `Bearer ` always holds a token, which may be
/// empty: such a header is never refused as malformed.
pub proof fn lemma_bearer_header_has_token(header: Seq<char>)
    requires
        starts_with(header, "Bearer "@),
    ensures
        bearer_token(header) is Some,
{
    reveal_strlit("Bearer ");
    reveal_strlit("Bearer");
    let pat = "Bearer"@;
    assert(header.subrange(0, 7) == "Bearer "@);
    assert(header.subrange(0, 6) =~= header.subrange(0, 7).subrange(0, 6));
    assert("Bearer "@.subrange(0, 6) =~= pat);
    assert(occurs_at(header, pat, 0));
}

} // verus!
