//! Logging in with a GitHub account.

use vstd::prelude::*;
use vstd::std_specs::convert::FromSpecImpl;

use crate::models::user::user_dao::{AddUser, UserInsertError};

verus! {

/// How long a token is valid, in seconds: thirty days.
pub const TOKEN_LIFETIME: i64 = 2_592_000;

/// Why a login failed.
#[derive(Debug)]
pub enum LoginError {
    GHComms(reqwest::Error),
    JwtError(jsonwebtoken::errors::Error),
    UserInsert(UserInsertError),
    AccessTokenNotGranted,
    UserInfoNotAvailable,
    NoPrimaryEmail,
}

/// What a signed token says of its bearer.
#[derive(Debug)]
pub struct Claims {
    /// The user.
    pub sub: uuid::Uuid,
    /// When the token expires, in seconds since the epoch.
    pub exp: i64,
}

/// What GitHub says of the account that logs in.
#[derive(Debug)]
pub struct GithubUserInfo {
    pub id: i32,
    pub login: String,
    pub avatar_url: String,
}

/// An e-mail address of a GitHub account.
#[derive(Debug)]
pub struct GithubEmail {
    pub email: String,
    pub verified: bool,
    pub primary: bool,
}

/// The index of the first primary address among `emails`, from `from` on.
pub open spec fn first_primary(emails: Seq<GithubEmail>, from: int) -> Option<int>
    decreases emails.len() - from,
{
    if from < 0 || from >= emails.len() {
        None
    } else if emails[from].primary {
        Some(from)
    } else {
        first_primary(emails, from + 1)
    }
}

/// The user that a login inserts: the account with its first primary
/// address. An account without a primary address cannot log in.
pub fn build_add_user(user: &GithubUserInfo, emails: Vec<GithubEmail>, token: &String) -> (out:
    Result<AddUser, LoginError>)
    ensures
        match first_primary(emails@, 0) {
            None => out == Err::<AddUser, LoginError>(LoginError::NoPrimaryEmail),
            Some(i) => {
                &&& out matches Ok(added)
                &&& added.gh_id == user.id
                &&& added.gh_email == emails[i].email
                &&& added.gh_login == user.login
                &&& added.gh_token == *token
                &&& added.gh_avatar_url == user.avatar_url
                &&& added.email_verified == emails[i].verified
            },
        },
{
    let mut i: usize = 0;
    while i < emails.len()
        invariant
            i <= emails.len(),
            first_primary(emails@, 0) == first_primary(emails@, i as int),
        decreases emails.len() - i,
    {
        if emails[i].primary {
            return Ok(
                AddUser {
                    gh_id: user.id,
                    gh_email: emails[i].email.clone(),
                    gh_login: user.login.clone(),
                    gh_token: token.clone(),
                    gh_avatar_url: user.avatar_url.clone(),
                    email_verified: emails[i].verified,
                },
            );
        }
        i = i + 1;
    }
    Err(LoginError::NoPrimaryEmail)
}

/// When a token made at `now` expires: thirty days later, or at the end of
/// time if that is sooner.
pub open spec fn expiry(now: i64) -> i64 {
    if now + TOKEN_LIFETIME > i64::MAX {
        i64::MAX
    } else {
        (now + TOKEN_LIFETIME) as i64
    }
}

/// The claims of the token that is made for `user_uuid` at `now`, in seconds
/// since the epoch.
pub fn generate_jwt(user_uuid: uuid::Uuid, now: i64) -> (claims: Claims)
    ensures
        claims.sub == user_uuid,
        claims.exp == expiry(now),
{
    let exp: i64 = if now > i64::MAX - TOKEN_LIFETIME {
        i64::MAX
    } else {
        now + TOKEN_LIFETIME
    };
    Claims { sub: user_uuid, exp }
}

impl From<reqwest::Error> for LoginError {
    fn from(e: reqwest::Error) -> (out: Self) {
        LoginError::GHComms(e)
    }
}

impl FromSpecImpl<reqwest::Error> for LoginError {
    open spec fn obeys_from_spec() -> bool {
        true
    }

    open spec fn from_spec(e: reqwest::Error) -> Self {
        LoginError::GHComms(e)
    }
}

impl From<UserInsertError> for LoginError {
    fn from(e: UserInsertError) -> (out: Self) {
        LoginError::UserInsert(e)
    }
}

impl FromSpecImpl<UserInsertError> for LoginError {
    open spec fn obeys_from_spec() -> bool {
        true
    }

    open spec fn from_spec(e: UserInsertError) -> Self {
        LoginError::UserInsert(e)
    }
}

impl From<jsonwebtoken::errors::Error> for LoginError {
    fn from(e: jsonwebtoken::errors::Error) -> (out: Self) {
        LoginError::JwtError(e)
    }
}

impl FromSpecImpl<jsonwebtoken::errors::Error> for LoginError {
    open spec fn obeys_from_spec() -> bool {
        true
    }

    open spec fn from_spec(e: jsonwebtoken::errors::Error) -> Self {
        LoginError::JwtError(e)
    }
}

} // verus!
