//! Recording and looking up the blobs of a user.

use vstd::prelude::*;
use vstd::std_specs::convert::FromSpecImpl;

use crate::content_hash::{parse_hash, ContentHash};
use crate::handlers::blob::{BlobParams, BlobParamsHead};
use crate::http_error::{
    shows, HttpError, BAD_REQUEST, INTERNAL_SERVER_ERROR, NOT_FOUND, UNAUTHORIZED,
};
use crate::middlewares::auth::Auth;
use crate::persisters::s3store::{BlobMetadata, StoreError};

verus! {

/// The metadata of a transfer that stores a blob and nothing else.
#[derive(Debug)]
pub struct BlobInsert {
    pub content_length: i64,
    pub content_hash: String,
}

impl BlobMetadata for BlobInsert {
    open spec fn hash_text(&self) -> Seq<char> {
        self.content_hash@
    }

    open spec fn length(&self) -> i64 {
        self.content_length
    }

    fn content_length(&self) -> (n: i64) {
        self.content_length
    }

    fn content_hash(&self) -> (h: &str) {
        self.content_hash.as_str()
    }
}

/// Why a blob could not be recorded or looked up.
#[derive(Debug)]
pub enum BlobError {
    Unauthorized,
    NotFound,
    InvalidHash,
    StoreError,
    Sqlx(sqlx::Error),
}

/// The statement that records a blob for the owner of an API key unless it
/// is recorded already, and gives the identifier of the row that is there
/// afterwards.
pub const INSERT_BLOB: &'static str = "WITH s AS (
    SELECT id
    FROM blobs
    WHERE user_id = user_from_key($1)
    AND content_hash = $2
), i AS (
    INSERT INTO blobs (user_id, content_hash)
    VALUES (user_from_key($1), $2)
    ON CONFLICT DO NOTHING
    RETURNING id
)
SELECT id
FROM i UNION ALL
SELECT id
FROM s";

/// The statement that counts the blobs with a hash that the owner of an API
/// key has recorded.
pub const COUNT_BLOB: &'static str = "SELECT count(id) FROM blobs
WHERE   content_hash = $1
    AND user_id = user_from_key($2)";

/// The API key that a credential gives, if it gives one.
pub open spec fn api_key_of(auth: Option<&Auth>) -> Option<String> {
    match auth {
        Some(Auth::ApiKey(key)) => Some(*key),
        _ => None,
    }
}

/// The API key that a credential gives, if it gives one.
pub fn api_key(auth: Option<&Auth>) -> (key: Option<String>)
    ensures
        key == api_key_of(auth),
{
    match auth {
        Some(Auth::ApiKey(key)) => Some(key.clone()),
        _ => None,
    }
}

/// A blob that is about to be recorded: what the statement is given.
#[derive(Debug)]
pub struct BlobStatement {
    pub api_key: String,
    pub content_hash: String,
}

impl BlobInsert {
    /// Whose blob is recorded: that of the owner of the API key. Without an
    /// API key the request is unauthorized and nothing is recorded.
    pub fn persist(self, auth: Option<&Auth>) -> (out: Result<BlobStatement, BlobError>)
        ensures
            out == match api_key_of(auth) {
                Some(key) => Ok::<BlobStatement, BlobError>(
                    (BlobStatement { api_key: key, content_hash: self.content_hash }),
                ),
                None => Err(BlobError::Unauthorized),
            },
    {
        match api_key(auth) {
            Some(key) => Ok(BlobStatement { api_key: key, content_hash: self.content_hash }),
            None => Err(BlobError::Unauthorized),
        }
    }
}

impl BlobStatement {
    /// What recording the blob comes to, from what the statement gave: the
    /// identifier of the row, new or old.
    pub fn resolved(self, row: Result<i64, sqlx::Error>) -> (out: Result<i64, BlobError>)
        ensures
            out == match row {
                Ok(id) => Ok::<i64, BlobError>(id),
                Err(e) => Err(BlobError::Sqlx(e)),
            },
    {
        match row {
            Ok(id) => Ok(id),
            Err(e) => Err(BlobError::Sqlx(e)),
        }
    }
}

/// A request for a blob that may be put to the database: the API key of the
/// caller and the hash asked for, as text and as a hash.
#[derive(Debug)]
pub struct BlobLookup {
    pub api_key: String,
    pub content_hash: String,
    pub hash: ContentHash,
}

/// What a request for the blob with hash `content_hash` comes to before the
/// database is asked: without an API key it is unauthorized; a text that is
/// not a hash is refused.
pub open spec fn lookup_prepared(content_hash: String, auth: Option<&Auth>, out: Result<
    BlobLookup,
    BlobError,
>) -> bool {
    match api_key_of(auth) {
        None => out == Err::<BlobLookup, BlobError>(BlobError::Unauthorized),
        Some(key) => match parse_hash(content_hash@) {
            Some(bytes) => {
                &&& out matches Ok(lookup)
                &&& lookup.api_key == key
                &&& lookup.content_hash == content_hash
                &&& lookup.hash@ == bytes
            },
            None => out == Err::<BlobLookup, BlobError>(BlobError::InvalidHash),
        },
    }
}

/// Prepares a request for a blob.
fn look_up(content_hash: String, auth: Option<&Auth>) -> (out: Result<BlobLookup, BlobError>)
    ensures
        lookup_prepared(content_hash, auth, out),
{
    let key = match api_key(auth) {
        Some(key) => key,
        None => {
            return Err(BlobError::Unauthorized);
        },
    };
    match ContentHash::from_hex(content_hash.as_str()) {
        Ok(hash) => Ok(BlobLookup { api_key: key, content_hash, hash }),
        Err(e) => Err(BlobError::from(e)),
    }
}

impl BlobParams {
    /// Prepares the request for a blob: the caller needs an API key, and the
    /// hash must be one. The database is asked next whether the owner of the
    /// key has recorded the blob.
    pub fn fetch(self, auth: Option<&Auth>) -> (out: Result<BlobLookup, BlobError>)
        ensures
            lookup_prepared(self.content_hash, auth, out),
    {
        look_up(self.content_hash, auth)
    }
}

impl BlobParamsHead {
    /// Prepares the request that asks whether a blob is there, as a request
    /// for the blob is prepared.
    pub fn fetch(self, auth: Option<&Auth>) -> (out: Result<BlobLookup, BlobError>)
        ensures
            lookup_prepared(self.content_hash, auth, out),
    {
        look_up(self.content_hash, auth)
    }
}

impl BlobLookup {
    /// Whether the blob may be fetched, from the count that the database
    /// gave: the owner of the key must have recorded the blob exactly once.
    /// The blob of another user is not told apart from a blob that is not
    /// there; both are unauthorized.
    pub fn counted(self, count: Result<Option<i64>, sqlx::Error>) -> (out: Result<
        ContentHash,
        BlobError,
    >)
        ensures
            out == match count {
                Ok(Some(1)) => Ok::<ContentHash, BlobError>(self.hash),
                Ok(_) => Err(BlobError::Unauthorized),
                Err(e) => Err(BlobError::Sqlx(e)),
            },
    {
        match count {
            Ok(Some(n)) => if n == 1 {
                Ok(self.hash)
            } else {
                Err(BlobError::Unauthorized)
            },
            Ok(None) => Err(BlobError::Unauthorized),
            Err(e) => Err(BlobError::Sqlx(e)),
        }
    }

    /// Whether the blob is there, from the count that the database gave. The
    /// object store is not asked.
    pub fn counted_head(self, count: Result<Option<i64>, sqlx::Error>) -> (out: Result<
        (),
        BlobError,
    >)
        ensures
            out == match count {
                Ok(Some(1)) => Ok::<(), BlobError>(()),
                Ok(_) => Err(BlobError::NotFound),
                Err(e) => Err(BlobError::Sqlx(e)),
            },
    {
        match count {
            Ok(Some(n)) => if n == 1 {
                Ok(())
            } else {
                Err(BlobError::NotFound)
            },
            Ok(None) => Err(BlobError::NotFound),
            Err(e) => Err(BlobError::Sqlx(e)),
        }
    }
}

impl BlobError {
    /// How the failure is shown to the client.
    pub fn http_error(&self) -> (e: HttpError)
        ensures
            match *self {
                BlobError::Unauthorized => shows(e, UNAUTHORIZED, "unauthorized access"),
                BlobError::InvalidHash => shows(e, BAD_REQUEST, "invalid hash"),
                BlobError::NotFound => shows(e, NOT_FOUND, "resource not found"),
                BlobError::StoreError => shows(e, INTERNAL_SERVER_ERROR, "could not retrieve blob"),
                BlobError::Sqlx(_) => shows(e, INTERNAL_SERVER_ERROR, "could not retrieve blob"),
            },
    {
        match self {
            BlobError::Unauthorized => HttpError::new(UNAUTHORIZED, "unauthorized access"),
            BlobError::InvalidHash => HttpError::new(BAD_REQUEST, "invalid hash"),
            BlobError::NotFound => HttpError::new(NOT_FOUND, "resource not found"),
            BlobError::StoreError => HttpError::new(INTERNAL_SERVER_ERROR, "could not retrieve blob"),
            BlobError::Sqlx(_) => HttpError::new(INTERNAL_SERVER_ERROR, "could not retrieve blob"),
        }
    }
}

impl From<blake3::HexError> for BlobError {
    fn from(e: blake3::HexError) -> (out: Self) {
        BlobError::InvalidHash
    }
}

impl FromSpecImpl<blake3::HexError> for BlobError {
    open spec fn obeys_from_spec() -> bool {
        true
    }

    open spec fn from_spec(e: blake3::HexError) -> Self {
        BlobError::InvalidHash
    }
}

impl From<StoreError> for BlobError {
    fn from(e: StoreError) -> (out: Self) {
        BlobError::StoreError
    }
}

impl FromSpecImpl<StoreError> for BlobError {
    open spec fn obeys_from_spec() -> bool {
        true
    }

    open spec fn from_spec(e: StoreError) -> Self {
        BlobError::StoreError
    }
}

impl From<sqlx::Error> for BlobError {
    fn from(e: sqlx::Error) -> (out: Self) {
        BlobError::Sqlx(e)
    }
}

impl FromSpecImpl<sqlx::Error> for BlobError {
    open spec fn obeys_from_spec() -> bool {
        true
    }

    open spec fn from_spec(e: sqlx::Error) -> Self {
        BlobError::Sqlx(e)
    }
}

impl From<BlobError> for StoreError {
    fn from(e: BlobError) -> (out: Self) {
        match e {
            BlobError::Unauthorized => StoreError::Unauthorized,
            BlobError::InvalidHash => StoreError::InvalidHash,
            BlobError::NotFound => StoreError::NotFound,
            BlobError::StoreError => StoreError::Unauthorized,
            BlobError::Sqlx(e) => StoreError::Sqlx(e),
        }
    }
}

impl FromSpecImpl<BlobError> for StoreError {
    open spec fn obeys_from_spec() -> bool {
        true
    }

    open spec fn from_spec(e: BlobError) -> Self {
        match e {
            BlobError::Unauthorized => StoreError::Unauthorized,
            BlobError::InvalidHash => StoreError::InvalidHash,
            BlobError::NotFound => StoreError::NotFound,
            BlobError::StoreError => StoreError::Unauthorized,
            BlobError::Sqlx(e) => StoreError::Sqlx(e),
        }
    }
}

} // verus!
