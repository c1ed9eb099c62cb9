//! Everything the library takes on trust from code that is not verified.
//!
//! The declarations below make types of other crates known to the verifier
//! as opaque values. The functions are thin calls into those crates; their
//! contracts are believed, not proved, and each says which function it stands
//! for and what it claims of it.

use rand::{Rng, SeedableRng};
use vstd::prelude::*;
use vstd::string::StringSliceAdditionalSpecFns;

use crate::content_hash::{hex_decode, hex_encode, is_hash_hex};
use crate::models::api_key::is_alphanumeric;

verus! {

/// `actix_web::error::PayloadError`: why reading a request body failed.
#[verifier::external_type_specification]
#[verifier::external_body]
pub struct ExPayloadError(actix_web::error::PayloadError);

/// `rmp_serde::decode::Error`: why bytes could not be read as MessagePack.
#[verifier::external_type_specification]
#[verifier::external_body]
pub struct ExMsgPackDecodeError(rmp_serde::decode::Error);

/// `rmp_serde::encode::Error`: why a value could not be written as
/// MessagePack.
#[verifier::external_type_specification]
#[verifier::external_body]
pub struct ExMsgPackEncodeError(rmp_serde::encode::Error);

/// `serde_json::Error`: why a JSON text could not be deserialized.
#[verifier::external_type_specification]
#[verifier::external_body]
pub struct ExJsonError(serde_json::Error);

/// `actix_web::ResponseError::status_code` for `PayloadError`: 413 for a
/// body that reached the size limit of the transport, 400 for every other
/// failure.
#[verifier::external_body]
pub(crate) fn payload_error_status(e: &actix_web::error::PayloadError) -> (status: u16)
    ensures
        status == 413 || status == 400,
{
    actix_web::ResponseError::status_code(e).as_u16()
}

/// `Debug` for `serde_json::Error`: the reason for which a JSON text was
/// refused, in the words of the parser.
#[verifier::external_body]
pub(crate) fn json_error_debug(e: &serde_json::Error) -> String {
    format!("{:?}", e)
}

/// `Vec::try_reserve_exact`: asks for room for `additional` more bytes and
/// leaves the contents as they are, whether or not the room was granted.
#[verifier::external_body]
pub(crate) fn reserve_exact(buf: &mut Vec<u8>, additional: usize)
    ensures
        final(buf)@ == old(buf)@,
{
    let _ = buf.try_reserve_exact(additional);
}

/// `jsonwebtoken::errors::Error`: why a token was refused.
#[verifier::external_type_specification]
#[verifier::external_body]
pub struct ExJwtError(jsonwebtoken::errors::Error);

/// `uuid::Uuid`: the identifier of a user or of an eval.
#[verifier::external_type_specification]
#[verifier::external_body]
pub struct ExUuid(uuid::Uuid);

/// `reqwest::Error`: why a call of the GitHub API failed.
#[verifier::external_type_specification]
#[verifier::external_body]
pub struct ExReqwestError(reqwest::Error);

/// `serde_json::Value`: a JSON value that is stored as it came.
#[verifier::external_type_specification]
#[verifier::external_body]
pub struct ExJsonValue(serde_json::Value);

/// `sqlx::Error`: why a statement failed.
#[verifier::external_type_specification]
#[verifier::external_body]
pub struct ExSqlxError(sqlx::Error);

/// Whether it was the database that reported a failure, and not the
/// connection, the pool or the driver.
pub uninterp spec fn reported_by_database(e: sqlx::Error) -> bool;

/// The code under which the database reported a failure: the SQLSTATE of a
/// failure that the database reported with one, `None` for every other.
pub uninterp spec fn reported_code(e: sqlx::Error) -> Option<Seq<char>>;

/// `sqlx::Error::as_database_error`: whether the failure is one that the
/// database reported.
#[verifier::external_body]
pub(crate) fn is_database_error(e: &sqlx::Error) -> (b: bool)
    ensures
        b == reported_by_database(*e),
{
    e.as_database_error().is_some()
}

/// `sqlx::Error::as_database_error` and `DatabaseError::code`: the code
/// under which the database reported the failure, if it was the database
/// that reported it and it gave a code.
#[verifier::external_body]
pub(crate) fn database_error_code(e: &sqlx::Error) -> (code: Option<String>)
    ensures
        match code {
            Some(c) => reported_code(*e) == Some(c@) && reported_by_database(*e),
            None => reported_code(*e) is None,
        },
{
    e.as_database_error().and_then(|d| d.code()).map(|c| c.into_owned())
}

/// `Display` for `sqlx::Error`: the failure in the words of the driver.
#[verifier::external_body]
pub(crate) fn sqlx_error_text(e: &sqlx::Error) -> String {
    format!("{}", e)
}

/// `rand::Rng::sample_iter` with `rand::distributions::Alphanumeric`, on a
/// `rand_chacha::ChaCha20Rng` from `SeedableRng::from_entropy`: `n`
/// characters, each an ASCII letter or digit, drawn at random.
#[verifier::external_body]
pub(crate) fn random_alphanumeric(n: usize) -> (text: String)
    ensures
        text@.len() == n,
        forall|i: int| 0 <= i < text@.len() ==> is_alphanumeric(#[trigger] text@[i]),
{
    rand_chacha::ChaCha20Rng::from_entropy()
        .sample_iter(&rand::distributions::Alphanumeric)
        .take(n)
        .map(char::from)
        .collect()
}

/// `blake3::Hasher`: the state of an incremental hash computation.
#[verifier::external_type_specification]
#[verifier::external_body]
pub struct ExHasher(blake3::Hasher);

/// `blake3::HexError`: why a text is not the hexadecimal form of a hash.
#[verifier::external_type_specification]
#[verifier::external_body]
pub struct ExHexError(blake3::HexError);

/// The BLAKE3 hash of `input` in the default mode, as its 32 bytes.
pub uninterp spec fn blake3_digest(input: Seq<u8>) -> Seq<u8>;

/// All the bytes that a hasher has been given, in the order it was given them.
pub uninterp spec fn hasher_input(hasher: blake3::Hasher) -> Seq<u8>;

/// Whether a hasher counts its input from the start of a message, as every
/// hasher does that was made by `Hasher::new` and only fed since.
pub uninterp spec fn hasher_from_start(hasher: blake3::Hasher) -> bool;

/// `blake3::Hasher::new`: a hasher for the regular hash function that has
/// been given nothing yet.
#[verifier::external_body]
pub(crate) fn hasher_new() -> (hasher: blake3::Hasher)
    ensures
        hasher_from_start(hasher),
        hasher_input(hasher) == Seq::<u8>::empty(),
{
    blake3::Hasher::new()
}

/// `blake3::Hasher::update`: adds `input` to what the hasher has been given.
#[verifier::external_body]
pub(crate) fn hasher_update(hasher: &mut blake3::Hasher, input: &[u8])
    requires
        hasher_from_start(*old(hasher)),
    ensures
        hasher_from_start(*final(hasher)),
        hasher_input(*final(hasher)) == hasher_input(*old(hasher)) + input@,
{
    hasher.update(input);
}

/// `blake3::Hasher::finalize`: the hash of all that the hasher has been
/// given. The hasher is left as it was.
#[verifier::external_body]
pub(crate) fn hasher_finalize(hasher: &blake3::Hasher) -> (digest: [u8; 32])
    requires
        hasher_from_start(*hasher),
    ensures
        digest@ == blake3_digest(hasher_input(*hasher)),
{
    *hasher.finalize().as_bytes()
}

/// `blake3::Hash::from_hex`: succeeds on exactly 64 bytes that are all
/// hexadecimal digits, of either case, and then gives the 32 bytes they
/// stand for, each from two digits with the high half first.
#[verifier::external_body]
pub(crate) fn hash_from_hex(hex: &str) -> (r: Result<[u8; 32], blake3::HexError>)
    ensures
        r is Ok <==> is_hash_hex(hex.spec_bytes()),
        r matches Ok(bytes) ==> bytes@ == hex_decode(hex.spec_bytes()),
{
    blake3::Hash::from_hex(hex).map(|h| *h.as_bytes())
}

/// `blake3::Hash::to_hex`: the 64 lowercase hexadecimal digits of a hash.
#[verifier::external_body]
pub(crate) fn hash_to_hex(bytes: &[u8; 32]) -> (hex: String)
    ensures
        hex@ == hex_encode(bytes@),
{
    blake3::Hash::from_bytes(*bytes).to_hex().to_string()
}

/// `blake3::Hash`'s `==`: compares two hashes in constant time.
#[verifier::external_body]
pub(crate) fn hash_eq(a: &[u8; 32], b: &[u8; 32]) -> (same: bool)
    ensures
        same == (a@ == b@),
{
    blake3::Hash::from_bytes(*a) == blake3::Hash::from_bytes(*b)
}

} // verus!
