use std::collections::HashMap;

use actix_web::error::PayloadError;
use hitsave_api::content_hash::ContentHash;
use hitsave_api::extractors::with_blob::{BlobPayload, WithBlob, WithBlobError};
use hitsave_api::models::eval::EvalError;
use hitsave_api::persisters::blob::{BlobError, BlobInsert};
use hitsave_api::persisters::s3store::{
    BackendError, BlobMetadata, S3Store, ScanStep, StoreError, BUCKET,
};

const EMPTY_HASH: &str = "af1349b9f5f9a1a6a0404dea36dcc9499bcb25c9adc112b7cc9a93cae41f3262";

fn hash_of(bytes: &[u8]) -> ContentHash {
    ContentHash::from_bytes(*blake3::hash(bytes).as_bytes())
}

/// Drives an upload as the server does, against a map that stands for the
/// object store: the object is written only when the body ends whole.
fn upload(
    objects: &mut HashMap<String, Vec<u8>>,
    items: Vec<Result<Vec<u8>, WithBlobError>>,
    claim: ContentHash,
    content_length: i64,
) -> Result<(), StoreError> {
    let mut up = S3Store::new().store_blob(claim, content_length);
    assert_eq!(up.content_length(), content_length);
    let key = up.key();
    let mut body = Vec::new();
    let mut whole = false;
    let mut source: Vec<Option<Result<Vec<u8>, WithBlobError>>> =
        items.into_iter().map(Some).collect();
    source.push(None);
    for item in source {
        let step = match item {
            Some(Ok(chunk)) => {
                let step = up.scan(Some(Ok(chunk.as_slice())));
                if step == ScanStep::Forward {
                    body.extend(chunk);
                }
                step
            }
            Some(Err(e)) => up.scan(Some(Err(e))),
            None => up.scan(None),
        };
        match step {
            ScanStep::Forward => {}
            ScanStep::Abort => break,
            ScanStep::Finish => {
                whole = true;
                break;
            }
        }
    }
    let put = if whole {
        objects.insert(key, body);
        Ok(())
    } else {
        Err(BackendError { message: "the body was broken off".to_string() })
    };
    up.conclude(put)
}

fn download(objects: &HashMap<String, Vec<u8>>, hash: ContentHash) -> Result<Vec<u8>, StoreError> {
    let key = S3Store::new().retrieve_blob(hash);
    S3Store::retrieved(Ok(objects.get(&key).cloned()))
}

fn chunks(parts: &[&[u8]]) -> Vec<Result<Vec<u8>, WithBlobError>> {
    parts.iter().map(|p| Ok(p.to_vec())).collect()
}

#[test]
fn hash_of_nothing_is_the_known_one() {
    let mut up = S3Store::new().store_blob(ContentHash::from_hex(EMPTY_HASH).unwrap(), 0);
    assert_eq!(up.key(), EMPTY_HASH);
    assert_eq!(up.scan(None), ScanStep::Finish);
    assert!(up.conclude(Ok(())).is_ok());
}

#[test]
fn hex_is_read_in_either_case_and_written_in_lower_case() {
    let upper = EMPTY_HASH.to_uppercase();
    let hash = ContentHash::from_hex(&upper).unwrap();
    assert_eq!(hash.to_hex(), EMPTY_HASH);
    assert_eq!(hash.as_bytes()[0], 0xaf);
    assert_eq!(hash.as_bytes()[1], 0x13);
    assert_eq!(hash.as_bytes()[31], 0x62);
    assert!(hash.matches(&ContentHash::from_hex(EMPTY_HASH).unwrap()));
    assert!(!hash.matches(&hash_of(b"something")));
    let mut bytes = [0u8; 32];
    bytes[0] = 0x0a;
    bytes[31] = 0xf0;
    let hex = ContentHash::from_bytes(bytes).to_hex();
    assert_eq!(&hex[..2], "0a");
    assert_eq!(&hex[62..], "f0");
    assert_eq!(ContentHash::from_hex(&hex).unwrap().as_bytes(), &bytes);
}

#[test]
fn what_is_not_a_hash_is_refused() {
    assert!(ContentHash::from_hex("").is_err());
    assert!(ContentHash::from_hex(&EMPTY_HASH[..63]).is_err());
    assert!(ContentHash::from_hex(&format!("{}0", EMPTY_HASH)).is_err());
    assert!(ContentHash::from_hex(&format!("g{}", &EMPTY_HASH[1..])).is_err());
    assert!(ContentHash::from_hex(&format!("\u{e9}{}", &EMPTY_HASH[2..])).is_err());
}

#[test]
fn upload_then_download_gives_the_bytes_back() {
    let mut objects = HashMap::new();
    let bytes = b"the result of an expensive computation";
    let hash = hash_of(bytes);
    let parts = chunks(&[&bytes[..3], &bytes[3..3], &bytes[3..20], &bytes[20..]]);
    upload(&mut objects, parts, hash, bytes.len() as i64).unwrap();
    assert_eq!(download(&objects, hash).unwrap(), bytes.to_vec());
    assert_eq!(objects.len(), 1);
    assert!(objects.contains_key(blake3::hash(bytes).to_hex().as_str()));
}

#[test]
fn uploading_twice_leaves_one_object() {
    let mut objects = HashMap::new();
    let bytes = b"same bytes";
    let hash = hash_of(bytes);
    upload(&mut objects, chunks(&[bytes]), hash, 10).unwrap();
    let first_key: Vec<String> = objects.keys().cloned().collect();
    upload(&mut objects, chunks(&[&bytes[..5], &bytes[5..]]), hash, 10).unwrap();
    let second_key: Vec<String> = objects.keys().cloned().collect();
    assert_eq!(first_key, second_key);
    assert_eq!(objects.len(), 1);
    assert_eq!(download(&objects, hash).unwrap(), bytes.to_vec());
}

#[test]
fn five_bytes_with_another_hash_are_refused_and_not_stored() {
    let mut objects = HashMap::new();
    let claim = hash_of(b"hello");
    let out = upload(&mut objects, chunks(&[b"world"]), claim, 5);
    assert!(matches!(out, Err(StoreError::InvalidHash)));
    assert!(objects.is_empty());
    assert!(matches!(download(&objects, claim), Err(StoreError::NotFound)));
}

#[test]
fn mismatch_is_found_when_the_claimed_length_is_reached() {
    let mut up = S3Store::new().store_blob(hash_of(b"hello"), 5);
    assert_eq!(up.scan(Some(Ok(b"wo"))), ScanStep::Forward);
    assert_eq!(up.scan(Some(Ok(b"rld"))), ScanStep::Abort);
    assert_eq!(up.scan(Some(Ok(b"more"))), ScanStep::Abort);
    assert_eq!(up.scan(None), ScanStep::Abort);
    assert!(matches!(up.conclude(Ok(())), Err(StoreError::InvalidHash)));
}

#[test]
fn wrong_hash_is_refused_whatever_length_is_claimed() {
    for claimed in [-1i64, 0, 3, 5, 6, i64::MAX] {
        let mut objects = HashMap::new();
        let out = upload(&mut objects, chunks(&[b"wor", b"ld"]), hash_of(b"hello"), claimed);
        assert!(matches!(out, Err(StoreError::InvalidHash)), "claimed length {}", claimed);
        assert!(objects.is_empty());
    }
}

#[test]
fn right_hash_with_a_wrong_length_is_stored() {
    let mut objects = HashMap::new();
    let hash = hash_of(b"hello");
    upload(&mut objects, chunks(&[b"hello"]), hash, 7).unwrap();
    assert_eq!(download(&objects, hash).unwrap(), b"hello".to_vec());
}

#[test]
fn prefix_of_the_claimed_length_must_have_the_hash() {
    let mut objects = HashMap::new();
    let out = upload(&mut objects, chunks(&[b"hel", b"lo", b" world"]), hash_of(b"hello world"), 5);
    assert!(matches!(out, Err(StoreError::InvalidHash)));
    assert!(objects.is_empty());
}

#[test]
fn failure_of_the_source_ends_the_upload() {
    let mut objects = HashMap::new();
    let items = vec![
        Ok(b"he".to_vec()),
        Err(WithBlobError::Payload(PayloadError::Overflow)),
        Ok(b"llo".to_vec()),
    ];
    let out = upload(&mut objects, items, hash_of(b"hello"), 5);
    assert!(matches!(
        out,
        Err(StoreError::WithBlob(WithBlobError::Payload(PayloadError::Overflow)))
    ));
    assert!(objects.is_empty());
}

#[test]
fn failure_of_the_object_store_is_reported() {
    let mut up = S3Store::new().store_blob(hash_of(b"abc"), 3);
    assert_eq!(up.scan(Some(Ok(b"abc"))), ScanStep::Forward);
    assert_eq!(up.scan(Some(Ok(b""))), ScanStep::Forward);
    assert_eq!(up.scan(None), ScanStep::Finish);
    assert_eq!(up.scan(Some(Ok(b"late"))), ScanStep::Finish);
    let out = up.conclude(Err(BackendError { message: "connection reset".to_string() }));
    assert!(matches!(out, Err(StoreError::S3(e)) if e.message == "connection reset"));
    let unfinished = S3Store::new().store_blob(hash_of(b"abc"), 3);
    assert!(matches!(unfinished.conclude(Ok(())), Err(StoreError::InvalidHash)));
    assert!(matches!(
        S3Store::retrieved::<Vec<u8>>(Err(BackendError { message: "down".to_string() })),
        Err(StoreError::S3(_))
    ));
    assert_eq!(S3Store::new().bucket(), BUCKET);
    assert_eq!(BUCKET, "hitsave-binarystore");
}

#[test]
fn transfer_is_checked_before_it_is_stored() {
    let store = S3Store::new();
    let meta = BlobInsert { content_length: 5, content_hash: EMPTY_HASH.to_string() };
    assert_eq!(meta.content_length(), 5);
    assert_eq!(meta.content_hash(), EMPTY_HASH);
    let missing = WithBlob { meta, blob: None };
    assert!(matches!(missing.persist(&store), Err(StoreError::MissingPayload)));
    let bad = WithBlob {
        meta: BlobInsert { content_length: 5, content_hash: "xyz".to_string() },
        blob: Some(BlobPayload::new(b"hello")),
    };
    assert!(matches!(bad.persist(&store), Err(StoreError::InvalidHash)));
    let good = WithBlob {
        meta: BlobInsert { content_length: 0, content_hash: EMPTY_HASH.to_string() },
        blob: Some(BlobPayload::new(b"")),
    };
    let storing = good.persist(&store).unwrap();
    assert_eq!(storing.upload.key(), EMPTY_HASH);
    assert_eq!(storing.upload.content_length(), 0);
    assert_eq!(storing.meta.content_hash, EMPTY_HASH);
}

#[test]
fn store_errors_are_shown_to_the_client() {
    let shown = |e: StoreError| {
        let h = e.http_error();
        (h.status, h.message)
    };
    assert_eq!(shown(StoreError::InvalidHash), (400, "invalid hash".to_string()));
    assert_eq!(shown(StoreError::MissingPayload), (400, "missing payload".to_string()));
    assert_eq!(shown(StoreError::Unauthorized), (401, "unauthorized".to_string()));
    assert_eq!(shown(StoreError::NotFound), (404, "resource not found".to_string()));
    assert_eq!(
        shown(StoreError::S3(BackendError { message: "secret detail".to_string() })),
        (500, "could not store data in S3".to_string())
    );
    assert_eq!(
        shown(StoreError::Sqlx(sqlx::Error::RowNotFound)),
        (500, "could not store data".to_string())
    );
    assert_eq!(
        shown(StoreError::WithBlob(WithBlobError::UnexpectedEOF)),
        (400, "invalid encoding".to_string())
    );
    assert_eq!(StoreError::InvalidHash.message(), "Invalid hash");
    assert_eq!(StoreError::MissingPayload.message(), "Missing payload");
}

#[test]
fn errors_convert_into_store_errors() {
    assert!(matches!(StoreError::from(EvalError::Unauthorized), StoreError::Unauthorized));
    assert!(matches!(
        StoreError::from(EvalError::NotFound(sqlx::Error::RowNotFound)),
        StoreError::Sqlx(sqlx::Error::RowNotFound)
    ));
    assert!(matches!(
        StoreError::from(EvalError::Sqlx(sqlx::Error::PoolClosed)),
        StoreError::Sqlx(sqlx::Error::PoolClosed)
    ));
    assert!(matches!(StoreError::from(sqlx::Error::PoolTimedOut), StoreError::Sqlx(_)));
    assert!(matches!(StoreError::from(BlobError::Unauthorized), StoreError::Unauthorized));
    assert!(matches!(StoreError::from(BlobError::InvalidHash), StoreError::InvalidHash));
    assert!(matches!(StoreError::from(BlobError::NotFound), StoreError::NotFound));
    assert!(matches!(StoreError::from(BlobError::StoreError), StoreError::Unauthorized));
    assert!(matches!(
        StoreError::from(BlobError::Sqlx(sqlx::Error::RowNotFound)),
        StoreError::Sqlx(_)
    ));
    let hex_error = blake3::Hash::from_hex("zz").unwrap_err();
    assert!(matches!(StoreError::from(hex_error.clone()), StoreError::InvalidHash));
    assert!(matches!(BlobError::from(hex_error), BlobError::InvalidHash));
    assert!(matches!(BlobError::from(StoreError::NotFound), BlobError::StoreError));
    assert!(matches!(BlobError::from(sqlx::Error::RowNotFound), BlobError::Sqlx(_)));
}
