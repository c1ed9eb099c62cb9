//! The content-addressed blob store.

use vstd::prelude::*;
use vstd::std_specs::convert::FromSpecImpl;

use crate::content_hash::{hex_encode, parse_hash, ContentHash};
use crate::extractors::with_blob::{concat_chunks, BlobPayload, WithBlob, WithBlobError};
use crate::http_error::{shows, HttpError, BAD_REQUEST, INTERNAL_SERVER_ERROR, NOT_FOUND, UNAUTHORIZED};
use crate::models::eval::EvalError;
use crate::trusted::{blake3_digest, hasher_finalize, hasher_from_start, hasher_input, hasher_new, hasher_update};

verus! {

/// A failure of the remote object store, as the client of the store
/// describes it.
#[derive(Debug)]
pub struct BackendError {
    pub message: String,
}

/// Why a blob could not be stored or fetched.
#[derive(Debug)]
pub enum StoreError {
    /// The bytes received do not have the hash that was claimed for them, or
    /// the claimed hash is not a hash.
    InvalidHash,
    /// The transfer carries no blob.
    MissingPayload,
    /// The caller may not do this.
    Unauthorized,
    /// The object store holds nothing under the key.
    NotFound,
    /// The object store failed.
    S3(BackendError),
    /// The transfer could not be decoded.
    WithBlob(WithBlobError),
    /// The database failed.
    Sqlx(sqlx::Error),
}

/// What a type must say of the blob it describes for the blob to be stored.
pub trait BlobMetadata {
    /// The content hash that is claimed for the blob, as text.
    spec fn hash_text(&self) -> Seq<char>;

    /// The length that is claimed for the blob.
    spec fn length(&self) -> i64;

    /// The content hash that the blob is stored under, in hexadecimal.
    fn content_hash(&self) -> (h: &str)
        ensures
            h@ == self.hash_text(),
    ;

    /// The length of the blob in bytes. The object store is told this length
    /// before the blob has been read to its end; it proves nothing.
    fn content_length(&self) -> (n: i64)
        ensures
            n == self.length(),
    ;
}

/// Where an upload stands.
#[derive(Debug)]
pub enum ScanState {
    /// The source has not ended and nothing has gone wrong.
    Scanning,
    /// The upload was given up for this reason; the body sent to the object
    /// store was broken off.
    Aborted(StoreError),
    /// The source has ended and its bytes have the claimed hash; the body
    /// sent to the object store is complete.
    Finished,
}

/// The abstract state of an upload.
pub struct Upload {
    /// The bytes taken from the source so far.
    pub absorbed: Seq<u8>,
    /// The hash that the caller claims for the blob.
    pub claim: Seq<u8>,
    /// The length that the caller claims for the blob.
    pub content_length: int,
    pub state: ScanState,
}

/// What the body of an upload is to do with an item of its source.
#[derive(Clone, Copy, PartialEq, Eq, Structural, Debug)]
pub enum ScanStep {
    /// Send the chunk on to the object store.
    Forward,
    /// Break the body off with an error: nothing may be stored.
    Abort,
    /// End the body: all of the blob has been sent.
    Finish,
}

/// An item of a source with its chunk taken as a sequence of bytes.
pub open spec fn item_view(item: Option<Result<&[u8], WithBlobError>>) -> Option<
    Result<Seq<u8>, WithBlobError>,
> {
    match item {
        Some(Ok(chunk)) => Some(Ok(chunk@)),
        Some(Err(e)) => Some(Err(e)),
        None => None,
    }
}

/// Whether `bytes` have the hash `claim`.
pub open spec fn verified(bytes: Seq<u8>, claim: Seq<u8>) -> bool {
    blake3_digest(bytes) == claim
}

/// The state of an upload after an item of its source, `None` standing for
/// the end of the source.
///
/// A chunk is added to the bytes taken. When the bytes taken are then as many
/// as the claimed length, they must have the claimed hash, or the upload is
/// given up as `InvalidHash`. A failure of the source gives the upload up
/// with that failure. At the end of the source the bytes taken must have the
/// claimed hash, whatever length was claimed. An upload that was given up or
/// has finished stays as it is.
pub open spec fn scan_next(u: Upload, item: Option<Result<Seq<u8>, WithBlobError>>) -> Upload {
    if !(u.state is Scanning) {
        u
    } else {
        match item {
            Some(Ok(chunk)) => {
                let all = u.absorbed + chunk;
                if all.len() == u.content_length && !verified(all, u.claim) {
                    Upload { absorbed: all, state: ScanState::Aborted(StoreError::InvalidHash), ..u }
                } else {
                    Upload { absorbed: all, ..u }
                }
            },
            Some(Err(e)) => Upload {
                state: ScanState::Aborted(StoreError::WithBlob(e)),
                ..u
            },
            None => if verified(u.absorbed, u.claim) {
                Upload { state: ScanState::Finished, ..u }
            } else {
                Upload { state: ScanState::Aborted(StoreError::InvalidHash), ..u }
            },
        }
    }
}

/// What the body does after an item that left the upload in state `next`:
/// it sends the chunk on while the upload goes on, breaks off when the
/// upload was given up, and ends when the upload has finished.
pub open spec fn step_for(next: Upload) -> ScanStep {
    match next.state {
        ScanState::Scanning => ScanStep::Forward,
        ScanState::Aborted(_) => ScanStep::Abort,
        ScanState::Finished => ScanStep::Finish,
    }
}

/// What an upload comes to once the object store has answered: the reason
/// for which it was given up; else the failure of the object store; else
/// success, if the whole blob was sent. An answer of success to a body that
/// has not ended counts for nothing.
pub open spec fn upload_result(u: Upload, put: Result<(), BackendError>) -> Result<(), StoreError> {
    match u.state {
        ScanState::Aborted(e) => Err(e),
        ScanState::Finished => match put {
            Ok(_) => Ok(()),
            Err(e) => Err(StoreError::S3(e)),
        },
        ScanState::Scanning => match put {
            Ok(_) => Err(StoreError::InvalidHash),
            Err(e) => Err(StoreError::S3(e)),
        },
    }
}

/// The bucket that holds the blobs.
pub const BUCKET: &'static str = "hitsave-binarystore";

/// The region of the bucket.
pub const REGION: &'static str = "eu-central-1";

/// An upload in progress: the running hash of what has been sent, and what
/// the caller claims of the blob.
#[derive(Debug)]
pub struct StoreBlob {
    hasher: blake3::Hasher,
    /// The number of bytes taken, or `u64::MAX` if that is less.
    len: u64,
    hash_claim: ContentHash,
    content_length: i64,
    failure: Option<StoreError>,
    finished: bool,
}

impl View for StoreBlob {
    type V = Upload;

    closed spec fn view(&self) -> Upload {
        Upload {
            absorbed: hasher_input(self.hasher),
            claim: self.hash_claim@,
            content_length: self.content_length as int,
            state: match self.failure {
                Some(e) => ScanState::Aborted(e),
                None => if self.finished {
                    ScanState::Finished
                } else {
                    ScanState::Scanning
                },
            },
        }
    }
}

impl StoreBlob {
    /// The invariant of an upload.
    pub closed spec fn wf(&self) -> bool {
        &&& hasher_from_start(self.hasher)
        &&& self.len == if hasher_input(self.hasher).len() < u64::MAX {
            hasher_input(self.hasher).len() as u64
        } else {
            u64::MAX
        }
    }

    /// An upload of a blob for which `hash_claim` and `content_length` are
    /// claimed, before anything has been read.
    pub fn new(hash_claim: ContentHash, content_length: i64) -> (up: Self)
        ensures
            up.wf(),
            up@ == fresh_upload(hash_claim@, content_length as int),
    {
        StoreBlob {
            hasher: hasher_new(),
            len: 0,
            hash_claim,
            content_length,
            failure: None,
            finished: false,
        }
    }

    /// The key under which the blob is stored: the claimed hash in lowercase
    /// hexadecimal.
    pub fn key(&self) -> (key: String)
        ensures
            key@ == hex_encode(self@.claim),
    {
        self.hash_claim.to_hex()
    }

    /// The length that the object store is told to expect.
    pub fn content_length(&self) -> (n: i64)
        ensures
            n == self@.content_length,
    {
        self.content_length
    }

    /// Whether the bytes taken so far have the claimed hash.
    fn hash_matches(&self) -> (ok: bool)
        requires
            self.wf(),
        ensures
            ok == verified(self@.absorbed, self@.claim),
    {
        ContentHash::from_bytes(hasher_finalize(&self.hasher)).matches(&self.hash_claim)
    }

    /// Takes the next item of the source, `None` for its end, and says what
    /// the body sent to the object store does with it.
    pub fn scan(&mut self, item: Option<Result<&[u8], WithBlobError>>) -> (step: ScanStep)
        requires
            old(self).wf(),
        ensures
            final(self).wf(),
            final(self)@ == scan_next(old(self)@, item_view(item)),
            step == step_for(final(self)@),
    {
        if self.failure.is_some() {
            return ScanStep::Abort;
        }
        if self.finished {
            return ScanStep::Finish;
        }
        match item {
            Some(Ok(chunk)) => {
                hasher_update(&mut self.hasher, chunk);
                let n: u64 = chunk.len() as u64;
                self.len = if n > u64::MAX - self.len {
                    u64::MAX
                } else {
                    self.len + n
                };
                if self.content_length >= 0 && self.len == self.content_length as u64 {
                    if !self.hash_matches() {
                        self.failure = Some(StoreError::InvalidHash);
                        return ScanStep::Abort;
                    }
                }
                ScanStep::Forward
            },
            Some(Err(e)) => {
                self.failure = Some(StoreError::WithBlob(e));
                ScanStep::Abort
            },
            None => {
                if self.hash_matches() {
                    self.finished = true;
                    ScanStep::Finish
                } else {
                    self.failure = Some(StoreError::InvalidHash);
                    ScanStep::Abort
                }
            },
        }
    }

    /// Ends the upload with the answer of the object store.
    pub fn conclude(self, put: Result<(), BackendError>) -> (out: Result<(), StoreError>)
        ensures
            out == upload_result(self@, put),
    {
        match self.failure {
            Some(e) => Err(e),
            None => match put {
                Err(e) => Err(StoreError::S3(e)),
                Ok(_) => if self.finished {
                    Ok(())
                } else {
                    Err(StoreError::InvalidHash)
                },
            },
        }
    }
}

/// The rules of the blob store: where blobs are kept and under which keys.
#[derive(Clone, Copy, Debug)]
pub struct S3Store {}

impl S3Store {
    /// The store.
    pub fn new() -> S3Store {
        S3Store {  }
    }

    /// The name of the bucket that holds the blobs.
    pub fn bucket(&self) -> (name: &'static str)
        ensures
            name@ == BUCKET@,
    {
        BUCKET
    }

    /// Begins the upload of a blob for which `hash_claim` and
    /// `content_length` are claimed. The caller feeds the upload the blob,
    /// sends on what it forwards, and concludes it with the answer of the
    /// object store.
    pub fn store_blob(&self, hash_claim: ContentHash, content_length: i64) -> (up: StoreBlob)
        ensures
            up.wf(),
            up@ == fresh_upload(hash_claim@, content_length as int),
    {
        StoreBlob::new(hash_claim, content_length)
    }

    /// The key under which the blob with hash `content_hash` is fetched: the
    /// hash in lowercase hexadecimal. Nothing is verified on the way out;
    /// what is stored under a key was verified when it was written.
    pub fn retrieve_blob(&self, content_hash: ContentHash) -> (key: String)
        ensures
            key@ == object_key(content_hash@),
    {
        content_hash.to_hex()
    }

    /// What a fetch comes to, from what the object store answered: the body
    /// of the object, `NotFound` where it holds nothing under the key, its
    /// own failure otherwise.
    pub fn retrieved<B>(found: Result<Option<B>, BackendError>) -> (out: Result<B, StoreError>)
        ensures
            out == match found {
                Ok(Some(body)) => Ok::<B, StoreError>(body),
                Ok(None) => Err(StoreError::NotFound),
                Err(e) => Err(StoreError::S3(e)),
            },
    {
        match found {
            Ok(Some(body)) => Ok(body),
            Ok(None) => Err(StoreError::NotFound),
            Err(e) => Err(StoreError::S3(e)),
        }
    }
}

/// A transfer that is ready to be stored: its metadata, to be recorded once
/// the blob is stored; its payload; and the upload that the payload is fed
/// to.
#[derive(Debug)]
pub struct Storing<P> {
    pub meta: P,
    pub payload: BlobPayload,
    pub upload: StoreBlob,
}

impl<P: BlobMetadata> WithBlob<P> {
    /// Begins to store the transfer. A transfer without a payload is refused
    /// as `MissingPayload`, one whose claimed hash is not a hash as
    /// `InvalidHash`. The blob is uploaded first, under the hash and with the
    /// length that the metadata claims; the metadata is recorded after the
    /// upload has been concluded with success, never before.
    pub fn persist(self, store: &S3Store) -> (out: Result<Storing<P>, StoreError>)
        ensures
            match self.blob {
                None => out == Err::<Storing<P>, StoreError>(StoreError::MissingPayload),
                Some(payload) => match parse_hash(self.meta.hash_text()) {
                    None => out == Err::<Storing<P>, StoreError>(StoreError::InvalidHash),
                    Some(hash) => {
                        &&& out matches Ok(storing)
                        &&& storing.meta == self.meta
                        &&& storing.payload == payload
                        &&& storing.upload.wf()
                        &&& storing.upload@ == fresh_upload(hash, self.meta.length() as int)
                    },
                },
            },
    {
        let payload = match self.blob {
            Some(payload) => payload,
            None => {
                return Err(StoreError::MissingPayload);
            },
        };
        let meta = self.meta;
        let hash = match ContentHash::from_hex(meta.content_hash()) {
            Ok(hash) => hash,
            Err(e) => {
                return Err(StoreError::from(e));
            },
        };
        let content_length = meta.content_length();
        let upload = store.store_blob(hash, content_length);
        Ok(Storing { meta, payload, upload })
    }
}

impl StoreError {
    /// The failure in a few words.
    pub fn message(&self) -> (text: &'static str)
        ensures
            text@ == match *self {
                StoreError::InvalidHash => "Invalid hash"@,
                StoreError::MissingPayload => "Missing payload"@,
                StoreError::Unauthorized => "Unauthorized"@,
                StoreError::NotFound => "Not found"@,
                StoreError::S3(_) => "Error storing BLOB"@,
                StoreError::WithBlob(_) => "Error decoding BLOB transfer protocol"@,
                StoreError::Sqlx(_) => "Error storing BLOB metadata"@,
            },
    {
        match self {
            StoreError::InvalidHash => "Invalid hash",
            StoreError::MissingPayload => "Missing payload",
            StoreError::Unauthorized => "Unauthorized",
            StoreError::NotFound => "Not found",
            StoreError::S3(_) => "Error storing BLOB",
            StoreError::WithBlob(_) => "Error decoding BLOB transfer protocol",
            StoreError::Sqlx(_) => "Error storing BLOB metadata",
        }
    }

    /// How the failure is shown to the client: what the client did wrong is
    /// named; of a failure of the object store or the database nothing is
    /// told.
    pub fn http_error(&self) -> (e: HttpError)
        ensures
            match *self {
                StoreError::S3(_) => shows(e, INTERNAL_SERVER_ERROR, "could not store data in S3"),
                StoreError::Sqlx(_) => shows(e, INTERNAL_SERVER_ERROR, "could not store data"),
                StoreError::InvalidHash => shows(e, BAD_REQUEST, "invalid hash"),
                StoreError::MissingPayload => shows(e, BAD_REQUEST, "missing payload"),
                StoreError::Unauthorized => shows(e, UNAUTHORIZED, "unauthorized"),
                StoreError::NotFound => shows(e, NOT_FOUND, "resource not found"),
                StoreError::WithBlob(_) => shows(e, BAD_REQUEST, "invalid encoding"),
            },
    {
        match self {
            StoreError::S3(_) => HttpError::new(INTERNAL_SERVER_ERROR, "could not store data in S3"),
            StoreError::Sqlx(_) => HttpError::new(INTERNAL_SERVER_ERROR, "could not store data"),
            StoreError::InvalidHash => HttpError::new(BAD_REQUEST, "invalid hash"),
            StoreError::MissingPayload => HttpError::new(BAD_REQUEST, "missing payload"),
            StoreError::Unauthorized => HttpError::new(UNAUTHORIZED, "unauthorized"),
            StoreError::NotFound => HttpError::new(NOT_FOUND, "resource not found"),
            StoreError::WithBlob(_) => HttpError::new(BAD_REQUEST, "invalid encoding"),
        }
    }
}

impl From<EvalError> for StoreError {
    fn from(e: EvalError) -> (out: Self) {
        match e {
            EvalError::NotFound(e) => StoreError::Sqlx(e),
            EvalError::Sqlx(e) => StoreError::Sqlx(e),
            EvalError::Unauthorized => StoreError::Unauthorized,
        }
    }
}

impl FromSpecImpl<EvalError> for StoreError {
    open spec fn obeys_from_spec() -> bool {
        true
    }

    open spec fn from_spec(e: EvalError) -> Self {
        match e {
            EvalError::NotFound(e) => StoreError::Sqlx(e),
            EvalError::Sqlx(e) => StoreError::Sqlx(e),
            EvalError::Unauthorized => StoreError::Unauthorized,
        }
    }
}

impl From<sqlx::Error> for StoreError {
    fn from(e: sqlx::Error) -> (out: Self) {
        StoreError::Sqlx(e)
    }
}

impl FromSpecImpl<sqlx::Error> for StoreError {
    open spec fn obeys_from_spec() -> bool {
        true
    }

    open spec fn from_spec(e: sqlx::Error) -> Self {
        StoreError::Sqlx(e)
    }
}

impl From<blake3::HexError> for StoreError {
    fn from(e: blake3::HexError) -> (out: Self) {
        StoreError::InvalidHash
    }
}

impl FromSpecImpl<blake3::HexError> for StoreError {
    open spec fn obeys_from_spec() -> bool {
        true
    }

    open spec fn from_spec(e: blake3::HexError) -> Self {
        StoreError::InvalidHash
    }
}

/// The key of the object that holds the blob with the given hash.
pub open spec fn object_key(hash: Seq<u8>) -> Seq<char> {
    hex_encode(hash)
}

/// An upload before anything has been read.
pub open spec fn fresh_upload(claim: Seq<u8>, content_length: int) -> Upload {
    Upload { absorbed: Seq::empty(), claim, content_length, state: ScanState::Scanning }
}

/// The state of an upload after all the items of a source and its end.
pub open spec fn run_upload(u: Upload, items: Seq<Result<Seq<u8>, WithBlobError>>) -> Upload
    decreases items.len(),
{
    if items.len() == 0 {
        scan_next(u, None)
    } else {
        run_upload(scan_next(u, Some(items[0])), items.drop_first())
    }
}

/// A source that hands on `chunks` and does not fail.
pub open spec fn sound_source(chunks: Seq<Seq<u8>>) -> Seq<Result<Seq<u8>, WithBlobError>> {
    Seq::new(chunks.len(), |i: int| Ok(chunks[i]))
}

/// What the object store holds after an upload that ended in state `done`
/// and was answered with `put`: the blob under its key, if the body was
/// sent whole and the store accepted it; else what it held before, since a
/// body that is broken off stores nothing.
pub open spec fn objects_after(
    objects: Map<Seq<char>, Seq<u8>>,
    done: Upload,
    put: Result<(), BackendError>,
) -> Map<Seq<char>, Seq<u8>> {
    if done.state is Finished && put is Ok {
        objects.insert(object_key(done.claim), done.absorbed)
    } else {
        objects
    }
}

/// What fetching the blob with the given hash gives.
pub open spec fn download(objects: Map<Seq<char>, Seq<u8>>, hash: Seq<u8>) -> Result<
    Seq<u8>,
    StoreError,
> {
    if objects.contains_key(object_key(hash)) {
        Ok(objects[object_key(hash)])
    } else {
        Err(StoreError::NotFound)
    }
}

/// An upload from a source that does not fail, while it has not been given
/// up, has taken the chunks fed to it; it is never given up for anything but
/// the hash.
proof fn lemma_run_sound(u: Upload, chunks: Seq<Seq<u8>>)
    requires
        u.state is Scanning || u.state == ScanState::Aborted(StoreError::InvalidHash),
    ensures
        ({
            let done = run_upload(u, sound_source(chunks));
            &&& done.claim == u.claim
            &&& done.content_length == u.content_length
            &&& done.state is Finished || done.state == ScanState::Aborted(StoreError::InvalidHash)
            &&& u.state is Aborted ==> done.state is Aborted
            &&& done.state is Finished ==> {
                &&& done.absorbed == u.absorbed + concat_chunks(chunks)
                &&& verified(done.absorbed, done.claim)
            }
        }),
    decreases chunks.len(),
{
    let items = sound_source(chunks);
    if chunks.len() == 0 {
        assert(u.absorbed + concat_chunks(chunks) == u.absorbed);
        assert(run_upload(u, items) == scan_next(u, None));
    } else {
        let next = scan_next(u, Some(items[0]));
        assert(items[0] == Ok::<Seq<u8>, WithBlobError>(chunks[0]));
        assert(items.drop_first() == sound_source(chunks.drop_first()));
        assert(run_upload(u, items) == run_upload(next, items.drop_first()));
        lemma_run_sound(next, chunks.drop_first());
        let done = run_upload(u, items);
        if done.state is Finished {
            assert(u.state is Scanning);
            assert(next.absorbed == u.absorbed + chunks[0]);
            assert(done.absorbed == next.absorbed + concat_chunks(chunks.drop_first()));
            assert(concat_chunks(chunks) == chunks[0] + concat_chunks(chunks.drop_first()));
            assert(u.absorbed + concat_chunks(chunks) =~= (u.absorbed + chunks[0])
                + concat_chunks(chunks.drop_first()));
        }
    }
}

/// An honest upload is never given up: when the claimed hash is the hash of
/// the whole blob and the claimed length is its length, every check passes.
proof fn lemma_run_honest(u: Upload, chunks: Seq<Seq<u8>>)
    requires
        u.state is Scanning,
        verified(u.absorbed + concat_chunks(chunks), u.claim),
        u.content_length == (u.absorbed + concat_chunks(chunks)).len(),
    ensures
        run_upload(u, sound_source(chunks)).state is Finished,
    decreases chunks.len(),
{
    let items = sound_source(chunks);
    if chunks.len() == 0 {
        assert(u.absorbed + concat_chunks(chunks) == u.absorbed);
    } else {
        let next = scan_next(u, Some(items[0]));
        let all = u.absorbed + chunks[0];
        let rest = concat_chunks(chunks.drop_first());
        assert(u.absorbed + concat_chunks(chunks) == all + rest);
        if all.len() == u.content_length {
            assert(rest.len() == 0);
            assert(all + rest == all);
        }
        assert(items.drop_first() == sound_source(chunks.drop_first()));
        lemma_run_honest(next, chunks.drop_first());
    }
}

/// A blob that is uploaded under its own hash and length can be fetched
/// again, byte for byte, however it was cut into chunks. Uploading it a second
/// time stores it under the same key and changes nothing: a store that was
/// empty holds exactly one object.
pub proof fn lemma_upload_round_trip(objects: Map<Seq<char>, Seq<u8>>, chunks: Seq<Seq<u8>>)
    ensures
        ({
            let bytes = concat_chunks(chunks);
            let hash = blake3_digest(bytes);
            let done = run_upload(fresh_upload(hash, bytes.len() as int), sound_source(chunks));
            let after = objects_after(objects, done, Ok(()));
            &&& upload_result(done, Ok(())) == Ok::<(), StoreError>(())
            &&& download(after, hash) == Ok::<Seq<u8>, StoreError>(bytes)
            &&& objects_after(after, done, Ok(())) == after
            &&& objects == Map::<Seq<char>, Seq<u8>>::empty() ==> after.dom() == set![
                object_key(hash),
            ]
        }),
{
    let bytes = concat_chunks(chunks);
    let hash = blake3_digest(bytes);
    let fresh = fresh_upload(hash, bytes.len() as int);
    assert(fresh.absorbed + bytes == bytes);
    lemma_run_honest(fresh, chunks);
    lemma_run_sound(fresh, chunks);
    let done = run_upload(fresh, sound_source(chunks));
    let after = objects_after(objects, done, Ok(()));
    assert(objects_after(after, done, Ok(())) == after);
    if objects == Map::<Seq<char>, Seq<u8>>::empty() {
        assert(after.dom() == set![object_key(hash)]);
    }
}

/// Bytes whose hash is not the claimed one are never stored, whatever length
/// was claimed and however the object store answers: the upload fails with
/// `InvalidHash` and the store holds what it held before, so that a store
/// that had nothing under the claimed hash still has nothing there.
pub proof fn lemma_wrong_hash_is_refused(
    objects: Map<Seq<char>, Seq<u8>>,
    chunks: Seq<Seq<u8>>,
    claim: Seq<u8>,
    content_length: int,
    put: Result<(), BackendError>,
)
    requires
        blake3_digest(concat_chunks(chunks)) != claim,
    ensures
        ({
            let done = run_upload(fresh_upload(claim, content_length), sound_source(chunks));
            let after = objects_after(objects, done, put);
            &&& upload_result(done, put) == Err::<(), StoreError>(StoreError::InvalidHash)
            &&& after == objects
            &&& !objects.contains_key(object_key(claim)) ==> download(after, claim) == Err::<
                Seq<u8>,
                StoreError,
            >(StoreError::NotFound)
        }),
{
    let fresh = fresh_upload(claim, content_length);
    assert(fresh.absorbed + concat_chunks(chunks) == concat_chunks(chunks));
    lemma_run_sound(fresh, chunks);
}

/// An upload that was given up stays given up, and nothing is stored for it.
pub proof fn lemma_aborted_stores_nothing(
    objects: Map<Seq<char>, Seq<u8>>,
    u: Upload,
    items: Seq<Result<Seq<u8>, WithBlobError>>,
    put: Result<(), BackendError>,
)
    requires
        u.state is Aborted,
    ensures
        run_upload(u, items) == u,
        upload_result(run_upload(u, items), put) is Err,
        objects_after(objects, run_upload(u, items), put) == objects,
    decreases items.len(),
{
    if items.len() > 0 {
        lemma_aborted_stores_nothing(objects, u, items.drop_first(), put);
    }
}

/// An upload whose source fails is given up, however much of the blob came
/// before or after the failure and however the object store answers: it
/// ends in failure, and nothing is stored for it.
pub proof fn lemma_failing_source_stores_nothing(
    objects: Map<Seq<char>, Seq<u8>>,
    u: Upload,
    items: Seq<Result<Seq<u8>, WithBlobError>>,
    i: int,
    put: Result<(), BackendError>,
)
    requires
        !(u.state is Finished),
        0 <= i < items.len(),
        items[i] is Err,
    ensures
        run_upload(u, items).state is Aborted,
        upload_result(run_upload(u, items), put) is Err,
        objects_after(objects, run_upload(u, items), put) == objects,
    decreases items.len(),
{
    let next = scan_next(u, Some(items[0]));
    if u.state is Aborted {
        lemma_aborted_stores_nothing(objects, u, items, put);
    } else if i == 0 {
        lemma_aborted_stores_nothing(objects, next, items.drop_first(), put);
    } else {
        lemma_failing_source_stores_nothing(objects, next, items.drop_first(), i - 1, put);
    }
}

} // verus!
