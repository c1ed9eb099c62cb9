//! The blob transfer envelope and its incremental decoder.
//!
//! A request body is a four-byte big-endian length, a metadata block of that
//! many bytes, and the blob itself. The transport hands the body over in
//! chunks whose boundaries mean nothing; the decoder here is fed one chunk at
//! a time and resolves as soon as the metadata block is complete, handing the
//! bytes that came after it over to the payload.

use actix_web::error::PayloadError;
use vstd::prelude::*;
use vstd::slice::slice_to_vec;
use vstd::std_specs::convert::FromSpecImpl;
use vstd::string::StringExecFns;

use crate::http_error::{shows, HttpError, BAD_REQUEST, INTERNAL_SERVER_ERROR};
use crate::trusted::{json_error_debug, reserve_exact};

verus! {

/// Number of bytes of the length prefix.
pub const PREFIX_LEN: usize = 4;

/// The value of four bytes read as a big-endian unsigned integer.
pub open spec fn be_u32(b: Seq<u8>) -> nat
    recommends
        b.len() == 4,
{
    (b[0] as nat) * 0x100_0000 + (b[1] as nat) * 0x1_0000 + (b[2] as nat) * 0x100 + (b[3] as nat)
}

/// The metadata length that a body announces in its first four bytes.
pub open spec fn declared_len(stream: Seq<u8>) -> nat
    recommends
        stream.len() >= 4,
{
    be_u32(stream.subrange(0, 4))
}

/// Whether `stream`, a prefix of a body, holds the whole metadata block.
pub open spec fn metadata_complete(stream: Seq<u8>) -> bool {
    stream.len() >= 4 && stream.len() >= 4 + declared_len(stream)
}

/// The metadata block of a body whose metadata is complete.
pub open spec fn metadata_of(stream: Seq<u8>) -> Seq<u8>
    recommends
        metadata_complete(stream),
{
    stream.subrange(4, 4 + declared_len(stream) as int)
}

/// What follows the metadata block: the blob, as far as `stream` holds it.
pub open spec fn payload_of(stream: Seq<u8>) -> Seq<u8>
    recommends
        metadata_complete(stream),
{
    stream.subrange(4 + declared_len(stream) as int, stream.len() as int)
}

/// A body split into its metadata block and its blob, or `None` while the
/// metadata block is incomplete.
pub open spec fn split_envelope(stream: Seq<u8>) -> Option<(Seq<u8>, Seq<u8>)> {
    if metadata_complete(stream) {
        Some((metadata_of(stream), payload_of(stream)))
    } else {
        None
    }
}

/// The bytes of an envelope that carries `metadata` and `payload`.
pub open spec fn envelope_bytes(metadata: Seq<u8>, payload: Seq<u8>) -> Seq<u8>
    recommends
        metadata.len() <= u32::MAX,
{
    let n = metadata.len();
    seq![
        ((n / 0x100_0000) % 0x100) as u8,
        ((n / 0x1_0000) % 0x100) as u8,
        ((n / 0x100) % 0x100) as u8,
        (n % 0x100) as u8,
    ] + metadata + payload
}

/// All chunks of a source, one after the other.
pub open spec fn concat_chunks(chunks: Seq<Seq<u8>>) -> Seq<u8>
    decreases chunks.len(),
{
    if chunks.len() == 0 {
        Seq::empty()
    } else {
        chunks[0] + concat_chunks(chunks.drop_first())
    }
}

/// What went wrong while a transfer was decoded.
#[derive(Debug)]
pub enum WithBlobError {
    /// The transport failed while the body was read.
    Payload(PayloadError),
    /// The metadata block is not valid JSON for the type asked for.
    Deserialize(serde_json::Error),
    /// The body ended before the metadata block was complete.
    UnexpectedEOF,
}

impl WithBlobError {
    /// The failure in a few words.
    pub fn message(&self) -> (text: &'static str)
        ensures
            text@ == match *self {
                WithBlobError::Payload(_) => "Payload error"@,
                WithBlobError::Deserialize(_) => "Deserialize error"@,
                WithBlobError::UnexpectedEOF => "Unexpected EOF error"@,
            },
    {
        match self {
            WithBlobError::Payload(_) => "Payload error",
            WithBlobError::Deserialize(_) => "Deserialize error",
            WithBlobError::UnexpectedEOF => "Unexpected EOF error",
        }
    }

    /// How the failure is shown to the client. A body that ends early or
    /// holds metadata that cannot be read is the client's fault, and the
    /// client is told why the metadata was refused; a failure of the
    /// transport is the server's.
    pub fn http_error(&self) -> (e: HttpError)
        ensures
            match *self {
                WithBlobError::Payload(_) => shows(
                    e,
                    INTERNAL_SERVER_ERROR,
                    "error receiving blob",
                ),
                WithBlobError::UnexpectedEOF => shows(
                    e,
                    BAD_REQUEST,
                    "unexpected end of byte stream",
                ),
                WithBlobError::Deserialize(_) => e.status == BAD_REQUEST && exists|
                    reason: Seq<char>,
                |
                    e.message@ == "metadata deserialization error: "@ + reason,
            },
    {
        match self {
            WithBlobError::Payload(_) => HttpError::new(
                INTERNAL_SERVER_ERROR,
                "error receiving blob",
            ),
            WithBlobError::UnexpectedEOF => HttpError::new(
                BAD_REQUEST,
                "unexpected end of byte stream",
            ),
            WithBlobError::Deserialize(err) => {
                let reason = json_error_debug(err);
                HttpError {
                    status: BAD_REQUEST,
                    message: String::from_str("metadata deserialization error: ").concat(
                        reason.as_str(),
                    ),
                }
            },
        }
    }
}

impl From<PayloadError> for WithBlobError {
    fn from(e: PayloadError) -> (out: Self) {
        WithBlobError::Payload(e)
    }
}

impl FromSpecImpl<PayloadError> for WithBlobError {
    open spec fn obeys_from_spec() -> bool {
        true
    }

    open spec fn from_spec(e: PayloadError) -> Self {
        WithBlobError::Payload(e)
    }
}

/// The blob of a transfer, as a forward-only sequence of chunks.
///
/// The bytes that arrived in the same chunk as the end of the metadata come
/// first, once; every later chunk is taken from the underlying source as it
/// is.
#[derive(Debug)]
pub struct BlobPayload {
    init_bytes: Option<Vec<u8>>,
}

/// What a payload asks of its driver next.
#[derive(Debug)]
pub enum PayloadPoll {
    /// Hand this chunk on; it was read together with the metadata.
    Replay(Vec<u8>),
    /// Nothing is buffered: poll the underlying source and hand on what it gives.
    Delegate,
}

impl View for BlobPayload {
    type V = Option<Seq<u8>>;

    /// The bytes still to be replayed, if they have not been handed on yet.
    closed spec fn view(&self) -> Option<Seq<u8>> {
        match self.init_bytes {
            Some(b) => Some(b@),
            None => None,
        }
    }
}

impl BlobPayload {
    /// A payload that starts with `init_bytes`.
    pub fn new(init_bytes: &[u8]) -> (p: Self)
        ensures
            p@ == Some(init_bytes@),
    {
        BlobPayload { init_bytes: Some(slice_to_vec(init_bytes)) }
    }

    /// The next step of the payload: the buffered bytes on the first call,
    /// even when there are none of them, and the underlying source from then
    /// on.
    pub fn poll_next(&mut self) -> (step: PayloadPoll)
        ensures
            match old(self)@ {
                Some(b) => step matches PayloadPoll::Replay(v) && v@ == b,
                None => step is Delegate,
            },
            final(self)@ is None,
    {
        match self.init_bytes.take() {
            Some(v) => PayloadPoll::Replay(v),
            None => PayloadPoll::Delegate,
        }
    }

    /// An item of the underlying source as the payload hands it on: a chunk
    /// unchanged, a failure of the transport as a `Payload` error.
    pub fn relay<B>(item: Result<B, PayloadError>) -> (out: Result<B, WithBlobError>)
        ensures
            match item {
                Ok(chunk) => out == Ok::<B, WithBlobError>(chunk),
                Err(e) => out == Err::<B, WithBlobError>(WithBlobError::Payload(e)),
            },
    {
        match item {
            Ok(chunk) => Ok(chunk),
            Err(e) => Err(WithBlobError::Payload(e)),
        }
    }
}

/// A transfer whose metadata has been decoded: the metadata, and the blob
/// that is still to be read.
#[derive(Debug)]
pub struct WithBlob<M> {
    pub meta: M,
    pub blob: Option<BlobPayload>,
}

impl<M> WithBlob<M> {
    /// The same transfer with its metadata replaced by `f` of it.
    pub fn map<F, N>(self, f: F) -> (out: WithBlob<N>) where F: FnOnce(M) -> N
        requires
            f.requires((self.meta,)),
        ensures
            f.ensures((self.meta,), out.meta),
            out.blob == self.blob,
    {
        let m = self.meta;
        let n = f(m);
        WithBlob { meta: n, blob: self.blob }
    }
}

impl WithBlob<Vec<u8>> {
    /// Replaces the raw metadata block by what deserializing it gave: the
    /// typed transfer, or a `Deserialize` error that carries the reason.
    pub fn typed<M>(self, parsed: Result<M, serde_json::Error>) -> (out: Result<
        WithBlob<M>,
        WithBlobError,
    >)
        ensures
            match parsed {
                Ok(m) => out == Ok::<WithBlob<M>, WithBlobError>(
                    (WithBlob { meta: m, blob: self.blob }),
                ),
                Err(e) => out == Err::<WithBlob<M>, WithBlobError>(WithBlobError::Deserialize(e)),
            },
    {
        match parsed {
            Ok(m) => Ok(WithBlob { meta: m, blob: self.blob }),
            Err(e) => Err(WithBlobError::Deserialize(e)),
        }
    }
}

/// The outcome of feeding a decoder: still waiting, or resolved with a value.
#[derive(Debug)]
pub enum Poll<T> {
    Pending,
    Ready(T),
}

/// What the transport reports to a decoder: a chunk, a failure, or the end of
/// the body.
#[derive(Debug)]
pub enum BodyEvent {
    Chunk(Vec<u8>),
    Failed(PayloadError),
    End,
}

/// Where a decoder stands.
#[derive(Clone, Copy, PartialEq, Eq, Structural, Debug)]
pub enum Phase {
    /// Fewer than four bytes have arrived.
    AwaitingLength,
    /// The length is known and the metadata block is incomplete.
    AwaitingMetadata,
    /// The metadata block was handed out; what follows belongs to the payload.
    StreamingPayload,
    /// The body ended early or the transport failed.
    Failed,
}

/// The abstract state of a decoder.
pub enum Framing {
    /// The bytes received so far; they do not yet hold the whole metadata block.
    Receiving(Seq<u8>),
    /// The metadata block was handed out.
    Resolved,
    /// The decoder has reported an error.
    Failed,
}

/// The incremental decoder of one transfer. It is fed the events of the
/// transport one by one and resolves, once, to the raw metadata block and the
/// payload that follows it.
#[derive(Debug)]
pub struct BTExtractMetadataFut {
    /// The length prefix as far as it has arrived.
    size_buf: Vec<u8>,
    /// The metadata length, once the prefix is complete.
    metadata_len: Option<usize>,
    /// How many bytes of metadata have arrived.
    metadata_received: usize,
    /// The metadata bytes received so far.
    metadata_buf: Vec<u8>,
    phase: Phase,
}

impl View for BTExtractMetadataFut {
    type V = Framing;

    closed spec fn view(&self) -> Framing {
        match self.phase {
            Phase::AwaitingLength | Phase::AwaitingMetadata => Framing::Receiving(
                self.size_buf@ + self.metadata_buf@,
            ),
            Phase::StreamingPayload => Framing::Resolved,
            Phase::Failed => Framing::Failed,
        }
    }
}

/// What a decoder that has received `seen` answers to `event`.
pub open spec fn poll_result(seen: Seq<u8>, event: BodyEvent) -> Poll<
    Result<(Seq<u8>, Seq<u8>), WithBlobError>,
> {
    match event {
        BodyEvent::Chunk(chunk) => match split_envelope(seen + chunk@) {
            Some(parts) => Poll::Ready(Ok(parts)),
            None => Poll::Pending,
        },
        BodyEvent::Failed(e) => Poll::Ready(Err(WithBlobError::Payload(e))),
        BodyEvent::End => Poll::Ready(Err(WithBlobError::UnexpectedEOF)),
    }
}

/// The state in which `event` leaves a decoder that has received `seen`.
pub open spec fn poll_state(seen: Seq<u8>, event: BodyEvent) -> Framing {
    match event {
        BodyEvent::Chunk(chunk) => if metadata_complete(seen + chunk@) {
            Framing::Resolved
        } else {
            Framing::Receiving(seen + chunk@)
        },
        BodyEvent::Failed(_) => Framing::Failed,
        BodyEvent::End => Framing::Failed,
    }
}

/// Whether `out`, an answer of the decoder, is the answer `spec` in executable form.
pub open spec fn answers(
    out: Poll<Result<WithBlob<Vec<u8>>, WithBlobError>>,
    spec: Poll<Result<(Seq<u8>, Seq<u8>), WithBlobError>>,
) -> bool {
    match spec {
        Poll::Pending => out is Pending,
        Poll::Ready(Err(e)) => out == Poll::Ready(
            Err::<WithBlob<Vec<u8>>, WithBlobError>(e),
        ),
        Poll::Ready(Ok((metadata, payload))) => {
            &&& out matches Poll::Ready(Ok(with_blob))
            &&& with_blob.meta@ == metadata
            &&& with_blob.blob matches Some(blob)
            &&& blob@ == Some(payload)
        },
    }
}

/// Appends `bytes` to `buf`.
fn extend(buf: &mut Vec<u8>, bytes: &[u8])
    ensures
        final(buf)@ == old(buf)@ + bytes@,
{
    let mut i: usize = 0;
    while i < bytes.len()
        invariant
            i <= bytes.len(),
            buf@ == old(buf)@ + bytes@.subrange(0, i as int),
        decreases bytes.len() - i,
    {
        buf.push(bytes[i]);
        i = i + 1;
    }
    assert(bytes@.subrange(0, bytes@.len() as int) == bytes@);
}

/// The exact value of a complete length prefix.
fn read_be_u32(b: &Vec<u8>) -> (n: u32)
    requires
        b.len() == 4,
    ensures
        n == be_u32(b@),
{
    let b0: u32 = b[0] as u32;
    let b1: u32 = b[1] as u32;
    let b2: u32 = b[2] as u32;
    let b3: u32 = b[3] as u32;
    b0 * 0x100_0000 + b1 * 0x1_0000 + b2 * 0x100 + b3
}

impl BTExtractMetadataFut {
    /// The invariant of a decoder.
    pub closed spec fn wf(&self) -> bool {
        match self.phase {
            Phase::AwaitingLength => {
                &&& self.size_buf.len() < 4
                &&& self.metadata_len is None
                &&& self.metadata_received == 0
                &&& self.metadata_buf.len() == 0
            },
            Phase::AwaitingMetadata => {
                &&& self.size_buf.len() == 4
                &&& self.metadata_len == Some(be_u32(self.size_buf@) as usize)
                &&& be_u32(self.size_buf@) <= usize::MAX
                &&& self.metadata_received == self.metadata_buf.len()
                &&& self.metadata_buf.len() < be_u32(self.size_buf@)
            },
            Phase::StreamingPayload => true,
            Phase::Failed => true,
        }
    }

    /// The phase that goes with an abstract state.
    pub open spec fn phase_of(state: Framing) -> Phase {
        match state {
            Framing::Receiving(seen) => if seen.len() < 4 {
                Phase::AwaitingLength
            } else {
                Phase::AwaitingMetadata
            },
            Framing::Resolved => Phase::StreamingPayload,
            Framing::Failed => Phase::Failed,
        }
    }

    /// A decoder that has received nothing.
    pub fn new() -> (fut: Self)
        ensures
            fut.wf(),
            fut@ == Framing::Receiving(Seq::empty()),
    {
        let fut = BTExtractMetadataFut {
            size_buf: Vec::with_capacity(4),
            metadata_len: None,
            metadata_received: 0,
            metadata_buf: Vec::with_capacity(0),
            phase: Phase::AwaitingLength,
        };
        assert(fut.size_buf@ + fut.metadata_buf@ == Seq::<u8>::empty());
        fut
    }

    /// Where the decoder stands.
    pub fn phase(&self) -> (p: Phase)
        requires
            self.wf(),
        ensures
            p == Self::phase_of(self@),
    {
        self.phase
    }

    /// Feeds the decoder the next event of the transport.
    ///
    /// While the bytes received do not hold the whole metadata block the
    /// answer is `Pending`. The chunk that completes the block resolves the
    /// decoder: the answer holds the block and a payload that starts with the
    /// rest of that chunk. The end of the body or a failure of the transport
    /// before that is an error. A decoder that has resolved or failed has no
    /// source left and answers `UnexpectedEOF` to everything.
    pub fn poll(&mut self, event: BodyEvent) -> (out: Poll<Result<WithBlob<Vec<u8>>, WithBlobError>>)
        requires
            old(self).wf(),
        ensures
            final(self).wf(),
            match old(self)@ {
                Framing::Receiving(seen) => {
                    &&& answers(out, poll_result(seen, event))
                    &&& final(self)@ == poll_state(seen, event)
                },
                _ => {
                    &&& out == Poll::Ready(
                        Err::<WithBlob<Vec<u8>>, WithBlobError>(WithBlobError::UnexpectedEOF),
                    )
                    &&& final(self)@ == old(self)@
                },
            },
    {
        match self.phase {
            Phase::StreamingPayload | Phase::Failed => {
                return Poll::Ready(Err(WithBlobError::UnexpectedEOF));
            },
            _ => {},
        }
        let ghost seen = self.size_buf@ + self.metadata_buf@;
        let chunk = match event {
            BodyEvent::Chunk(chunk) => chunk,
            BodyEvent::Failed(e) => {
                self.phase = Phase::Failed;
                return Poll::Ready(Err(WithBlobError::Payload(e)));
            },
            BodyEvent::End => {
                self.phase = Phase::Failed;
                return Poll::Ready(Err(WithBlobError::UnexpectedEOF));
            },
        };
        let data: &[u8] = chunk.as_slice();
        let mut start: usize = 0;
        if self.phase == Phase::AwaitingLength {
            let need: usize = PREFIX_LEN - self.size_buf.len();
            if data.len() < need {
                extend(&mut self.size_buf, data);
                assert(self.size_buf@ + self.metadata_buf@ == seen + chunk@);
                return Poll::Pending;
            }
            extend(&mut self.size_buf, &data[0..need]);
            start = need;
            let len: usize = read_be_u32(&self.size_buf) as usize;
            self.metadata_len = Some(len);
            reserve_exact(&mut self.metadata_buf, len);
            self.phase = Phase::AwaitingMetadata;
        }
        let len: usize = match self.metadata_len {
            Some(len) => len,
            None => 0,
        };
        let missing: usize = len - self.metadata_buf.len();
        let rest: &[u8] = &data[start..data.len()];
        proof {
            let total = seen + chunk@;
            assert(total == self.size_buf@ + self.metadata_buf@ + rest@);
            assert(total.subrange(0, 4) == self.size_buf@);
        }
        if rest.len() < missing {
            extend(&mut self.metadata_buf, rest);
            self.metadata_received = self.metadata_buf.len();
            assert(self.size_buf@ + self.metadata_buf@ == seen + chunk@);
            return Poll::Pending;
        }
        extend(&mut self.metadata_buf, &rest[0..missing]);
        self.metadata_received = self.metadata_buf.len();
        let surplus: &[u8] = &rest[missing..rest.len()];
        let mut meta: Vec<u8> = Vec::new();
        core::mem::swap(&mut meta, &mut self.metadata_buf);
        proof {
            let total = seen + chunk@;
            assert(meta@ == metadata_of(total));
            assert(surplus@ == payload_of(total));
        }
        self.phase = Phase::StreamingPayload;
        Poll::Ready(Ok(WithBlob { meta, blob: Some(BlobPayload::new(surplus)) }))
    }
}

/// The views of the chunks of a source that is at hand as a whole.
pub open spec fn chunk_views(chunks: Seq<Vec<u8>>) -> Seq<Seq<u8>> {
    Seq::new(chunks.len(), |i: int| chunks[i]@)
}

/// What a transfer comes to when a decoder that has received `seen` is fed
/// `chunks` one by one and the source then ends: the metadata block that the
/// decoder resolves to, and all that its payload hands on, which is the rest
/// of the resolving chunk and then every later chunk. `None` when the source
/// ends before the decoder resolves.
pub open spec fn decode_from(seen: Seq<u8>, chunks: Seq<Seq<u8>>) -> Option<(Seq<u8>, Seq<u8>)>
    decreases chunks.len(),
{
    if chunks.len() == 0 {
        None
    } else {
        match split_envelope(seen + chunks[0]) {
            Some((metadata, surplus)) => Some(
                (metadata, surplus + concat_chunks(chunks.drop_first())),
            ),
            None => decode_from(seen + chunks[0], chunks.drop_first()),
        }
    }
}

/// What a transfer comes to when a fresh decoder is fed `chunks`.
pub open spec fn decode_chunks(chunks: Seq<Seq<u8>>) -> Option<(Seq<u8>, Seq<u8>)> {
    decode_from(Seq::empty(), chunks)
}

/// Bytes that follow a complete metadata block change neither the block nor
/// what was found behind it; they are appended to the payload.
pub proof fn lemma_complete_prefix(stream: Seq<u8>, more: Seq<u8>)
    requires
        metadata_complete(stream),
    ensures
        metadata_complete(stream + more),
        metadata_of(stream + more) == metadata_of(stream),
        payload_of(stream + more) == payload_of(stream) + more,
{
    assert((stream + more).subrange(0, 4) == stream.subrange(0, 4));
}

/// Feeding a decoder chunk by chunk gives what splitting all the bytes at
/// once gives.
pub proof fn lemma_decode_from(seen: Seq<u8>, chunks: Seq<Seq<u8>>)
    requires
        !metadata_complete(seen),
    ensures
        decode_from(seen, chunks) == split_envelope(seen + concat_chunks(chunks)),
    decreases chunks.len(),
{
    if chunks.len() == 0 {
        assert(seen + concat_chunks(chunks) == seen);
    } else {
        let first = chunks[0];
        let rest = chunks.drop_first();
        assert(seen + concat_chunks(chunks) == (seen + first) + concat_chunks(rest));
        if metadata_complete(seen + first) {
            lemma_complete_prefix(seen + first, concat_chunks(rest));
        } else {
            lemma_decode_from(seen + first, rest);
        }
    }
}

/// However the transport cuts a body into chunks, down to single bytes, the
/// decoder yields the metadata and the payload that it yields for the whole
/// body in one chunk: the split of the body after its announced metadata
/// length.
pub proof fn lemma_chunking_is_irrelevant(chunks: Seq<Seq<u8>>)
    ensures
        decode_chunks(chunks) == split_envelope(concat_chunks(chunks)),
        decode_chunks(chunks) == decode_chunks(seq![concat_chunks(chunks)]),
{
    let whole = concat_chunks(chunks);
    lemma_decode_from(Seq::empty(), chunks);
    lemma_decode_from(Seq::empty(), seq![whole]);
    assert(Seq::<u8>::empty() + whole == whole);
    assert(seq![whole].drop_first() == Seq::<Seq<u8>>::empty());
    assert(concat_chunks(seq![whole]) == whole) by {
        assert(concat_chunks(Seq::<Seq<u8>>::empty()) == Seq::<u8>::empty());
        assert(whole + Seq::<u8>::empty() == whole);
    }
}

/// An envelope splits into the metadata and the payload it was made of.
pub proof fn lemma_envelope_splits(metadata: Seq<u8>, payload: Seq<u8>)
    requires
        metadata.len() <= u32::MAX,
    ensures
        split_envelope(envelope_bytes(metadata, payload)) == Some((metadata, payload)),
{
    let n = metadata.len();
    let bytes = envelope_bytes(metadata, payload);
    let prefix = bytes.subrange(0, 4);
    assert(prefix[0] == ((n / 0x100_0000) % 0x100) as u8);
    assert(prefix[1] == ((n / 0x1_0000) % 0x100) as u8);
    assert(prefix[2] == ((n / 0x100) % 0x100) as u8);
    assert(prefix[3] == (n % 0x100) as u8);
    assert(be_u32(prefix) == n);
    assert(metadata_of(bytes) == metadata);
    assert(payload_of(bytes) == payload);
}

/// Every way of cutting an envelope into chunks decodes to the metadata and
/// the payload it was made of, as the envelope in one chunk does.
pub proof fn lemma_envelope_decodes(metadata: Seq<u8>, payload: Seq<u8>, chunks: Seq<Seq<u8>>)
    requires
        metadata.len() <= u32::MAX,
        concat_chunks(chunks) == envelope_bytes(metadata, payload),
    ensures
        decode_chunks(chunks) == Some((metadata, payload)),
        decode_chunks(chunks) == decode_chunks(seq![envelope_bytes(metadata, payload)]),
{
    lemma_chunking_is_irrelevant(chunks);
    lemma_envelope_splits(metadata, payload);
}

/// Appending a chunk to a source appends its bytes to the whole.
pub proof fn lemma_concat_push(chunks: Seq<Seq<u8>>, last: Seq<u8>)
    ensures
        concat_chunks(chunks.push(last)) == concat_chunks(chunks) + last,
    decreases chunks.len(),
{
    if chunks.len() == 0 {
        let one = chunks.push(last);
        assert(one.drop_first() == Seq::<Seq<u8>>::empty());
        assert(concat_chunks(one.drop_first()) == Seq::<u8>::empty());
        assert(one[0] == last);
        assert(concat_chunks(one) == last + Seq::<u8>::empty());
        assert(concat_chunks(chunks) == Seq::<u8>::empty());
    } else {
        assert(chunks.push(last).drop_first() == chunks.drop_first().push(last));
        lemma_concat_push(chunks.drop_first(), last);
    }
}

/// Decodes a body whose chunks are all at hand: runs a fresh decoder over
/// them, then reads its payload to the end. The result is the metadata block
/// and the blob, or `UnexpectedEOF` when the chunks end before the metadata
/// block is complete.
pub fn decode_body(chunks: &Vec<Vec<u8>>) -> (out: Result<(Vec<u8>, Vec<u8>), WithBlobError>)
    ensures
        match decode_chunks(chunk_views(chunks@)) {
            Some((metadata, payload)) => {
                &&& out matches Ok(parts)
                &&& parts.0@ == metadata
                &&& parts.1@ == payload
            },
            None => out == Err::<(Vec<u8>, Vec<u8>), WithBlobError>(WithBlobError::UnexpectedEOF),
        },
{
    let ghost views = chunk_views(chunks@);
    let ghost mut seen: Seq<u8> = Seq::empty();
    let mut fut = BTExtractMetadataFut::new();
    let mut i: usize = 0;
    assert(views.skip(0) == views);
    while i < chunks.len()
        invariant
            i <= chunks.len(),
            views == chunk_views(chunks@),
            fut.wf(),
            fut@ == Framing::Receiving(seen),
            !metadata_complete(seen),
            decode_chunks(views) == decode_from(seen, views.skip(i as int)),
        decreases chunks.len() - i,
    {
        let chunk = slice_to_vec(chunks[i].as_slice());
        let ghost later = views.skip(i as int).drop_first();
        assert(views.skip(i as int)[0] == chunk@);
        assert(later == views.skip(i + 1));
        match fut.poll(BodyEvent::Chunk(chunk)) {
            Poll::Pending => {
                proof {
                    seen = seen + chunk@;
                }
                i = i + 1;
            },
            Poll::Ready(Ok(with_blob)) => {
                let mut payload: Vec<u8> = Vec::new();
                match with_blob.blob {
                    Some(mut blob) => {
                        match blob.poll_next() {
                            PayloadPoll::Replay(first) => {
                                extend(&mut payload, first.as_slice());
                            },
                            PayloadPoll::Delegate => {},
                        }
                    },
                    None => {},
                }
                let ghost surplus = payload@;
                let mut j: usize = i + 1;
                assert(views.subrange(i + 1, j as int) == Seq::<Seq<u8>>::empty());
                while j < chunks.len()
                    invariant
                        i + 1 <= j <= chunks.len(),
                        views == chunk_views(chunks@),
                        payload@ == surplus + concat_chunks(views.subrange(i + 1, j as int)),
                    decreases chunks.len() - j,
                {
                    match BlobPayload::relay(Ok(slice_to_vec(chunks[j].as_slice()))) {
                        Ok(next) => {
                            extend(&mut payload, next.as_slice());
                        },
                        Err(e) => {
                            return Err(e);
                        },
                    }
                    proof {
                        lemma_concat_push(views.subrange(i + 1, j as int), views[j as int]);
                        assert(views.subrange(i + 1, j as int).push(views[j as int])
                            == views.subrange(i + 1, j + 1));
                    }
                    j = j + 1;
                }
                assert(views.subrange(i + 1, j as int) == later);
                return Ok((with_blob.meta, payload));
            },
            Poll::Ready(Err(e)) => {
                return Err(e);
            },
        }
    }
    assert(views.skip(i as int).len() == 0);
    match fut.poll(BodyEvent::End) {
        Poll::Ready(Err(e)) => Err(e),
        _ => Err(WithBlobError::UnexpectedEOF),
    }
}

} // verus!
