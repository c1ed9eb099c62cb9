//! MessagePack request bodies.
//!
//! A body is collected up to a limit and then handed out as it is; reading
//! a typed value from the bytes is left to a deserializer.

use actix_web::error::PayloadError;
use vstd::prelude::*;
use vstd::std_specs::convert::FromSpecImpl;

use crate::extractors::with_blob::{BodyEvent, Poll};
use crate::http_error::{BAD_REQUEST, INTERNAL_SERVER_ERROR, PAYLOAD_TOO_LARGE};
use crate::text::same_text;
use crate::trusted::payload_error_status;

verus! {

/// A value that is read from or written as MessagePack.
#[derive(Debug)]
pub struct MsgPack<T>(pub T);

impl<T> MsgPack<T> {
    /// Unwraps the value.
    pub fn into_inner(self) -> (inner: T)
        ensures
            inner == self.0,
    {
        self.0
    }

    /// The value.
    pub fn get(&self) -> (inner: &T)
        ensures
            *inner == self.0,
    {
        &self.0
    }
}

/// The content type of a MessagePack body.
pub const CONTENT_TYPE: &'static str = "application/x-msgpack";

/// The size up to which a body is accepted unless another limit is set: 2 MB.
pub const DEFAULT_LIMIT: usize = 2_097_152;

/// How MessagePack bodies are accepted.
#[derive(Clone, Copy, Debug)]
pub struct MsgPackConfig {
    limit: usize,
    content_type_required: bool,
}

impl MsgPackConfig {
    /// The largest body that is accepted.
    pub closed spec fn get_limit(&self) -> usize {
        self.limit
    }

    /// Whether a body must come with the MessagePack content type.
    pub closed spec fn requires_content_type(&self) -> bool {
        self.content_type_required
    }

    /// Sets the largest body that is accepted.
    pub fn limit(self, limit: usize) -> (out: Self)
        ensures
            out.get_limit() == limit,
            out.requires_content_type() == self.requires_content_type(),
    {
        MsgPackConfig { limit, content_type_required: self.content_type_required }
    }

    /// Sets whether a body must come with the MessagePack content type.
    pub fn content_type_required(self, content_type_required: bool) -> (out: Self)
        ensures
            out.get_limit() == self.get_limit(),
            out.requires_content_type() == content_type_required,
    {
        MsgPackConfig { limit: self.limit, content_type_required }
    }

    /// The largest body that is accepted.
    pub fn max_len(&self) -> (n: usize)
        ensures
            n == self.get_limit(),
    {
        self.limit
    }

    /// Whether a body must come with the MessagePack content type.
    pub fn content_type_is_required(&self) -> (b: bool)
        ensures
            b == self.requires_content_type(),
    {
        self.content_type_required
    }
}

impl Default for MsgPackConfig {
    /// Bodies of up to 2 MB that come with the MessagePack content type.
    fn default() -> (out: Self)
        ensures
            out.get_limit() == DEFAULT_LIMIT,
            out.requires_content_type(),
    {
        MsgPackConfig { limit: DEFAULT_LIMIT, content_type_required: true }
    }
}

/// What can go wrong with a MessagePack body.
#[non_exhaustive]
#[derive(Debug)]
pub enum MsgPackPayloadError {
    /// The body announces a length above the limit.
    OverflowKnownLength { length: usize, limit: usize },
    /// The body, of unannounced length, has grown above the limit.
    Overflow { limit: usize },
    /// The body does not come with the MessagePack content type.
    ContentType,
    /// The body is not MessagePack for the type asked for.
    Deserialize(rmp_serde::decode::Error),
    /// The answer could not be written as MessagePack.
    Serialize(rmp_serde::encode::Error),
    /// The transport failed while the body was read.
    Payload(PayloadError),
}

impl MsgPackPayloadError {
    /// The status that the failure is answered with: too large for a body
    /// above the limit, a failure of the server where the answer could not
    /// be written, that of the transport's failure for such a one, a bad
    /// request otherwise.
    pub fn status_code(&self) -> (status: u16)
        ensures
            match *self {
                MsgPackPayloadError::OverflowKnownLength { .. } => status == PAYLOAD_TOO_LARGE,
                MsgPackPayloadError::Overflow { .. } => status == PAYLOAD_TOO_LARGE,
                MsgPackPayloadError::Serialize(_) => status == INTERNAL_SERVER_ERROR,
                MsgPackPayloadError::Payload(_) => status == PAYLOAD_TOO_LARGE || status
                    == BAD_REQUEST,
                _ => status == BAD_REQUEST,
            },
    {
        match self {
            MsgPackPayloadError::OverflowKnownLength { .. } => PAYLOAD_TOO_LARGE,
            MsgPackPayloadError::Overflow { .. } => PAYLOAD_TOO_LARGE,
            MsgPackPayloadError::Serialize(_) => INTERNAL_SERVER_ERROR,
            MsgPackPayloadError::Payload(err) => payload_error_status(err),
            _ => BAD_REQUEST,
        }
    }
}

impl From<PayloadError> for MsgPackPayloadError {
    fn from(err: PayloadError) -> (out: Self) {
        MsgPackPayloadError::Payload(err)
    }
}

impl FromSpecImpl<PayloadError> for MsgPackPayloadError {
    open spec fn obeys_from_spec() -> bool {
        true
    }

    open spec fn from_spec(err: PayloadError) -> Self {
        MsgPackPayloadError::Payload(err)
    }
}

/// A MessagePack body while it is read.
#[derive(Debug)]
pub enum MsgPackBody {
    /// The body is refused for this reason, which is handed out once.
    Error(Option<MsgPackPayloadError>),
    /// The body is being collected.
    Body {
        limit: usize,
        /// The length that the request announces, if it announces one.
        length: Option<usize>,
        buf: Vec<u8>,
    },
}

impl MsgPackBody {
    /// A body that is about to be read. It is refused if the content type is
    /// required and is not that of MessagePack. The limit is the default one
    /// until another is set.
    pub fn new(content_type: &str, length: Option<usize>, ctype_required: bool) -> (body: Self)
        ensures
            body == if content_type@ == CONTENT_TYPE@ || !ctype_required {
                MsgPackBody::Body { limit: DEFAULT_LIMIT, length, buf: body->buf }
            } else {
                MsgPackBody::Error(Some(MsgPackPayloadError::ContentType))
            },
            body is Body ==> body->buf@.len() == 0,
    {
        let can_parse_msgpack = if same_text(content_type, CONTENT_TYPE) {
            true
        } else {
            !ctype_required
        };
        if !can_parse_msgpack {
            return MsgPackBody::Error(Some(MsgPackPayloadError::ContentType));
        }
        MsgPackBody::Body { limit: DEFAULT_LIMIT, length, buf: Vec::with_capacity(8192) }
    }

    /// Sets the largest body that is accepted. A body that announces a
    /// greater length is refused at once. What has been collected is kept.
    pub fn limit(self, limit: usize) -> (body: Self)
        ensures
            body == match self {
                MsgPackBody::Body { length: Some(len), .. } if len > limit => MsgPackBody::Error(
                    Some(MsgPackPayloadError::OverflowKnownLength { length: len, limit }),
                ),
                MsgPackBody::Body { length, buf, .. } => MsgPackBody::Body { limit, length, buf },
                MsgPackBody::Error(e) => MsgPackBody::Error(e),
            },
    {
        match self {
            MsgPackBody::Body { length, buf, .. } => {
                if let Some(len) = length {
                    if len > limit {
                        return MsgPackBody::Error(
                            Some(MsgPackPayloadError::OverflowKnownLength { length: len, limit }),
                        );
                    }
                }
                MsgPackBody::Body { limit, length, buf }
            },
            MsgPackBody::Error(e) => MsgPackBody::Error(e),
        }
    }

    /// Feeds the body the next event of the transport. A chunk that would
    /// take the body above the limit is an `Overflow`, and nothing of it is
    /// kept; any other chunk is collected. At the end of the transport the
    /// body resolves to the bytes collected. A body that was refused
    /// resolves to the reason, once.
    pub fn poll(&mut self, event: BodyEvent) -> (out: Poll<Result<Vec<u8>, MsgPackPayloadError>>)
        requires
            !(*old(self) matches MsgPackBody::Error(None)),
        ensures
            match *old(self) {
                MsgPackBody::Error(e) => {
                    &&& out == Poll::Ready(Err::<Vec<u8>, MsgPackPayloadError>(e->0))
                    &&& *final(self) == MsgPackBody::Error(None)
                },
                MsgPackBody::Body { limit, length, buf } => match event {
                    BodyEvent::Chunk(chunk) => if buf.len() + chunk.len() > limit {
                        &&& out == Poll::Ready(
                            Err::<Vec<u8>, MsgPackPayloadError>(
                                MsgPackPayloadError::Overflow { limit },
                            ),
                        )
                        &&& *final(self) == *old(self)
                    } else {
                        &&& out is Pending
                        &&& *final(self) matches MsgPackBody::Body {
                            limit: l,
                            length: n,
                            buf: b,
                        }
                        &&& l == limit
                        &&& n == length
                        &&& b@ == buf@ + chunk@
                    },
                    BodyEvent::Failed(e) => {
                        &&& out == Poll::Ready(
                            Err::<Vec<u8>, MsgPackPayloadError>(MsgPackPayloadError::Payload(e)),
                        )
                        &&& *final(self) == *old(self)
                    },
                    BodyEvent::End => {
                        &&& out matches Poll::Ready(Ok(bytes))
                        &&& bytes@ == buf@
                        &&& *final(self) matches MsgPackBody::Body { limit: l, length: n, buf: b }
                        &&& l == limit
                        &&& n == length
                        &&& b@.len() == 0
                    },
                },
            },
    {
        match self {
            MsgPackBody::Error(e) => {
                match e.take() {
                    Some(err) => Poll::Ready(Err(err)),
                    None => Poll::Pending,
                }
            },
            MsgPackBody::Body { limit, buf, .. } => match event {
                BodyEvent::Chunk(chunk) => {
                    if chunk.len() > usize::MAX - buf.len() || buf.len() + chunk.len() > *limit {
                        Poll::Ready(Err(MsgPackPayloadError::Overflow { limit: *limit }))
                    } else {
                        let mut i: usize = 0;
                        let ghost before = buf@;
                        while i < chunk.len()
                            invariant
                                i <= chunk.len(),
                                buf@ == before + chunk@.subrange(0, i as int),
                            decreases chunk.len() - i,
                        {
                            buf.push(chunk[i]);
                            i = i + 1;
                        }
                        assert(chunk@.subrange(0, chunk@.len() as int) == chunk@);
                        Poll::Pending
                    }
                },
                BodyEvent::Failed(e) => Poll::Ready(Err(MsgPackPayloadError::Payload(e))),
                BodyEvent::End => {
                    let mut bytes: Vec<u8> = Vec::new();
                    core::mem::swap(&mut bytes, buf);
                    Poll::Ready(Ok(bytes))
                },
            },
        }
    }

    /// What the body comes to once its bytes were deserialized: the value,
    /// or a `Deserialize` error with the reason.
    pub fn decoded<T>(parsed: Result<T, rmp_serde::decode::Error>) -> (out: Result<
        T,
        MsgPackPayloadError,
    >)
        ensures
            out == match parsed {
                Ok(value) => Ok::<T, MsgPackPayloadError>(value),
                Err(e) => Err(MsgPackPayloadError::Deserialize(e)),
            },
    {
        match parsed {
            Ok(value) => Ok(value),
            Err(e) => Err(MsgPackPayloadError::Deserialize(e)),
        }
    }
}

} // verus!
