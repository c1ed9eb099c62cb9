use actix_web::error::PayloadError;
use hitsave_api::extractors::with_blob::{
    decode_body, BTExtractMetadataFut, BlobPayload, BodyEvent, PayloadPoll, Phase, Poll, WithBlob,
    WithBlobError,
};

fn envelope(metadata: &[u8], payload: &[u8]) -> Vec<u8> {
    let mut bytes = (metadata.len() as u32).to_be_bytes().to_vec();
    bytes.extend_from_slice(metadata);
    bytes.extend_from_slice(payload);
    bytes
}

fn prefix_in_three_chunks() -> Vec<Vec<u8>> {
    vec![
        vec![0x00],
        vec![0x00],
        vec![0x00, 0x0a],
        b"{\"a\":1}   ".to_vec(),
        b"XYZ".to_vec(),
    ]
}

#[test]
fn length_prefix_split_over_chunks_then_metadata_then_payload() {
    let (meta, payload) = decode_body(&prefix_in_three_chunks()).unwrap();
    assert_eq!(meta, b"{\"a\":1}   ".to_vec());
    let parsed: serde_json::Value = serde_json::from_slice(&meta).unwrap();
    assert_eq!(parsed.get("a").and_then(|v| v.as_i64()), Some(1));
    assert_eq!(payload, b"XYZ".to_vec());
}

#[test]
fn chunks_fed_by_hand() {
    let mut fut = BTExtractMetadataFut::new();
    let mut chunks = prefix_in_three_chunks();
    let last = chunks.pop().unwrap();
    let resolving = chunks.pop().unwrap();
    for chunk in chunks {
        assert!(matches!(fut.poll(BodyEvent::Chunk(chunk)), Poll::Pending));
    }
    assert_eq!(fut.phase(), Phase::AwaitingMetadata);
    let with_blob = match fut.poll(BodyEvent::Chunk(resolving)) {
        Poll::Ready(Ok(with_blob)) => with_blob,
        other => panic!("the decoder did not resolve: {:?}", other),
    };
    let parsed = serde_json::from_slice::<serde_json::Value>(&with_blob.meta);
    let mut typed = with_blob.typed(parsed).unwrap();
    assert_eq!(typed.meta.get("a").and_then(|v| v.as_i64()), Some(1));
    let mut blob = typed.blob.take().unwrap();
    let mut payload = Vec::new();
    match blob.poll_next() {
        PayloadPoll::Replay(first) => payload.extend(first),
        PayloadPoll::Delegate => panic!("nothing was replayed"),
    }
    assert!(payload.is_empty());
    assert!(matches!(blob.poll_next(), PayloadPoll::Delegate));
    payload.extend(BlobPayload::relay(Ok(last)).unwrap());
    assert_eq!(payload, b"XYZ".to_vec());
}

#[test]
fn zero_length_metadata_is_a_deserialize_error() {
    let mut fut = BTExtractMetadataFut::new();
    let with_blob = match fut.poll(BodyEvent::Chunk(vec![0, 0, 0, 0])) {
        Poll::Ready(Ok(with_blob)) => with_blob,
        other => panic!("the decoder did not resolve: {:?}", other),
    };
    assert!(with_blob.meta.is_empty());
    let parsed = serde_json::from_slice::<serde_json::Value>(&with_blob.meta);
    match with_blob.typed(parsed) {
        Err(WithBlobError::Deserialize(_)) => {}
        other => panic!("expected a deserialize error, got {:?}", other),
    }
}

#[test]
fn every_split_in_two_decodes_like_the_whole() {
    let bytes = envelope(b"{\"k\":\"v\"}", b"payload bytes");
    let whole = decode_body(&vec![bytes.clone()]).unwrap();
    assert_eq!(whole.0, b"{\"k\":\"v\"}".to_vec());
    assert_eq!(whole.1, b"payload bytes".to_vec());
    for cut in 0..=bytes.len() {
        let chunks = vec![bytes[..cut].to_vec(), bytes[cut..].to_vec()];
        assert_eq!(decode_body(&chunks).unwrap(), whole);
    }
}

#[test]
fn one_byte_chunks_decode_like_the_whole() {
    let bytes = envelope(b"[1,2,3]", b"\x00\x01\x02\x03");
    let whole = decode_body(&vec![bytes.clone()]).unwrap();
    let single: Vec<Vec<u8>> = bytes.iter().map(|b| vec![*b]).collect();
    assert_eq!(decode_body(&single).unwrap(), whole);
    let with_empty: Vec<Vec<u8>> = bytes.iter().flat_map(|b| vec![vec![], vec![*b]]).collect();
    assert_eq!(decode_body(&with_empty).unwrap(), whole);
}

#[test]
fn big_endian_length_is_read_exactly() {
    let metadata = vec![b'x'; 0x0102];
    let mut bytes = vec![0x00, 0x00, 0x01, 0x02];
    bytes.extend_from_slice(&metadata);
    bytes.push(0xff);
    let (meta, payload) = decode_body(&vec![bytes]).unwrap();
    assert_eq!(meta.len(), 258);
    assert_eq!(payload, vec![0xff]);
}

#[test]
fn empty_payload_is_an_empty_sequence() {
    let bytes = envelope(b"{}", b"");
    let (meta, payload) = decode_body(&vec![bytes.clone()]).unwrap();
    assert_eq!(meta, b"{}".to_vec());
    assert!(payload.is_empty());
    let mut fut = BTExtractMetadataFut::new();
    match fut.poll(BodyEvent::Chunk(bytes)) {
        Poll::Ready(Ok(mut with_blob)) => {
            let mut blob = with_blob.blob.take().unwrap();
            match blob.poll_next() {
                PayloadPoll::Replay(first) => assert!(first.is_empty()),
                PayloadPoll::Delegate => panic!("an empty payload is still replayed once"),
            }
        }
        other => panic!("the decoder did not resolve: {:?}", other),
    }
}

#[test]
fn metadata_and_payload_in_the_chunk_that_ends_the_prefix() {
    let mut fut = BTExtractMetadataFut::new();
    assert!(matches!(fut.poll(BodyEvent::Chunk(vec![0, 0])), Poll::Pending));
    match fut.poll(BodyEvent::Chunk(vec![0, 1, b'7', b'P', b'Q'])) {
        Poll::Ready(Ok(mut with_blob)) => {
            assert_eq!(with_blob.meta, vec![b'7']);
            match with_blob.blob.take().unwrap().poll_next() {
                PayloadPoll::Replay(first) => assert_eq!(first, b"PQ".to_vec()),
                PayloadPoll::Delegate => panic!("the surplus was lost"),
            }
        }
        other => panic!("the decoder did not resolve: {:?}", other),
    }
}

#[test]
fn body_that_ends_early_is_unexpected_eof() {
    assert!(matches!(decode_body(&vec![]), Err(WithBlobError::UnexpectedEOF)));
    assert!(matches!(decode_body(&vec![vec![0, 0, 0]]), Err(WithBlobError::UnexpectedEOF)));
    assert!(matches!(
        decode_body(&vec![vec![0, 0, 0, 5], b"abcd".to_vec()]),
        Err(WithBlobError::UnexpectedEOF)
    ));
    let mut fut = BTExtractMetadataFut::new();
    assert!(matches!(fut.poll(BodyEvent::Chunk(vec![0, 0, 0, 9, 1])), Poll::Pending));
    assert!(matches!(
        fut.poll(BodyEvent::End),
        Poll::Ready(Err(WithBlobError::UnexpectedEOF))
    ));
    assert_eq!(fut.phase(), Phase::Failed);
}

#[test]
fn transport_failure_is_passed_on() {
    let mut fut = BTExtractMetadataFut::new();
    assert!(matches!(
        fut.poll(BodyEvent::Failed(PayloadError::Overflow)),
        Poll::Ready(Err(WithBlobError::Payload(PayloadError::Overflow)))
    ));
    assert_eq!(fut.phase(), Phase::Failed);
    assert!(matches!(
        BlobPayload::relay::<Vec<u8>>(Err(PayloadError::EncodingCorrupted)),
        Err(WithBlobError::Payload(PayloadError::EncodingCorrupted))
    ));
    assert!(matches!(
        WithBlobError::from(PayloadError::UnknownLength),
        WithBlobError::Payload(PayloadError::UnknownLength)
    ));
}

#[test]
fn decoder_reports_its_phase() {
    let mut fut = BTExtractMetadataFut::new();
    assert_eq!(fut.phase(), Phase::AwaitingLength);
    assert!(matches!(fut.poll(BodyEvent::Chunk(vec![0, 0])), Poll::Pending));
    assert_eq!(fut.phase(), Phase::AwaitingLength);
    assert!(matches!(fut.poll(BodyEvent::Chunk(vec![0, 2, b'a'])), Poll::Pending));
    assert_eq!(fut.phase(), Phase::AwaitingMetadata);
    match fut.poll(BodyEvent::Chunk(vec![b'b', b'c', b'd'])) {
        Poll::Ready(Ok(mut with_blob)) => {
            assert_eq!(with_blob.meta, b"ab".to_vec());
            let mut blob = with_blob.blob.take().unwrap();
            match blob.poll_next() {
                PayloadPoll::Replay(first) => assert_eq!(first, b"cd".to_vec()),
                PayloadPoll::Delegate => panic!("the surplus was not replayed"),
            }
            assert!(matches!(blob.poll_next(), PayloadPoll::Delegate));
        }
        other => panic!("the decoder did not resolve: {:?}", other),
    }
    assert_eq!(fut.phase(), Phase::StreamingPayload);
    assert!(matches!(
        fut.poll(BodyEvent::End),
        Poll::Ready(Err(WithBlobError::UnexpectedEOF))
    ));
    assert!(matches!(
        fut.poll(BodyEvent::Chunk(vec![1])),
        Poll::Ready(Err(WithBlobError::UnexpectedEOF))
    ));
}

#[test]
fn map_replaces_the_metadata_and_keeps_the_blob() {
    let with_blob = WithBlob { meta: 20u32, blob: Some(BlobPayload::new(b"rest")) };
    let mut mapped = with_blob.map(|n| format!("{}", n + 1));
    assert_eq!(mapped.meta, "21");
    match mapped.blob.take().unwrap().poll_next() {
        PayloadPoll::Replay(first) => assert_eq!(first, b"rest".to_vec()),
        PayloadPoll::Delegate => panic!("the blob was lost"),
    }
}

#[test]
fn failures_are_shown_to_the_client() {
    let e = WithBlobError::UnexpectedEOF.http_error();
    assert_eq!((e.status, e.message.as_str()), (400, "unexpected end of byte stream"));
    let e = WithBlobError::Payload(PayloadError::Overflow).http_error();
    assert_eq!((e.status, e.message.as_str()), (500, "error receiving blob"));
    let reason = serde_json::from_slice::<serde_json::Value>(b"{").unwrap_err();
    let e = WithBlobError::Deserialize(reason).http_error();
    assert_eq!(e.status, 400);
    assert!(e.message.starts_with("metadata deserialization error: "));
    assert!(e.message.len() > "metadata deserialization error: ".len());
    assert_eq!(WithBlobError::UnexpectedEOF.message(), "Unexpected EOF error");
    assert_eq!(WithBlobError::Payload(PayloadError::Overflow).message(), "Payload error");
}
