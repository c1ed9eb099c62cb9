//! Content hashes and their hexadecimal form.
//!
//! A blob is addressed by the BLAKE3 hash of its bytes. On the wire and as a
//! key of the object store the hash is written as 64 hexadecimal digits.

use vstd::prelude::*;
use vstd::string::StringSliceAdditionalSpecFns;
use vstd::utf8::{encode_utf8, is_ascii_chars, is_ascii_chars_encode_utf8};

use crate::trusted::{hash_eq, hash_from_hex, hash_to_hex};

verus! {

/// The value of a hexadecimal digit given as an ASCII byte, in either case.
pub open spec fn hex_val(b: u8) -> Option<u8> {
    if 0x30 <= b <= 0x39 {
        Some((b - 0x30) as u8)
    } else if 0x61 <= b <= 0x66 {
        Some((b - 0x61 + 10) as u8)
    } else if 0x41 <= b <= 0x46 {
        Some((b - 0x41 + 10) as u8)
    } else {
        None
    }
}

/// Whether `bytes` are the 64 hexadecimal digits of a hash.
pub open spec fn is_hash_hex(bytes: Seq<u8>) -> bool {
    &&& bytes.len() == 64
    &&& forall|i: int| 0 <= i < 64 ==> (#[trigger] hex_val(bytes[i])) is Some
}

/// The 32 bytes that 64 hexadecimal digits stand for.
pub open spec fn hex_decode(bytes: Seq<u8>) -> Seq<u8>
    recommends
        is_hash_hex(bytes),
{
    Seq::new(
        32,
        |i: int| (16 * hex_val(bytes[2 * i]).unwrap() + hex_val(bytes[2 * i + 1]).unwrap()) as u8,
    )
}

/// The hash that a text stands for: the text must be 64 hexadecimal
/// digits.
pub open spec fn parse_hash(text: Seq<char>) -> Option<Seq<u8>> {
    if is_hash_hex(encode_utf8(text)) {
        Some(hex_decode(encode_utf8(text)))
    } else {
        None
    }
}

/// The lowercase hexadecimal digit of a value below 16.
pub open spec fn hex_digit(n: u8) -> char
    recommends
        n < 16,
{
    if n < 10 {
        ((0x30 + n) as u8) as char
    } else {
        ((0x61 + n - 10) as u8) as char
    }
}

/// The lowercase hexadecimal form of `bytes`, two digits for each byte, the
/// high half first.
pub open spec fn hex_encode(bytes: Seq<u8>) -> Seq<char> {
    Seq::new(
        2 * bytes.len(),
        |i: int|
            if i % 2 == 0 {
                hex_digit(bytes[i / 2] / 16)
            } else {
                hex_digit(bytes[i / 2] % 16)
            },
    )
}

/// A lowercase digit reads back as the value it was written for.
proof fn lemma_digit_round_trip(n: u8)
    requires
        n < 16,
    ensures
        '\0' <= hex_digit(n) <= '\u{7f}',
        hex_val(hex_digit(n) as u8) == Some(n),
{
}

/// The hexadecimal form of a hash is 64 ASCII digits, and reading it gives
/// the hash back.
pub proof fn lemma_hex_round_trip(bytes: Seq<u8>)
    requires
        bytes.len() == 32,
    ensures
        is_ascii_chars(hex_encode(bytes)),
        parse_hash(hex_encode(bytes)) == Some(bytes),
{
    let text = hex_encode(bytes);
    assert forall|i: int| 0 <= i < text.len() implies '\0' <= #[trigger] text[i] <= '\u{7f}' by {
        lemma_digit_round_trip(bytes[i / 2] / 16);
        lemma_digit_round_trip(bytes[i / 2] % 16);
    }
    is_ascii_chars_encode_utf8(text);
    let digits = encode_utf8(text);
    assert forall|i: int| 0 <= i < 64 implies (#[trigger] hex_val(digits[i])) is Some by {
        assert(digits[i] == text[i] as u8);
        lemma_digit_round_trip(bytes[i / 2] / 16);
        lemma_digit_round_trip(bytes[i / 2] % 16);
    }
    assert forall|i: int| 0 <= i < 32 implies hex_decode(digits)[i] == bytes[i] by {
        assert(digits[2 * i] == text[2 * i] as u8);
        assert(digits[2 * i + 1] == text[2 * i + 1] as u8);
        lemma_digit_round_trip(bytes[i] / 16);
        lemma_digit_round_trip(bytes[i] % 16);
    }
    assert(hex_decode(digits) =~= bytes);
}

/// The hash that addresses a blob.
#[derive(Clone, Copy, Debug)]
pub struct ContentHash {
    bytes: [u8; 32],
}

impl View for ContentHash {
    type V = Seq<u8>;

    closed spec fn view(&self) -> Seq<u8> {
        self.bytes@
    }
}

impl ContentHash {
    /// The hash with the given bytes.
    pub fn from_bytes(bytes: [u8; 32]) -> (h: Self)
        ensures
            h@ == bytes@,
    {
        ContentHash { bytes }
    }

    /// The bytes of the hash.
    pub fn as_bytes(&self) -> (b: &[u8; 32])
        ensures
            b@ == self@,
    {
        &self.bytes
    }

    /// Reads a hash from its hexadecimal form. Digits of either case are
    /// taken; anything but 64 hexadecimal digits is refused.
    pub fn from_hex(hex: &str) -> (r: Result<Self, blake3::HexError>)
        ensures
            match parse_hash(hex@) {
                Some(bytes) => r matches Ok(h) && h@ == bytes,
                None => r is Err,
            },
    {
        match hash_from_hex(hex) {
            Ok(bytes) => Ok(ContentHash { bytes }),
            Err(e) => Err(e),
        }
    }

    /// The hash in lowercase hexadecimal.
    pub fn to_hex(&self) -> (hex: String)
        ensures
            hex@ == hex_encode(self@),
    {
        hash_to_hex(&self.bytes)
    }

    /// Whether two hashes are the same, found out in constant time.
    pub fn matches(&self, other: &ContentHash) -> (same: bool)
        ensures
            same == (self@ == other@),
    {
        hash_eq(&self.bytes, &other.bytes)
    }
}

} // verus!
