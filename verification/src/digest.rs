//! Content hashes: the digest of a byte string, and the hexadecimal text in
//! which hashes and encoded calls are shown and entered.

use crate::error::ClientError;
use vstd::prelude::*;

verus! {

/// The number of bytes of a content hash.
pub const HASH_LEN: usize = 32;

/// The 256-bit BLAKE2b digest of `data`, as 32 bytes.
pub uninterp spec fn blake2_256(data: Seq<u8>) -> Seq<u8>;

/// The lower-case hexadecimal digit of a value below 16.
pub open spec fn hex_digit(nibble: int) -> char {
    if nibble < 10 {
        ('0' as int + nibble) as char
    } else {
        ('a' as int + nibble - 10) as char
    }
}

/// The hexadecimal text of `bytes`: two lower-case digits for each byte, the
/// high half first.
pub open spec fn hex_text(bytes: Seq<u8>) -> Seq<char> {
    Seq::new(
        2 * bytes.len(),
        |i: int|
            if i % 2 == 0 {
                hex_digit(bytes[i / 2] as int / 16)
            } else {
                hex_digit(bytes[i / 2] as int % 16)
            },
    )
}

/// The value of a hexadecimal digit of either case, and nothing for any other
/// character.
pub open spec fn hex_value(c: char) -> Option<int> {
    if '0' <= c <= '9' {
        Some(c as int - '0' as int)
    } else if 'a' <= c <= 'f' {
        Some(c as int - 'a' as int + 10)
    } else if 'A' <= c <= 'F' {
        Some(c as int - 'A' as int + 10)
    } else {
        None
    }
}

/// Whether `text` is an even number of hexadecimal digits.
pub open spec fn is_hex(text: Seq<char>) -> bool {
    &&& text.len() % 2 == 0
    &&& forall|i: int| 0 <= i < text.len() ==> hex_value(#[trigger] text[i]) is Some
}

/// The bytes that the hexadecimal text `text` stands for: one for each pair
/// of digits, the high half first.
pub open spec fn hex_bytes(text: Seq<char>) -> Seq<u8> {
    Seq::new(
        text.len() / 2,
        |i: int| (16 * hex_value(text[2 * i]).unwrap() + hex_value(text[2 * i + 1]).unwrap()) as u8,
    )
}

/// Whether `text` is a content hash in hexadecimal: exactly 64 digits.
pub open spec fn is_hash_text(text: Seq<char>) -> bool {
    is_hex(text) && text.len() == 2 * HASH_LEN
}

/// Hexadecimal text reads back as the bytes it was written from, and the
/// text of a content hash is accepted as one.
pub proof fn lemma_hex_round_trip(bytes: Seq<u8>)
    ensures
        is_hex(hex_text(bytes)),
        hex_bytes(hex_text(bytes)) == bytes,
        bytes.len() == HASH_LEN ==> is_hash_text(hex_text(bytes)),
{
    let text = hex_text(bytes);
    assert forall|n: int| 0 <= n < 16 implies hex_value(#[trigger] hex_digit(n)) == Some(n) by {}
    assert forall|i: int| 0 <= i < text.len() implies hex_value(#[trigger] text[i]) is Some by {
        let byte = bytes[i / 2] as int;
        assert(0 <= byte / 16 < 16 && 0 <= byte % 16 < 16);
    }
    assert forall|i: int| 0 <= i < bytes.len() implies hex_bytes(text)[i] == bytes[i] by {
        let byte = bytes[i] as int;
        assert(0 <= byte / 16 < 16 && 0 <= byte % 16 < 16);
        assert((2 * i) / 2 == i && (2 * i + 1) / 2 == i);
        assert((2 * i) % 2 == 0 && (2 * i + 1) % 2 == 1);
        assert(text[2 * i] == hex_digit(byte / 16));
        assert(text[2 * i + 1] == hex_digit(byte % 16));
        assert(16 * (byte / 16) + byte % 16 == byte);
    }
    assert(hex_bytes(text) =~= bytes);
}

#[verifier::external_type_specification]
#[verifier::external_body]
pub struct ExFromHexError(hex::FromHexError);

/// `<BlakeTwo256 as Hasher>::hash` of subxt: the 256-bit BLAKE2b digest of
/// the bytes, which depends on the bytes alone.
#[verifier::external_body]
fn blake2_256_of(data: &[u8]) -> (digest: [u8; 32])
    ensures
        digest@ == blake2_256(data@),
{
    <subxt::config::substrate::BlakeTwo256 as subxt::config::Hasher>::hash(data).0
}

/// `hex::encode`: two lower-case hexadecimal digits for each byte, in order.
#[verifier::external_body]
fn hex_encode(bytes: &[u8]) -> (text: String)
    ensures
        text@ == hex_text(bytes@),
{
    hex::encode(bytes)
}

/// `hex::decode`: succeeds exactly on an even number of hexadecimal digits of
/// either case, and then yields one byte for each pair of digits.
#[verifier::external_body]
fn hex_decode(text: &str) -> (decoded: Result<Vec<u8>, hex::FromHexError>)
    ensures
        decoded is Ok <==> is_hex(text@),
        decoded matches Ok(bytes) ==> bytes@ == hex_bytes(text@),
{
    hex::decode(text)
}

/// Computes the content hash of `data`.
pub fn content_hash(data: &[u8]) -> (digest: [u8; 32])
    ensures
        digest@ == blake2_256(data@),
{
    blake2_256_of(data)
}

/// Writes `bytes` as hexadecimal text.
pub fn to_hex(bytes: &[u8]) -> (text: String)
    ensures
        text@ == hex_text(bytes@),
        text@.len() == 2 * bytes@.len(),
{
    hex_encode(bytes)
}

/// Takes a digest of exactly 32 bytes as a content hash.
pub fn hash_from_bytes(bytes: &[u8]) -> (result: Result<[u8; 32], ClientError>)
    ensures
        result is Ok <==> bytes@.len() == HASH_LEN,
        result matches Ok(hash) ==> hash@ == bytes@,
        result matches Err(e) ==> e == ClientError::InvalidHash,
{
    if bytes.len() != HASH_LEN {
        return Err(ClientError::InvalidHash);
    }
    let mut hash: [u8; 32] = [0u8; 32];
    let mut i: usize = 0;
    while i < HASH_LEN
        invariant
            i <= HASH_LEN,
            bytes@.len() == HASH_LEN,
            forall|j: int| 0 <= j < i ==> hash@[j] == bytes@[j],
        decreases HASH_LEN - i,
    {
        hash[i] = bytes[i];
        i += 1;
    }
    assert(hash@ =~= bytes@);
    Ok(hash)
}

/// Reads a content hash from hexadecimal text. The text must be exactly 64
/// hexadecimal digits, of either case, with no prefix.
pub fn parse_hash(text: &str) -> (result: Result<[u8; 32], ClientError>)
    ensures
        result is Ok <==> is_hash_text(text@),
        result matches Ok(hash) ==> hash@ == hex_bytes(text@),
        result matches Err(e) ==> e == ClientError::InvalidHash,
{
    match hex_decode(text) {
        Ok(bytes) => hash_from_bytes(bytes.as_slice()),
        Err(_) => Err(ClientError::InvalidHash),
    }
}

} // verus!
