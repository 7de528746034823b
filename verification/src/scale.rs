//! The SCALE encodings that the call payloads are made of, as sequences of
//! bytes, and the encoder that produces them.

use vstd::prelude::*;

verus! {

/// The `width` low-order bytes of `value`, least significant byte first.
pub open spec fn le_bytes(value: nat, width: nat) -> Seq<u8>
    decreases width,
{
    if width == 0 {
        Seq::empty()
    } else {
        seq![(value % 256) as u8] + le_bytes(value / 256, (width - 1) as nat)
    }
}

/// The number of bytes that it takes to write `value` without leading zero
/// bytes.
pub open spec fn byte_width(value: nat) -> nat
    decreases value,
{
    if value == 0 {
        0
    } else {
        1 + byte_width(value / 256)
    }
}

/// The compact encoding of an unsigned integer. The two low bits of the first
/// byte give the mode: one, two or four bytes that hold the value shifted
/// left by two bits, or, for values from 2^30 on, a first byte that holds the
/// number of value bytes less four, followed by the value bytes themselves.
pub open spec fn compact(value: nat) -> Seq<u8> {
    if value < 0x40 {
        le_bytes(4 * value, 1)
    } else if value < 0x4000 {
        le_bytes(4 * value + 1, 2)
    } else if value < 0x4000_0000 {
        le_bytes(4 * value + 2, 4)
    } else {
        seq![(4 * (byte_width(value) - 4) + 3) as u8] + le_bytes(value, byte_width(value))
    }
}

/// The encoding of a byte string: its length in compact form, then the bytes.
pub open spec fn length_prefixed(bytes: Seq<u8>) -> Seq<u8> {
    compact(bytes.len()) + bytes
}

/// `le_bytes` yields as many bytes as it is asked for.
pub proof fn lemma_le_bytes_len(value: nat, width: nat)
    ensures
        le_bytes(value, width).len() == width,
    decreases width,
{
    if width > 0 {
        lemma_le_bytes_len(value / 256, (width - 1) as nat);
    }
}

/// The compact encoding of a value below 2^32 has one, two, four or five
/// bytes, by the size of the value.
pub proof fn lemma_compact_len_u32(value: nat)
    requires
        value <= u32::MAX,
    ensures
        compact(value).len() == (if value < 0x40 {
            1nat
        } else if value < 0x4000 {
            2nat
        } else if value < 0x4000_0000 {
            4nat
        } else {
            5nat
        }),
{
    reveal_with_fuel(byte_width, 5);
    lemma_le_bytes_len(4 * value, 1);
    lemma_le_bytes_len(4 * value + 1, 2);
    lemma_le_bytes_len(4 * value + 2, 4);
    lemma_le_bytes_len(value, byte_width(value));
}

/// `<u32 as Encode>::encode` of parity-scale-codec: the four bytes of the
/// value, least significant first.
#[verifier::external_body]
pub(crate) fn encode_u32(value: u32) -> (out: Vec<u8>)
    ensures
        out@ == le_bytes(value as nat, 4),
{
    parity_scale_codec::Encode::encode(&value)
}

/// `<u128 as Encode>::encode` of parity-scale-codec: the sixteen bytes of the
/// value, least significant first.
#[verifier::external_body]
pub(crate) fn encode_u128(value: u128) -> (out: Vec<u8>)
    ensures
        out@ == le_bytes(value as nat, 16),
{
    parity_scale_codec::Encode::encode(&value)
}

/// `<Compact<u32> as Encode>::encode` of parity-scale-codec: the compact
/// encoding of the value.
#[verifier::external_body]
pub(crate) fn encode_compact_u32(value: u32) -> (out: Vec<u8>)
    ensures
        out@ == compact(value as nat),
{
    parity_scale_codec::Encode::encode(&parity_scale_codec::Compact(value))
}

/// `<Compact<u128> as Encode>::encode` of parity-scale-codec: the compact
/// encoding of the value.
#[verifier::external_body]
pub(crate) fn encode_compact_u128(value: u128) -> (out: Vec<u8>)
    ensures
        out@ == compact(value as nat),
{
    parity_scale_codec::Encode::encode(&parity_scale_codec::Compact(value))
}

/// `<[u8] as Encode>::encode` of parity-scale-codec: the compact encoding of
/// the length, then the bytes. The encoder panics on a slice of more than
/// `u32::MAX` bytes, which the precondition keeps out.
#[verifier::external_body]
pub(crate) fn encode_bytes(bytes: &[u8]) -> (out: Vec<u8>)
    requires
        bytes@.len() <= u32::MAX,
    ensures
        out@ == length_prefixed(bytes@),
{
    parity_scale_codec::Encode::encode(bytes)
}

/// Appends `bytes` to `out`.
pub fn push_all(out: &mut Vec<u8>, bytes: &[u8])
    ensures
        final(out)@ == old(out)@ + bytes@,
{
    let mut i: usize = 0;
    while i < bytes.len()
        invariant
            i <= bytes.len(),
            out@ == old(out)@ + bytes@.subrange(0, i as int),
        decreases bytes.len() - i,
    {
        out.push(bytes[i]);
        i += 1;
        assert(bytes@.subrange(0, i as int) == bytes@.subrange(0, i - 1).push(bytes@[i - 1]));
    }
    assert(bytes@.subrange(0, i as int) == bytes@);
}

} // verus!
