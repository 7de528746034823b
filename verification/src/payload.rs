//! The three calls that the client submits, built from checked inputs as the
//! bytes that the chain expects.

use crate::digest::{blake2_256, content_hash, HASH_LEN};
use crate::error::ClientError;
use crate::scale::{
    compact, encode_bytes, encode_compact_u128, encode_compact_u32, encode_u128, encode_u32,
    le_bytes, lemma_compact_len_u32, length_prefixed, push_all,
};
use vstd::prelude::*;

verus! {

/// The deposit that the client binds to a proposal unless told otherwise.
pub const PROPOSAL_DEPOSIT: u128 = 1_000_000_000_000_000_000;

/// The longest remark whose encoded call can still be noted as a preimage.
pub const MAX_REMARK_LEN: usize = 0xFFFF_FFF8;

/// The position of a call in the runtime: the index of its pallet, and the
/// index of the call within that pallet.
#[derive(Debug, Clone, Copy, PartialEq, Eq)]
pub struct CallIndex {
    pub pallet: u8,
    pub call: u8,
}

/// The chain operation that a payload stands for.
#[derive(Debug, Clone, Copy, PartialEq, Eq)]
pub enum Operation {
    /// `Preimage.note_preimage`: publish the content behind a hash.
    NotePreimage,
    /// `Democracy.propose`: propose a noted preimage for a referendum.
    Propose,
    /// `Democracy.vote`: vote in a referendum.
    Vote,
}

/// One call, ready to be signed and submitted: the operation, and its
/// arguments in the encoding of the chain.
#[derive(Debug, PartialEq, Eq)]
pub struct TransactionPayload {
    pub operation: Operation,
    pub args: Vec<u8>,
}

/// A payload as a value: the operation and the bytes of its arguments.
pub struct PayloadView {
    pub operation: Operation,
    pub args: Seq<u8>,
}

impl View for TransactionPayload {
    type V = PayloadView;

    open spec fn view(&self) -> PayloadView {
        PayloadView { operation: self.operation, args: self.args@ }
    }
}

/// A remark that is ready to be noted as a preimage, with what a later
/// proposal needs to refer to it.
#[derive(Debug, PartialEq, Eq)]
pub struct RemarkPreimage {
    /// The call that notes the preimage.
    pub payload: TransactionPayload,
    /// The preimage: the encoded remark call.
    pub image: Vec<u8>,
    /// The content hash of the preimage.
    pub hash: [u8; 32],
    /// The length of the preimage in bytes.
    pub len: u32,
}

/// The encoded call `System.remark(remark)`, for a runtime that has the call
/// at `index`.
pub open spec fn remark_call(index: CallIndex, remark: Seq<u8>) -> Seq<u8> {
    seq![index.pallet, index.call] + length_prefixed(remark)
}

/// The reference to a noted preimage by hash and length.
pub open spec fn lookup(hash: Seq<u8>, len: u32) -> Seq<u8> {
    seq![2u8] + hash + le_bytes(len as nat, 4)
}

/// The arguments of `Democracy.propose`: the looked-up proposal, then the
/// deposit in compact form.
pub open spec fn propose_args(hash: Seq<u8>, len: u32, deposit: u128) -> Seq<u8> {
    lookup(hash, len) + compact(deposit as nat)
}

/// The byte of a standard vote: the low seven bits of the conviction, with
/// the top bit set for aye and clear for nay.
pub open spec fn vote_byte(aye: bool, conviction: u8) -> u8 {
    (conviction & 0x7fu8) | (if aye {
        0x80u8
    } else {
        0u8
    })
}

/// The arguments of `Democracy.vote`: the referendum index in compact form,
/// then a standard vote made of the vote byte and the balance.
pub open spec fn vote_args(ref_index: u32, aye: bool, conviction: u8, balance: u128) -> Seq<u8> {
    compact(ref_index as nat) + seq![0u8, vote_byte(aye, conviction)] + le_bytes(
        balance as nat,
        16,
    )
}

/// Whether `noted` is the preimage note of `image`, whose content hash is
/// `hash`.
pub open spec fn is_note_of(noted: RemarkPreimage, image: Seq<u8>, hash: Seq<u8>) -> bool {
    &&& noted.image@ == image
    &&& noted.hash@ == hash
    &&& noted.len == image.len()
    &&& noted.payload@ == PayloadView {
        operation: Operation::NotePreimage,
        args: length_prefixed(image),
    }
}

/// Whether `noted` is the preimage note of `remark` for a runtime with the
/// remark call at `index`: the note of the encoded remark call, with the
/// content hash of that call.
pub open spec fn is_remark_preimage(noted: RemarkPreimage, index: CallIndex, remark: Seq<u8>) -> bool {
    is_note_of(noted, remark_call(index, remark), blake2_256(remark_call(index, remark)))
}

/// Whether `payload` is the proposal of the preimage with hash `hash` and
/// length `len`, bound to `deposit`.
pub open spec fn is_proposal_of(
    payload: TransactionPayload,
    hash: Seq<u8>,
    len: u32,
    deposit: u128,
) -> bool {
    payload@ == PayloadView { operation: Operation::Propose, args: propose_args(hash, len, deposit) }
}

/// Whether `payload` is the standard vote in referendum `ref_index` with the
/// given conviction and balance.
pub open spec fn is_vote_of(
    payload: TransactionPayload,
    ref_index: u32,
    aye: bool,
    conviction: u8,
    balance: u128,
) -> bool {
    payload@ == PayloadView {
        operation: Operation::Vote,
        args: vote_args(ref_index, aye, conviction, balance),
    }
}

/// The encoded remark call has two index bytes, the length prefix and the
/// remark; it fits in 32 bits exactly when the remark has at most
/// `MAX_REMARK_LEN` bytes.
pub proof fn lemma_remark_call_len(index: CallIndex, remark: Seq<u8>)
    ensures
        remark_call(index, remark).len() == 2 + compact(remark.len()).len() + remark.len(),
        remark_call(index, remark).len() <= u32::MAX <==> remark.len() <= MAX_REMARK_LEN,
{
    if remark.len() <= u32::MAX {
        lemma_compact_len_u32(remark.len());
    }
}

/// In the vote byte the top bit is set exactly for aye, and the low seven
/// bits are the conviction modulo 128, whatever the conviction. An aye and a
/// nay with the same conviction differ in the top bit and in nothing else.
pub proof fn lemma_vote_byte_bits(aye: bool, conviction: u8)
    by (bit_vector)
    ensures
        (vote_byte(aye, conviction) & 0x80 == 0x80) <==> aye,
        vote_byte(aye, conviction) & 0x7f == conviction % 128,
        vote_byte(true, conviction) ^ vote_byte(false, conviction) == 0x80,
{
}

/// Two preimage notes built from one remark for one runtime agree in every
/// part: the payload, the preimage, its length and its content hash.
pub proof fn lemma_remark_preimage_is_determined(
    index: CallIndex,
    remark: Seq<u8>,
    first: RemarkPreimage,
    second: RemarkPreimage,
)
    requires
        is_remark_preimage(first, index, remark),
        is_remark_preimage(second, index, remark),
    ensures
        first.payload@ == second.payload@,
        first.image@ == second.image@,
        first.hash@ == second.hash@,
        first.len == second.len,
        first.len == first.image@.len(),
        first.hash@ == blake2_256(first.image@),
{
}

/// Two proposals built from the same hash, length and deposit are the same
/// bytes, with or without the call index in front.
pub proof fn lemma_proposal_is_determined(
    hash: Seq<u8>,
    len: u32,
    deposit: u128,
    index: CallIndex,
    first: TransactionPayload,
    second: TransactionPayload,
)
    requires
        is_proposal_of(first, hash, len, deposit),
        is_proposal_of(second, hash, len, deposit),
    ensures
        first@ == second@,
        first@.call_data(index) == second@.call_data(index),
{
}

impl PayloadView {
    /// The encoded call: the two index bytes, then the arguments.
    pub open spec fn call_data(self, index: CallIndex) -> Seq<u8> {
        seq![index.pallet, index.call] + self.args
    }
}

impl CallIndex {
    /// The position of `System.remark` in a runtime that declares the system
    /// pallet first and the remark as its first call, as the kitchensink
    /// runtime does.
    pub fn system_remark() -> (index: CallIndex)
        ensures
            index == (CallIndex { pallet: 0, call: 0 }),
    {
        CallIndex { pallet: 0, call: 0 }
    }
}

impl Operation {
    /// The name of the pallet that holds the call.
    pub open spec fn pallet(self) -> Seq<char> {
        match self {
            Operation::NotePreimage => "Preimage"@,
            Operation::Propose => "Democracy"@,
            Operation::Vote => "Democracy"@,
        }
    }

    /// The name of the call within its pallet.
    pub open spec fn call(self) -> Seq<char> {
        match self {
            Operation::NotePreimage => "note_preimage"@,
            Operation::Propose => "propose"@,
            Operation::Vote => "vote"@,
        }
    }

    /// Names the pallet that holds the call.
    pub fn pallet_name(&self) -> (name: &'static str)
        ensures
            name@ == self.pallet(),
    {
        match self {
            Operation::NotePreimage => "Preimage",
            Operation::Propose => "Democracy",
            Operation::Vote => "Democracy",
        }
    }

    /// Names the call within its pallet.
    pub fn call_name(&self) -> (name: &'static str)
        ensures
            name@ == self.call(),
    {
        match self {
            Operation::NotePreimage => "note_preimage",
            Operation::Propose => "propose",
            Operation::Vote => "vote",
        }
    }
}

impl TransactionPayload {
    /// Encodes the call for a runtime that has it at `index`: the two index
    /// bytes, then the arguments.
    pub fn call_data(&self, index: CallIndex) -> (data: Vec<u8>)
        ensures
            data@ == self@.call_data(index),
    {
        let mut data: Vec<u8> = Vec::new();
        data.push(index.pallet);
        data.push(index.call);
        push_all(&mut data, self.args.as_slice());
        data
    }
}

impl RemarkPreimage {
    /// Makes the preimage note of the encoded call `image`, whose content
    /// hash is `hash`. An image is rejected exactly when it is longer than
    /// 32 bits can count.
    pub fn new(image: Vec<u8>, hash: [u8; 32]) -> (result: Result<RemarkPreimage, ClientError>)
        ensures
            result is Ok <==> image@.len() <= u32::MAX,
            result matches Ok(noted) ==> is_note_of(noted, image@, hash@),
            result matches Err(e) ==> e == ClientError::InvalidArgument,
    {
        if image.len() > u32::MAX as usize {
            return Err(ClientError::InvalidArgument);
        }
        let args = encode_bytes(image.as_slice());
        let len: u32 = image.len() as u32;
        Ok(
            RemarkPreimage {
                payload: TransactionPayload { operation: Operation::NotePreimage, args },
                image,
                hash,
                len,
            },
        )
    }
}

/// Encodes the call `System.remark(remark)` for a runtime that has the call
/// at `index`. A remark of more than `u32::MAX` bytes cannot be encoded.
fn encode_remark_call(index: CallIndex, remark: &[u8]) -> (image: Vec<u8>)
    requires
        remark@.len() <= u32::MAX,
    ensures
        image@ == remark_call(index, remark@),
{
    let mut image: Vec<u8> = Vec::new();
    image.push(index.pallet);
    image.push(index.call);
    let mut body = encode_bytes(remark);
    image.append(&mut body);
    image
}

/// Wraps `remark` as a remark call and that call as a preimage note. The
/// result reports the length of the encoded remark call and its content
/// hash, by which a proposal can refer to it. A remark is rejected exactly
/// when its encoded call is longer than 32 bits can count.
pub fn build_remark_preimage(index: CallIndex, remark: &[u8]) -> (result: Result<
    RemarkPreimage,
    ClientError,
>)
    ensures
        result is Ok <==> remark_call(index, remark@).len() <= u32::MAX,
        result matches Ok(noted) ==> is_remark_preimage(noted, index, remark@),
        result matches Err(e) ==> e == ClientError::InvalidArgument,
{
    proof {
        lemma_remark_call_len(index, remark@);
    }
    if remark.len() > MAX_REMARK_LEN {
        return Err(ClientError::InvalidArgument);
    }
    let image = encode_remark_call(index, remark);
    let hash = content_hash(image.as_slice());
    RemarkPreimage::new(image, hash)
}

/// Builds the proposal of the preimage with content hash `hash` and length
/// `len`, bound to `deposit`. The hash must be a digest of exactly 32 bytes.
pub fn build_proposal(hash: &[u8], len: u32, deposit: u128) -> (result: Result<
    TransactionPayload,
    ClientError,
>)
    ensures
        result is Ok <==> hash@.len() == HASH_LEN,
        result matches Ok(payload) ==> is_proposal_of(payload, hash@, len, deposit),
        result matches Err(e) ==> e == ClientError::InvalidHash,
{
    if hash.len() != HASH_LEN {
        return Err(ClientError::InvalidHash);
    }
    let mut args: Vec<u8> = Vec::new();
    args.push(2u8);
    push_all(&mut args, hash);
    let mut length = encode_u32(len);
    args.append(&mut length);
    let mut value = encode_compact_u128(deposit);
    args.append(&mut value);
    Ok(TransactionPayload { operation: Operation::Propose, args })
}

/// Packs a vote into one byte: the low seven bits of the conviction, with
/// the top bit set for aye and clear for nay. The conviction is not checked
/// against the range that the chain accepts.
pub fn pack_vote(aye: bool, conviction: u8) -> (packed: u8)
    ensures
        packed == vote_byte(aye, conviction),
        (packed & 0x80 == 0x80) <==> aye,
        packed & 0x7f == conviction % 128,
{
    let flag: u8 = if aye {
        0x80
    } else {
        0
    };
    let packed: u8 = (conviction & 0x7f) | flag;
    assert(packed & 0x7f == conviction % 128 && ((packed & 0x80 == 0x80) <==> flag == 0x80)) by (bit_vector)
        requires
            packed == (conviction & 0x7f) | flag,
            flag == 0x80 || flag == 0,
    ;
    packed
}

/// Builds a standard vote in referendum `ref_index` with the given
/// conviction and balance.
pub fn build_vote(ref_index: u32, aye: bool, conviction: u8, balance: u128) -> (payload:
    TransactionPayload)
    ensures
        is_vote_of(payload, ref_index, aye, conviction, balance),
{
    let mut args = encode_compact_u32(ref_index);
    args.push(0u8);
    args.push(pack_vote(aye, conviction));
    let mut amount = encode_u128(balance);
    args.append(&mut amount);
    assert(args@ =~= vote_args(ref_index, aye, conviction, balance));
    TransactionPayload { operation: Operation::Vote, args }
}

} // verus!
