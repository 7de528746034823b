use vstd::prelude::*;

verus! {

/// Why a command could not be carried out.
#[derive(Debug, PartialEq, Eq)]
pub enum ClientError {
    /// The user name is neither `alice` nor `bob`.
    UnknownIdentity,
    /// The text given for a content hash is not 64 hexadecimal digits, or the
    /// digest given is not 32 bytes long.
    InvalidHash,
    /// An argument is outside what the wire format can carry.
    InvalidArgument,
    /// The node reported an error for the transaction, or stopped reporting
    /// before the transaction was finalized.
    Submission,
    /// The transaction was finalized, but the chain rejected it. The bytes are
    /// the fields of the failure event, as the node encoded them.
    DispatchFailed(Vec<u8>),
    /// The stream of finalized blocks ended before the awaited event arrived.
    NotFound,
}

} // verus!
