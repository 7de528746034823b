use crate::error::ClientError;
use crate::events::{find_first, has_no_match, is_first_match, EventId, EventName, EventRecord};
use vstd::prelude::*;

verus! {

/// What the node reports about a transaction it has accepted.
#[derive(Debug, PartialEq, Eq)]
pub enum TxStatus {
    /// Validated, broadcast, or back in the pool: nothing has been decided.
    Pending,
    /// Included in a block that is not final yet.
    InBlock,
    /// Included in a finalized block, with the hash of that block and the
    /// events that the transaction emitted in it, in order.
    Finalized { block: [u8; 32], events: Vec<EventRecord> },
    /// The node gave the transaction up: an error, an invalid or a dropped
    /// transaction.
    Rejected,
}

/// What a successfully finalized transaction leaves behind: the block that
/// holds it and every event it emitted there, in order.
#[derive(Debug, PartialEq, Eq)]
pub struct FinalizedReceipt {
    pub block: [u8; 32],
    pub events: Vec<EventRecord>,
}

/// The life of one submitted transaction. It starts as `Submitted`, may pass
/// through `InBlock`, and settles in one of the other three states, which it
/// never leaves.
#[derive(Debug, PartialEq, Eq)]
pub enum Submission {
    /// Accepted by the node, not yet seen in a block.
    Submitted,
    /// Seen in a block that is not final yet.
    InBlock,
    /// Finalized, and the chain carried it out.
    Finalized(FinalizedReceipt),
    /// Finalized, but the chain rejected it; the bytes are the fields of the
    /// failure event.
    DispatchFailed(Vec<u8>),
    /// The node reported an error, or stopped reporting before finality.
    Errored,
}

/// The event by which the chain reports that a finalized transaction failed.
pub open spec fn dispatch_failure() -> EventName {
    EventName { pallet: "System"@, variant: "ExtrinsicFailed"@ }
}

/// Whether `after` is the state in which a transaction settles once it is
/// finalized in `block` with the event log `events`: failed with the fields
/// of the first failure event if there is one, carried out otherwise.
pub open spec fn settles(block: [u8; 32], events: Seq<EventRecord>, after: Submission) -> bool {
    match after {
        Submission::Finalized(receipt) => {
            &&& receipt.block == block
            &&& receipt.events@ == events
            &&& has_no_match(events, dispatch_failure())
        },
        Submission::DispatchFailed(details) => exists|at: int|
            #[trigger] is_first_match(events, dispatch_failure(), at) && details@
                == events[at].fields@,
        _ => false,
    }
}

/// Whether `after` is the state that follows `before` when the node reports
/// `status`.
pub open spec fn follows(before: Submission, status: TxStatus, after: Submission) -> bool {
    if before.is_settled() {
        after == before
    } else {
        match status {
            TxStatus::Pending => after == before,
            TxStatus::InBlock => after is InBlock,
            TxStatus::Finalized { block, events } => settles(block, events@, after),
            TxStatus::Rejected => after is Errored,
        }
    }
}

/// Whether a status settles a transaction that is still open.
pub open spec fn is_decisive(status: TxStatus) -> bool {
    status is Finalized || status is Rejected
}

/// Whether position `at` holds the first decisive status of `statuses`.
pub open spec fn is_first_decisive(statuses: Seq<TxStatus>, at: int) -> bool {
    &&& 0 <= at < statuses.len()
    &&& is_decisive(statuses[at])
    &&& forall|j: int| 0 <= j < at ==> !is_decisive(#[trigger] statuses[j])
}

/// Whether `result` is what a transaction comes to when `status` settles it.
pub open spec fn verdict(status: TxStatus, result: Result<FinalizedReceipt, ClientError>) -> bool {
    match status {
        TxStatus::Finalized { block, events } => match result {
            Ok(receipt) => settles(block, events@, Submission::Finalized(receipt)),
            Err(ClientError::DispatchFailed(details)) => settles(
                block,
                events@,
                Submission::DispatchFailed(details),
            ),
            Err(_) => false,
        },
        TxStatus::Rejected => result == Err::<FinalizedReceipt, ClientError>(
            ClientError::Submission,
        ),
        _ => false,
    }
}

/// A submission only moves forward: no report of the node takes it to a
/// state of lower rank, and a settled submission is left as it is by every
/// report.
pub proof fn lemma_submission_moves_forward(before: Submission, status: TxStatus, after: Submission)
    requires
        follows(before, status, after),
    ensures
        before.rank() <= after.rank(),
        before.is_settled() ==> after == before,
        after.is_settled() <==> before.is_settled() || is_decisive(status),
{
}

impl Submission {
    /// Whether the transaction has reached a state that it will not leave.
    pub open spec fn is_settled(self) -> bool {
        !(self is Submitted || self is InBlock)
    }

    /// How far the transaction has come: 0 submitted, 1 in a block, 2 settled.
    pub open spec fn rank(self) -> nat {
        match self {
            Submission::Submitted => 0,
            Submission::InBlock => 1,
            _ => 2,
        }
    }

    /// What the caller of a submission is handed: nothing while the
    /// transaction is open, the receipt once it is carried out, and the error
    /// otherwise.
    pub open spec fn result(self) -> Option<Result<FinalizedReceipt, ClientError>> {
        match self {
            Submission::Submitted | Submission::InBlock => None,
            Submission::Finalized(receipt) => Some(Ok(receipt)),
            Submission::DispatchFailed(details) => Some(Err(ClientError::DispatchFailed(details))),
            Submission::Errored => Some(Err(ClientError::Submission)),
        }
    }

    /// The state of a transaction that the node has just accepted.
    pub fn new() -> (start: Submission)
        ensures
            start is Submitted,
    {
        Submission::Submitted
    }

    /// Tests whether the transaction has settled.
    pub fn settled(&self) -> (done: bool)
        ensures
            done == self.is_settled(),
    {
        match self {
            Submission::Submitted => false,
            Submission::InBlock => false,
            _ => true,
        }
    }

    /// Takes the next report of the node. A settled transaction ignores it.
    /// An open one stays as it is on `Pending`, is in a block on `InBlock`,
    /// fails on `Rejected`, and on `Finalized` settles by the events of the
    /// finalized block. The state never moves backwards.
    pub fn on_status(self, status: TxStatus) -> (after: Submission)
        ensures
            follows(self, status, after),
            self.rank() <= after.rank(),
    {
        if self.settled() {
            return self;
        }
        match status {
            TxStatus::Pending => self,
            TxStatus::InBlock => Submission::InBlock,
            TxStatus::Finalized { block, events } => settle(block, events),
            TxStatus::Rejected => Submission::Errored,
        }
    }

    /// Takes the end of the node's reports. An open transaction has then
    /// failed; a settled one stays as it is.
    pub fn on_closed(self) -> (after: Submission)
        ensures
            after == (if self.is_settled() {
                self
            } else {
                Submission::Errored
            }),
    {
        if self.settled() {
            self
        } else {
            Submission::Errored
        }
    }

    /// Hands out what the submission has come to.
    pub fn outcome(self) -> (result: Option<Result<FinalizedReceipt, ClientError>>)
        ensures
            result == self.result(),
    {
        match self {
            Submission::Submitted => None,
            Submission::InBlock => None,
            Submission::Finalized(receipt) => Some(Ok(receipt)),
            Submission::DispatchFailed(details) => Some(Err(ClientError::DispatchFailed(details))),
            Submission::Errored => Some(Err(ClientError::Submission)),
        }
    }

    /// Stops following the transaction and hands out what it has come to: the
    /// result of a settled transaction, and a failed submission if it was
    /// still open.
    pub fn conclude(self) -> (result: Result<FinalizedReceipt, ClientError>)
        ensures
            Some(result) == (if self.is_settled() {
                self
            } else {
                Submission::Errored
            }).result(),
    {
        match self {
            Submission::Finalized(receipt) => Ok(receipt),
            Submission::DispatchFailed(details) => Err(ClientError::DispatchFailed(details)),
            _ => Err(ClientError::Submission),
        }
    }
}

/// Decides how a transaction settles that was finalized in `block` with the
/// event log `events`.
pub fn settle(block: [u8; 32], events: Vec<EventRecord>) -> (after: Submission)
    ensures
        settles(block, events@, after),
{
    let failure = EventId { pallet: "System".to_owned(), variant: "ExtrinsicFailed".to_owned() };
    assert(failure@ == dispatch_failure());
    let mut events = events;
    match find_first(&events, &failure) {
        Some(at) => {
            assert(is_first_match(events@, dispatch_failure(), at as int));
            let record = events.remove(at);
            Submission::DispatchFailed(record.fields)
        },
        None => Submission::Finalized(FinalizedReceipt { block, events }),
    }
}

/// Follows a transaction through the reports `statuses` of the node, given in
/// the order of their arrival and ending where the node stopped reporting.
/// The first decisive report settles the transaction and nothing after it is
/// looked at; without one the submission has failed.
pub fn submit_and_wait(statuses: Vec<TxStatus>) -> (result: Result<FinalizedReceipt, ClientError>)
    ensures
        forall|at: int| is_first_decisive(statuses@, at) ==> verdict(statuses@[at], result),
        (forall|j: int| 0 <= j < statuses.len() ==> !is_decisive(#[trigger] statuses@[j]))
            ==> result == Err::<FinalizedReceipt, ClientError>(ClientError::Submission),
{
    let mut state = Submission::new();
    for status in it: statuses
        invariant
            !state.is_settled(),
            forall|j: int| 0 <= j < it.index() ==> !is_decisive(#[trigger] statuses@[j]),
    {
        state = state.on_status(status);
        if state.settled() {
            return state.conclude();
        }
    }
    state.conclude()
}

} // verus!
