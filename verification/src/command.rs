//! The five commands of the client: what each one does, in which order, what
//! it submits, and when a failure ends it.

use crate::digest::{hex_bytes, is_hash_text, parse_hash};
use crate::error::ClientError;
use crate::events::{EventId, EventName};
use crate::payload::{
    build_proposal, build_remark_preimage, build_vote, is_proposal_of, is_remark_preimage,
    is_vote_of, remark_call, CallIndex, Operation, RemarkPreimage, TransactionPayload,
};
use vstd::prelude::*;
use vstd::string::StringExecFns;
use vstd::utf8::encode_utf8;

verus! {

/// A command of the client, with its arguments.
#[derive(Debug, PartialEq, Eq)]
pub enum Command {
    /// Show the balances of the acting account.
    ShowBalance,
    /// Note a remark as a preimage.
    CreateRemarkPreimage { remark: String },
    /// Propose the preimage with the given hash, in hexadecimal, and length.
    MakeProposal { hash: String, len: u32 },
    /// Vote aye in a referendum.
    Vote { index: u32, balance: u128, conviction: u8 },
    /// Wait until a proposal has passed.
    TrackProposalStatus,
}

/// A storage entry that the client reads for the acting account.
#[derive(Debug, Clone, Copy, PartialEq, Eq)]
pub enum StorageItem {
    /// `System.Account`
    Account,
    /// `Balances.Holds`
    Holds,
    /// `Balances.Freezes`
    Freezes,
}

/// An event of the governance pallet that the client waits or looks for.
#[derive(Debug, Clone, Copy, PartialEq, Eq)]
pub enum EventKind {
    /// `Democracy.Tabled`
    Tabled,
    /// `Democracy.Started`
    Started,
    /// `Democracy.Passed`
    Passed,
    /// `Democracy.Voted`
    Voted,
}

/// One thing that a command does against the node.
#[derive(Debug, Clone, Copy, PartialEq, Eq)]
pub enum Action {
    /// Read a storage entry.
    Query(StorageItem),
    /// Sign and submit a call, and follow it to finality.
    Submit(Operation),
    /// Wait on the stream of finalized blocks for an event.
    Await(EventKind),
    /// Look for an event among those of the transaction just finalized.
    Inspect(EventKind),
}

/// What a command has ready before it talks to the node.
#[derive(Debug, PartialEq, Eq)]
pub enum Prepared {
    /// The command submits nothing.
    Nothing,
    /// The preimage note of a remark.
    Preimage(RemarkPreimage),
    /// The call of a proposal or a vote.
    Call(TransactionPayload),
}

/// The actions of a command, in the order in which it performs them.
pub open spec fn actions_of(command: Command) -> Seq<Action> {
    match command {
        Command::ShowBalance => seq![
            Action::Query(StorageItem::Account),
            Action::Query(StorageItem::Holds),
            Action::Query(StorageItem::Freezes),
        ],
        Command::CreateRemarkPreimage { .. } => seq![Action::Submit(Operation::NotePreimage)],
        Command::MakeProposal { .. } => seq![
            Action::Submit(Operation::Propose),
            Action::Await(EventKind::Tabled),
            Action::Await(EventKind::Started),
        ],
        Command::Vote { .. } => seq![
            Action::Submit(Operation::Vote),
            Action::Inspect(EventKind::Voted),
        ],
        Command::TrackProposalStatus => seq![Action::Await(EventKind::Passed)],
    }
}

/// The position of the action that follows the one at `done`, after it has
/// succeeded or failed; nothing when the command is over. Only a success
/// leads on: every failure ends the command.
pub open spec fn successor(plan: Seq<Action>, done: int, succeeded: bool) -> Option<int> {
    if 0 <= done && done + 1 < plan.len() && succeeded {
        Some(done + 1)
    } else {
        None
    }
}

/// Whether the command has failed once the action at `done` of its plan has
/// succeeded or failed: it has exactly when that action failed.
pub open spec fn has_failed(plan: Seq<Action>, done: int, succeeded: bool) -> bool {
    0 <= done < plan.len() && !succeeded
}

/// Whether `prepared` is what `command` has ready for a runtime with the
/// remark call at `remark_index`, when proposals are bound to `deposit`.
pub open spec fn is_prepared(
    command: Command,
    remark_index: CallIndex,
    deposit: u128,
    prepared: Prepared,
) -> bool {
    match command {
        Command::ShowBalance => prepared is Nothing,
        Command::TrackProposalStatus => prepared is Nothing,
        Command::CreateRemarkPreimage { remark } => prepared matches Prepared::Preimage(noted)
            && is_remark_preimage(noted, remark_index, encode_utf8(remark@)),
        Command::MakeProposal { hash, len } => prepared matches Prepared::Call(payload)
            && is_proposal_of(payload, hex_bytes(hash@), len, deposit),
        Command::Vote { index, balance, conviction } => prepared matches Prepared::Call(payload)
            && is_vote_of(payload, index, true, conviction, balance),
    }
}

/// The error with which `command` is refused before anything is sent, if it
/// is refused: a remark too long to encode, or a hash that is not 64
/// hexadecimal digits.
pub open spec fn refusal(command: Command, remark_index: CallIndex) -> Option<ClientError> {
    match command {
        Command::CreateRemarkPreimage { remark } => if remark_call(
            remark_index,
            encode_utf8(remark@),
        ).len() <= u32::MAX {
            None
        } else {
            Some(ClientError::InvalidArgument)
        },
        Command::MakeProposal { hash, len } => if is_hash_text(hash@) {
            None
        } else {
            Some(ClientError::InvalidHash)
        },
        _ => None,
    }
}

/// A command submits at most once, and then first. Showing balances is three
/// reads and nothing else, and neither it nor tracking a proposal submits
/// anything.
pub proof fn lemma_reads_and_submissions(command: Command)
    ensures
        forall|i: int|
            0 < i < actions_of(command).len() ==> !((#[trigger] actions_of(command)[i]) is Submit),
        command is ShowBalance ==> actions_of(command).len() == 3 && forall|i: int|
            0 <= i < 3 ==> (#[trigger] actions_of(command)[i]) is Query,
        command is ShowBalance || command is TrackProposalStatus ==> !(actions_of(command)[0]
            is Submit),
{
}

/// Once an action has failed, the command performs nothing more and has
/// failed, whatever its plan holds after that action: no wait follows a
/// failed submission, and a wait that ends without its event fails the
/// command. A command that goes on, or ends after a success, has not failed.
pub proof fn lemma_failure_ends_command(plan: Seq<Action>, done: int, succeeded: bool)
    requires
        0 <= done < plan.len(),
    ensures
        !succeeded ==> successor(plan, done, succeeded) is None && has_failed(plan, done, succeeded),
        succeeded ==> !has_failed(plan, done, succeeded),
        successor(plan, done, succeeded) is Some ==> !has_failed(plan, done, succeeded),
{
}

impl StorageItem {
    /// The pallet that holds the entry.
    pub fn pallet_name(&self) -> (name: &'static str)
        ensures
            name@ == (match *self {
                StorageItem::Account => "System"@,
                StorageItem::Holds => "Balances"@,
                StorageItem::Freezes => "Balances"@,
            }),
    {
        match self {
            StorageItem::Account => "System",
            StorageItem::Holds => "Balances",
            StorageItem::Freezes => "Balances",
        }
    }

    /// The name of the entry within its pallet.
    pub fn entry_name(&self) -> (name: &'static str)
        ensures
            name@ == (match *self {
                StorageItem::Account => "Account"@,
                StorageItem::Holds => "Holds"@,
                StorageItem::Freezes => "Freezes"@,
            }),
    {
        match self {
            StorageItem::Account => "Account",
            StorageItem::Holds => "Holds",
            StorageItem::Freezes => "Freezes",
        }
    }
}

impl StorageItem {
    /// The field of the entry that the client shows, where it does not show
    /// the whole entry: of the account record, the balances in `data`.
    pub fn shown_field(&self) -> (field: Option<&'static str>)
        ensures
            match *self {
                StorageItem::Account => field matches Some(name) && name@ == "data"@,
                _ => field is None,
            },
    {
        match self {
            StorageItem::Account => Some("data"),
            _ => None,
        }
    }
}

impl EventKind {
    /// The pallet and the name of the event.
    pub open spec fn name(self) -> EventName {
        EventName {
            pallet: "Democracy"@,
            variant: match self {
                EventKind::Tabled => "Tabled"@,
                EventKind::Started => "Started"@,
                EventKind::Passed => "Passed"@,
                EventKind::Voted => "Voted"@,
            },
        }
    }

    /// The identity by which the event is found in an event log.
    pub fn id(&self) -> (id: EventId)
        ensures
            id@ == self.name(),
    {
        let variant = match self {
            EventKind::Tabled => "Tabled",
            EventKind::Started => "Started",
            EventKind::Passed => "Passed",
            EventKind::Voted => "Voted",
        };
        EventId { pallet: String::from_str("Democracy"), variant: String::from_str(variant) }
    }
}

impl Command {
    /// Lists what the command does, in order.
    pub fn plan(&self) -> (plan: Vec<Action>)
        ensures
            plan@ == actions_of(*self),
    {
        let mut plan: Vec<Action> = Vec::new();
        match self {
            Command::ShowBalance => {
                plan.push(Action::Query(StorageItem::Account));
                plan.push(Action::Query(StorageItem::Holds));
                plan.push(Action::Query(StorageItem::Freezes));
            },
            Command::CreateRemarkPreimage { .. } => {
                plan.push(Action::Submit(Operation::NotePreimage));
            },
            Command::MakeProposal { .. } => {
                plan.push(Action::Submit(Operation::Propose));
                plan.push(Action::Await(EventKind::Tabled));
                plan.push(Action::Await(EventKind::Started));
            },
            Command::Vote { .. } => {
                plan.push(Action::Submit(Operation::Vote));
                plan.push(Action::Inspect(EventKind::Voted));
            },
            Command::TrackProposalStatus => {
                plan.push(Action::Await(EventKind::Passed));
            },
        }
        assert(plan@ =~= actions_of(*self));
        plan
    }

    /// Builds what the command submits, and refuses a command whose
    /// arguments cannot be submitted. The remark of a preimage is taken as
    /// its UTF-8 bytes; a vote is always aye.
    pub fn prepare(&self, remark_index: CallIndex, deposit: u128) -> (result: Result<
        Prepared,
        ClientError,
    >)
        ensures
            match result {
                Ok(prepared) => refusal(*self, remark_index) is None && is_prepared(
                    *self,
                    remark_index,
                    deposit,
                    prepared,
                ),
                Err(e) => refusal(*self, remark_index) == Some(e),
            },
    {
        match self {
            Command::ShowBalance => Ok(Prepared::Nothing),
            Command::TrackProposalStatus => Ok(Prepared::Nothing),
            Command::CreateRemarkPreimage { remark } => {
                match build_remark_preimage(remark_index, remark.as_str().as_bytes()) {
                    Ok(noted) => Ok(Prepared::Preimage(noted)),
                    Err(e) => Err(e),
                }
            },
            Command::MakeProposal { hash, len } => {
                match parse_hash(hash.as_str()) {
                    Ok(digest) => match build_proposal(digest.as_slice(), *len, deposit) {
                        Ok(payload) => Ok(Prepared::Call(payload)),
                        Err(e) => Err(e),
                    },
                    Err(e) => Err(e),
                }
            },
            Command::Vote { index, balance, conviction } => Ok(
                Prepared::Call(build_vote(*index, true, *conviction, *balance)),
            ),
        }
    }
}

/// Decides what a command does after the action at `done` of its plan has
/// succeeded or failed: the position of the next action, or nothing when the
/// command is over. A failed action ends the command.
pub fn next_action(plan: &Vec<Action>, done: usize, succeeded: bool) -> (next: Option<usize>)
    ensures
        next matches Some(at) ==> successor(plan@, done as int, succeeded) == Some(at as int),
        next is None ==> successor(plan@, done as int, succeeded) is None,
{
    if !succeeded || done >= plan.len() || plan.len() - done <= 1 {
        None
    } else {
        Some(done + 1)
    }
}

/// Decides whether a command has failed once the action at `done` of its plan
/// has succeeded or failed.
pub fn command_failed(plan: &Vec<Action>, done: usize, succeeded: bool) -> (failed: bool)
    ensures
        failed == has_failed(plan@, done as int, succeeded),
{
    done < plan.len() && !succeeded
}

} // verus!
