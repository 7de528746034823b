use democracy_client::command::{
    command_failed, next_action, Action, Command, EventKind, Prepared, StorageItem,
};
use democracy_client::events::{wait_for_event, EventRecord};
use democracy_client::digest::{content_hash, to_hex};
use democracy_client::error::ClientError;
use democracy_client::payload::{
    build_proposal, build_remark_preimage, build_vote, CallIndex, Operation, PROPOSAL_DEPOSIT,
};

const REMARK: CallIndex = CallIndex { pallet: 0, call: 0 };

fn run(plan: &[Action], outcomes: &[bool]) -> Vec<Action> {
    let plan = plan.to_vec();
    let mut performed = Vec::new();
    if plan.is_empty() {
        return performed;
    }
    let mut at = 0;
    loop {
        performed.push(plan[at]);
        match next_action(&plan, at, outcomes[at]) {
            Some(next) => at = next,
            None => return performed,
        }
    }
}

#[test]
fn show_balance_reads_three_entries_and_submits_nothing() {
    let plan = Command::ShowBalance.plan();
    assert_eq!(
        plan,
        vec![
            Action::Query(StorageItem::Account),
            Action::Query(StorageItem::Holds),
            Action::Query(StorageItem::Freezes),
        ]
    );
    let performed = run(&plan, &[true, true, true]);
    assert_eq!(performed.iter().filter(|a| matches!(a, Action::Query(_))).count(), 3);
    assert_eq!(performed.iter().filter(|a| matches!(a, Action::Submit(_))).count(), 0);
    assert!(matches!(Command::ShowBalance.prepare(REMARK, PROPOSAL_DEPOSIT), Ok(Prepared::Nothing)));
}

#[test]
fn plans_of_the_other_commands() {
    assert_eq!(
        Command::CreateRemarkPreimage { remark: "hi".to_string() }.plan(),
        vec![Action::Submit(Operation::NotePreimage)]
    );
    assert_eq!(
        Command::MakeProposal { hash: String::new(), len: 0 }.plan(),
        vec![
            Action::Submit(Operation::Propose),
            Action::Await(EventKind::Tabled),
            Action::Await(EventKind::Started),
        ]
    );
    assert_eq!(
        Command::Vote { index: 0, balance: 0, conviction: 0 }.plan(),
        vec![Action::Submit(Operation::Vote), Action::Inspect(EventKind::Voted)]
    );
    assert_eq!(Command::TrackProposalStatus.plan(), vec![Action::Await(EventKind::Passed)]);
}

#[test]
fn a_command_runs_to_its_end_when_all_goes_well() {
    let plan = Command::MakeProposal { hash: String::new(), len: 0 }.plan();
    assert_eq!(run(&plan, &[true, true, true]), plan);
    assert_eq!(next_action(&plan, 0, true), Some(1));
    assert_eq!(next_action(&plan, 1, true), Some(2));
    assert_eq!(next_action(&plan, 2, true), None);
    assert_eq!(next_action(&plan, 3, true), None);
    assert_eq!(next_action(&plan, usize::MAX, true), None);
    assert_eq!(next_action(&Vec::new(), 0, true), None);
}

#[test]
fn a_failed_wait_ends_the_command() {
    let plan = Command::MakeProposal { hash: String::new(), len: 0 }.plan();
    assert_eq!(run(&plan, &[true, false, true]), plan[..2].to_vec());
    assert_eq!(next_action(&plan, 1, false), None);
    assert!(command_failed(&plan, 1, false));
    assert_eq!(run(&plan, &[true, true, false]), plan);
    assert_eq!(next_action(&plan, 2, false), None);
    assert!(command_failed(&plan, 2, false));
}

#[test]
fn tracking_fails_when_the_stream_ends_without_the_event() {
    let plan = Command::TrackProposalStatus.plan();
    let blocks = vec![vec![EventRecord {
        pallet: "Democracy".to_string(),
        variant: "Tabled".to_string(),
        fields: Vec::new(),
    }]];
    let awaited = wait_for_event(&blocks, &EventKind::Passed.id());
    assert_eq!(awaited, Err(ClientError::NotFound));
    assert_eq!(next_action(&plan, 0, awaited.is_ok()), None);
    assert!(command_failed(&plan, 0, awaited.is_ok()));
    assert_eq!(run(&plan, &[false]), plan);
    assert!(!plan.iter().any(|action| matches!(action, Action::Submit(_))));
}

#[test]
fn a_command_has_failed_exactly_when_its_last_action_failed() {
    let plan = Command::MakeProposal { hash: String::new(), len: 0 }.plan();
    for at in 0..plan.len() {
        assert!(command_failed(&plan, at, false));
        assert!(!command_failed(&plan, at, true));
    }
    assert!(!command_failed(&plan, plan.len(), false));
    assert!(!command_failed(&Vec::new(), 0, false));
}

#[test]
fn a_failed_query_or_submission_ends_the_command() {
    let plan = Command::ShowBalance.plan();
    assert_eq!(run(&plan, &[true, false, true]), plan[..2].to_vec());
    let plan = Command::Vote { index: 0, balance: 0, conviction: 0 }.plan();
    assert_eq!(run(&plan, &[false, true]), plan[..1].to_vec());
    let plan = Command::MakeProposal { hash: String::new(), len: 0 }.plan();
    assert_eq!(run(&plan, &[false, true, true]), plan[..1].to_vec());
}

#[test]
fn tracking_prepares_nothing() {
    assert!(matches!(
        Command::TrackProposalStatus.prepare(REMARK, PROPOSAL_DEPOSIT),
        Ok(Prepared::Nothing)
    ));
}

#[test]
fn preimage_command_builds_the_note_of_the_remark() {
    let command = Command::CreateRemarkPreimage { remark: "hello".to_string() };
    let expected = build_remark_preimage(REMARK, b"hello").unwrap();
    match command.prepare(REMARK, PROPOSAL_DEPOSIT) {
        Ok(Prepared::Preimage(noted)) => {
            assert_eq!(noted.image, expected.image);
            assert_eq!(noted.hash, expected.hash);
            assert_eq!(noted.len, 8);
            assert_eq!(noted.payload.args, expected.payload.args);
            assert_eq!(to_hex(&noted.image), "00001468656c6c6f");
            assert_eq!(noted.hash, content_hash(&noted.image));
        }
        _ => panic!("a preimage was expected"),
    }
}

#[test]
fn preimage_command_takes_the_remark_as_utf8() {
    let command = Command::CreateRemarkPreimage { remark: "\u{e9}".to_string() };
    match command.prepare(REMARK, PROPOSAL_DEPOSIT) {
        Ok(Prepared::Preimage(noted)) => assert_eq!(noted.image, vec![0, 0, 8, 0xc3, 0xa9]),
        _ => panic!("a preimage was expected"),
    }
}

#[test]
fn proposal_command_reads_the_hash_from_hex() {
    let hash = content_hash(b"some call");
    let command = Command::MakeProposal { hash: to_hex(&hash), len: 42 };
    let expected = build_proposal(&hash, 42, PROPOSAL_DEPOSIT).unwrap();
    match command.prepare(REMARK, PROPOSAL_DEPOSIT) {
        Ok(Prepared::Call(payload)) => {
            assert_eq!(payload.operation, Operation::Propose);
            assert_eq!(payload.args, expected.args);
        }
        _ => panic!("a call was expected"),
    }
}

#[test]
fn proposal_command_refuses_a_bad_hash() {
    for hash in ["", "abc", "zz", "0x00", "00112233"] {
        let command = Command::MakeProposal { hash: hash.to_string(), len: 42 };
        assert!(matches!(
            command.prepare(REMARK, PROPOSAL_DEPOSIT),
            Err(ClientError::InvalidHash)
        ));
    }
}

#[test]
fn vote_command_votes_aye() {
    let command = Command::Vote { index: 3, balance: 1000, conviction: 2 };
    let expected = build_vote(3, true, 2, 1000);
    match command.prepare(REMARK, PROPOSAL_DEPOSIT) {
        Ok(Prepared::Call(payload)) => {
            assert_eq!(payload.operation, Operation::Vote);
            assert_eq!(payload.args, expected.args);
            assert_eq!(payload.args[2], 0x82);
        }
        _ => panic!("a call was expected"),
    }
}

#[test]
fn storage_entries_and_events_have_their_names() {
    assert_eq!(StorageItem::Account.pallet_name(), "System");
    assert_eq!(StorageItem::Account.entry_name(), "Account");
    assert_eq!(StorageItem::Holds.pallet_name(), "Balances");
    assert_eq!(StorageItem::Holds.entry_name(), "Holds");
    assert_eq!(StorageItem::Freezes.pallet_name(), "Balances");
    assert_eq!(StorageItem::Freezes.entry_name(), "Freezes");
    assert_eq!(StorageItem::Account.shown_field(), Some("data"));
    assert_eq!(StorageItem::Holds.shown_field(), None);
    assert_eq!(StorageItem::Freezes.shown_field(), None);
    for (kind, name) in [
        (EventKind::Tabled, "Tabled"),
        (EventKind::Started, "Started"),
        (EventKind::Passed, "Passed"),
        (EventKind::Voted, "Voted"),
    ] {
        let id = kind.id();
        assert_eq!(id.pallet, "Democracy");
        assert_eq!(id.variant, name);
    }
}
