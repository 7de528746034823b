use democracy_client::error::ClientError;
use democracy_client::events::{
    find_first, wait_for_event, EventId, EventRecord, EventWatcher, WatchState,
};

fn event(pallet: &str, variant: &str, fields: &[u8]) -> EventRecord {
    EventRecord { pallet: pallet.to_string(), variant: variant.to_string(), fields: fields.to_vec() }
}

fn id(pallet: &str, variant: &str) -> EventId {
    EventId { pallet: pallet.to_string(), variant: variant.to_string() }
}

#[test]
fn event_matches_by_pallet_and_name() {
    let tabled = event("Democracy", "Tabled", &[1]);
    assert!(tabled.is_a(&id("Democracy", "Tabled")));
    assert!(!tabled.is_a(&id("Democracy", "Started")));
    assert!(!tabled.is_a(&id("Council", "Tabled")));
    assert!(!tabled.is_a(&id("democracy", "tabled")));
}

#[test]
fn first_match_in_a_block() {
    let events = vec![
        event("System", "ExtrinsicSuccess", &[]),
        event("Democracy", "Voted", &[1]),
        event("Balances", "Transfer", &[]),
        event("Democracy", "Voted", &[2]),
    ];
    assert_eq!(find_first(&events, &id("Democracy", "Voted")), Some(1));
    assert_eq!(find_first(&events, &id("System", "ExtrinsicSuccess")), Some(0));
    assert_eq!(find_first(&events, &id("Balances", "Transfer")), Some(2));
    assert_eq!(find_first(&events, &id("Democracy", "Passed")), None);
    assert_eq!(find_first(&Vec::new(), &id("Democracy", "Voted")), None);
}

#[test]
fn watcher_takes_the_first_match_and_stops() {
    let mut watcher = EventWatcher::new(id("Democracy", "Passed"));
    assert!(watcher.is_watching());
    assert_eq!(watcher.outcome(), None);

    watcher.on_block(&vec![event("Democracy", "Tabled", &[])]);
    assert!(watcher.is_watching());
    assert_eq!(watcher.state, WatchState::Watching);

    watcher.on_block(&vec![event("System", "NewAccount", &[]), event("Democracy", "Passed", &[7])]);
    assert!(!watcher.is_watching());
    assert_eq!(watcher.outcome(), Some(Ok(1)));

    watcher.on_block(&vec![event("Democracy", "Passed", &[8])]);
    assert_eq!(watcher.outcome(), Some(Ok(1)));
    watcher.on_end();
    assert_eq!(watcher.outcome(), Some(Ok(1)));
}

#[test]
fn watcher_reports_not_found_when_the_stream_ends() {
    let mut watcher = EventWatcher::new(id("Democracy", "Passed"));
    watcher.on_block(&vec![event("Democracy", "Tabled", &[])]);
    watcher.on_block(&Vec::new());
    watcher.on_end();
    assert!(!watcher.is_watching());
    assert_eq!(watcher.state, WatchState::NotFound);
    assert_eq!(watcher.outcome(), Some(Err(ClientError::NotFound)));
    watcher.on_block(&vec![event("Democracy", "Passed", &[])]);
    assert_eq!(watcher.outcome(), Some(Err(ClientError::NotFound)));
}

#[test]
fn wait_for_event_returns_the_event_of_the_second_block() {
    let blocks = vec![
        vec![event("System", "ExtrinsicSuccess", &[]), event("Democracy", "Started", &[0])],
        vec![event("Balances", "Deposit", &[]), event("Democracy", "Tabled", &[2])],
        vec![event("Democracy", "Tabled", &[3])],
    ];
    assert_eq!(wait_for_event(&blocks, &id("Democracy", "Tabled")), Ok((1, 1)));
    assert_eq!(blocks[1][1].fields, vec![2]);
}

#[test]
fn wait_for_event_prefers_the_earliest_block_and_position() {
    let blocks = vec![
        Vec::new(),
        vec![event("Democracy", "Passed", &[1]), event("Democracy", "Passed", &[2])],
        vec![event("Democracy", "Passed", &[3])],
    ];
    assert_eq!(wait_for_event(&blocks, &id("Democracy", "Passed")), Ok((1, 0)));
    let first = vec![vec![event("Democracy", "Passed", &[1])]];
    assert_eq!(wait_for_event(&first, &id("Democracy", "Passed")), Ok((0, 0)));
}

#[test]
fn wait_for_event_without_a_match_is_not_found() {
    let blocks = vec![
        vec![event("Democracy", "Started", &[])],
        vec![event("Democracy", "Tabled", &[])],
    ];
    assert_eq!(wait_for_event(&blocks, &id("Democracy", "Passed")), Err(ClientError::NotFound));
    assert_eq!(wait_for_event(&Vec::new(), &id("Democracy", "Passed")), Err(ClientError::NotFound));
}
