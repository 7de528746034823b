use crate::error::ClientError;
use vstd::prelude::*;

verus! {

/// The identity of an event type: the pallet that emits it and the name of
/// the event within that pallet.
#[derive(Debug, PartialEq, Eq)]
pub struct EventId {
    pub pallet: String,
    pub variant: String,
}

/// One event of a block's event log, with its fields still encoded.
#[derive(Debug, PartialEq, Eq)]
pub struct EventRecord {
    pub pallet: String,
    pub variant: String,
    pub fields: Vec<u8>,
}

/// An event type as a pair of names.
pub struct EventName {
    pub pallet: Seq<char>,
    pub variant: Seq<char>,
}

impl View for EventId {
    type V = EventName;

    open spec fn view(&self) -> EventName {
        EventName { pallet: self.pallet@, variant: self.variant@ }
    }
}

/// Whether `record` is an event of the type `name`.
pub open spec fn is_event(record: EventRecord, name: EventName) -> bool {
    record.pallet@ == name.pallet && record.variant@ == name.variant
}

/// Whether position `at` holds the first event of type `name` in `events`.
pub open spec fn is_first_match(events: Seq<EventRecord>, name: EventName, at: int) -> bool {
    &&& 0 <= at < events.len()
    &&& is_event(events[at], name)
    &&& forall|j: int| 0 <= j < at ==> !is_event(#[trigger] events[j], name)
}

/// Whether `events` holds no event of type `name`.
pub open spec fn has_no_match(events: Seq<EventRecord>, name: EventName) -> bool {
    forall|j: int| 0 <= j < events.len() ==> !is_event(#[trigger] events[j], name)
}

/// An event log has at most one first event of a type.
pub proof fn lemma_first_match_is_unique(
    events: Seq<EventRecord>,
    name: EventName,
    one: int,
    other: int,
)
    requires
        is_first_match(events, name, one),
        is_first_match(events, name, other),
    ensures
        one == other,
{
    if one < other {
        assert(!is_event(events[one], name));
    } else if other < one {
        assert(!is_event(events[other], name));
    }
}

impl EventRecord {
    /// Tests whether this event is of the type `id`.
    pub fn is_a(&self, id: &EventId) -> (hit: bool)
        ensures
            hit == is_event(*self, id@),
    {
        self.pallet == id.pallet && self.variant == id.variant
    }
}

/// Finds the first event of type `id` in the event log of one block.
pub fn find_first(events: &Vec<EventRecord>, id: &EventId) -> (found: Option<usize>)
    ensures
        match found {
            Some(at) => is_first_match(events@, id@, at as int),
            None => has_no_match(events@, id@),
        },
{
    let mut i: usize = 0;
    while i < events.len()
        invariant
            i <= events.len(),
            forall|j: int| 0 <= j < i ==> !is_event(#[trigger] events@[j], id@),
        decreases events.len() - i,
    {
        if events[i].is_a(id) {
            return Some(i);
        }
        i += 1;
    }
    None
}

/// Where a search of the finalized-block stream stands.
#[derive(Debug, Clone, Copy, PartialEq, Eq)]
pub enum WatchState {
    /// No block searched so far held the event; the subscription is open.
    Watching,
    /// The event was found at this position of a block's event log, and the
    /// subscription was cancelled.
    Found(usize),
    /// The stream ended before the event arrived.
    NotFound,
}

/// A search of the live stream of finalized blocks for the first event of one
/// type. The caller feeds it each block as it arrives, and cancels the
/// subscription as soon as the watcher has stopped watching.
#[derive(Debug)]
pub struct EventWatcher {
    pub target: EventId,
    pub state: WatchState,
}

/// The state after a watcher in state `before` has been shown a block with
/// the event log `events`.
pub open spec fn watch_block(
    before: WatchState,
    events: Seq<EventRecord>,
    name: EventName,
    after: WatchState,
) -> bool {
    match before {
        WatchState::Watching => match after {
            WatchState::Watching => has_no_match(events, name),
            WatchState::Found(at) => is_first_match(events, name, at as int),
            WatchState::NotFound => false,
        },
        _ => after == before,
    }
}

/// Whether the first event of type `name` in the stream `blocks` is in block
/// `block`, at position `at` of its event log.
pub open spec fn is_first_in_stream(
    blocks: Seq<Vec<EventRecord>>,
    name: EventName,
    block: int,
    at: int,
) -> bool {
    &&& 0 <= block < blocks.len()
    &&& is_first_match(blocks[block]@, name, at)
    &&& forall|k: int| 0 <= k < block ==> has_no_match(#[trigger] blocks[k]@, name)
}

/// Whether no block of the stream `blocks` holds an event of type `name`.
pub open spec fn stream_has_no_match(blocks: Seq<Vec<EventRecord>>, name: EventName) -> bool {
    forall|k: int| 0 <= k < blocks.len() ==> has_no_match(#[trigger] blocks[k]@, name)
}

/// A stream has at most one first event of a type: a search never has two
/// results, and it has one exactly when some block holds the event.
pub proof fn lemma_first_in_stream_is_unique(
    blocks: Seq<Vec<EventRecord>>,
    name: EventName,
    block: int,
    at: int,
    other_block: int,
    other_at: int,
)
    requires
        is_first_in_stream(blocks, name, block, at),
        is_first_in_stream(blocks, name, other_block, other_at),
    ensures
        block == other_block,
        at == other_at,
        !stream_has_no_match(blocks, name),
{
    if block < other_block {
        assert(has_no_match(blocks[block]@, name));
        assert(!is_event(blocks[block]@[at], name));
    } else if other_block < block {
        assert(has_no_match(blocks[other_block]@, name));
        assert(!is_event(blocks[other_block]@[other_at], name));
    } else {
        lemma_first_match_is_unique(blocks[block]@, name, at, other_at);
    }
    if stream_has_no_match(blocks, name) {
        assert(has_no_match(blocks[block]@, name));
        assert(!is_event(blocks[block]@[at], name));
    }
}

impl EventWatcher {
    /// Starts a search for events of type `target`.
    pub fn new(target: EventId) -> (watcher: Self)
        ensures
            watcher.target == target,
            watcher.state == WatchState::Watching,
    {
        EventWatcher { target, state: WatchState::Watching }
    }

    /// Whether the subscription is still needed.
    pub fn is_watching(&self) -> (open: bool)
        ensures
            open == (self.state is Watching),
    {
        match self.state {
            WatchState::Watching => true,
            _ => false,
        }
    }

    /// Takes the next finalized block. While watching, the block's event log
    /// is searched in order and the first event of the target type ends the
    /// search. A watcher that has stopped watching ignores the block.
    pub fn on_block(&mut self, events: &Vec<EventRecord>)
        ensures
            final(self).target == old(self).target,
            watch_block(old(self).state, events@, old(self).target@, final(self).state),
    {
        if self.is_watching() {
            match find_first(events, &self.target) {
                Some(at) => {
                    self.state = WatchState::Found(at);
                },
                None => {},
            }
        }
    }

    /// Takes the end of the stream. A watcher that was still watching has not
    /// found the event; otherwise nothing changes.
    pub fn on_end(&mut self)
        ensures
            final(self).target == old(self).target,
            final(self).state == (if old(self).state is Watching {
                WatchState::NotFound
            } else {
                old(self).state
            }),
    {
        if self.is_watching() {
            self.state = WatchState::NotFound;
        }
    }

    /// What the search has come to: nothing yet while watching, the position
    /// of the event in its block once found, `NotFound` once the stream has
    /// ended without it.
    pub fn outcome(&self) -> (result: Option<Result<usize, ClientError>>)
        ensures
            result == (match self.state {
                WatchState::Watching => None,
                WatchState::Found(at) => Some(Ok(at)),
                WatchState::NotFound => Some(Err(ClientError::NotFound)),
            }),
    {
        match self.state {
            WatchState::Watching => None,
            WatchState::Found(at) => Some(Ok(at)),
            WatchState::NotFound => Some(Err(ClientError::NotFound)),
        }
    }
}

/// Searches a stream of finalized blocks, given in arrival order and ending
/// with the last block of `blocks`, for the first event of type `id`. The
/// result is the number of the block that holds it and its position in that
/// block's event log. Blocks after the first match are not looked at.
pub fn wait_for_event(blocks: &Vec<Vec<EventRecord>>, id: &EventId) -> (result: Result<
    (usize, usize),
    ClientError,
>)
    ensures
        match result {
            Ok((block, at)) => is_first_in_stream(blocks@, id@, block as int, at as int),
            Err(e) => e == ClientError::NotFound && stream_has_no_match(blocks@, id@),
        },
{
    let mut watcher = EventWatcher::new(
        EventId { pallet: id.pallet.clone(), variant: id.variant.clone() },
    );
    let mut block: usize = 0;
    while block < blocks.len()
        invariant
            block <= blocks.len(),
            watcher.target@ == id@,
            watcher.state is Watching,
            forall|k: int| 0 <= k < block ==> has_no_match(#[trigger] blocks@[k]@, id@),
        decreases blocks.len() - block,
    {
        watcher.on_block(&blocks[block]);
        match watcher.outcome() {
            Some(Ok(at)) => {
                return Ok((block, at));
            },
            _ => {},
        }
        block += 1;
    }
    watcher.on_end();
    Err(ClientError::NotFound)
}

} // verus!
