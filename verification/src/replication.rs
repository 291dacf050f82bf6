//! The replication scheduler: on every tick the producer copies its
//! snapshot into the durable store, the blob first and the freshness
//! record second.
//!
//! A record in the store thus always describes a blob that was written
//! before it. Each tick overwrites both entries in full. A tick that fails
//! anywhere is given up, and the next tick starts from scratch.

use vstd::prelude::*;
use crate::metadata::{encoded, FreshnessMetadata};
use crate::store::{after_put, StoreContents, StoreError, StoreKey};

verus! {

/// Seconds between two ticks, unless configured otherwise.
pub const DEFAULT_INTERVAL_SECONDS: u64 = 30;

/// Where the scheduler stands.
#[derive(Clone, Copy, Debug, PartialEq, Eq, Structural)]
pub enum SchedulerState {
    /// No durable store is at hand: the task sleeps for good.
    Parked,
    /// Between two ticks.
    Waiting,
    /// A tick came and the snapshot is being read.
    Reading,
    /// The blob is being written. `record` describes it.
    WritingBlob { record: FreshnessMetadata },
    /// The blob is in the store and its record is being written.
    WritingMetadata,
}

/// What the scheduler's surroundings report.
#[derive(Debug, PartialEq, Eq)]
pub enum SchedulerEvent<B> {
    /// The interval elapsed.
    Tick,
    /// The snapshot was read at time `now`, in seconds since the epoch.
    SourceRead { blob: B, now: u64 },
    /// The snapshot could not be read.
    SourceUnreadable,
    /// The store took the value.
    PutSucceeded,
    /// The store did not take the value.
    PutFailed(StoreError),
}

/// What the scheduler is to do next.
#[derive(Debug, PartialEq, Eq)]
pub enum SchedulerAction<B> {
    /// Sleep without ever waking up, and without spinning.
    Park,
    /// Sleep until the next tick.
    AwaitTick,
    /// Read the snapshot and the clock.
    ReadSource,
    /// Write `value` under `key`.
    Put { key: StoreKey, value: B },
}

impl View for SchedulerEvent<Vec<u8>> {
    type V = SchedulerEvent<Seq<u8>>;

    open spec fn view(&self) -> SchedulerEvent<Seq<u8>> {
        match *self {
            SchedulerEvent::Tick => SchedulerEvent::Tick,
            SchedulerEvent::SourceRead { blob, now } => SchedulerEvent::SourceRead {
                blob: blob@,
                now,
            },
            SchedulerEvent::SourceUnreadable => SchedulerEvent::SourceUnreadable,
            SchedulerEvent::PutSucceeded => SchedulerEvent::PutSucceeded,
            SchedulerEvent::PutFailed(error) => SchedulerEvent::PutFailed(error),
        }
    }
}

impl View for SchedulerAction<Vec<u8>> {
    type V = SchedulerAction<Seq<u8>>;

    open spec fn view(&self) -> SchedulerAction<Seq<u8>> {
        match *self {
            SchedulerAction::Park => SchedulerAction::Park,
            SchedulerAction::AwaitTick => SchedulerAction::AwaitTick,
            SchedulerAction::ReadSource => SchedulerAction::ReadSource,
            SchedulerAction::Put { key, value } => SchedulerAction::Put { key, value: value@ },
        }
    }
}

/// The record that describes `blob` as read at time `now`.
pub open spec fn record_of(blob: Seq<u8>, now: u64) -> FreshnessMetadata {
    FreshnessMetadata { timestamp: now, size: blob.len() as u64 }
}

/// Where a scheduler starts: waiting for its first tick if a store
/// is at hand, parked if not.
pub open spec fn scheduler_start(store_at_hand: bool) -> (SchedulerState, SchedulerAction<Seq<u8>>) {
    if store_at_hand {
        (SchedulerState::Waiting, SchedulerAction::AwaitTick)
    } else {
        (SchedulerState::Parked, SchedulerAction::Park)
    }
}

/// The scheduler's rule: the state that follows `state` on `event`, and
/// what to do.
///
/// A tick leads to a read, the read to the blob's write, and only the
/// success of that write to the record's write. Every other event gives
/// the current tick up and waits for the next. A parked scheduler stays
/// parked.
pub open spec fn scheduler_step(state: SchedulerState, event: SchedulerEvent<Seq<u8>>) -> (
    SchedulerState,
    SchedulerAction<Seq<u8>>,
) {
    match (state, event) {
        (SchedulerState::Parked, _) => (SchedulerState::Parked, SchedulerAction::Park),
        (SchedulerState::Waiting, SchedulerEvent::Tick) => (
            SchedulerState::Reading,
            SchedulerAction::ReadSource,
        ),
        (SchedulerState::Reading, SchedulerEvent::SourceRead { blob, now }) => (
            SchedulerState::WritingBlob { record: record_of(blob, now) },
            SchedulerAction::Put { key: StoreKey::TowerFile, value: blob },
        ),
        (SchedulerState::WritingBlob { record }, SchedulerEvent::PutSucceeded) => (
            SchedulerState::WritingMetadata,
            SchedulerAction::Put { key: StoreKey::TowerMetadata, value: encoded(record) },
        ),
        _ => (SchedulerState::Waiting, SchedulerAction::AwaitTick),
    }
}

impl SchedulerState {
    /// The state of a scheduler at startup, and its first action.
    pub fn start(store_at_hand: bool) -> (r: (Self, SchedulerAction<Vec<u8>>))
        ensures
            (r.0, r.1@) == scheduler_start(store_at_hand),
    {
        if store_at_hand {
            (SchedulerState::Waiting, SchedulerAction::AwaitTick)
        } else {
            (SchedulerState::Parked, SchedulerAction::Park)
        }
    }

    /// Takes one event and says what to do next.
    pub fn step(self, event: SchedulerEvent<Vec<u8>>) -> (r: (Self, SchedulerAction<Vec<u8>>))
        ensures
            (r.0, r.1@) == scheduler_step(self, event@),
    {
        match (self, event) {
            (SchedulerState::Parked, _) => (SchedulerState::Parked, SchedulerAction::Park),
            (SchedulerState::Waiting, SchedulerEvent::Tick) => (
                SchedulerState::Reading,
                SchedulerAction::ReadSource,
            ),
            (SchedulerState::Reading, SchedulerEvent::SourceRead { blob, now }) => {
                let record = FreshnessMetadata { timestamp: now, size: blob.len() as u64 };
                (
                    SchedulerState::WritingBlob { record },
                    SchedulerAction::Put { key: StoreKey::TowerFile, value: blob },
                )
            },
            (SchedulerState::WritingBlob { record }, SchedulerEvent::PutSucceeded) => (
                SchedulerState::WritingMetadata,
                SchedulerAction::Put { key: StoreKey::TowerMetadata, value: record.encode() },
            ),
            _ => (SchedulerState::Waiting, SchedulerAction::AwaitTick),
        }
    }
}

/// Where the scheduler stands after `events`, starting from `state`.
pub open spec fn scheduler_run(
    state: SchedulerState,
    events: Seq<SchedulerEvent<Seq<u8>>>,
) -> SchedulerState
    decreases events.len(),
{
    if events.len() == 0 {
        state
    } else {
        scheduler_step(scheduler_run(state, events.drop_last()), events.last()).0
    }
}

/// What the scheduler does on the event at index `i` of `events`, having
/// started from `state`.
pub open spec fn scheduler_action(
    state: SchedulerState,
    events: Seq<SchedulerEvent<Seq<u8>>>,
    i: int,
) -> SchedulerAction<Seq<u8>> {
    scheduler_step(scheduler_run(state, events.take(i)), events[i]).1
}

/// The store after one tick in which both writes succeeded: it holds the
/// blob, and the record that describes it.
pub open spec fn replicated(contents: StoreContents, blob: Seq<u8>, now: u64) -> StoreContents {
    after_put(
        after_put(contents, StoreKey::TowerFile, blob),
        StoreKey::TowerMetadata,
        encoded(record_of(blob, now)),
    )
}

/// The store is written blob first, record second.
///
/// Whatever the scheduler is told, and in whatever order: it asks for a
/// record to be written only as its answer to the success of a blob's
/// write, that write was the action just before, and the record carries
/// the time at which that blob was read and its length.
pub proof fn law_record_follows_its_blob(
    store_at_hand: bool,
    events: Seq<SchedulerEvent<Seq<u8>>>,
    i: int,
)
    requires
        0 <= i < events.len(),
        scheduler_action(scheduler_start(store_at_hand).0, events, i) matches SchedulerAction::Put {
            key,
            ..
        } && key == StoreKey::TowerMetadata,
    ensures
        i >= 1,
        events[i] == SchedulerEvent::<Seq<u8>>::PutSucceeded,
        events[i - 1] matches SchedulerEvent::SourceRead { blob, now } && scheduler_action(
            scheduler_start(store_at_hand).0,
            events,
            i - 1,
        ) == (SchedulerAction::Put { key: StoreKey::TowerFile, value: blob }) && scheduler_action(
            scheduler_start(store_at_hand).0,
            events,
            i,
        ) == (SchedulerAction::Put {
            key: StoreKey::TowerMetadata,
            value: encoded(record_of(blob, now)),
        }),
{
    let start = scheduler_start(store_at_hand).0;
    let before = scheduler_run(start, events.take(i));
    assert(before is WritingBlob);
    if i == 0 {
        assert(events.take(0).len() == 0);
        assert(before == start);
    } else {
        assert(events.take(i).drop_last() =~= events.take(i - 1));
        assert(events.take(i).last() == events[i - 1]);
    }
}

/// One tick in which nothing fails writes the blob, then its record, and
/// leaves the scheduler waiting for the next tick.
pub proof fn law_tick_writes_blob_then_record(blob: Seq<u8>, now: u64)
    ensures
        ({
            let s0 = scheduler_start(true).0;
            let (s1, a1) = scheduler_step(s0, SchedulerEvent::Tick);
            let (s2, a2) = scheduler_step(s1, SchedulerEvent::SourceRead { blob, now });
            let (s3, a3) = scheduler_step(s2, SchedulerEvent::PutSucceeded);
            let (s4, a4) = scheduler_step(s3, SchedulerEvent::PutSucceeded);
            &&& a1 == SchedulerAction::<Seq<u8>>::ReadSource
            &&& a2 == SchedulerAction::Put { key: StoreKey::TowerFile, value: blob }
            &&& a3 == SchedulerAction::Put {
                key: StoreKey::TowerMetadata,
                value: encoded(record_of(blob, now)),
            }
            &&& a4 == SchedulerAction::<Seq<u8>>::AwaitTick
            &&& s4 == SchedulerState::Waiting
        }),
{
}

/// A write that fails ends the tick: the record is not written after a
/// blob that did not reach the store, and nothing is retried before the
/// next tick.
pub proof fn law_failed_write_skips_the_tick(record: FreshnessMetadata, error: StoreError)
    ensures
        scheduler_step(SchedulerState::WritingBlob { record }, SchedulerEvent::PutFailed(error)) == (
            SchedulerState::Waiting,
            SchedulerAction::<Seq<u8>>::AwaitTick,
        ),
        scheduler_step(SchedulerState::WritingMetadata, SchedulerEvent::PutFailed(error)) == (
            SchedulerState::Waiting,
            SchedulerAction::<Seq<u8>>::AwaitTick,
        ),
{
}

/// Without a store the scheduler parks and stays parked, whatever happens.
pub proof fn law_parked_scheduler_stays_parked(events: Seq<SchedulerEvent<Seq<u8>>>)
    ensures
        scheduler_run(scheduler_start(false).0, events) == SchedulerState::Parked,
    decreases events.len(),
{
    if events.len() > 0 {
        law_parked_scheduler_stays_parked(events.drop_last());
    }
}

} // verus!
