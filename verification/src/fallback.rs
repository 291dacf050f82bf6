//! Fallback acquisition: the consumer pulls the snapshot from the durable
//! store, once per failover attempt.
//!
//! The freshness record is consulted before the blob is fetched. A record
//! that says the snapshot is older than the staleness bound ends the
//! attempt with `StaleData`, and nothing is fetched or written. A store
//! that has no record to give is no obstacle: the blob is fetched anyway.
//! A record that cannot be read is an error of its own.

use vstd::prelude::*;
use crate::arbitration::{destination_after, outcome_of, PathError, PathOutcome, PersistStatus};
use crate::metadata::{decode_timestamp, decoded_timestamp, encoded, law_encoded_timestamp_is_decoded};
use crate::replication::{record_of, replicated};
use crate::store::{answer_to_get, StoreContents, StoreError, StoreKey};

verus! {

/// The staleness bound, in seconds, unless configured otherwise.
pub const DEFAULT_STALENESS_BOUND_SECONDS: u64 = 300;

/// The age in seconds, at time `now`, of a snapshot taken at `timestamp`.
/// A timestamp that lies ahead of the clock gives the age zero.
pub open spec fn age(now: u64, timestamp: u64) -> u64 {
    if now >= timestamp {
        (now - timestamp) as u64
    } else {
        0
    }
}

/// A snapshot taken at `timestamp` is unusable at time `now`: it is older
/// than `bound` seconds.
pub open spec fn is_stale(now: u64, timestamp: u64, bound: u64) -> bool {
    age(now, timestamp) > bound
}

/// The age in seconds, at time `now`, of a snapshot taken at `timestamp`.
pub fn age_seconds(now: u64, timestamp: u64) -> (seconds: u64)
    ensures
        seconds == age(now, timestamp),
{
    now.saturating_sub(timestamp)
}

/// Whether a snapshot taken at `timestamp` is too old at time `now`.
pub fn exceeds_bound(now: u64, timestamp: u64, bound: u64) -> (stale: bool)
    ensures
        stale == is_stale(now, timestamp, bound),
{
    age_seconds(now, timestamp) > bound
}

/// Where the acquisition stands.
#[derive(Clone, Copy, Debug, PartialEq, Eq, Structural)]
pub enum FallbackState {
    /// The freshness record was asked for.
    AwaitingMetadata,
    /// The blob was asked for.
    AwaitingBlob,
    /// The blob was handed over for the replacement of the destination.
    Persisting,
    /// The acquisition is over.
    Done(PathOutcome),
}

/// What the store and the destination report.
#[derive(Debug, PartialEq, Eq)]
pub enum FallbackEvent<B> {
    /// The store's answer to the request for the record, which came at
    /// time `now`, in seconds since the epoch.
    Metadata { answer: Result<B, StoreError>, now: u64 },
    /// The store's answer to the request for the blob.
    Blob(Result<B, StoreError>),
    /// The attempt to replace the destination ended.
    PersistFinished(PersistStatus),
}

/// What the consumer is to do next.
#[derive(Debug, PartialEq, Eq)]
pub enum FallbackAction<B> {
    /// Ask the store for the value under this key.
    Get(StoreKey),
    /// Replace the destination with these bytes in one atomic step, if the
    /// commit token can be had.
    Persist(B),
    /// Stop and report the outcome.
    Finish(PathOutcome),
    /// The event does not belong to the current state: do nothing.
    Nothing,
}

/// The store's answer, with the bytes as a sequence.
pub open spec fn answer_view(answer: Result<Vec<u8>, StoreError>) -> Result<Seq<u8>, StoreError> {
    match answer {
        Ok(bytes) => Ok(bytes@),
        Err(error) => Err(error),
    }
}

impl View for FallbackEvent<Vec<u8>> {
    type V = FallbackEvent<Seq<u8>>;

    open spec fn view(&self) -> FallbackEvent<Seq<u8>> {
        match *self {
            FallbackEvent::Metadata { answer, now } => FallbackEvent::Metadata {
                answer: answer_view(answer),
                now,
            },
            FallbackEvent::Blob(answer) => FallbackEvent::Blob(answer_view(answer)),
            FallbackEvent::PersistFinished(status) => FallbackEvent::PersistFinished(status),
        }
    }
}

impl View for FallbackAction<Vec<u8>> {
    type V = FallbackAction<Seq<u8>>;

    open spec fn view(&self) -> FallbackAction<Seq<u8>> {
        match *self {
            FallbackAction::Get(key) => FallbackAction::Get(key),
            FallbackAction::Persist(bytes) => FallbackAction::Persist(bytes@),
            FallbackAction::Finish(outcome) => FallbackAction::Finish(outcome),
            FallbackAction::Nothing => FallbackAction::Nothing,
        }
    }
}

/// What follows the store's answer to the request for the record.
///
/// No record, for whatever reason: the freshness is unknown and the blob is
/// fetched. A record that cannot be read: `MetadataFormat`. A record whose
/// timestamp is more than `bound` seconds behind `now`: `StaleData`.
/// Otherwise the blob is fetched.
pub open spec fn after_metadata(answer: Result<Seq<u8>, StoreError>, now: u64, bound: u64) -> (
    FallbackState,
    FallbackAction<Seq<u8>>,
) {
    let fetch = (FallbackState::AwaitingBlob, FallbackAction::Get(StoreKey::TowerFile));
    match answer {
        Err(_) => fetch,
        Ok(record) => match decoded_timestamp(record) {
            Err(error) => {
                let outcome = PathOutcome::Failed(PathError::MetadataFormat(error));
                (FallbackState::Done(outcome), FallbackAction::Finish(outcome))
            },
            Ok(timestamp) => if is_stale(now, timestamp, bound) {
                let outcome = PathOutcome::Failed(PathError::StaleData);
                (FallbackState::Done(outcome), FallbackAction::Finish(outcome))
            } else {
                fetch
            },
        },
    }
}

/// Where an acquisition starts.
pub open spec fn fallback_start() -> (FallbackState, FallbackAction<Seq<u8>>) {
    (FallbackState::AwaitingMetadata, FallbackAction::Get(StoreKey::TowerMetadata))
}

/// The acquisition's rule: the state that follows `state` on `event` under
/// the staleness bound `bound`, and what to do.
pub open spec fn fallback_step(state: FallbackState, event: FallbackEvent<Seq<u8>>, bound: u64) -> (
    FallbackState,
    FallbackAction<Seq<u8>>,
) {
    match (state, event) {
        (FallbackState::AwaitingMetadata, FallbackEvent::Metadata { answer, now }) => after_metadata(
            answer,
            now,
            bound,
        ),
        (FallbackState::AwaitingBlob, FallbackEvent::Blob(Ok(blob))) => (
            FallbackState::Persisting,
            FallbackAction::Persist(blob),
        ),
        (FallbackState::AwaitingBlob, FallbackEvent::Blob(Err(error))) => {
            let outcome = PathOutcome::Failed(PathError::FetchFailed(error));
            (FallbackState::Done(outcome), FallbackAction::Finish(outcome))
        },
        (FallbackState::Persisting, FallbackEvent::PersistFinished(status)) => (
            FallbackState::Done(outcome_of(status)),
            FallbackAction::Finish(outcome_of(status)),
        ),
        _ => (state, FallbackAction::Nothing),
    }
}

impl FallbackState {
    /// The state of an acquisition that just began, and its first action.
    pub fn start() -> (r: (Self, FallbackAction<Vec<u8>>))
        ensures
            (r.0, r.1@) == fallback_start(),
    {
        (FallbackState::AwaitingMetadata, FallbackAction::Get(StoreKey::TowerMetadata))
    }

    /// Takes one event and says what to do next, under the staleness
    /// bound `bound`, in seconds.
    pub fn step(self, event: FallbackEvent<Vec<u8>>, bound: u64) -> (r: (
        Self,
        FallbackAction<Vec<u8>>,
    ))
        ensures
            (r.0, r.1@) == fallback_step(self, event@, bound),
    {
        match (self, event) {
            (FallbackState::AwaitingMetadata, FallbackEvent::Metadata { answer, now }) => {
                let fetch = (FallbackState::AwaitingBlob, FallbackAction::Get(StoreKey::TowerFile));
                match answer {
                    Err(_) => fetch,
                    Ok(record) => match decode_timestamp(record.as_slice()) {
                        Err(error) => {
                            let outcome = PathOutcome::Failed(PathError::MetadataFormat(error));
                            (FallbackState::Done(outcome), FallbackAction::Finish(outcome))
                        },
                        Ok(timestamp) => {
                            if exceeds_bound(now, timestamp, bound) {
                                let outcome = PathOutcome::Failed(PathError::StaleData);
                                (FallbackState::Done(outcome), FallbackAction::Finish(outcome))
                            } else {
                                fetch
                            }
                        },
                    },
                }
            },
            (FallbackState::AwaitingBlob, FallbackEvent::Blob(Ok(blob))) => (
                FallbackState::Persisting,
                FallbackAction::Persist(blob),
            ),
            (FallbackState::AwaitingBlob, FallbackEvent::Blob(Err(error))) => {
                let outcome = PathOutcome::Failed(PathError::FetchFailed(error));
                (FallbackState::Done(outcome), FallbackAction::Finish(outcome))
            },
            (FallbackState::Persisting, FallbackEvent::PersistFinished(status)) => {
                let outcome = status.outcome();
                (FallbackState::Done(outcome), FallbackAction::Finish(outcome))
            },
            (state, _) => (state, FallbackAction::Nothing),
        }
    }
}

/// How a whole acquisition ends, and which bytes, if any, it handed over
/// for the replacement of the destination.
pub struct Acquisition {
    pub outcome: PathOutcome,
    pub handed_over: Option<Seq<u8>>,
}

/// What a store that answers and holds `contents` reports when `action` is
/// carried out at time `now`, the attempt to replace the destination ending
/// with `status`.
pub open spec fn report_on(
    action: FallbackAction<Seq<u8>>,
    contents: StoreContents,
    now: u64,
    status: PersistStatus,
) -> FallbackEvent<Seq<u8>> {
    match action {
        FallbackAction::Get(key) => match key {
            StoreKey::TowerMetadata => FallbackEvent::Metadata {
                answer: answer_to_get(contents, key),
                now,
            },
            StoreKey::TowerFile => FallbackEvent::Blob(answer_to_get(contents, key)),
        },
        _ => FallbackEvent::PersistFinished(status),
    }
}

/// Carries out `action` and every action that follows from it, for at most
/// `steps` events, and says how the acquisition ended; nothing, if it has
/// not ended by then.
pub open spec fn drive(
    state: FallbackState,
    action: FallbackAction<Seq<u8>>,
    contents: StoreContents,
    now: u64,
    bound: u64,
    status: PersistStatus,
    handed_over: Option<Seq<u8>>,
    steps: nat,
) -> Option<Acquisition>
    decreases steps,
{
    match action {
        FallbackAction::Finish(outcome) => Some(Acquisition { outcome, handed_over }),
        FallbackAction::Nothing => None,
        _ => if steps == 0 {
            None
        } else {
            let handed_over = match action {
                FallbackAction::Persist(blob) => Some(blob),
                _ => handed_over,
            };
            let next = fallback_step(state, report_on(action, contents, now, status), bound);
            drive(next.0, next.1, contents, now, bound, status, handed_over, (steps - 1) as nat)
        },
    }
}

/// A whole acquisition against a store that answers and holds `contents`:
/// each action is carried out and what came of it is reported back, until
/// the acquisition says that it is over.
pub open spec fn acquisition(
    contents: StoreContents,
    now: u64,
    bound: u64,
    status: PersistStatus,
) -> Option<Acquisition> {
    drive(fallback_start().0, fallback_start().1, contents, now, bound, status, None, 3)
}

/// The record is consulted before the blob is fetched: an acquisition
/// starts by asking for the record, and asks for the blob only in answer
/// to what the store said of the record.
pub proof fn law_record_is_consulted_first(
    state: FallbackState,
    event: FallbackEvent<Seq<u8>>,
    bound: u64,
)
    ensures
        fallback_start() == (
            FallbackState::AwaitingMetadata,
            FallbackAction::<Seq<u8>>::Get(StoreKey::TowerMetadata),
        ),
        fallback_step(state, event, bound).1 == FallbackAction::<Seq<u8>>::Get(StoreKey::TowerFile)
            ==> state == FallbackState::AwaitingMetadata && event is Metadata,
        fallback_step(state, event, bound).1 != FallbackAction::<Seq<u8>>::Get(
            StoreKey::TowerMetadata,
        ),
{
}

/// A timestamp ahead of the clock counts as fresh under every bound.
pub proof fn law_clock_skew_is_fresh(now: u64, timestamp: u64, bound: u64)
    requires
        now < timestamp,
    ensures
        age(now, timestamp) == 0,
        !is_stale(now, timestamp, bound),
{
}

/// A replicated snapshot is acquired exactly while it is fresh.
///
/// Let the scheduler have written `blob` and its record at time `t`, and
/// let the acquisition run `delta` seconds later against that store. If
/// `delta` is within the bound, the acquisition hands over exactly `blob`,
/// and the destination holds it once the replacement succeeded. If `delta`
/// is beyond the bound, the acquisition ends with `StaleData`, hands
/// nothing over, and the destination is what it was.
pub proof fn law_replica_is_acquired_while_fresh(
    contents: StoreContents,
    blob: Seq<u8>,
    t: u64,
    delta: u64,
    bound: u64,
    before: Option<Seq<u8>>,
)
    requires
        t + delta <= u64::MAX,
    ensures
        ({
            let store = replicated(contents, blob, t);
            let run = acquisition(store, (t + delta) as u64, bound, PersistStatus::Written);
            &&& run matches Some(end)
            &&& delta <= bound ==> end.outcome == PathOutcome::Committed && end.handed_over == Some(
                blob,
            ) && destination_after(before, end.handed_over, PersistStatus::Written) == Some(blob)
            &&& delta > bound ==> end.outcome == PathOutcome::Failed(PathError::StaleData)
                && end.handed_over == None::<Seq<u8>> && destination_after(
                before,
                end.handed_over,
                PersistStatus::Written,
            ) == before
        }),
{
    reveal_with_fuel(drive, 4);
    law_encoded_timestamp_is_decoded(record_of(blob, t));
    let store = replicated(contents, blob, t);
    assert(answer_to_get(store, StoreKey::TowerMetadata) == Ok::<Seq<u8>, StoreError>(
        encoded(record_of(blob, t)),
    ));
    assert(answer_to_get(store, StoreKey::TowerFile) == Ok::<Seq<u8>, StoreError>(blob));
    assert(age((t + delta) as u64, t) == delta);
}

/// A store without a freshness record still serves the blob.
///
/// Whatever the reason for which the record could not be had, the blob is
/// asked for next; and where the store holds a blob and no record, the
/// acquisition hands over that blob, at any time and under any bound.
pub proof fn law_missing_record_is_no_obstacle(
    contents: StoreContents,
    blob: Seq<u8>,
    error: StoreError,
    now: u64,
    bound: u64,
)
    requires
        !contents.dom().contains(StoreKey::TowerMetadata),
        contents.dom().contains(StoreKey::TowerFile),
        contents[StoreKey::TowerFile] == blob,
    ensures
        fallback_step(
            FallbackState::AwaitingMetadata,
            FallbackEvent::Metadata { answer: Err(error), now },
            bound,
        ) == (FallbackState::AwaitingBlob, FallbackAction::<Seq<u8>>::Get(StoreKey::TowerFile)),
        acquisition(contents, now, bound, PersistStatus::Written) == Some(
            Acquisition { outcome: PathOutcome::Committed, handed_over: Some(blob) },
        ),
{
    reveal_with_fuel(drive, 4);
}

/// A freshness record that cannot be read ends the acquisition with the
/// reason, which is never `StaleData`; the blob is not fetched and nothing
/// is handed over.
pub proof fn law_unreadable_record_is_an_error(
    contents: StoreContents,
    now: u64,
    bound: u64,
    status: PersistStatus,
)
    requires
        contents.dom().contains(StoreKey::TowerMetadata),
        decoded_timestamp(contents[StoreKey::TowerMetadata]) is Err,
    ensures
        acquisition(contents, now, bound, status) == Some(
            Acquisition {
                outcome: PathOutcome::Failed(
                    PathError::MetadataFormat(
                        decoded_timestamp(contents[StoreKey::TowerMetadata])->Err_0,
                    ),
                ),
                handed_over: None,
            },
        ),
        acquisition(contents, now, bound, status) matches Some(end) && end.outcome
            != PathOutcome::Failed(PathError::StaleData),
{
    reveal_with_fuel(drive, 4);
}

/// Every acquisition ends, within three answers, whatever the store holds
/// and whenever it runs; and it hands bytes over only if it has them from
/// the store, as the blob.
pub proof fn law_acquisition_ends(
    contents: StoreContents,
    now: u64,
    bound: u64,
    status: PersistStatus,
)
    ensures
        acquisition(contents, now, bound, status) matches Some(end) && (end.handed_over matches Some(
            blob,
        ) ==> answer_to_get(contents, StoreKey::TowerFile) == Ok::<Seq<u8>, StoreError>(blob)),
{
    reveal_with_fuel(drive, 4);
}

} // verus!
