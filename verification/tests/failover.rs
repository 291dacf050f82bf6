use quinn_tower::arbitration::{
    persist_status, Arbiter, ArbiterAction, ArbiterEvent, PathError, PathOutcome, PathStatus,
    PersistStatus, Source, Verdict,
};
use quinn_tower::fallback::{
    age_seconds, exceeds_bound, FallbackAction, FallbackEvent, FallbackState,
    DEFAULT_STALENESS_BOUND_SECONDS,
};
use quinn_tower::metadata::{FreshnessMetadata, MetadataFormatError};
use quinn_tower::push::{
    unconnected, ReceiverAction, ReceiverEvent, ReceiverState, SendOutcome, SenderAction, SenderEvent,
    SenderState, ACK_NOT_PERSISTED, ACK_PERSISTED,
};
use quinn_tower::replication::{SchedulerAction, SchedulerEvent, SchedulerState};
use quinn_tower::store::{StoreError, StoreKey};
use quinn_tower::transport::{ConnectError, DialFailure};

/// A destination file and a count of the replacements made on it.
struct Destination {
    content: Option<Vec<u8>>,
    replacements: u32,
    writable: bool,
}

impl Destination {
    fn absent() -> Destination {
        Destination { content: None, replacements: 0, writable: true }
    }

    fn persist(&mut self, arbiter: &mut Arbiter, source: Source, blob: Vec<u8>) -> PersistStatus {
        let granted = arbiter.request_commit(source);
        let replaced = granted && self.writable;
        if replaced {
            self.content = Some(blob);
            self.replacements += 1;
        }
        persist_status(granted, replaced)
    }
}

/// A durable store that answers from memory.
struct Store {
    file: Result<Vec<u8>, StoreError>,
    metadata: Result<Vec<u8>, StoreError>,
}

impl Store {
    fn unset() -> Store {
        Store { file: Err(StoreError::Unreachable), metadata: Err(StoreError::Unreachable) }
    }

    fn empty() -> Store {
        Store { file: Err(StoreError::NotFound), metadata: Err(StoreError::NotFound) }
    }

    fn put(&mut self, key: StoreKey, value: Vec<u8>) {
        match key {
            StoreKey::TowerFile => self.file = Ok(value),
            StoreKey::TowerMetadata => self.metadata = Ok(value),
        }
    }

    fn get(&self, key: StoreKey) -> Result<Vec<u8>, StoreError> {
        match key {
            StoreKey::TowerFile => self.file.clone(),
            StoreKey::TowerMetadata => self.metadata.clone(),
        }
    }
}

/// Runs one replication tick at time `now` against `store`.
fn replicate(store: &mut Store, blob: &[u8], now: u64) {
    let (state, _) = SchedulerState::start(true);
    let (state, action) = state.step(SchedulerEvent::Tick);
    assert_eq!(action, SchedulerAction::ReadSource);
    let (mut state, mut action) = state.step(SchedulerEvent::SourceRead { blob: blob.to_vec(), now });
    while let SchedulerAction::Put { key, value } = action {
        store.put(key, value);
        let next = state.step(SchedulerEvent::PutSucceeded);
        state = next.0;
        action = next.1;
    }
    assert_eq!(state, SchedulerState::Waiting);
}

/// Runs the producer's side of one connection and gives back the bytes it
/// put on the stream. `answer` is what comes back from the consumer.
fn produce(source: Option<&[u8]>, answer: Option<u8>) -> (Option<Vec<u8>>, SendOutcome) {
    let (mut state, mut action) = SenderState::start();
    let mut sent = None;
    loop {
        let event = match action {
            SenderAction::ReadSource => match source {
                Some(bytes) => SenderEvent::SourceRead(bytes.to_vec()),
                None => SenderEvent::StreamFailed,
            },
            SenderAction::SendBlob(bytes) => {
                sent = Some(bytes);
                SenderEvent::BlobSent
            }
            SenderAction::AwaitAck => match answer {
                Some(byte) => SenderEvent::AckReceived(byte),
                None => SenderEvent::StreamFailed,
            },
            SenderAction::CloseStream => SenderEvent::StreamClosed,
            SenderAction::Finish(outcome) => {
                assert_eq!(state, SenderState::Closed(outcome));
                return (sent, outcome);
            }
            SenderAction::Nothing => unreachable!("the producer got an event out of place"),
        };
        let next = state.step(event);
        state = next.0;
        action = next.1;
    }
}

/// Runs the consumer's side of one transfer over a stream that delivers
/// `chunks` and then ends, or breaks after them if `breaks` is set.
fn consume(
    arbiter: &mut Arbiter,
    destination: &mut Destination,
    chunks: &[&[u8]],
    breaks: bool,
) -> (PathOutcome, Option<u8>) {
    let (mut state, mut action) = ReceiverState::start();
    let mut next_chunk = 0;
    let mut ack = None;
    loop {
        let event = match action {
            ReceiverAction::AcceptStream => ReceiverEvent::StreamOpened,
            ReceiverAction::Read => {
                if next_chunk < chunks.len() {
                    next_chunk += 1;
                    ReceiverEvent::Data(chunks[next_chunk - 1].to_vec())
                } else if breaks {
                    ReceiverEvent::StreamFailed
                } else {
                    ReceiverEvent::EndOfData
                }
            }
            ReceiverAction::Persist(blob) => {
                ReceiverEvent::PersistFinished(destination.persist(arbiter, Source::Push, blob))
            }
            ReceiverAction::SendAck(byte) => {
                ack = Some(byte);
                ReceiverEvent::AckFinished
            }
            ReceiverAction::Finish(outcome) => {
                assert_eq!(state, ReceiverState::Done { outcome });
                return (outcome, ack);
            }
            ReceiverAction::Nothing => unreachable!("the consumer got an event out of place"),
        };
        let next = state.step(event);
        state = next.0;
        action = next.1;
    }
}

/// Runs one fallback acquisition at time `now` under `bound`.
fn acquire(
    arbiter: &mut Arbiter,
    destination: &mut Destination,
    store: &Store,
    now: u64,
    bound: u64,
) -> (PathOutcome, Vec<StoreKey>) {
    let (mut state, mut action) = FallbackState::start();
    let mut asked = Vec::new();
    loop {
        let event = match action {
            FallbackAction::Get(StoreKey::TowerMetadata) => {
                asked.push(StoreKey::TowerMetadata);
                FallbackEvent::Metadata { answer: store.get(StoreKey::TowerMetadata), now }
            }
            FallbackAction::Get(StoreKey::TowerFile) => {
                asked.push(StoreKey::TowerFile);
                FallbackEvent::Blob(store.get(StoreKey::TowerFile))
            }
            FallbackAction::Persist(blob) => {
                FallbackEvent::PersistFinished(destination.persist(arbiter, Source::Fallback, blob))
            }
            FallbackAction::Finish(outcome) => {
                assert_eq!(state, FallbackState::Done(outcome));
                return (outcome, asked);
            }
            FallbackAction::Nothing => unreachable!("the acquisition got an event out of place"),
        };
        let next = state.step(event, bound);
        state = next.0;
        action = next.1;
    }
}

#[test]
fn pushed_blob_reaches_the_destination_byte_for_byte() {
    let blobs: [&[u8]; 4] = [b"", b"0123456789", &[0, 255, 1, 254, 0, 0], &[7u8; 5000]];
    for blob in blobs {
        let (sent, _) = produce(Some(blob), Some(ACK_PERSISTED));
        let sent = sent.unwrap();
        assert_eq!(sent, blob.to_vec());
        for cut in [0, 1, sent.len() / 2, sent.len()] {
            let cut = cut.min(sent.len());
            let mut arbiter = Arbiter::new();
            let mut destination = Destination::absent();
            let chunks: [&[u8]; 3] = [&sent[..cut], &[], &sent[cut..]];
            let (outcome, ack) = consume(&mut arbiter, &mut destination, &chunks, false);
            assert_eq!(outcome, PathOutcome::Committed);
            assert_eq!(ack, Some(1));
            assert_eq!(destination.content, Some(blob.to_vec()));
            assert_eq!(destination.replacements, 1);
        }
    }
}

#[test]
fn receiver_waits_for_the_end_of_the_data() {
    let (state, action) = ReceiverState::start();
    assert_eq!(state, ReceiverState::Connected);
    assert_eq!(action, ReceiverAction::AcceptStream);
    let (state, action) = state.step(ReceiverEvent::StreamOpened);
    assert_eq!(state, ReceiverState::ReceivingBlob { received: vec![] });
    assert_eq!(action, ReceiverAction::Read);
    let (state, action) = state.step(ReceiverEvent::Data(b"01234".to_vec()));
    assert_eq!(state, ReceiverState::ReceivingBlob { received: b"01234".to_vec() });
    assert_eq!(action, ReceiverAction::Read);
    let (state, action) = state.step(ReceiverEvent::Data(b"56789".to_vec()));
    assert_eq!(state, ReceiverState::ReceivingBlob { received: b"0123456789".to_vec() });
    assert_eq!(action, ReceiverAction::Read);
    let (state, action) = state.step(ReceiverEvent::EndOfData);
    assert_eq!(state, ReceiverState::Persisted);
    assert_eq!(action, ReceiverAction::Persist(b"0123456789".to_vec()));
}

#[test]
fn receiver_reports_the_persist_status_in_the_ack() {
    assert_eq!(ACK_PERSISTED, 1);
    assert_eq!(ACK_NOT_PERSISTED, 0);
    let cases = [
        (PersistStatus::Written, 1u8, PathOutcome::Committed),
        (PersistStatus::Suppressed, 0u8, PathOutcome::Discarded),
        (PersistStatus::Failed, 0u8, PathOutcome::Failed(PathError::TransferFailed)),
    ];
    for (status, byte, outcome) in cases {
        let state: ReceiverState<Vec<u8>> = ReceiverState::Persisted;
        let (state, action) = state.step(ReceiverEvent::PersistFinished(status));
        assert_eq!(state, ReceiverState::SendingAck { outcome });
        assert_eq!(action, ReceiverAction::SendAck(byte));
        let (state, action) = state.step(ReceiverEvent::AckFinished);
        assert_eq!(state, ReceiverState::Done { outcome });
        assert_eq!(action, ReceiverAction::Finish(outcome));
    }
}

#[test]
fn receiver_gives_up_when_the_stream_breaks() {
    let mut arbiter = Arbiter::new();
    let mut destination = Destination::absent();
    let chunks: [&[u8]; 1] = [b"01234"];
    let (outcome, ack) = consume(&mut arbiter, &mut destination, &chunks, true);
    assert_eq!(outcome, PathOutcome::Failed(PathError::TransferFailed));
    assert_eq!(ack, None);
    assert_eq!(destination.content, None);
    assert_eq!(destination.replacements, 0);
    assert_eq!(arbiter.holder, None);

    let (state, _) = ReceiverState::start();
    let (state, action) = state.step(ReceiverEvent::StreamFailed);
    assert_eq!(state, ReceiverState::Done { outcome: PathOutcome::Failed(PathError::TransferFailed) });
    assert_eq!(action, ReceiverAction::Finish(PathOutcome::Failed(PathError::TransferFailed)));
}

#[test]
fn receiver_reports_a_failed_replacement() {
    let mut arbiter = Arbiter::new();
    let mut destination = Destination { content: Some(b"old".to_vec()), replacements: 0, writable: false };
    let chunks: [&[u8]; 1] = [b"new"];
    let (outcome, ack) = consume(&mut arbiter, &mut destination, &chunks, false);
    assert_eq!(outcome, PathOutcome::Failed(PathError::TransferFailed));
    assert_eq!(ack, Some(0));
    assert_eq!(destination.content, Some(b"old".to_vec()));
}

#[test]
fn receiver_ignores_events_out_of_place() {
    let (state, _) = ReceiverState::start();
    let (state, action) = state.step(ReceiverEvent::Data(vec![1]));
    assert_eq!(state, ReceiverState::Connected);
    assert_eq!(action, ReceiverAction::Nothing);
    let (state, action) = state.step(ReceiverEvent::EndOfData);
    assert_eq!(state, ReceiverState::Connected);
    assert_eq!(action, ReceiverAction::Nothing);
    let done: ReceiverState<Vec<u8>> = ReceiverState::Done { outcome: PathOutcome::Committed };
    let (state, action) = done.step(ReceiverEvent::Data(vec![1]));
    assert_eq!(state, ReceiverState::Done { outcome: PathOutcome::Committed });
    assert_eq!(action, ReceiverAction::Nothing);
}

#[test]
fn sender_takes_only_the_byte_one_as_ack() {
    assert_eq!(produce(Some(b"x"), Some(1)).1, SendOutcome::Acked);
    assert_eq!(produce(Some(b"x"), Some(0)).1, SendOutcome::AckMissing);
    assert_eq!(produce(Some(b"x"), Some(2)).1, SendOutcome::AckMissing);
    assert_eq!(produce(Some(b"x"), Some(255)).1, SendOutcome::AckMissing);
    assert_eq!(produce(Some(b"x"), None).1, SendOutcome::AckMissing);
}

#[test]
fn sender_walks_through_its_states() {
    let (state, action) = SenderState::start();
    assert_eq!(state, SenderState::Accepted);
    assert_eq!(action, SenderAction::ReadSource);
    let (state, action) = state.step(SenderEvent::SourceRead(b"0123456789".to_vec()));
    assert_eq!(state, SenderState::SendingBlob);
    assert_eq!(action, SenderAction::SendBlob(b"0123456789".to_vec()));
    let (state, action) = state.step(SenderEvent::BlobSent);
    assert_eq!(state, SenderState::AwaitingAck);
    assert_eq!(action, SenderAction::AwaitAck);
    let (state, action) = state.step(SenderEvent::AckReceived(1));
    assert_eq!(state, SenderState::Acked);
    assert_eq!(action, SenderAction::CloseStream);
    let (state, action) = state.step(SenderEvent::StreamClosed);
    assert_eq!(state, SenderState::Closed(SendOutcome::Acked));
    assert_eq!(action, SenderAction::Finish(SendOutcome::Acked));
    let (state, action) = state.step(SenderEvent::BlobSent);
    assert_eq!(state, SenderState::Closed(SendOutcome::Acked));
    assert_eq!(action, SenderAction::Nothing);
}

#[test]
fn sender_closes_the_stream_after_a_missing_ack() {
    let state = SenderState::AwaitingAck;
    let (state, action) = state.step(SenderEvent::<Vec<u8>>::StreamFailed);
    assert_eq!(state, SenderState::AckMissing);
    assert_eq!(action, SenderAction::CloseStream);
    let (state, action) = state.step(SenderEvent::<Vec<u8>>::StreamClosed);
    assert_eq!(state, SenderState::Closed(SendOutcome::AckMissing));
    assert_eq!(action, SenderAction::Finish(SendOutcome::AckMissing));
}

#[test]
fn sender_reports_a_failed_transfer() {
    let (sent, outcome) = produce(None, Some(1));
    assert_eq!(sent, None);
    assert_eq!(outcome, SendOutcome::TransferFailed);
    let (state, action) = SenderState::SendingBlob.step(SenderEvent::<Vec<u8>>::StreamFailed);
    assert_eq!(state, SenderState::Closed(SendOutcome::TransferFailed));
    assert_eq!(action, SenderAction::Finish(SendOutcome::TransferFailed));
}

#[test]
fn age_is_clamped_at_zero() {
    assert_eq!(age_seconds(1000, 600), 400);
    assert_eq!(age_seconds(1000, 1000), 0);
    assert_eq!(age_seconds(1000, 1001), 0);
    assert_eq!(age_seconds(0, u64::MAX), 0);
    assert_eq!(age_seconds(u64::MAX, 0), u64::MAX);
}

#[test]
fn staleness_is_strictly_beyond_the_bound() {
    assert_eq!(DEFAULT_STALENESS_BOUND_SECONDS, 300);
    assert!(!exceeds_bound(1300, 1000, 300));
    assert!(exceeds_bound(1301, 1000, 300));
    assert!(!exceeds_bound(1000, 1000, 0));
    assert!(exceeds_bound(1001, 1000, 0));
    assert!(!exceeds_bound(10, 5000, 0));
    assert!(!exceeds_bound(u64::MAX, 0, u64::MAX));
}

#[test]
fn replicated_blob_is_acquired_within_the_bound() {
    let blob = b"0123456789";
    let written_at = 1_700_000_000u64;
    for (delta, bound) in [(0u64, 0u64), (0, 300), (299, 300), (300, 300), (1, 1), (5000, 5000)] {
        let mut store = Store::empty();
        replicate(&mut store, blob, written_at);
        let mut arbiter = Arbiter::new();
        let mut destination = Destination::absent();
        let (outcome, asked) =
            acquire(&mut arbiter, &mut destination, &store, written_at + delta, bound);
        assert_eq!(outcome, PathOutcome::Committed);
        assert_eq!(asked, vec![StoreKey::TowerMetadata, StoreKey::TowerFile]);
        assert_eq!(destination.content, Some(blob.to_vec()));
        assert_eq!(destination.replacements, 1);
    }
}

#[test]
fn replicated_blob_is_refused_beyond_the_bound() {
    let blob = b"0123456789";
    let written_at = 1_700_000_000u64;
    for (delta, bound) in [(1u64, 0u64), (301, 300), (400, 300), (1_000_000, 300)] {
        let mut store = Store::empty();
        replicate(&mut store, blob, written_at);
        let mut arbiter = Arbiter::new();
        let mut destination =
            Destination { content: Some(b"before".to_vec()), replacements: 0, writable: true };
        let (outcome, asked) =
            acquire(&mut arbiter, &mut destination, &store, written_at + delta, bound);
        assert_eq!(outcome, PathOutcome::Failed(PathError::StaleData));
        assert_eq!(asked, vec![StoreKey::TowerMetadata]);
        assert_eq!(destination.content, Some(b"before".to_vec()));
        assert_eq!(destination.replacements, 0);
        assert_eq!(arbiter.holder, None);
    }
}

#[test]
fn stale_record_leaves_the_destination_absent() {
    let now = 1_700_000_400u64;
    let record = format!("{{\"timestamp\": {}, \"size\": 10}}", now - 400);
    let store = Store { file: Ok(b"0123456789".to_vec()), metadata: Ok(record.into_bytes()) };
    let mut arbiter = Arbiter::new();
    let mut destination = Destination::absent();
    let (outcome, asked) = acquire(&mut arbiter, &mut destination, &store, now, 300);
    assert_eq!(outcome, PathOutcome::Failed(PathError::StaleData));
    assert_eq!(asked, vec![StoreKey::TowerMetadata]);
    assert_eq!(destination.content, None);
    assert_eq!(destination.replacements, 0);
}

#[test]
fn stale_compact_record_is_refused_too() {
    let now = 1_700_000_400u64;
    let record = FreshnessMetadata { timestamp: now - 400, size: 10 }.encode();
    let store = Store { file: Ok(b"0123456789".to_vec()), metadata: Ok(record) };
    let mut arbiter = Arbiter::new();
    let mut destination = Destination::absent();
    let (outcome, _) = acquire(&mut arbiter, &mut destination, &store, now, 300);
    assert_eq!(outcome, PathOutcome::Failed(PathError::StaleData));
    assert_eq!(destination.content, None);
}

#[test]
fn record_from_the_future_counts_as_fresh() {
    let mut store = Store::empty();
    replicate(&mut store, b"abc", 2_000_000_000);
    let mut arbiter = Arbiter::new();
    let mut destination = Destination::absent();
    let (outcome, _) = acquire(&mut arbiter, &mut destination, &store, 1_700_000_000, 0);
    assert_eq!(outcome, PathOutcome::Committed);
    assert_eq!(destination.content, Some(b"abc".to_vec()));
}

#[test]
fn missing_record_does_not_stop_the_acquisition() {
    for missing in [StoreError::NotFound, StoreError::Unreachable, StoreError::WriteFailed] {
        let store = Store { file: Ok(b"0123456789".to_vec()), metadata: Err(missing) };
        let mut arbiter = Arbiter::new();
        let mut destination = Destination::absent();
        let (outcome, asked) = acquire(&mut arbiter, &mut destination, &store, 1_700_000_000, 0);
        assert_eq!(outcome, PathOutcome::Committed);
        assert_eq!(asked, vec![StoreKey::TowerMetadata, StoreKey::TowerFile]);
        assert_eq!(destination.content, Some(b"0123456789".to_vec()));
    }
}

#[test]
fn malformed_record_fails_with_a_format_error() {
    let cases: [(&[u8], MetadataFormatError); 4] = [
        (b"{\"size\":10}", MetadataFormatError::MissingTimestamp),
        (b"{\"timestamp\":12", MetadataFormatError::UnterminatedTimestamp),
        (b"{\"timestamp\":\"yesterday\",\"size\":10}", MetadataFormatError::InvalidNumber),
        (&[0x7b, 0xff, 0x7d], MetadataFormatError::InvalidEncoding),
    ];
    for (record, error) in cases {
        let store = Store { file: Ok(b"0123456789".to_vec()), metadata: Ok(record.to_vec()) };
        let mut arbiter = Arbiter::new();
        let mut destination = Destination::absent();
        let (outcome, asked) =
            acquire(&mut arbiter, &mut destination, &store, 1_700_000_000, 300);
        assert_eq!(outcome, PathOutcome::Failed(PathError::MetadataFormat(error)));
        assert_ne!(outcome, PathOutcome::Failed(PathError::StaleData));
        assert_eq!(asked, vec![StoreKey::TowerMetadata]);
        assert_eq!(destination.content, None);
    }
}

#[test]
fn missing_blob_fails_the_fetch() {
    let mut store = Store::empty();
    replicate(&mut store, b"abc", 100);
    store.file = Err(StoreError::NotFound);
    let mut arbiter = Arbiter::new();
    let mut destination = Destination::absent();
    let (outcome, asked) = acquire(&mut arbiter, &mut destination, &store, 100, 300);
    assert_eq!(outcome, PathOutcome::Failed(PathError::FetchFailed(StoreError::NotFound)));
    assert_eq!(asked, vec![StoreKey::TowerMetadata, StoreKey::TowerFile]);
    assert_eq!(destination.content, None);

    let unset = Store::unset();
    let (outcome, _) = acquire(&mut arbiter, &mut destination, &unset, 100, 300);
    assert_eq!(outcome, PathOutcome::Failed(PathError::FetchFailed(StoreError::Unreachable)));
}

#[test]
fn fallback_ignores_events_out_of_place() {
    let (state, action) = FallbackState::start();
    assert_eq!(state, FallbackState::AwaitingMetadata);
    assert_eq!(action, FallbackAction::Get(StoreKey::TowerMetadata));
    let (state, action) = state.step(FallbackEvent::Blob(Ok(vec![1])), 300);
    assert_eq!(state, FallbackState::AwaitingMetadata);
    assert_eq!(action, FallbackAction::Nothing);
    let (state, action) =
        state.step(FallbackEvent::<Vec<u8>>::PersistFinished(PersistStatus::Written), 300);
    assert_eq!(state, FallbackState::AwaitingMetadata);
    assert_eq!(action, FallbackAction::Nothing);
}

#[test]
fn persist_status_follows_token_and_write() {
    assert_eq!(persist_status(true, true), PersistStatus::Written);
    assert_eq!(persist_status(true, false), PersistStatus::Failed);
    assert_eq!(persist_status(false, true), PersistStatus::Suppressed);
    assert_eq!(persist_status(false, false), PersistStatus::Suppressed);
    assert_eq!(PersistStatus::Written.outcome(), PathOutcome::Committed);
    assert_eq!(PersistStatus::Suppressed.outcome(), PathOutcome::Discarded);
    assert_eq!(PersistStatus::Failed.outcome(), PathOutcome::Failed(PathError::TransferFailed));
}

#[test]
fn commit_token_is_granted_once() {
    for first in [Source::Push, Source::Fallback] {
        let mut arbiter = Arbiter::new();
        assert_eq!(arbiter.holder, None);
        assert!(arbiter.request_commit(first));
        assert_eq!(arbiter.holder, Some(first));
        assert!(!arbiter.request_commit(Source::Push));
        assert!(!arbiter.request_commit(Source::Fallback));
        assert_eq!(arbiter.holder, Some(first));
    }
    let mut arbiter = Arbiter::new();
    assert_eq!(arbiter.step(ArbiterEvent::CommitRequested(Source::Fallback)), ArbiterAction::Grant);
    assert_eq!(arbiter.step(ArbiterEvent::CommitRequested(Source::Push)), ArbiterAction::Deny);
    assert_eq!(
        arbiter.step(ArbiterEvent::Ended(Source::Push, PathOutcome::Discarded)),
        ArbiterAction::Report(Verdict::Pending)
    );
    assert_eq!(arbiter.step(ArbiterEvent::CommitRequested(Source::Push)), ArbiterAction::Deny);
}

#[test]
fn both_paths_succeeding_replace_the_destination_once() {
    let blob = b"0123456789";
    let mut store = Store::empty();
    replicate(&mut store, blob, 1_700_000_000);
    let chunks: [&[u8]; 2] = [b"01234", b"56789"];

    let mut arbiter = Arbiter::new();
    let mut destination = Destination::absent();
    let (push, ack) = consume(&mut arbiter, &mut destination, &chunks, false);
    assert_eq!(arbiter.conclude(Source::Push, push), Verdict::Restored(Source::Push));
    let (fallback, _) = acquire(&mut arbiter, &mut destination, &store, 1_700_000_010, 300);
    assert_eq!(arbiter.conclude(Source::Fallback, fallback), Verdict::Restored(Source::Push));
    assert_eq!(push, PathOutcome::Committed);
    assert_eq!(ack, Some(1));
    assert_eq!(fallback, PathOutcome::Discarded);
    assert_eq!(destination.replacements, 1);
    assert_eq!(destination.content, Some(blob.to_vec()));

    let mut arbiter = Arbiter::new();
    let mut destination = Destination::absent();
    let (fallback, _) = acquire(&mut arbiter, &mut destination, &store, 1_700_000_010, 300);
    assert_eq!(arbiter.conclude(Source::Fallback, fallback), Verdict::Restored(Source::Fallback));
    let (push, ack) = consume(&mut arbiter, &mut destination, &chunks, false);
    assert_eq!(arbiter.conclude(Source::Push, push), Verdict::Restored(Source::Fallback));
    assert_eq!(fallback, PathOutcome::Committed);
    assert_eq!(push, PathOutcome::Discarded);
    assert_eq!(ack, Some(0));
    assert_eq!(destination.replacements, 1);
    assert_eq!(destination.content, Some(blob.to_vec()));
}

#[test]
fn both_paths_failing_leave_no_source() {
    let mut arbiter = Arbiter::new();
    let mut destination = Destination::absent();
    assert_eq!(arbiter.verdict(), Verdict::Pending);
    let (fallback, _) = acquire(&mut arbiter, &mut destination, &Store::unset(), 100, 300);
    assert_eq!(arbiter.conclude(Source::Fallback, fallback), Verdict::Pending);
    assert_eq!(arbiter.fallback, PathStatus::Ended(fallback));
    assert_eq!(arbiter.push, PathStatus::Running);
    let chunks: [&[u8]; 0] = [];
    let (push, _) = consume(&mut arbiter, &mut destination, &chunks, true);
    assert_eq!(arbiter.conclude(Source::Push, push), Verdict::NoSourceAvailable);
    assert_eq!(arbiter.verdict(), Verdict::NoSourceAvailable);
    assert_eq!(destination.content, None);
    assert_eq!(destination.replacements, 0);
}

#[test]
fn failed_and_discarded_paths_leave_no_source() {
    let mut arbiter = Arbiter::new();
    assert!(arbiter.request_commit(Source::Push));
    assert_eq!(
        arbiter.conclude(Source::Push, PathOutcome::Failed(PathError::TransferFailed)),
        Verdict::Pending
    );
    assert!(!arbiter.request_commit(Source::Fallback));
    assert_eq!(
        arbiter.conclude(Source::Fallback, PathOutcome::Discarded),
        Verdict::NoSourceAvailable
    );
}

#[test]
fn pushed_file_restores_a_consumer_without_store() {
    let (sent, _) = produce(Some(b"0123456789"), Some(ACK_PERSISTED));
    let sent = sent.unwrap();
    let mut arbiter = Arbiter::new();
    let mut destination = Destination::absent();

    let (fallback, _) = acquire(&mut arbiter, &mut destination, &Store::unset(), 1_700_000_000, 300);
    let verdict = arbiter.conclude(Source::Fallback, fallback);
    assert_eq!(fallback, PathOutcome::Failed(PathError::FetchFailed(StoreError::Unreachable)));
    assert_ne!(verdict, Verdict::NoSourceAvailable);

    let chunks: [&[u8]; 1] = [&sent];
    let (push, ack) = consume(&mut arbiter, &mut destination, &chunks, false);
    let verdict = arbiter.conclude(Source::Push, push);
    assert_eq!(verdict, Verdict::Restored(Source::Push));
    assert_eq!(destination.content, Some(b"0123456789".to_vec()));
    assert_eq!(destination.replacements, 1);
    assert_eq!(produce(Some(b"0123456789"), ack).1, SendOutcome::Acked);
}

#[test]
fn unreachable_producer_fails_the_push_path_only() {
    assert_eq!(
        unconnected(DialFailure::TimeLimitReached),
        PathOutcome::Failed(PathError::Connect(ConnectError::Timeout))
    );
    assert_eq!(
        unconnected(DialFailure::NoRoute),
        PathOutcome::Failed(PathError::Connect(ConnectError::Unreachable))
    );
    assert_eq!(
        unconnected(DialFailure::WrongProtocol),
        PathOutcome::Failed(PathError::Connect(ConnectError::HandshakeFailed))
    );

    let mut store = Store::empty();
    replicate(&mut store, b"0123456789", 1_700_000_000);
    let mut arbiter = Arbiter::new();
    let mut destination = Destination::absent();
    let push = unconnected(DialFailure::TimeLimitReached);
    assert_eq!(arbiter.conclude(Source::Push, push), Verdict::Pending);
    let (fallback, _) = acquire(&mut arbiter, &mut destination, &store, 1_700_000_100, 300);
    assert_eq!(arbiter.conclude(Source::Fallback, fallback), Verdict::Restored(Source::Fallback));
    assert_eq!(destination.content, Some(b"0123456789".to_vec()));
    assert_eq!(destination.replacements, 1);
}
