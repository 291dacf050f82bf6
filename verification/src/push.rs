//! The push protocol: one blob travels from the producer to the consumer
//! over one bidirectional stream, and one byte travels back.
//!
//! The transfer declares no length. The producer writes the blob and closes
//! its sending half; the consumer reads until it sees that end, replaces
//! its destination file, and answers with `1` if the replacement succeeded
//! and `0` if not.

use vstd::prelude::*;
use crate::arbitration::{destination_after, outcome_of, PathError, PathOutcome, PersistStatus};
use crate::transport::{connect_error_of, DialFailure};

verus! {

/// The acknowledgment byte that reports success.
pub const ACK_PERSISTED: u8 = 1;

/// The acknowledgment byte that reports anything else.
pub const ACK_NOT_PERSISTED: u8 = 0;

/// The byte that the consumer sends after an attempt to persist.
pub open spec fn ack_byte(status: PersistStatus) -> u8 {
    if status == PersistStatus::Written {
        ACK_PERSISTED
    } else {
        ACK_NOT_PERSISTED
    }
}

/// The outcome of a push path that never got its connection: the path
/// failed, and the error says how the attempt to connect went wrong.
pub fn unconnected(failure: DialFailure) -> (outcome: PathOutcome)
    ensures
        outcome == PathOutcome::Failed(PathError::Connect(connect_error_of(failure))),
{
    PathOutcome::Failed(PathError::Connect(failure.connect_error()))
}

/// Where the consumer stands in a transfer. `B` is the type of a run of
/// bytes: `Vec<u8>` in a running program, `Seq<u8>` in a contract.
#[derive(Debug, PartialEq, Eq)]
pub enum ReceiverState<B> {
    /// The connection is up; the producer's stream is awaited.
    Connected,
    /// The stream is open. `received` is all that has arrived so far.
    ReceivingBlob { received: B },
    /// The end of the data was seen and the blob was handed over for the
    /// replacement of the destination.
    Persisted,
    /// The acknowledgment is on its way.
    SendingAck { outcome: PathOutcome },
    /// The transfer is over.
    Done { outcome: PathOutcome },
}

/// What the consumer's side of the stream reports.
#[derive(Debug, PartialEq, Eq)]
pub enum ReceiverEvent<B> {
    /// The producer's bidirectional stream is at hand.
    StreamOpened,
    /// These bytes arrived next.
    Data(B),
    /// The producer closed its sending half: the blob is complete.
    EndOfData,
    /// The stream or the connection broke.
    StreamFailed,
    /// The attempt to replace the destination ended.
    PersistFinished(PersistStatus),
    /// The acknowledgment was written, or writing it failed.
    AckFinished,
}

/// What the consumer is to do next.
#[derive(Debug, PartialEq, Eq)]
pub enum ReceiverAction<B> {
    /// Take the bidirectional stream that the producer opens.
    AcceptStream,
    /// Read more from the receiving half.
    Read,
    /// Replace the destination with these bytes in one atomic step, if the
    /// commit token can be had.
    Persist(B),
    /// Write this byte, then close the sending half.
    SendAck(u8),
    /// Stop and report the outcome.
    Finish(PathOutcome),
    /// The event does not belong to the current state: do nothing.
    Nothing,
}

impl View for ReceiverState<Vec<u8>> {
    type V = ReceiverState<Seq<u8>>;

    open spec fn view(&self) -> ReceiverState<Seq<u8>> {
        match *self {
            ReceiverState::Connected => ReceiverState::Connected,
            ReceiverState::ReceivingBlob { received } => ReceiverState::ReceivingBlob {
                received: received@,
            },
            ReceiverState::Persisted => ReceiverState::Persisted,
            ReceiverState::SendingAck { outcome } => ReceiverState::SendingAck { outcome },
            ReceiverState::Done { outcome } => ReceiverState::Done { outcome },
        }
    }
}

impl View for ReceiverEvent<Vec<u8>> {
    type V = ReceiverEvent<Seq<u8>>;

    open spec fn view(&self) -> ReceiverEvent<Seq<u8>> {
        match *self {
            ReceiverEvent::StreamOpened => ReceiverEvent::StreamOpened,
            ReceiverEvent::Data(bytes) => ReceiverEvent::Data(bytes@),
            ReceiverEvent::EndOfData => ReceiverEvent::EndOfData,
            ReceiverEvent::StreamFailed => ReceiverEvent::StreamFailed,
            ReceiverEvent::PersistFinished(status) => ReceiverEvent::PersistFinished(status),
            ReceiverEvent::AckFinished => ReceiverEvent::AckFinished,
        }
    }
}

impl View for ReceiverAction<Vec<u8>> {
    type V = ReceiverAction<Seq<u8>>;

    open spec fn view(&self) -> ReceiverAction<Seq<u8>> {
        match *self {
            ReceiverAction::AcceptStream => ReceiverAction::AcceptStream,
            ReceiverAction::Read => ReceiverAction::Read,
            ReceiverAction::Persist(bytes) => ReceiverAction::Persist(bytes@),
            ReceiverAction::SendAck(byte) => ReceiverAction::SendAck(byte),
            ReceiverAction::Finish(outcome) => ReceiverAction::Finish(outcome),
            ReceiverAction::Nothing => ReceiverAction::Nothing,
        }
    }
}

/// The consumer's rule: the state that follows `state` on `event`, and
/// what to do.
///
/// Bytes accumulate in arrival order until the end of the data; only then
/// is the blob handed over, whole. A broken stream before that point ends
/// the transfer with `TransferFailed`. The acknowledgment follows the
/// attempt to persist and reports it. An event that does not belong to the
/// state changes nothing.
pub open spec fn receiver_step(state: ReceiverState<Seq<u8>>, event: ReceiverEvent<Seq<u8>>) -> (
    ReceiverState<Seq<u8>>,
    ReceiverAction<Seq<u8>>,
) {
    let failed = PathOutcome::Failed(PathError::TransferFailed);
    match (state, event) {
        (ReceiverState::Connected, ReceiverEvent::StreamOpened) => (
            ReceiverState::ReceivingBlob { received: Seq::empty() },
            ReceiverAction::Read,
        ),
        (ReceiverState::Connected, ReceiverEvent::StreamFailed) => (
            ReceiverState::Done { outcome: failed },
            ReceiverAction::Finish(failed),
        ),
        (ReceiverState::ReceivingBlob { received }, ReceiverEvent::Data(bytes)) => (
            ReceiverState::ReceivingBlob { received: received + bytes },
            ReceiverAction::Read,
        ),
        (ReceiverState::ReceivingBlob { received }, ReceiverEvent::EndOfData) => (
            ReceiverState::Persisted,
            ReceiverAction::Persist(received),
        ),
        (ReceiverState::ReceivingBlob { received }, ReceiverEvent::StreamFailed) => (
            ReceiverState::Done { outcome: failed },
            ReceiverAction::Finish(failed),
        ),
        (ReceiverState::Persisted, ReceiverEvent::PersistFinished(status)) => (
            ReceiverState::SendingAck { outcome: outcome_of(status) },
            ReceiverAction::SendAck(ack_byte(status)),
        ),
        (ReceiverState::SendingAck { outcome }, ReceiverEvent::AckFinished) => (
            ReceiverState::Done { outcome },
            ReceiverAction::Finish(outcome),
        ),
        (ReceiverState::SendingAck { outcome }, ReceiverEvent::StreamFailed) => (
            ReceiverState::Done { outcome },
            ReceiverAction::Finish(outcome),
        ),
        _ => (state, ReceiverAction::Nothing),
    }
}

impl ReceiverState<Vec<u8>> {
    /// The state of a consumer whose connection was just established, and
    /// its first action.
    pub fn start() -> (r: (Self, ReceiverAction<Vec<u8>>))
        ensures
            r.0@ == ReceiverState::<Seq<u8>>::Connected,
            r.1@ == ReceiverAction::<Seq<u8>>::AcceptStream,
    {
        (ReceiverState::Connected, ReceiverAction::AcceptStream)
    }

    /// Takes one event and says what to do next.
    pub fn step(self, event: ReceiverEvent<Vec<u8>>) -> (r: (Self, ReceiverAction<Vec<u8>>))
        ensures
            (r.0@, r.1@) == receiver_step(self@, event@),
    {
        let failed = PathOutcome::Failed(PathError::TransferFailed);
        match (self, event) {
            (ReceiverState::Connected, ReceiverEvent::StreamOpened) => (
                ReceiverState::ReceivingBlob { received: Vec::new() },
                ReceiverAction::Read,
            ),
            (ReceiverState::Connected, ReceiverEvent::StreamFailed) => (
                ReceiverState::Done { outcome: failed },
                ReceiverAction::Finish(failed),
            ),
            (ReceiverState::ReceivingBlob { received }, ReceiverEvent::Data(bytes)) => {
                let mut received = received;
                let mut bytes = bytes;
                received.append(&mut bytes);
                (ReceiverState::ReceivingBlob { received }, ReceiverAction::Read)
            },
            (ReceiverState::ReceivingBlob { received }, ReceiverEvent::EndOfData) => (
                ReceiverState::Persisted,
                ReceiverAction::Persist(received),
            ),
            (ReceiverState::ReceivingBlob { received }, ReceiverEvent::StreamFailed) => (
                ReceiverState::Done { outcome: failed },
                ReceiverAction::Finish(failed),
            ),
            (ReceiverState::Persisted, ReceiverEvent::PersistFinished(status)) => {
                let ack: u8 = match status {
                    PersistStatus::Written => ACK_PERSISTED,
                    _ => ACK_NOT_PERSISTED,
                };
                (ReceiverState::SendingAck { outcome: status.outcome() }, ReceiverAction::SendAck(ack))
            },
            (ReceiverState::SendingAck { outcome }, ReceiverEvent::AckFinished) => (
                ReceiverState::Done { outcome },
                ReceiverAction::Finish(outcome),
            ),
            (ReceiverState::SendingAck { outcome }, ReceiverEvent::StreamFailed) => (
                ReceiverState::Done { outcome },
                ReceiverAction::Finish(outcome),
            ),
            (state, _) => (state, ReceiverAction::Nothing),
        }
    }
}

/// How the producer's side of a transfer ended.
#[derive(Clone, Copy, Debug, PartialEq, Eq, Structural)]
pub enum SendOutcome {
    /// The consumer answered `1`.
    Acked,
    /// The consumer answered something else, or nothing. This is worth a
    /// log line and no more.
    AckMissing,
    /// The blob could not be read or could not be sent.
    TransferFailed,
}

/// Where the producer stands with one connection.
#[derive(Clone, Copy, Debug, PartialEq, Eq, Structural)]
pub enum SenderState {
    /// The connection was accepted; the stream is being opened and the
    /// snapshot read.
    Accepted,
    /// The blob is being written.
    SendingBlob,
    /// The blob is out and the sending half is closed.
    AwaitingAck,
    /// The consumer answered `1`.
    Acked,
    /// No `1` came back.
    AckMissing,
    /// The connection is done with.
    Closed(SendOutcome),
}

/// What the producer's side of the stream reports.
#[derive(Debug, PartialEq, Eq)]
pub enum SenderEvent<B> {
    /// The stream is open and the snapshot was read: these are its bytes.
    SourceRead(B),
    /// The blob was written in full and the sending half was closed.
    BlobSent,
    /// One byte came back.
    AckReceived(u8),
    /// The stream was closed on this side.
    StreamClosed,
    /// The snapshot could not be read, or the stream or connection broke.
    StreamFailed,
}

/// What the producer is to do next.
#[derive(Debug, PartialEq, Eq)]
pub enum SenderAction<B> {
    /// Open one bidirectional stream and read the snapshot.
    ReadSource,
    /// Write these bytes in full, then close the sending half, which tells
    /// the consumer that the blob is complete.
    SendBlob(B),
    /// Read exactly one byte.
    AwaitAck,
    /// Close the stream before the connection is dropped.
    CloseStream,
    /// Stop and log the outcome.
    Finish(SendOutcome),
    /// The event does not belong to the current state: do nothing.
    Nothing,
}

impl View for SenderEvent<Vec<u8>> {
    type V = SenderEvent<Seq<u8>>;

    open spec fn view(&self) -> SenderEvent<Seq<u8>> {
        match *self {
            SenderEvent::SourceRead(bytes) => SenderEvent::SourceRead(bytes@),
            SenderEvent::BlobSent => SenderEvent::BlobSent,
            SenderEvent::AckReceived(byte) => SenderEvent::AckReceived(byte),
            SenderEvent::StreamClosed => SenderEvent::StreamClosed,
            SenderEvent::StreamFailed => SenderEvent::StreamFailed,
        }
    }
}

impl View for SenderAction<Vec<u8>> {
    type V = SenderAction<Seq<u8>>;

    open spec fn view(&self) -> SenderAction<Seq<u8>> {
        match *self {
            SenderAction::ReadSource => SenderAction::ReadSource,
            SenderAction::SendBlob(bytes) => SenderAction::SendBlob(bytes@),
            SenderAction::AwaitAck => SenderAction::AwaitAck,
            SenderAction::CloseStream => SenderAction::CloseStream,
            SenderAction::Finish(outcome) => SenderAction::Finish(outcome),
            SenderAction::Nothing => SenderAction::Nothing,
        }
    }
}

/// The producer's rule: the state that follows `state` on `event`, and
/// what to do.
///
/// The snapshot goes out as it was read. The byte `1` means `Acked`; any
/// other byte, or a broken stream while waiting, means `AckMissing`. No
/// failure is passed on as an error: every path ends in `Closed`.
pub open spec fn sender_step(state: SenderState, event: SenderEvent<Seq<u8>>) -> (
    SenderState,
    SenderAction<Seq<u8>>,
) {
    let failed = SendOutcome::TransferFailed;
    match (state, event) {
        (SenderState::Accepted, SenderEvent::SourceRead(bytes)) => (
            SenderState::SendingBlob,
            SenderAction::SendBlob(bytes),
        ),
        (SenderState::Accepted, SenderEvent::StreamFailed) => (
            SenderState::Closed(failed),
            SenderAction::Finish(failed),
        ),
        (SenderState::SendingBlob, SenderEvent::BlobSent) => (
            SenderState::AwaitingAck,
            SenderAction::AwaitAck,
        ),
        (SenderState::SendingBlob, SenderEvent::StreamFailed) => (
            SenderState::Closed(failed),
            SenderAction::Finish(failed),
        ),
        (SenderState::AwaitingAck, SenderEvent::AckReceived(byte)) => if byte == ACK_PERSISTED {
            (SenderState::Acked, SenderAction::CloseStream)
        } else {
            (SenderState::AckMissing, SenderAction::CloseStream)
        },
        (SenderState::AwaitingAck, SenderEvent::StreamFailed) => (
            SenderState::AckMissing,
            SenderAction::CloseStream,
        ),
        (SenderState::Acked, SenderEvent::StreamClosed) => (
            SenderState::Closed(SendOutcome::Acked),
            SenderAction::Finish(SendOutcome::Acked),
        ),
        (SenderState::Acked, SenderEvent::StreamFailed) => (
            SenderState::Closed(SendOutcome::Acked),
            SenderAction::Finish(SendOutcome::Acked),
        ),
        (SenderState::AckMissing, SenderEvent::StreamClosed) => (
            SenderState::Closed(SendOutcome::AckMissing),
            SenderAction::Finish(SendOutcome::AckMissing),
        ),
        (SenderState::AckMissing, SenderEvent::StreamFailed) => (
            SenderState::Closed(SendOutcome::AckMissing),
            SenderAction::Finish(SendOutcome::AckMissing),
        ),
        _ => (state, SenderAction::Nothing),
    }
}

impl SenderState {
    /// The state of a producer that just accepted a connection, and its
    /// first action.
    pub fn start() -> (r: (Self, SenderAction<Vec<u8>>))
        ensures
            r.0 == SenderState::Accepted,
            r.1@ == SenderAction::<Seq<u8>>::ReadSource,
    {
        (SenderState::Accepted, SenderAction::ReadSource)
    }

    /// Takes one event and says what to do next.
    pub fn step(self, event: SenderEvent<Vec<u8>>) -> (r: (Self, SenderAction<Vec<u8>>))
        ensures
            (r.0, r.1@) == sender_step(self, event@),
    {
        let failed = SendOutcome::TransferFailed;
        match (self, event) {
            (SenderState::Accepted, SenderEvent::SourceRead(bytes)) => (
                SenderState::SendingBlob,
                SenderAction::SendBlob(bytes),
            ),
            (SenderState::Accepted, SenderEvent::StreamFailed) => (
                SenderState::Closed(failed),
                SenderAction::Finish(failed),
            ),
            (SenderState::SendingBlob, SenderEvent::BlobSent) => (
                SenderState::AwaitingAck,
                SenderAction::AwaitAck,
            ),
            (SenderState::SendingBlob, SenderEvent::StreamFailed) => (
                SenderState::Closed(failed),
                SenderAction::Finish(failed),
            ),
            (SenderState::AwaitingAck, SenderEvent::AckReceived(byte)) => {
                if byte == ACK_PERSISTED {
                    (SenderState::Acked, SenderAction::CloseStream)
                } else {
                    (SenderState::AckMissing, SenderAction::CloseStream)
                }
            },
            (SenderState::AwaitingAck, SenderEvent::StreamFailed) => (
                SenderState::AckMissing,
                SenderAction::CloseStream,
            ),
            (SenderState::Acked, SenderEvent::StreamClosed) => (
                SenderState::Closed(SendOutcome::Acked),
                SenderAction::Finish(SendOutcome::Acked),
            ),
            (SenderState::Acked, SenderEvent::StreamFailed) => (
                SenderState::Closed(SendOutcome::Acked),
                SenderAction::Finish(SendOutcome::Acked),
            ),
            (SenderState::AckMissing, SenderEvent::StreamClosed) => (
                SenderState::Closed(SendOutcome::AckMissing),
                SenderAction::Finish(SendOutcome::AckMissing),
            ),
            (SenderState::AckMissing, SenderEvent::StreamFailed) => (
                SenderState::Closed(SendOutcome::AckMissing),
                SenderAction::Finish(SendOutcome::AckMissing),
            ),
            (state, _) => (state, SenderAction::Nothing),
        }
    }
}

/// The bytes of `chunks`, one chunk after the other.
pub open spec fn joined(chunks: Seq<Seq<u8>>) -> Seq<u8>
    decreases chunks.len(),
{
    if chunks.len() == 0 {
        Seq::empty()
    } else {
        joined(chunks.drop_last()) + chunks.last()
    }
}

/// Where the consumer stands after `events`, starting from `state`, and
/// the action that the last event led to.
pub open spec fn receiver_run(
    state: ReceiverState<Seq<u8>>,
    events: Seq<ReceiverEvent<Seq<u8>>>,
) -> (ReceiverState<Seq<u8>>, ReceiverAction<Seq<u8>>)
    decreases events.len(),
{
    if events.len() == 0 {
        (state, ReceiverAction::Nothing)
    } else {
        receiver_step(receiver_run(state, events.drop_last()).0, events.last())
    }
}

/// What a consumer sees of a stream that opens and then delivers `chunks`
/// one by one.
pub open spec fn arrival(chunks: Seq<Seq<u8>>) -> Seq<ReceiverEvent<Seq<u8>>> {
    seq![ReceiverEvent::StreamOpened] + Seq::new(
        chunks.len(),
        |i: int| ReceiverEvent::Data(chunks[i]),
    )
}

/// While chunks arrive, the consumer holds exactly their concatenation and
/// asks for more.
pub proof fn lemma_receiver_accumulates(chunks: Seq<Seq<u8>>)
    ensures
        receiver_run(ReceiverState::Connected, arrival(chunks)).0 == (ReceiverState::ReceivingBlob {
            received: joined(chunks),
        }),
    decreases chunks.len(),
{
    let events = arrival(chunks);
    if chunks.len() == 0 {
        assert(events.drop_last() =~= Seq::empty());
        assert(receiver_run(ReceiverState::Connected, events.drop_last()).0
            == ReceiverState::<Seq<u8>>::Connected);
    } else {
        lemma_receiver_accumulates(chunks.drop_last());
        assert(events.drop_last() =~= arrival(chunks.drop_last()));
        assert(events.last() == ReceiverEvent::Data(chunks.last()));
    }
}

/// A blob that goes through the push protocol reaches the destination
/// byte for byte.
///
/// The producer sends the blob as it was read. However the
/// stream cuts it into chunks, a consumer that sees the chunks in order and
/// then the end of the data asks to persist exactly the blob; the
/// destination holds the blob once that is done; and the consumer reports
/// success with the byte that the producer takes as `Acked`.
pub proof fn law_pushed_blob_arrives_intact(
    blob: Seq<u8>,
    chunks: Seq<Seq<u8>>,
    before: Option<Seq<u8>>,
)
    requires
        joined(chunks) == blob,
    ensures
        receiver_run(ReceiverState::Connected, arrival(chunks).push(ReceiverEvent::EndOfData)).1
            matches ReceiverAction::Persist(handed_over) && destination_after(
            before,
            Some(handed_over),
            PersistStatus::Written,
        ) == Some(blob),
        sender_step(SenderState::Accepted, SenderEvent::SourceRead(blob)) == (
            SenderState::SendingBlob,
            SenderAction::SendBlob(blob),
        ),
        receiver_run(ReceiverState::Connected, arrival(chunks).push(ReceiverEvent::EndOfData)) == (
            ReceiverState::<Seq<u8>>::Persisted,
            ReceiverAction::Persist(blob),
        ),
        receiver_step(
            ReceiverState::Persisted,
            ReceiverEvent::PersistFinished(PersistStatus::Written),
        ) == (
            ReceiverState::<Seq<u8>>::SendingAck { outcome: PathOutcome::Committed },
            ReceiverAction::<Seq<u8>>::SendAck(ACK_PERSISTED),
        ),
        sender_step(SenderState::AwaitingAck, SenderEvent::AckReceived(ACK_PERSISTED)).0
            == SenderState::Acked,
{
    lemma_receiver_accumulates(chunks);
    let events = arrival(chunks).push(ReceiverEvent::EndOfData);
    assert(events.drop_last() =~= arrival(chunks));
}

} // verus!
