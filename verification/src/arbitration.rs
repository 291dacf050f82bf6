//! Arbitration between the two delivery paths of a failover attempt.
//!
//! The push path and the fallback path run side by side. Each asks the
//! arbiter for the commit token before it replaces the destination file.
//! The token is granted once, so at most one path writes. The other path
//! runs to its natural end and discards what it fetched.

use vstd::prelude::*;
use crate::metadata::MetadataFormatError;
use crate::store::StoreError;
use crate::transport::ConnectError;

verus! {

/// One of the two delivery paths.
#[derive(Clone, Copy, Debug, PartialEq, Eq, Structural)]
pub enum Source {
    /// The direct transfer from the producer.
    Push,
    /// The pull from the durable store.
    Fallback,
}

/// Why a delivery path gave up.
#[derive(Clone, Copy, Debug, PartialEq, Eq, Structural)]
pub enum PathError {
    /// The producer could not be reached.
    Connect(ConnectError),
    /// The stream broke, or the destination could not be replaced.
    TransferFailed,
    /// The freshness record could not be read.
    MetadataFormat(MetadataFormatError),
    /// The stored snapshot is older than the staleness bound. This is an
    /// expected outcome, not a fault.
    StaleData,
    /// The store did not hand out the snapshot.
    FetchFailed(StoreError),
}

/// How the attempt to replace the destination file ended.
#[derive(Clone, Copy, Debug, PartialEq, Eq, Structural)]
pub enum PersistStatus {
    /// The path held the commit token and the destination now holds its
    /// blob.
    Written,
    /// The other path holds the commit token: nothing was written.
    Suppressed,
    /// The path held the commit token but the replacement failed.
    Failed,
}

/// How a delivery path ended.
#[derive(Clone, Copy, Debug, PartialEq, Eq, Structural)]
pub enum PathOutcome {
    /// The path wrote the destination.
    Committed,
    /// The path fetched a blob and dropped it, because the other path
    /// holds the commit token.
    Discarded,
    /// The path gave up.
    Failed(PathError),
}

/// The outcome of a path whose attempt to persist ended with `status`.
pub open spec fn outcome_of(status: PersistStatus) -> PathOutcome {
    match status {
        PersistStatus::Written => PathOutcome::Committed,
        PersistStatus::Suppressed => PathOutcome::Discarded,
        PersistStatus::Failed => PathOutcome::Failed(PathError::TransferFailed),
    }
}

impl PersistStatus {
    /// The outcome of a path whose attempt to persist ended this way.
    pub fn outcome(self) -> (outcome: PathOutcome)
        ensures
            outcome == outcome_of(self),
    {
        match self {
            PersistStatus::Written => PathOutcome::Committed,
            PersistStatus::Suppressed => PathOutcome::Discarded,
            PersistStatus::Failed => PathOutcome::Failed(PathError::TransferFailed),
        }
    }
}

/// What the destination holds after an attempt to replace it with `blob`
/// that ended with `status`: the blob if it was written, and otherwise
/// what it held before. A replacement is atomic, so there is nothing in
/// between.
pub open spec fn destination_after(
    before: Option<Seq<u8>>,
    handed_over: Option<Seq<u8>>,
    status: PersistStatus,
) -> Option<Seq<u8>> {
    match handed_over {
        Some(blob) => if status == PersistStatus::Written {
            Some(blob)
        } else {
            before
        },
        None => before,
    }
}

/// The status of an attempt to persist, from what happened.
pub open spec fn status_of(granted: bool, replaced: bool) -> PersistStatus {
    if !granted {
        PersistStatus::Suppressed
    } else if replaced {
        PersistStatus::Written
    } else {
        PersistStatus::Failed
    }
}

/// The status of an attempt to persist. `granted` says whether the path
/// got the commit token. Without it the path must not touch the
/// destination, and the attempt counts as suppressed. With it, `replaced`
/// says whether the replacement of the destination succeeded.
pub fn persist_status(granted: bool, replaced: bool) -> (status: PersistStatus)
    ensures
        status == status_of(granted, replaced),
{
    if !granted {
        PersistStatus::Suppressed
    } else if replaced {
        PersistStatus::Written
    } else {
        PersistStatus::Failed
    }
}

/// Whether a delivery path still runs.
#[derive(Clone, Copy, Debug, PartialEq, Eq, Structural)]
pub enum PathStatus {
    /// The path has not ended yet.
    Running,
    /// The path ended this way.
    Ended(PathOutcome),
}

/// The result of a failover attempt, as far as it is known.
#[derive(Clone, Copy, Debug, PartialEq, Eq, Structural)]
pub enum Verdict {
    /// No path has written the destination, and at least one still runs.
    Pending,
    /// This path wrote the destination: the attempt succeeded.
    Restored(Source),
    /// Both paths ended and neither wrote the destination.
    NoSourceAvailable,
}

/// The single-writer gate of one failover attempt, and what is known of
/// the two paths.
#[derive(Clone, Copy, Debug, PartialEq, Eq, Structural)]
pub struct Arbiter {
    /// The path that holds the commit token, if it was handed out.
    pub holder: Option<Source>,
    /// How the push path stands.
    pub push: PathStatus,
    /// How the fallback path stands.
    pub fallback: PathStatus,
}

/// What the two paths tell the arbiter.
#[derive(Clone, Copy, Debug, PartialEq, Eq, Structural)]
pub enum ArbiterEvent {
    /// The path has a blob and asks for the commit token.
    CommitRequested(Source),
    /// The path ended.
    Ended(Source, PathOutcome),
}

/// The arbiter's answer.
#[derive(Clone, Copy, Debug, PartialEq, Eq, Structural)]
pub enum ArbiterAction {
    /// The token is the asker's: it may replace the destination.
    Grant,
    /// The token is taken: the asker drops its blob and writes nothing.
    Deny,
    /// Noted. This is the verdict so far. A path that still runs is left
    /// to run to its natural end whatever the verdict.
    Report(Verdict),
}

/// The arbiter at the start of a failover attempt: the token is free and
/// both paths run.
pub open spec fn fresh_arbiter() -> Arbiter {
    Arbiter { holder: None, push: PathStatus::Running, fallback: PathStatus::Running }
}

/// The verdict that follows from what is known of the two paths.
pub open spec fn verdict_of(arbiter: Arbiter) -> Verdict {
    if arbiter.push == PathStatus::Ended(PathOutcome::Committed) {
        Verdict::Restored(Source::Push)
    } else if arbiter.fallback == PathStatus::Ended(PathOutcome::Committed) {
        Verdict::Restored(Source::Fallback)
    } else if arbiter.push is Ended && arbiter.fallback is Ended {
        Verdict::NoSourceAvailable
    } else {
        Verdict::Pending
    }
}

/// The arbiter's rule.
///
/// The first request for the commit token is granted, and every later one
/// is denied, whoever asks. The end of a path is noted, and changes nothing
/// about the token.
pub open spec fn arbiter_step(arbiter: Arbiter, event: ArbiterEvent) -> (Arbiter, ArbiterAction) {
    match event {
        ArbiterEvent::CommitRequested(source) => match arbiter.holder {
            None => (Arbiter { holder: Some(source), ..arbiter }, ArbiterAction::Grant),
            Some(_) => (arbiter, ArbiterAction::Deny),
        },
        ArbiterEvent::Ended(source, outcome) => {
            let next = match source {
                Source::Push => Arbiter { push: PathStatus::Ended(outcome), ..arbiter },
                Source::Fallback => Arbiter { fallback: PathStatus::Ended(outcome), ..arbiter },
            };
            (next, ArbiterAction::Report(verdict_of(next)))
        },
    }
}

impl Arbiter {
    /// The arbiter of a new failover attempt.
    pub fn new() -> (arbiter: Self)
        ensures
            arbiter == fresh_arbiter(),
    {
        Arbiter { holder: None, push: PathStatus::Running, fallback: PathStatus::Running }
    }

    /// The verdict so far.
    pub fn verdict(&self) -> (verdict: Verdict)
        ensures
            verdict == verdict_of(*self),
    {
        let push_ended: bool = match self.push {
            PathStatus::Ended(_) => true,
            PathStatus::Running => false,
        };
        let fallback_ended: bool = match self.fallback {
            PathStatus::Ended(_) => true,
            PathStatus::Running => false,
        };
        if self.push == PathStatus::Ended(PathOutcome::Committed) {
            Verdict::Restored(Source::Push)
        } else if self.fallback == PathStatus::Ended(PathOutcome::Committed) {
            Verdict::Restored(Source::Fallback)
        } else if push_ended && fallback_ended {
            Verdict::NoSourceAvailable
        } else {
            Verdict::Pending
        }
    }

    /// Takes one event and answers it.
    pub fn step(&mut self, event: ArbiterEvent) -> (action: ArbiterAction)
        ensures
            (*final(self), action) == arbiter_step(*old(self), event),
    {
        match event {
            ArbiterEvent::CommitRequested(source) => match self.holder {
                None => {
                    self.holder = Some(source);
                    ArbiterAction::Grant
                },
                Some(_) => ArbiterAction::Deny,
            },
            ArbiterEvent::Ended(source, outcome) => {
                match source {
                    Source::Push => {
                        self.push = PathStatus::Ended(outcome);
                    },
                    Source::Fallback => {
                        self.fallback = PathStatus::Ended(outcome);
                    },
                }
                ArbiterAction::Report(self.verdict())
            },
        }
    }

    /// Asks for the commit token on behalf of `source`. The answer is
    /// `true` for the first request of an attempt and `false` ever after.
    pub fn request_commit(&mut self, source: Source) -> (granted: bool)
        ensures
            *final(self) == arbiter_step(*old(self), ArbiterEvent::CommitRequested(source)).0,
            granted == (arbiter_step(*old(self), ArbiterEvent::CommitRequested(source)).1
                == ArbiterAction::Grant),
            granted == (old(self).holder is None),
    {
        match self.step(ArbiterEvent::CommitRequested(source)) {
            ArbiterAction::Grant => true,
            _ => false,
        }
    }

    /// Notes that `source` ended with `outcome`, and gives the verdict so
    /// far.
    pub fn conclude(&mut self, source: Source, outcome: PathOutcome) -> (verdict: Verdict)
        ensures
            *final(self) == arbiter_step(*old(self), ArbiterEvent::Ended(source, outcome)).0,
            verdict == verdict_of(*final(self)),
    {
        match self.step(ArbiterEvent::Ended(source, outcome)) {
            ArbiterAction::Report(verdict) => verdict,
            _ => Verdict::Pending,
        }
    }
}

/// The arbiter after `events`, starting from `arbiter`.
pub open spec fn arbiter_run(arbiter: Arbiter, events: Seq<ArbiterEvent>) -> Arbiter
    decreases events.len(),
{
    if events.len() == 0 {
        arbiter
    } else {
        arbiter_step(arbiter_run(arbiter, events.drop_last()), events.last()).0
    }
}

/// How often the commit token is granted during `events`, starting from
/// `arbiter`. Each grant permits one replacement of the destination.
pub open spec fn grants(arbiter: Arbiter, events: Seq<ArbiterEvent>) -> nat
    decreases events.len(),
{
    if events.len() == 0 {
        0
    } else {
        let earlier = events.drop_last();
        let now: nat = if arbiter_step(arbiter_run(arbiter, earlier), events.last()).1
            == ArbiterAction::Grant {
            1
        } else {
            0
        };
        grants(arbiter, earlier) + now
    }
}

/// How many of `events` are requests for the commit token.
pub open spec fn requests(events: Seq<ArbiterEvent>) -> nat
    decreases events.len(),
{
    if events.len() == 0 {
        0
    } else {
        let now: nat = if events.last() is CommitRequested {
            1
        } else {
            0
        };
        requests(events.drop_last()) + now
    }
}

/// One failover attempt never leads to two writes of the destination.
///
/// Whatever the two paths do and in whatever order their events reach the
/// arbiter, the commit token is granted at most once; and it is granted
/// exactly once as soon as any path asks for it, so two paths that both
/// succeed still lead to one replacement. The token is free exactly as
/// long as nobody asked.
pub proof fn law_single_writer(events: Seq<ArbiterEvent>)
    ensures
        grants(fresh_arbiter(), events) <= 1,
        requests(events) >= 1 ==> grants(fresh_arbiter(), events) == 1,
        requests(events) == 0 ==> grants(fresh_arbiter(), events) == 0,
        arbiter_run(fresh_arbiter(), events).holder is None <==> requests(events) == 0,
    decreases events.len(),
{
    if events.len() > 0 {
        law_single_writer(events.drop_last());
    }
}

/// The other of the two paths.
pub open spec fn other(source: Source) -> Source {
    match source {
        Source::Push => Source::Fallback,
        Source::Fallback => Source::Push,
    }
}

/// Two paths that both fetch a blob lead to one write.
///
/// Whichever path asks first is granted the token and writes; the other is
/// denied and its attempt counts as suppressed; and however the two paths
/// end after that, in either order, the verdict names the first.
pub proof fn law_both_ready_one_writes(first: Source, first_ends_first: bool)
    ensures
        ({
            let (a1, g1) = arbiter_step(fresh_arbiter(), ArbiterEvent::CommitRequested(first));
            let (a2, g2) = arbiter_step(a1, ArbiterEvent::CommitRequested(other(first)));
            let won = ArbiterEvent::Ended(
                first,
                outcome_of(status_of(g1 == ArbiterAction::Grant, true)),
            );
            let lost = ArbiterEvent::Ended(
                other(first),
                outcome_of(status_of(g2 == ArbiterAction::Grant, true)),
            );
            let a4 = if first_ends_first {
                arbiter_step(arbiter_step(a2, won).0, lost).0
            } else {
                arbiter_step(arbiter_step(a2, lost).0, won).0
            };
            &&& g1 == ArbiterAction::Grant
            &&& g2 == ArbiterAction::Deny
            &&& status_of(g1 == ArbiterAction::Grant, true) == PersistStatus::Written
            &&& status_of(g2 == ArbiterAction::Grant, true) == PersistStatus::Suppressed
            &&& verdict_of(a4) == Verdict::Restored(first)
        }),
{
}

/// The token goes to the path that asks first, and stays there.
pub proof fn law_first_request_wins(earlier: Seq<ArbiterEvent>, first: Source, later: Seq<ArbiterEvent>)
    requires
        requests(earlier) == 0,
    ensures
        arbiter_run(
            fresh_arbiter(),
            earlier.push(ArbiterEvent::CommitRequested(first)) + later,
        ).holder == Some(first),
    decreases later.len(),
{
    let head = earlier.push(ArbiterEvent::CommitRequested(first));
    if later.len() == 0 {
        assert(head + later =~= head);
        assert(head.drop_last() =~= earlier);
        law_single_writer(earlier);
    } else {
        law_first_request_wins(earlier, first, later.drop_last());
        assert((head + later).drop_last() =~= head + later.drop_last());
    }
}

/// The attempt fails with `NoSourceAvailable` exactly when both paths have
/// ended and neither wrote the destination; and it succeeds as soon as one
/// path wrote it, whether or not the other still runs.
pub proof fn law_verdict(arbiter: Arbiter)
    ensures
        verdict_of(arbiter) == Verdict::NoSourceAvailable <==> (arbiter.push is Ended
            && arbiter.fallback is Ended && arbiter.push != PathStatus::Ended(
            PathOutcome::Committed,
        ) && arbiter.fallback != PathStatus::Ended(PathOutcome::Committed)),
        verdict_of(arbiter) is Restored <==> (arbiter.push == PathStatus::Ended(
            PathOutcome::Committed,
        ) || arbiter.fallback == PathStatus::Ended(PathOutcome::Committed)),
{
}

} // verus!
