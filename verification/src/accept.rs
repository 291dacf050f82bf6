//! The producer's accept loop: what to do with each inbound connection
//! attempt.
//!
//! Attempts arrive one after the other for as long as the endpoint is open.
//! An attempt that fails, and a transfer that fails, are logged and
//! forgotten: neither stops the loop.

use vstd::prelude::*;
use crate::push::SendOutcome;

verus! {

/// Whether the producer still takes connections.
#[derive(Clone, Copy, Debug, PartialEq, Eq, Structural)]
pub enum AcceptState {
    /// The endpoint is open.
    Listening,
    /// The endpoint was closed: no attempt will arrive any more.
    Stopped,
}

/// What the endpoint reports.
#[derive(Clone, Copy, Debug, PartialEq, Eq, Structural)]
pub enum AcceptEvent {
    /// An inbound attempt became a live connection.
    Established,
    /// An inbound attempt failed before it became a connection.
    AttemptFailed,
    /// A transfer that was being served ended, well or badly.
    TransferEnded(SendOutcome),
    /// The endpoint was closed.
    EndpointClosed,
}

/// What the producer is to do next.
#[derive(Clone, Copy, Debug, PartialEq, Eq, Structural)]
pub enum AcceptAction {
    /// Serve the new connection in a task of its own, and wait for the
    /// next attempt.
    Serve,
    /// Log what happened and wait for the next attempt.
    Continue,
    /// Leave the loop.
    Stop,
}

/// The accept loop's rule. Only the closing of the endpoint ends the loop.
pub open spec fn accept_step(state: AcceptState, event: AcceptEvent) -> (AcceptState, AcceptAction) {
    match (state, event) {
        (AcceptState::Stopped, _) => (AcceptState::Stopped, AcceptAction::Stop),
        (AcceptState::Listening, AcceptEvent::EndpointClosed) => (
            AcceptState::Stopped,
            AcceptAction::Stop,
        ),
        (AcceptState::Listening, AcceptEvent::Established) => (
            AcceptState::Listening,
            AcceptAction::Serve,
        ),
        (AcceptState::Listening, _) => (AcceptState::Listening, AcceptAction::Continue),
    }
}

impl AcceptState {
    /// The state of a producer whose endpoint was just bound.
    pub fn start() -> (state: Self)
        ensures
            state == AcceptState::Listening,
    {
        AcceptState::Listening
    }

    /// Takes one event and says what to do next.
    pub fn step(self, event: AcceptEvent) -> (r: (Self, AcceptAction))
        ensures
            r == accept_step(self, event),
    {
        match (self, event) {
            (AcceptState::Stopped, _) => (AcceptState::Stopped, AcceptAction::Stop),
            (AcceptState::Listening, AcceptEvent::EndpointClosed) => (
                AcceptState::Stopped,
                AcceptAction::Stop,
            ),
            (AcceptState::Listening, AcceptEvent::Established) => (
                AcceptState::Listening,
                AcceptAction::Serve,
            ),
            (AcceptState::Listening, _) => (AcceptState::Listening, AcceptAction::Continue),
        }
    }
}

/// Where the loop stands after `events`, starting from `state`.
pub open spec fn accept_run(state: AcceptState, events: Seq<AcceptEvent>) -> AcceptState
    decreases events.len(),
{
    if events.len() == 0 {
        state
    } else {
        accept_step(accept_run(state, events.drop_last()), events.last()).0
    }
}

/// How many connections were handed to a task during `events`, starting
/// from `state`.
pub open spec fn served(state: AcceptState, events: Seq<AcceptEvent>) -> nat
    decreases events.len(),
{
    if events.len() == 0 {
        0
    } else {
        let earlier = events.drop_last();
        let now: nat = if accept_step(accept_run(state, earlier), events.last()).1
            == AcceptAction::Serve {
            1
        } else {
            0
        };
        served(state, earlier) + now
    }
}

/// How many of `events` are established connections.
pub open spec fn established(events: Seq<AcceptEvent>) -> nat
    decreases events.len(),
{
    if events.len() == 0 {
        0
    } else {
        let now: nat = if events.last() == AcceptEvent::Established {
            1
        } else {
            0
        };
        established(events.drop_last()) + now
    }
}

/// The endpoint is not closed anywhere in `events`.
pub open spec fn endpoint_stays_open(events: Seq<AcceptEvent>) -> bool {
    forall|i: int| 0 <= i < events.len() ==> #[trigger] events[i] != AcceptEvent::EndpointClosed
}

/// The accept loop survives every failure.
///
/// As long as the endpoint stays open, no number of failed attempts and
/// failed transfers stops the loop: it is still listening afterwards, every
/// connection that was established in between was served, and the next one
/// will be.
pub proof fn law_accept_loop_survives_failures(events: Seq<AcceptEvent>)
    requires
        endpoint_stays_open(events),
    ensures
        accept_run(AcceptState::Listening, events) == AcceptState::Listening,
        served(AcceptState::Listening, events) == established(events),
        accept_step(accept_run(AcceptState::Listening, events), AcceptEvent::Established) == (
            AcceptState::Listening,
            AcceptAction::Serve,
        ),
    decreases events.len(),
{
    if events.len() > 0 {
        let earlier = events.drop_last();
        assert forall|i: int| 0 <= i < earlier.len() implies #[trigger] earlier[i]
            != AcceptEvent::EndpointClosed by {
            assert(earlier[i] == events[i]);
        }
        law_accept_loop_survives_failures(earlier);
        assert(events.last() == events[events.len() - 1]);
    }
}

} // verus!
