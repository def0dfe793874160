//! The receiver loop of a client session.
//!
//! The loop waits for the next inbound item or for the cancellation signal,
//! whichever comes first. A message is timed against the previous arrival and
//! reported at the level its delay calls for. When the peer is gone the loop
//! trips the signal itself, so that its sibling loop ends too; it then ends at
//! its next wait, where it observes the signal like everyone else.

use crate::arrival::{elapsed_between, ArrivalRecord};
use crate::severity::{classify, severity_of, Severity};
use crate::transport::Inbound;
use tokio_util::sync::CancellationToken;
use vstd::prelude::*;

verus! {

/// Where the receiver loop stands.
#[derive(Clone, Copy, Debug, PartialEq, Eq, Structural)]
pub enum ReceiverPhase {
    /// Waiting for the next inbound item or for cancellation.
    Waiting,
    /// Handling an inbound item.
    Processing,
    /// The loop has ended.
    Stopped,
}

/// What can happen to the receiver loop.
#[derive(Debug, PartialEq, Eq)]
pub enum ReceiverEvent {
    /// The inbound half yielded `item` at time `now_nanos`.
    Inbound { item: Inbound, now_nanos: u64 },
    /// The cancellation signal was observed while waiting.
    Cancelled,
    /// The item in hand has been dealt with.
    Handled,
}

/// What the loop's driver has to do next.
#[derive(Clone, Copy, Debug, PartialEq, Eq, Structural)]
pub enum ReceiverAction {
    /// Report the message at `level`; it came `delay_nanos` after the
    /// previous arrival.
    Report { level: Severity, delay_nanos: u64 },
    /// The peer is gone and the signal has been tripped: report it.
    PeerGone,
    /// Wait for the next item.
    Resume,
    /// Leave the loop.
    Stop,
    /// The event does not apply in this phase; nothing changed.
    Nothing,
}

/// The state of a receiver loop as contracts see it.
pub struct ReceiverView {
    pub phase: ReceiverPhase,
    /// Time of the most recent arrival, in nanoseconds.
    pub last: nat,
}

/// The receiver's transition function: the state and the action that follow
/// `event` in state `s`.
pub open spec fn receiver_step(s: ReceiverView, event: ReceiverEvent) -> (ReceiverView, ReceiverAction) {
    match s.phase {
        ReceiverPhase::Waiting => match event {
            ReceiverEvent::Inbound { item, now_nanos } => if item.is_message() {
                (
                    ReceiverView { phase: ReceiverPhase::Processing, last: now_nanos as nat },
                    ReceiverAction::Report {
                        level: severity_of(elapsed_between(s.last, now_nanos as nat)),
                        delay_nanos: elapsed_between(s.last, now_nanos as nat) as u64,
                    },
                )
            } else {
                (ReceiverView { phase: ReceiverPhase::Processing, last: s.last }, ReceiverAction::PeerGone)
            },
            ReceiverEvent::Cancelled => (
                ReceiverView { phase: ReceiverPhase::Stopped, last: s.last },
                ReceiverAction::Stop,
            ),
            ReceiverEvent::Handled => (s, ReceiverAction::Nothing),
        },
        ReceiverPhase::Processing => match event {
            ReceiverEvent::Handled => (
                ReceiverView { phase: ReceiverPhase::Waiting, last: s.last },
                ReceiverAction::Resume,
            ),
            _ => (s, ReceiverAction::Nothing),
        },
        ReceiverPhase::Stopped => (s, ReceiverAction::Nothing),
    }
}

/// A client's receiver loop.
#[derive(Clone, Copy, Debug, PartialEq, Eq)]
pub struct Receiver {
    phase: ReceiverPhase,
    arrivals: ArrivalRecord,
}

impl View for Receiver {
    type V = ReceiverView;

    closed spec fn view(&self) -> ReceiverView {
        ReceiverView { phase: self.phase, last: self.arrivals@ }
    }
}

impl Receiver {
    /// A receiver for a session that starts at `start_nanos`. The first
    /// message is timed against the start of the session.
    pub fn new(start_nanos: u64) -> (receiver: Receiver)
        ensures
            receiver@ == (ReceiverView { phase: ReceiverPhase::Waiting, last: start_nanos as nat }),
    {
        Receiver { phase: ReceiverPhase::Waiting, arrivals: ArrivalRecord::starting_at(start_nanos) }
    }

    /// Where the loop stands.
    pub fn phase(&self) -> (phase: ReceiverPhase)
        ensures
            phase == self@.phase,
    {
        self.phase
    }

    /// The time of the most recent arrival.
    pub fn last_arrival_nanos(&self) -> (last: u64)
        ensures
            last == self@.last,
    {
        self.arrivals.last_nanos()
    }

    /// Whether the loop has ended.
    pub fn is_stopped(&self) -> (stopped: bool)
        ensures
            stopped == (self@.phase == ReceiverPhase::Stopped),
    {
        match self.phase {
            ReceiverPhase::Stopped => true,
            _ => false,
        }
    }

    /// Takes `event` and says what to do next. When the event shows that the
    /// peer is gone, `token` is tripped before the function returns; `token`
    /// is not touched otherwise, and not when cancellation is observed.
    pub fn on_event(&mut self, event: ReceiverEvent, token: &CancellationToken) -> (action: ReceiverAction)
        ensures
            (final(self)@, action) == receiver_step(old(self)@, event),
    {
        match self.phase {
            ReceiverPhase::Waiting => match event {
                ReceiverEvent::Inbound { item, now_nanos } => {
                    self.phase = ReceiverPhase::Processing;
                    match item {
                        Inbound::Text(_) | Inbound::Other => {
                            let delay_nanos: u64 = self.arrivals.observe(now_nanos);
                            ReceiverAction::Report { level: classify(delay_nanos), delay_nanos }
                        },
                        Inbound::Malformed | Inbound::Closed => {
                            token.cancel();
                            ReceiverAction::PeerGone
                        },
                    }
                },
                ReceiverEvent::Cancelled => {
                    self.phase = ReceiverPhase::Stopped;
                    ReceiverAction::Stop
                },
                ReceiverEvent::Handled => ReceiverAction::Nothing,
            },
            ReceiverPhase::Processing => match event {
                ReceiverEvent::Handled => {
                    self.phase = ReceiverPhase::Waiting;
                    ReceiverAction::Resume
                },
                _ => ReceiverAction::Nothing,
            },
            ReceiverPhase::Stopped => ReceiverAction::Nothing,
        }
    }
}

/// The state that a series of events leads to, taken in order from state
/// `s`.
pub open spec fn receiver_run(s: ReceiverView, events: Seq<ReceiverEvent>) -> ReceiverView
    decreases events.len(),
{
    if events.len() == 0 {
        s
    } else {
        receiver_step(receiver_run(s, events.drop_last()), events.last()).0
    }
}

/// The receiver trips the signal in one case only: it was waiting, and an
/// item came that shows the peer gone. Observing cancellation never trips
/// it again.
pub proof fn lemma_receiver_trips_only_for_a_lost_peer(s: ReceiverView, event: ReceiverEvent)
    ensures
        receiver_step(s, event).1 == ReceiverAction::PeerGone <==> s.phase == ReceiverPhase::Waiting && (
        event matches ReceiverEvent::Inbound { item, .. } && item.is_peer_gone()),
{
}

/// A receiver that waits leaves its loop as soon as it observes
/// cancellation.
pub proof fn lemma_cancellation_stops_waiting_receiver(s: ReceiverView)
    requires
        s.phase == ReceiverPhase::Waiting,
    ensures
        receiver_step(s, ReceiverEvent::Cancelled) == (
            ReceiverView { phase: ReceiverPhase::Stopped, last: s.last },
            ReceiverAction::Stop,
        ),
{
}

/// A receiver that has stopped stays stopped, whatever happens.
pub proof fn lemma_stopped_receiver_stays_stopped(s: ReceiverView, events: Seq<ReceiverEvent>)
    requires
        s.phase == ReceiverPhase::Stopped,
    ensures
        receiver_run(s, events) == s,
    decreases events.len(),
{
    if events.len() > 0 {
        lemma_stopped_receiver_stays_stopped(s, events.drop_last());
    }
}

} // verus!
