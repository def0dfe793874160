//! The responder loop of a server session.
//!
//! The loop waits for the next inbound item or for the cancellation signal.
//! Every text message is timed against the previous one, reported at the
//! level its delay calls for, and answered with an echo. An echo that cannot
//! be written is reported and the loop goes on. The end of the inbound
//! sequence and an item that is no message both end the session quietly;
//! the responder never trips the signal.

use crate::arrival::{elapsed_between, ArrivalRecord};
use crate::payload::{echo_payload, echo_text};
use crate::severity::{classify, severity_of, Severity};
use crate::transport::Inbound;
use vstd::prelude::*;

verus! {

/// Where the responder loop stands.
#[derive(Clone, Copy, Debug, PartialEq, Eq, Structural)]
pub enum ResponderPhase {
    /// Waiting for the next inbound item or for cancellation.
    Waiting,
    /// An echo has been handed out for writing and the write is under way.
    Replying,
    /// The loop has ended.
    Stopped,
}

/// What can happen to the responder loop.
#[derive(Debug, PartialEq, Eq)]
pub enum ResponderEvent {
    /// The inbound half yielded `item` at time `now_nanos`.
    Inbound { item: Inbound, now_nanos: u64 },
    /// The cancellation signal was observed while waiting.
    Cancelled,
    /// The echo in hand was written.
    Written,
    /// Writing the echo in hand failed.
    WriteFailed,
}

/// Why a responder loop ended.
#[derive(Clone, Copy, Debug, PartialEq, Eq, Structural)]
pub enum SessionEnd {
    /// The cancellation signal was observed.
    Cancelled,
    /// The peer closed the transport or sent what is no message.
    Disconnected,
}

/// What the loop's driver has to do next.
#[derive(Debug, PartialEq, Eq)]
pub enum ResponderAction {
    /// Report the message at `level`; it came `delay_nanos` after the
    /// previous one. Then write `payload` and report `Written` or
    /// `WriteFailed`.
    Reply { level: Severity, delay_nanos: u64, payload: String },
    /// The echo is out: wait for the next item.
    Resume,
    /// The echo could not be written: report the error and wait for the next
    /// item.
    ReportWriteError,
    /// The item carries no text and is passed over: wait for the next item.
    Skip,
    /// Leave the loop; the session ended without error.
    Stop(SessionEnd),
    /// The event does not apply in this phase; nothing changed.
    Nothing,
}

/// An action as contracts see it.
pub enum ResponderActionView {
    Reply { level: Severity, delay_nanos: nat, payload: Seq<char> },
    Resume,
    ReportWriteError,
    Skip,
    Stop(SessionEnd),
    Nothing,
}

impl View for ResponderAction {
    type V = ResponderActionView;

    open spec fn view(&self) -> ResponderActionView {
        match self {
            ResponderAction::Reply { level, delay_nanos, payload } => ResponderActionView::Reply {
                level: *level,
                delay_nanos: *delay_nanos as nat,
                payload: payload@,
            },
            ResponderAction::Resume => ResponderActionView::Resume,
            ResponderAction::ReportWriteError => ResponderActionView::ReportWriteError,
            ResponderAction::Skip => ResponderActionView::Skip,
            ResponderAction::Stop(end) => ResponderActionView::Stop(*end),
            ResponderAction::Nothing => ResponderActionView::Nothing,
        }
    }
}

/// The state of a responder loop as contracts see it.
pub struct ResponderView {
    pub phase: ResponderPhase,
    /// Time of the most recent text message, in nanoseconds.
    pub last: nat,
}

/// What follows an inbound item while the responder waits.
pub open spec fn responder_takes(s: ResponderView, item: Inbound, now: nat) -> (ResponderView, ResponderActionView) {
    match item {
        Inbound::Text(text) => (
            ResponderView { phase: ResponderPhase::Replying, last: now },
            ResponderActionView::Reply {
                level: severity_of(elapsed_between(s.last, now)),
                delay_nanos: elapsed_between(s.last, now),
                payload: echo_text(text@),
            },
        ),
        Inbound::Other => (s, ResponderActionView::Skip),
        Inbound::Malformed | Inbound::Closed => (
            ResponderView { phase: ResponderPhase::Stopped, last: s.last },
            ResponderActionView::Stop(SessionEnd::Disconnected),
        ),
    }
}

/// The responder's transition function: the state and the action that follow
/// `event` in state `s`.
pub open spec fn responder_step(s: ResponderView, event: ResponderEvent) -> (ResponderView, ResponderActionView) {
    match s.phase {
        ResponderPhase::Waiting => match event {
            ResponderEvent::Inbound { item, now_nanos } => responder_takes(s, item, now_nanos as nat),
            ResponderEvent::Cancelled => (
                ResponderView { phase: ResponderPhase::Stopped, last: s.last },
                ResponderActionView::Stop(SessionEnd::Cancelled),
            ),
            _ => (s, ResponderActionView::Nothing),
        },
        ResponderPhase::Replying => match event {
            ResponderEvent::Written => (
                ResponderView { phase: ResponderPhase::Waiting, last: s.last },
                ResponderActionView::Resume,
            ),
            ResponderEvent::WriteFailed => (
                ResponderView { phase: ResponderPhase::Waiting, last: s.last },
                ResponderActionView::ReportWriteError,
            ),
            _ => (s, ResponderActionView::Nothing),
        },
        ResponderPhase::Stopped => (s, ResponderActionView::Nothing),
    }
}

/// A server's responder loop.
#[derive(Clone, Copy, Debug, PartialEq, Eq)]
pub struct Responder {
    phase: ResponderPhase,
    arrivals: ArrivalRecord,
}

impl View for Responder {
    type V = ResponderView;

    closed spec fn view(&self) -> ResponderView {
        ResponderView { phase: self.phase, last: self.arrivals@ }
    }
}

impl Responder {
    /// A responder for a session that starts at `start_nanos`. The first
    /// message is timed against the start of the session.
    pub fn new(start_nanos: u64) -> (responder: Responder)
        ensures
            responder@ == (ResponderView { phase: ResponderPhase::Waiting, last: start_nanos as nat }),
    {
        Responder { phase: ResponderPhase::Waiting, arrivals: ArrivalRecord::starting_at(start_nanos) }
    }

    /// Where the loop stands.
    pub fn phase(&self) -> (phase: ResponderPhase)
        ensures
            phase == self@.phase,
    {
        self.phase
    }

    /// The time of the most recent text message.
    pub fn last_arrival_nanos(&self) -> (last: u64)
        ensures
            last == self@.last,
    {
        self.arrivals.last_nanos()
    }

    /// Whether the loop has ended.
    pub fn is_stopped(&self) -> (stopped: bool)
        ensures
            stopped == (self@.phase == ResponderPhase::Stopped),
    {
        match self.phase {
            ResponderPhase::Stopped => true,
            _ => false,
        }
    }

    /// Takes `event` and says what to do next.
    pub fn on_event(&mut self, event: ResponderEvent) -> (action: ResponderAction)
        ensures
            (final(self)@, action@) == responder_step(old(self)@, event),
    {
        match self.phase {
            ResponderPhase::Waiting => match event {
                ResponderEvent::Inbound { item, now_nanos } => match item {
                    Inbound::Text(text) => {
                        let delay_nanos: u64 = self.arrivals.observe(now_nanos);
                        self.phase = ResponderPhase::Replying;
                        ResponderAction::Reply {
                            level: classify(delay_nanos),
                            delay_nanos,
                            payload: echo_payload(text.as_str()),
                        }
                    },
                    Inbound::Other => ResponderAction::Skip,
                    Inbound::Malformed | Inbound::Closed => {
                        self.phase = ResponderPhase::Stopped;
                        ResponderAction::Stop(SessionEnd::Disconnected)
                    },
                },
                ResponderEvent::Cancelled => {
                    self.phase = ResponderPhase::Stopped;
                    ResponderAction::Stop(SessionEnd::Cancelled)
                },
                _ => ResponderAction::Nothing,
            },
            ResponderPhase::Replying => match event {
                ResponderEvent::Written => {
                    self.phase = ResponderPhase::Waiting;
                    ResponderAction::Resume
                },
                ResponderEvent::WriteFailed => {
                    self.phase = ResponderPhase::Waiting;
                    ResponderAction::ReportWriteError
                },
                _ => ResponderAction::Nothing,
            },
            ResponderPhase::Stopped => ResponderAction::Nothing,
        }
    }
}

/// The state that a series of events leads to, taken in order from state
/// `s`.
pub open spec fn responder_run(s: ResponderView, events: Seq<ResponderEvent>) -> ResponderView
    decreases events.len(),
{
    if events.len() == 0 {
        s
    } else {
        responder_step(responder_run(s, events.drop_last()), events.last()).0
    }
}

/// A transport that breaks ends the session as one that was closed does:
/// quietly, whenever it happens.
pub proof fn lemma_broken_transport_ends_like_closed(s: ResponderView, broke_at: u64, closed_at: u64)
    requires
        s.phase == ResponderPhase::Waiting,
    ensures
        responder_step(s, ResponderEvent::Inbound { item: Inbound::Malformed, now_nanos: broke_at })
            == responder_step(s, ResponderEvent::Inbound { item: Inbound::Closed, now_nanos: closed_at }),
        responder_step(s, ResponderEvent::Inbound { item: Inbound::Closed, now_nanos: closed_at }) == (
            ResponderView { phase: ResponderPhase::Stopped, last: s.last },
            ResponderActionView::Stop(SessionEnd::Disconnected),
        ),
{
}

/// An echo that cannot be written does not end the session: the responder
/// waits for the next item.
pub proof fn lemma_write_failure_keeps_responder_going(s: ResponderView)
    requires
        s.phase == ResponderPhase::Replying,
    ensures
        responder_step(s, ResponderEvent::WriteFailed) == (
            ResponderView { phase: ResponderPhase::Waiting, last: s.last },
            ResponderActionView::ReportWriteError,
        ),
{
}

/// A responder that has stopped stays stopped, whatever happens.
pub proof fn lemma_stopped_responder_stays_stopped(s: ResponderView, events: Seq<ResponderEvent>)
    requires
        s.phase == ResponderPhase::Stopped,
    ensures
        responder_run(s, events) == s,
    decreases events.len(),
{
    if events.len() > 0 {
        lemma_stopped_responder_stays_stopped(s, events.drop_last());
    }
}

/// A responder that waits leaves its loop as soon as it observes
/// cancellation, without error.
pub proof fn lemma_cancellation_stops_waiting_responder(s: ResponderView)
    requires
        s.phase == ResponderPhase::Waiting,
    ensures
        responder_step(s, ResponderEvent::Cancelled) == (
            ResponderView { phase: ResponderPhase::Stopped, last: s.last },
            ResponderActionView::Stop(SessionEnd::Cancelled),
        ),
{
}

} // verus!
