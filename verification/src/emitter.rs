//! The emitter loop of a client session.
//!
//! On every tick of a fixed interval the loop writes the next probe to the
//! outbound half of the transport. Probes carry identifiers that count up
//! from zero. While it waits for a tick the loop also waits for the
//! cancellation signal, and whichever comes first wins. A write that fails
//! ends the loop with an error; the loop never trips the signal itself.

use crate::payload::{probe_payload, probe_text};
use vstd::prelude::*;

verus! {

/// Milliseconds between two ticks of the emitter.
pub const TICK_INTERVAL_MILLIS: u64 = 200;

/// Where the emitter loop stands.
#[derive(Clone, Copy, Debug, PartialEq, Eq, Structural)]
pub enum EmitterPhase {
    /// Waiting for the next tick or for cancellation.
    Waiting,
    /// A probe has been handed out for writing and the write is under way.
    Sending,
    /// The loop has ended.
    Stopped,
}

/// What can happen to the emitter loop.
#[derive(Clone, Copy, Debug, PartialEq, Eq, Structural)]
pub enum EmitterEvent {
    /// The interval ticked.
    Tick,
    /// The cancellation signal was observed while waiting.
    Cancelled,
    /// The probe in hand was written.
    Written,
    /// Writing the probe in hand failed.
    WriteFailed,
}

/// What the loop's driver has to do next.
#[derive(Debug, PartialEq, Eq)]
pub enum EmitterAction {
    /// Write `payload`, the probe with identifier `id`, then report
    /// `Written` or `WriteFailed`.
    Send { id: u64, payload: String },
    /// The probe with identifier `id` is out: report it and wait again.
    Sent { id: u64 },
    /// Leave the loop; it ended without error.
    Finish,
    /// Leave the loop and hand the write error to the session's owner.
    Fail,
    /// The event does not apply in this phase; nothing changed.
    Nothing,
}

/// An action as contracts see it.
pub enum EmitterActionView {
    Send { id: nat, payload: Seq<char> },
    Sent { id: nat },
    Finish,
    Fail,
    Nothing,
}

impl View for EmitterAction {
    type V = EmitterActionView;

    open spec fn view(&self) -> EmitterActionView {
        match self {
            EmitterAction::Send { id, payload } => EmitterActionView::Send { id: *id as nat, payload: payload@ },
            EmitterAction::Sent { id } => EmitterActionView::Sent { id: *id as nat },
            EmitterAction::Finish => EmitterActionView::Finish,
            EmitterAction::Fail => EmitterActionView::Fail,
            EmitterAction::Nothing => EmitterActionView::Nothing,
        }
    }
}

/// The state of an emitter loop as contracts see it.
pub struct EmitterView {
    pub phase: EmitterPhase,
    /// The identifier of the next probe: the one being written while the
    /// phase is `Sending`, else the one that the next tick sends. It equals
    /// the number of probes written so far.
    pub next_id: nat,
}

/// The emitter's transition function: the state and the action that follow
/// `event` in state `s`.
pub open spec fn emitter_step(s: EmitterView, event: EmitterEvent) -> (EmitterView, EmitterActionView) {
    match s.phase {
        EmitterPhase::Waiting => match event {
            EmitterEvent::Tick => (
                EmitterView { phase: EmitterPhase::Sending, next_id: s.next_id },
                EmitterActionView::Send { id: s.next_id, payload: probe_text(s.next_id) },
            ),
            EmitterEvent::Cancelled => (
                EmitterView { phase: EmitterPhase::Stopped, next_id: s.next_id },
                EmitterActionView::Finish,
            ),
            _ => (s, EmitterActionView::Nothing),
        },
        EmitterPhase::Sending => match event {
            EmitterEvent::Written => (
                EmitterView { phase: EmitterPhase::Waiting, next_id: s.next_id + 1 },
                EmitterActionView::Sent { id: s.next_id },
            ),
            EmitterEvent::WriteFailed => (
                EmitterView { phase: EmitterPhase::Stopped, next_id: s.next_id },
                EmitterActionView::Fail,
            ),
            _ => (s, EmitterActionView::Nothing),
        },
        EmitterPhase::Stopped => (s, EmitterActionView::Nothing),
    }
}

/// A client's emitter loop.
#[derive(Clone, Copy, Debug, PartialEq, Eq)]
pub struct Emitter {
    phase: EmitterPhase,
    next_id: u64,
}

impl View for Emitter {
    type V = EmitterView;

    closed spec fn view(&self) -> EmitterView {
        EmitterView { phase: self.phase, next_id: self.next_id as nat }
    }
}

impl Emitter {
    /// A probe that is being written can always be followed by another.
    #[verifier::type_invariant]
    spec fn room_for_the_probe_in_hand(self) -> bool {
        self.phase == EmitterPhase::Sending ==> self.next_id < u64::MAX
    }

    /// An emitter that waits for its first tick and will send identifier
    /// zero.
    pub fn new() -> (emitter: Emitter)
        ensures
            emitter@ == (EmitterView { phase: EmitterPhase::Waiting, next_id: 0 }),
    {
        Emitter { phase: EmitterPhase::Waiting, next_id: 0 }
    }

    /// Where the loop stands.
    pub fn phase(&self) -> (phase: EmitterPhase)
        ensures
            phase == self@.phase,
    {
        self.phase
    }

    /// The identifier of the next probe, which is the number of probes
    /// written so far.
    pub fn next_id(&self) -> (id: u64)
        ensures
            id == self@.next_id,
    {
        self.next_id
    }

    /// Whether the loop has ended.
    pub fn is_stopped(&self) -> (stopped: bool)
        ensures
            stopped == (self@.phase == EmitterPhase::Stopped),
    {
        match self.phase {
            EmitterPhase::Stopped => true,
            _ => false,
        }
    }

    /// Whether a tick can be taken: the identifiers are not used up.
    pub fn can_tick(&self) -> (ok: bool)
        ensures
            ok == (self@.next_id < u64::MAX),
    {
        self.next_id < u64::MAX
    }

    /// Takes `event` and says what to do next.
    ///
    /// A tick needs an identifier that another one can follow.
    pub fn on_event(&mut self, event: EmitterEvent) -> (action: EmitterAction)
        requires
            event == EmitterEvent::Tick && old(self)@.phase == EmitterPhase::Waiting ==> old(self)@.next_id
                < u64::MAX,
        ensures
            (final(self)@, action@) == emitter_step(old(self)@, event),
    {
        proof {
            use_type_invariant(&*self);
        }
        match self.phase {
            EmitterPhase::Waiting => match event {
                EmitterEvent::Tick => {
                    self.phase = EmitterPhase::Sending;
                    EmitterAction::Send { id: self.next_id, payload: probe_payload(self.next_id) }
                },
                EmitterEvent::Cancelled => {
                    self.phase = EmitterPhase::Stopped;
                    EmitterAction::Finish
                },
                _ => EmitterAction::Nothing,
            },
            EmitterPhase::Sending => match event {
                EmitterEvent::Written => {
                    let id: u64 = self.next_id;
                    *self = Emitter { phase: EmitterPhase::Waiting, next_id: id + 1 };
                    EmitterAction::Sent { id }
                },
                EmitterEvent::WriteFailed => {
                    self.phase = EmitterPhase::Stopped;
                    EmitterAction::Fail
                },
                _ => EmitterAction::Nothing,
            },
            EmitterPhase::Stopped => EmitterAction::Nothing,
        }
    }
}

/// The state and the actions that a series of events leads to, taken in
/// order from state `s`.
pub open spec fn emitter_trace(s: EmitterView, events: Seq<EmitterEvent>) -> (EmitterView, Seq<EmitterActionView>)
    decreases events.len(),
{
    if events.len() == 0 {
        (s, Seq::empty())
    } else {
        let (before, actions) = emitter_trace(s, events.drop_last());
        let (after, action) = emitter_step(before, events.last());
        (after, actions.push(action))
    }
}

/// `n` rounds of a tick followed by a write that succeeds.
pub open spec fn rounds(n: nat) -> Seq<EmitterEvent>
    decreases n,
{
    if n == 0 {
        Seq::empty()
    } else {
        rounds((n - 1) as nat).push(EmitterEvent::Tick).push(EmitterEvent::Written)
    }
}

/// The action at place `k` of a run of rounds: the probe `k / 2` is handed
/// out at every even place and reported as sent at the odd place after it.
pub open spec fn round_action(k: int) -> EmitterActionView {
    if k % 2 == 0 {
        EmitterActionView::Send { id: (k / 2) as nat, payload: probe_text((k / 2) as nat) }
    } else {
        EmitterActionView::Sent { id: (k / 2) as nat }
    }
}

/// Identifiers count up from zero, one per tick: over `n` rounds of tick and
/// write a new emitter sends the probes `0` to `n - 1` in this order, each
/// with the payload of its identifier, and then waits to send `n`.
pub proof fn lemma_probes_count_up(n: nat)
    ensures
        emitter_trace(EmitterView { phase: EmitterPhase::Waiting, next_id: 0 }, rounds(n)) == (
            EmitterView { phase: EmitterPhase::Waiting, next_id: n },
            Seq::new(2 * n, |k: int| round_action(k)),
        ),
    decreases n,
{
    let fresh = EmitterView { phase: EmitterPhase::Waiting, next_id: 0 };
    if n == 0 {
        assert(Seq::new(0, |k: int| round_action(k)) =~= Seq::<EmitterActionView>::empty());
    } else {
        let m = (n - 1) as nat;
        lemma_probes_count_up(m);
        let ticked = rounds(m).push(EmitterEvent::Tick);
        assert(rounds(n).drop_last() =~= ticked);
        assert(ticked.drop_last() =~= rounds(m));
        let a0 = emitter_trace(fresh, rounds(m)).1;
        let a1 = emitter_trace(fresh, ticked).1;
        assert(a1 == a0.push(EmitterActionView::Send { id: m, payload: probe_text(m) }));
        let a2 = emitter_trace(fresh, rounds(n)).1;
        assert(a2 == a1.push(EmitterActionView::Sent { id: m }));
        assert(a2 =~= Seq::new(2 * n, |k: int| round_action(k)));
    }
}

/// An emitter that has stopped stays stopped and asks for nothing more,
/// whatever happens.
pub proof fn lemma_stopped_emitter_stays_stopped(s: EmitterView, events: Seq<EmitterEvent>)
    requires
        s.phase == EmitterPhase::Stopped,
    ensures
        emitter_trace(s, events).0 == s,
        forall|i: int|
            0 <= i < events.len() ==> #[trigger] emitter_trace(s, events).1[i] == EmitterActionView::Nothing,
        emitter_trace(s, events).1.len() == events.len(),
    decreases events.len(),
{
    if events.len() > 0 {
        lemma_stopped_emitter_stays_stopped(s, events.drop_last());
    }
}

/// Cancellation preempts a pending tick: an emitter that waits leaves its
/// loop on the spot, without error and without sending.
pub proof fn lemma_cancellation_stops_waiting_emitter(s: EmitterView)
    requires
        s.phase == EmitterPhase::Waiting,
    ensures
        emitter_step(s, EmitterEvent::Cancelled) == (
            EmitterView { phase: EmitterPhase::Stopped, next_id: s.next_id },
            EmitterActionView::Finish,
        ),
{
}

} // verus!
