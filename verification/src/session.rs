//! The end of a client session: waiting for both of its loops.
//!
//! A session is complete only when its emitter loop and its receiver loop
//! have both ended, whichever ended first and however each of them ended. A
//! loop that ended badly is reported; it never keeps the session from
//! completing.

use vstd::prelude::*;

verus! {

/// The two loops of a client session.
#[derive(Clone, Copy, Debug, PartialEq, Eq, Structural)]
pub enum LoopKind {
    Emitter,
    Receiver,
}

/// How a loop ended.
#[derive(Clone, Copy, Debug, PartialEq, Eq, Structural)]
pub enum LoopEnd {
    /// The loop left of its own accord, without error.
    Finished,
    /// The loop ended with a write error.
    WriteFailed,
    /// The loop's task failed unexpectedly.
    Faulted,
}

impl LoopEnd {
    /// Whether the end is an error that the session's owner reports.
    pub open spec fn is_error(&self) -> bool {
        *self != LoopEnd::Finished
    }

    /// Whether the end is an error that the session's owner reports.
    pub fn needs_report(&self) -> (report: bool)
        ensures
            report == self.is_error(),
    {
        match self {
            LoopEnd::Finished => false,
            _ => true,
        }
    }
}

/// What the session's owner does after it has learnt of a loop's end.
#[derive(Clone, Copy, Debug, PartialEq, Eq, Structural)]
pub enum JoinAction {
    /// The session is not complete: wait for this loop.
    Wait(LoopKind),
    /// Both loops have ended: the session is complete.
    Complete,
}

/// What is known of the two loops' ends, as contracts see it.
pub struct JoinView {
    pub emitter: Option<LoopEnd>,
    pub receiver: Option<LoopEnd>,
}

impl JoinView {
    /// Nothing has ended yet.
    pub open spec fn fresh() -> JoinView {
        JoinView { emitter: None, receiver: None }
    }

    /// Whether both loops have ended.
    pub open spec fn complete(self) -> bool {
        self.emitter is Some && self.receiver is Some
    }

    /// The end recorded for `kind`, if it has ended.
    pub open spec fn end_of(self, kind: LoopKind) -> Option<LoopEnd> {
        match kind {
            LoopKind::Emitter => self.emitter,
            LoopKind::Receiver => self.receiver,
        }
    }

    /// What to do in this state: wait for the receiver if it has not ended,
    /// else for the emitter; with both ended the session is complete.
    pub open spec fn action(self) -> JoinAction {
        if self.receiver is None {
            JoinAction::Wait(LoopKind::Receiver)
        } else if self.emitter is None {
            JoinAction::Wait(LoopKind::Emitter)
        } else {
            JoinAction::Complete
        }
    }

    /// The state after the loop `kind` was seen to end with `end`. A loop
    /// ends once: what is recorded for it stays.
    pub open spec fn record(self, kind: LoopKind, end: LoopEnd) -> JoinView {
        match kind {
            LoopKind::Emitter => if self.emitter is None {
                JoinView { emitter: Some(end), receiver: self.receiver }
            } else {
                self
            },
            LoopKind::Receiver => if self.receiver is None {
                JoinView { emitter: self.emitter, receiver: Some(end) }
            } else {
                self
            },
        }
    }
}

/// The state after a series of loop ends, taken in order from a state in
/// which nothing has ended.
pub open spec fn join_after(ends: Seq<(LoopKind, LoopEnd)>) -> JoinView
    decreases ends.len(),
{
    if ends.len() == 0 {
        JoinView::fresh()
    } else {
        join_after(ends.drop_last()).record(ends.last().0, ends.last().1)
    }
}

/// The owner's record of how the loops of one session ended.
#[derive(Clone, Copy, Debug, PartialEq, Eq)]
pub struct SessionJoin {
    emitter: Option<LoopEnd>,
    receiver: Option<LoopEnd>,
}

impl View for SessionJoin {
    type V = JoinView;

    closed spec fn view(&self) -> JoinView {
        JoinView { emitter: self.emitter, receiver: self.receiver }
    }
}

impl SessionJoin {
    /// The record of a session whose loops are both running.
    pub fn new() -> (join: SessionJoin)
        ensures
            join@ == JoinView::fresh(),
    {
        SessionJoin { emitter: None, receiver: None }
    }

    /// Whether both loops have ended.
    pub fn is_complete(&self) -> (complete: bool)
        ensures
            complete == self@.complete(),
    {
        self.emitter.is_some() && self.receiver.is_some()
    }

    /// The end recorded for `kind`, if it has ended.
    pub fn end_of(&self, kind: LoopKind) -> (end: Option<LoopEnd>)
        ensures
            end == self@.end_of(kind),
    {
        match kind {
            LoopKind::Emitter => self.emitter,
            LoopKind::Receiver => self.receiver,
        }
    }

    /// What the owner does next.
    pub fn pending(&self) -> (action: JoinAction)
        ensures
            action == self@.action(),
            action == JoinAction::Complete <==> self@.complete(),
    {
        if self.receiver.is_none() {
            JoinAction::Wait(LoopKind::Receiver)
        } else if self.emitter.is_none() {
            JoinAction::Wait(LoopKind::Emitter)
        } else {
            JoinAction::Complete
        }
    }

    /// Records that the loop `kind` ended with `end`, and says what the
    /// owner does next.
    pub fn record(&mut self, kind: LoopKind, end: LoopEnd) -> (action: JoinAction)
        ensures
            final(self)@ == old(self)@.record(kind, end),
            action == final(self)@.action(),
            action == JoinAction::Complete <==> final(self)@.complete(),
    {
        match kind {
            LoopKind::Emitter => {
                if self.emitter.is_none() {
                    self.emitter = Some(end);
                }
            },
            LoopKind::Receiver => {
                if self.receiver.is_none() {
                    self.receiver = Some(end);
                }
            },
        }
        self.pending()
    }
}

/// Whether the loop `kind` occurs among `ends`.
pub open spec fn has_ended(ends: Seq<(LoopKind, LoopEnd)>, kind: LoopKind) -> bool {
    exists|i: int| 0 <= i < ends.len() && (#[trigger] ends[i]).0 == kind
}

/// A loop has an end on record exactly when it occurs in the series of ends
/// seen so far.
pub proof fn lemma_recorded_iff_ended(ends: Seq<(LoopKind, LoopEnd)>, kind: LoopKind)
    ensures
        join_after(ends).end_of(kind) is Some <==> has_ended(ends, kind),
    decreases ends.len(),
{
    if ends.len() > 0 {
        let before = ends.drop_last();
        lemma_recorded_iff_ended(before, kind);
        if has_ended(before, kind) {
            let i = choose|i: int| 0 <= i < before.len() && (#[trigger] before[i]).0 == kind;
            assert(ends[i] == before[i]);
        }
        if ends.last().0 == kind {
            assert(ends[ends.len() - 1].0 == kind);
        }
        if has_ended(ends, kind) {
            let i = choose|i: int| 0 <= i < ends.len() && (#[trigger] ends[i]).0 == kind;
            if i < before.len() {
                assert(before[i] == ends[i]);
            }
        }
    }
}

/// Whichever loop ends first, and however the loops end, the session is
/// complete exactly when both the emitter and the receiver have ended.
pub proof fn lemma_complete_iff_both_ended(ends: Seq<(LoopKind, LoopEnd)>)
    ensures
        join_after(ends).complete() <==> has_ended(ends, LoopKind::Emitter) && has_ended(
            ends,
            LoopKind::Receiver,
        ),
{
    lemma_recorded_iff_ended(ends, LoopKind::Emitter);
    lemma_recorded_iff_ended(ends, LoopKind::Receiver);
}

/// The ends of the two loops can be recorded in either order: the state
/// that results is the same.
pub proof fn lemma_join_order_is_immaterial(s: JoinView, emitter_end: LoopEnd, receiver_end: LoopEnd)
    ensures
        s.record(LoopKind::Emitter, emitter_end).record(LoopKind::Receiver, receiver_end) == s.record(
            LoopKind::Receiver,
            receiver_end,
        ).record(LoopKind::Emitter, emitter_end),
{
}

/// One loop's end alone never completes a session in which nothing had
/// ended.
pub proof fn lemma_one_end_is_not_enough(kind: LoopKind, end: LoopEnd)
    ensures
        !JoinView::fresh().record(kind, end).complete(),
{
}

} // verus!
