//! The shutdown coordinator.
//!
//! The coordinator waits for a request to terminate and, at the same time,
//! for the cancellation signal. On the request it trips the signal. Where
//! the signal was tripped by other means first it stands down. Either way it
//! is then done, so it trips the signal at most once.

use tokio_util::sync::CancellationToken;
use vstd::prelude::*;

verus! {

/// Where the coordinator stands.
#[derive(Clone, Copy, Debug, PartialEq, Eq, Structural)]
pub enum CoordinatorPhase {
    /// Waiting for a request to terminate or for the signal.
    Watching,
    /// Nothing is left to do.
    Done,
}

/// What can wake the coordinator.
#[derive(Clone, Copy, Debug, PartialEq, Eq, Structural)]
pub enum ShutdownWake {
    /// The operating system asked the process to terminate.
    TerminationRequested,
    /// The cancellation signal was observed.
    SignalTripped,
}

/// What the coordinator did on a wake.
#[derive(Clone, Copy, Debug, PartialEq, Eq, Structural)]
pub enum ShutdownAction {
    /// It tripped the signal.
    Tripped,
    /// The signal was tripped by other means; it stood down.
    StoodDown,
    /// It was done already; nothing changed.
    Nothing,
}

/// The coordinator's transition function.
pub open spec fn coordinator_step(phase: CoordinatorPhase, wake: ShutdownWake) -> (
    CoordinatorPhase,
    ShutdownAction,
) {
    match phase {
        CoordinatorPhase::Watching => match wake {
            ShutdownWake::TerminationRequested => (CoordinatorPhase::Done, ShutdownAction::Tripped),
            ShutdownWake::SignalTripped => (CoordinatorPhase::Done, ShutdownAction::StoodDown),
        },
        CoordinatorPhase::Done => (CoordinatorPhase::Done, ShutdownAction::Nothing),
    }
}

/// How often a coordinator in `phase` trips the signal over a series of
/// wakes.
pub open spec fn trips_over(phase: CoordinatorPhase, wakes: Seq<ShutdownWake>) -> nat
    decreases wakes.len(),
{
    if wakes.len() == 0 {
        0
    } else {
        let (next, action) = coordinator_step(phase, wakes[0]);
        let here: nat = if action == ShutdownAction::Tripped {
            1
        } else {
            0
        };
        here + trips_over(next, wakes.skip(1))
    }
}

/// The shutdown coordinator of one process.
#[derive(Clone, Copy, Debug, PartialEq, Eq)]
pub struct Coordinator {
    phase: CoordinatorPhase,
}

impl View for Coordinator {
    type V = CoordinatorPhase;

    closed spec fn view(&self) -> CoordinatorPhase {
        self.phase
    }
}

impl Coordinator {
    /// A coordinator that watches.
    pub fn new() -> (coordinator: Coordinator)
        ensures
            coordinator@ == CoordinatorPhase::Watching,
    {
        Coordinator { phase: CoordinatorPhase::Watching }
    }

    /// Where the coordinator stands.
    pub fn phase(&self) -> (phase: CoordinatorPhase)
        ensures
            phase == self@,
    {
        self.phase
    }

    /// Takes a wake. On a request to terminate, a coordinator that watches
    /// trips `token` before the function returns; in every other case
    /// `token` is not touched.
    pub fn on_wake(&mut self, wake: ShutdownWake, token: &CancellationToken) -> (action: ShutdownAction)
        ensures
            (final(self)@, action) == coordinator_step(old(self)@, wake),
    {
        match self.phase {
            CoordinatorPhase::Watching => {
                self.phase = CoordinatorPhase::Done;
                match wake {
                    ShutdownWake::TerminationRequested => {
                        token.cancel();
                        ShutdownAction::Tripped
                    },
                    ShutdownWake::SignalTripped => ShutdownAction::StoodDown,
                }
            },
            CoordinatorPhase::Done => ShutdownAction::Nothing,
        }
    }
}

/// A coordinator that is done never trips the signal.
pub proof fn lemma_done_never_trips(wakes: Seq<ShutdownWake>)
    ensures
        trips_over(CoordinatorPhase::Done, wakes) == 0,
    decreases wakes.len(),
{
    if wakes.len() > 0 {
        lemma_done_never_trips(wakes.skip(1));
    }
}

/// Over any series of wakes a coordinator trips the signal at most once:
/// once where the first wake is a request to terminate, and never where the
/// signal was tripped by other means first.
pub proof fn lemma_trips_at_most_once(wakes: Seq<ShutdownWake>)
    ensures
        trips_over(CoordinatorPhase::Watching, wakes) <= 1,
        trips_over(CoordinatorPhase::Watching, wakes) == 1 <==> wakes.len() > 0 && wakes[0]
            == ShutdownWake::TerminationRequested,
{
    if wakes.len() > 0 {
        lemma_done_never_trips(wakes.skip(1));
    }
}

} // verus!
