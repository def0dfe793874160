use tokio_util::sync::CancellationToken;
use wsprobe::shutdown::{Coordinator, CoordinatorPhase, ShutdownAction, ShutdownWake};

#[test]
fn new_coordinator_watches() {
    assert_eq!(Coordinator::new().phase(), CoordinatorPhase::Watching);
}

#[test]
fn termination_request_trips_the_signal() {
    let token = CancellationToken::new();
    let observer = token.clone();
    let mut coordinator = Coordinator::new();
    assert_eq!(coordinator.on_wake(ShutdownWake::TerminationRequested, &token), ShutdownAction::Tripped);
    assert_eq!(coordinator.phase(), CoordinatorPhase::Done);
    assert!(token.is_cancelled());
    assert!(observer.is_cancelled());
}

#[test]
fn coordinator_stands_down_when_the_signal_is_tripped_by_other_means() {
    let token = CancellationToken::new();
    let mut coordinator = Coordinator::new();
    assert_eq!(coordinator.on_wake(ShutdownWake::SignalTripped, &token), ShutdownAction::StoodDown);
    assert_eq!(coordinator.phase(), CoordinatorPhase::Done);
    assert!(!token.is_cancelled());
}

#[test]
fn coordinator_trips_once_only() {
    let token = CancellationToken::new();
    let mut coordinator = Coordinator::new();
    assert_eq!(coordinator.on_wake(ShutdownWake::TerminationRequested, &token), ShutdownAction::Tripped);
    assert_eq!(coordinator.on_wake(ShutdownWake::TerminationRequested, &token), ShutdownAction::Nothing);
    assert_eq!(coordinator.on_wake(ShutdownWake::SignalTripped, &token), ShutdownAction::Nothing);
    assert!(token.is_cancelled());
}

#[test]
fn a_coordinator_that_stood_down_never_trips() {
    let token = CancellationToken::new();
    let mut coordinator = Coordinator::new();
    coordinator.on_wake(ShutdownWake::SignalTripped, &token);
    assert_eq!(coordinator.on_wake(ShutdownWake::TerminationRequested, &token), ShutdownAction::Nothing);
    assert!(!token.is_cancelled());
}

#[test]
fn tripping_twice_is_tripping_once() {
    let token = CancellationToken::new();
    let first_observer = token.clone();
    let second_observer = token.clone();
    let mut one = Coordinator::new();
    let mut other = Coordinator::new();
    assert_eq!(one.on_wake(ShutdownWake::TerminationRequested, &token), ShutdownAction::Tripped);
    assert_eq!(other.on_wake(ShutdownWake::TerminationRequested, &token.clone()), ShutdownAction::Tripped);
    assert!(token.is_cancelled());
    assert!(first_observer.is_cancelled());
    assert!(second_observer.is_cancelled());
}
