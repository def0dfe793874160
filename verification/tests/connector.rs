use tokio_util::sync::CancellationToken;
use wsprobe::connector::{
    decide, replay, settle, Attempt, AttemptOutcome, ConnectError, ConnectRun, ConnectStep, CONNECT_TIMEOUT_SECS,
};

fn failed(detail: &str) -> AttemptOutcome<u32> {
    AttemptOutcome::Failed(detail.to_string())
}

fn retried(outcome: AttemptOutcome<u32>) -> Attempt<u32> {
    Attempt { outcome, tripped: false }
}

#[test]
fn timeout_is_three_seconds() {
    assert_eq!(CONNECT_TIMEOUT_SECS, 3);
}

#[test]
fn decide_hands_out_the_transport() {
    assert_eq!(decide(AttemptOutcome::Connected(7u32), false), ConnectStep::Done(7));
    assert_eq!(decide(AttemptOutcome::Connected(7u32), true), ConnectStep::Done(7));
}

#[test]
fn decide_retries_a_failure_while_not_cancelled() {
    assert_eq!(
        decide(failed("refused"), false),
        ConnectStep::Retry(ConnectError::Failed("refused".to_string()))
    );
}

#[test]
fn decide_retries_a_timeout_while_not_cancelled() {
    assert_eq!(decide(AttemptOutcome::<u32>::TimedOut, false), ConnectStep::Retry(ConnectError::TimedOut));
}

#[test]
fn decide_gives_up_on_a_failure_under_cancellation() {
    assert_eq!(
        decide(failed("refused"), true),
        ConnectStep::Abort(ConnectError::Failed("refused".to_string()))
    );
    assert_eq!(decide(AttemptOutcome::<u32>::TimedOut, true), ConnectStep::Abort(ConnectError::TimedOut));
}

#[test]
fn decide_fails_with_cancelled_when_the_signal_cut_the_attempt_short() {
    assert_eq!(decide(AttemptOutcome::<u32>::Cancelled, true), ConnectStep::Abort(ConnectError::Cancelled));
    assert_eq!(decide(AttemptOutcome::<u32>::Cancelled, false), ConnectStep::Abort(ConnectError::Cancelled));
}

#[test]
fn settle_reads_an_untripped_signal() {
    let token = CancellationToken::new();
    assert_eq!(
        settle(failed("dns"), &token),
        ConnectStep::Retry(ConnectError::Failed("dns".to_string()))
    );
    assert_eq!(settle(AttemptOutcome::<u32>::TimedOut, &token), ConnectStep::Retry(ConnectError::TimedOut));
    assert!(!token.is_cancelled());
}

#[test]
fn settle_reads_a_tripped_signal() {
    let token = CancellationToken::new();
    token.cancel();
    assert_eq!(
        settle(failed("dns"), &token),
        ConnectStep::Abort(ConnectError::Failed("dns".to_string()))
    );
    assert_eq!(settle(AttemptOutcome::<u32>::TimedOut, &token), ConnectStep::Abort(ConnectError::TimedOut));
    assert_eq!(settle(AttemptOutcome::<u32>::Cancelled, &token), ConnectStep::Abort(ConnectError::Cancelled));
}

#[test]
fn settle_sees_a_trip_made_through_a_clone() {
    let token = CancellationToken::new();
    let other = token.clone();
    assert_eq!(settle(AttemptOutcome::<u32>::TimedOut, &token), ConnectStep::Retry(ConnectError::TimedOut));
    other.cancel();
    assert_eq!(settle(AttemptOutcome::<u32>::TimedOut, &token), ConnectStep::Abort(ConnectError::TimedOut));
}

#[test]
fn settle_hands_out_the_transport_whatever_the_signal() {
    let token = CancellationToken::new();
    assert_eq!(settle(AttemptOutcome::Connected(1u32), &token), ConnectStep::Done(1));
    token.cancel();
    assert_eq!(settle(AttemptOutcome::Connected(2u32), &token), ConnectStep::Done(2));
}

#[test]
fn messages_of_the_connect_errors() {
    assert_eq!(
        ConnectError::Failed("connection refused".to_string()).message(),
        "Failed to establish WebSocket connection: connection refused"
    );
    assert_eq!(ConnectError::TimedOut.message(), "WebSocket connection timed out after 3 seconds");
    assert_eq!(ConnectError::Cancelled.message(), "cancelled");
}

#[test]
fn connect_returns_after_n_plus_one_attempts() {
    let mut n: usize = 0;
    while n < 6 {
        let mut script: Vec<Attempt<u32>> = Vec::new();
        let mut i: usize = 0;
        while i < n {
            if i % 2 == 0 {
                script.push(retried(failed("refused")));
            } else {
                script.push(retried(AttemptOutcome::TimedOut));
            }
            i += 1;
        }
        script.push(retried(AttemptOutcome::Connected(99)));
        assert_eq!(replay(script), ConnectRun { attempts: n + 1, end: Some(Ok(99)) });
        n += 1;
    }
}

#[test]
fn connect_never_tries_again_after_success() {
    let script = vec![
        retried(failed("refused")),
        retried(AttemptOutcome::Connected(1)),
        retried(failed("refused")),
        retried(AttemptOutcome::Connected(2)),
    ];
    assert_eq!(replay(script), ConnectRun { attempts: 2, end: Some(Ok(1)) });
}

#[test]
fn connect_stops_at_cancellation() {
    let script = vec![
        retried(failed("refused")),
        retried(AttemptOutcome::TimedOut),
        Attempt { outcome: AttemptOutcome::Cancelled, tripped: true },
        retried(AttemptOutcome::Connected(5)),
    ];
    assert_eq!(replay(script), ConnectRun { attempts: 3, end: Some(Err(ConnectError::Cancelled)) });
}

#[test]
fn connect_cancelled_before_the_first_attempt_ends() {
    let script = vec![Attempt { outcome: AttemptOutcome::<u32>::Cancelled, tripped: true }];
    assert_eq!(replay(script), ConnectRun { attempts: 1, end: Some(Err(ConnectError::Cancelled)) });
}

#[test]
fn connect_surfaces_the_failure_seen_under_cancellation() {
    let script = vec![
        retried(AttemptOutcome::TimedOut),
        Attempt { outcome: failed("reset"), tripped: true },
        retried(AttemptOutcome::Connected(5)),
    ];
    assert_eq!(
        replay(script),
        ConnectRun { attempts: 2, end: Some(Err(ConnectError::Failed("reset".to_string()))) }
    );
}

#[test]
fn connect_still_retrying_when_the_attempts_run_out() {
    let script = vec![retried(failed("a")), retried(failed("b")), retried(AttemptOutcome::TimedOut)];
    assert_eq!(replay(script), ConnectRun { attempts: 3, end: None });
    assert_eq!(replay(Vec::<Attempt<u32>>::new()), ConnectRun { attempts: 0, end: None });
}

#[test]
fn connect_loop_driven_by_hand() {
    let token = CancellationToken::new();
    let outcomes = vec![failed("refused"), AttemptOutcome::TimedOut, AttemptOutcome::Connected(11)];
    let mut attempts = 0;
    let mut transport = None;
    for outcome in outcomes {
        attempts += 1;
        match settle(outcome, &token) {
            ConnectStep::Done(t) => {
                transport = Some(t);
                break;
            }
            ConnectStep::Retry(_) => {}
            ConnectStep::Abort(error) => panic!("gave up: {}", error.message()),
        }
    }
    assert_eq!(attempts, 3);
    assert_eq!(transport, Some(11));
}
