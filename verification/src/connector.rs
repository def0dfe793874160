//! The connector: the client's policy for opening a transport.
//!
//! Each attempt is bounded by a fixed timeout and raced against the
//! cancellation signal. An attempt that succeeds ends the connector with the
//! transport. One that fails or times out is reported and, unless the signal
//! is tripped by then, followed at once by the next attempt, without limit.
//! Cancellation observed in place of an outcome ends the connector with a
//! cancellation error.

use crate::payload::{append_decimal, decimal_digits};
use tokio_util::sync::CancellationToken;
use vstd::prelude::*;

verus! {

/// Seconds that one connection attempt may take.
pub const CONNECT_TIMEOUT_SECS: u64 = 3;

/// How one connection attempt, raced against the cancellation signal, came
/// out. `T` is the transport.
#[derive(Debug, PartialEq, Eq)]
pub enum AttemptOutcome<T> {
    /// The transport was opened within the timeout.
    Connected(T),
    /// The attempt failed at the transport's level; the text says how.
    Failed(String),
    /// The timeout elapsed first.
    TimedOut,
    /// The cancellation signal was observed first.
    Cancelled,
}

impl<T> AttemptOutcome<T> {
    /// Whether the attempt itself went wrong: it failed or timed out.
    pub open spec fn is_failure(&self) -> bool {
        self is Failed || self is TimedOut
    }
}

/// Why an attempt, or the whole connector, did not yield a transport.
#[derive(Debug, PartialEq, Eq)]
pub enum ConnectError {
    /// The attempt failed at the transport's level; the text says how.
    Failed(String),
    /// The attempt took longer than the timeout.
    TimedOut,
    /// Cancellation was requested.
    Cancelled,
}

/// A connect error as contracts see it.
pub enum ConnectErrorView {
    Failed(Seq<char>),
    TimedOut,
    Cancelled,
}

impl View for ConnectError {
    type V = ConnectErrorView;

    open spec fn view(&self) -> ConnectErrorView {
        match self {
            ConnectError::Failed(detail) => ConnectErrorView::Failed(detail@),
            ConnectError::TimedOut => ConnectErrorView::TimedOut,
            ConnectError::Cancelled => ConnectErrorView::Cancelled,
        }
    }
}

/// The line that reports `error`.
pub open spec fn connect_error_text(error: ConnectErrorView) -> Seq<char> {
    match error {
        ConnectErrorView::Failed(detail) => "Failed to establish WebSocket connection: "@ + detail,
        ConnectErrorView::TimedOut => "WebSocket connection timed out after "@ + decimal_digits(
            CONNECT_TIMEOUT_SECS as nat,
        ) + " seconds"@,
        ConnectErrorView::Cancelled => "cancelled"@,
    }
}

impl ConnectError {
    /// The line that reports this error.
    pub fn message(&self) -> (text: String)
        ensures
            text@ == connect_error_text(self@),
    {
        match self {
            ConnectError::Failed(detail) => {
                let mut text = String::from_str("Failed to establish WebSocket connection: ");
                text.append(detail.as_str());
                text
            },
            ConnectError::TimedOut => {
                let mut text = String::from_str("WebSocket connection timed out after ");
                append_decimal(&mut text, CONNECT_TIMEOUT_SECS);
                text.append(" seconds");
                text
            },
            ConnectError::Cancelled => String::from_str("cancelled"),
        }
    }
}

/// What the connector does after an attempt.
#[derive(Debug, PartialEq, Eq)]
pub enum ConnectStep<T> {
    /// Hand the transport to the caller; the connector is done.
    Done(T),
    /// Report the error and attempt again at once.
    Retry(ConnectError),
    /// Report the error and fail with it; no further attempt is made.
    Abort(ConnectError),
}

/// A step as contracts see it.
pub enum ConnectStepView<T> {
    Done(T),
    Retry(ConnectErrorView),
    Abort(ConnectErrorView),
}

impl<T> View for ConnectStep<T> {
    type V = ConnectStepView<T>;

    open spec fn view(&self) -> ConnectStepView<T> {
        match self {
            ConnectStep::Done(transport) => ConnectStepView::Done(*transport),
            ConnectStep::Retry(error) => ConnectStepView::Retry(error@),
            ConnectStep::Abort(error) => ConnectStepView::Abort(error@),
        }
    }
}

/// The connector's rule: what follows an attempt that came out as `outcome`,
/// where `tripped` tells whether the signal was found tripped after it.
pub open spec fn connect_rule<T>(outcome: AttemptOutcome<T>, tripped: bool) -> ConnectStepView<T> {
    match outcome {
        AttemptOutcome::Connected(transport) => ConnectStepView::Done(transport),
        AttemptOutcome::Failed(detail) => if tripped {
            ConnectStepView::Abort(ConnectErrorView::Failed(detail@))
        } else {
            ConnectStepView::Retry(ConnectErrorView::Failed(detail@))
        },
        AttemptOutcome::TimedOut => if tripped {
            ConnectStepView::Abort(ConnectErrorView::TimedOut)
        } else {
            ConnectStepView::Retry(ConnectErrorView::TimedOut)
        },
        AttemptOutcome::Cancelled => ConnectStepView::Abort(ConnectErrorView::Cancelled),
    }
}

/// Decides what follows an attempt, given whether the signal was found
/// tripped after it.
pub fn decide<T>(outcome: AttemptOutcome<T>, tripped: bool) -> (step: ConnectStep<T>)
    ensures
        step@ == connect_rule(outcome, tripped),
{
    match outcome {
        AttemptOutcome::Connected(transport) => ConnectStep::Done(transport),
        AttemptOutcome::Failed(detail) => if tripped {
            ConnectStep::Abort(ConnectError::Failed(detail))
        } else {
            ConnectStep::Retry(ConnectError::Failed(detail))
        },
        AttemptOutcome::TimedOut => if tripped {
            ConnectStep::Abort(ConnectError::TimedOut)
        } else {
            ConnectStep::Retry(ConnectError::TimedOut)
        },
        AttemptOutcome::Cancelled => ConnectStep::Abort(ConnectError::Cancelled),
    }
}

/// Decides what follows an attempt. After an attempt that did not connect,
/// the signal is read from `token`, and the step is the one that the rule
/// gives for what was read.
pub fn settle<T>(outcome: AttemptOutcome<T>, token: &CancellationToken) -> (step: ConnectStep<T>)
    ensures
        step@ == connect_rule(outcome, true) || step@ == connect_rule(outcome, false),
        outcome is Connected ==> step@ == ConnectStepView::Done(outcome->Connected_0),
        outcome is Cancelled ==> step@ == ConnectStepView::<T>::Abort(ConnectErrorView::Cancelled),
{
    let tripped: bool = match outcome {
        AttemptOutcome::Connected(_) => false,
        _ => token.is_cancelled(),
    };
    decide(outcome, tripped)
}

/// One pass of the connector's loop: how the attempt came out, and whether
/// the signal was found tripped after it.
#[derive(Debug, PartialEq, Eq)]
pub struct Attempt<T> {
    pub outcome: AttemptOutcome<T>,
    pub tripped: bool,
}

/// How a connector ran: the number of attempts it made, and how it ended.
/// Its end is `None` where the attempts ran out while it was still retrying.
#[derive(Debug, PartialEq, Eq)]
pub struct ConnectRun<T> {
    pub attempts: usize,
    pub end: Option<Result<T, ConnectError>>,
}

/// A run as contracts see it.
pub struct ConnectRunView<T> {
    pub attempts: nat,
    pub end: Option<Result<T, ConnectErrorView>>,
}

impl<T> View for ConnectRun<T> {
    type V = ConnectRunView<T>;

    open spec fn view(&self) -> ConnectRunView<T> {
        ConnectRunView {
            attempts: self.attempts as nat,
            end: match self.end {
                Some(Ok(transport)) => Some(Ok(transport)),
                Some(Err(error)) => Some(Err(error@)),
                None => None,
            },
        }
    }
}

/// The connector's loop over a series of attempts: it takes them in order,
/// retries as long as the rule says so, and ends at the first attempt after
/// which the rule says otherwise.
pub open spec fn connect_run<T>(script: Seq<Attempt<T>>) -> ConnectRunView<T>
    decreases script.len(),
{
    if script.len() == 0 {
        ConnectRunView { attempts: 0, end: None }
    } else {
        match connect_rule(script[0].outcome, script[0].tripped) {
            ConnectStepView::Done(transport) => ConnectRunView { attempts: 1, end: Some(Ok(transport)) },
            ConnectStepView::Abort(error) => ConnectRunView { attempts: 1, end: Some(Err(error)) },
            ConnectStepView::Retry(_) => {
                let rest = connect_run(script.skip(1));
                ConnectRunView { attempts: rest.attempts + 1, end: rest.end }
            },
        }
    }
}

/// Runs the connector's loop over a recorded series of attempts.
pub fn replay<T>(script: Vec<Attempt<T>>) -> (run: ConnectRun<T>)
    ensures
        run@ == connect_run(script@),
{
    let ghost full = script@;
    let total: usize = script.len();
    let mut rest = script;
    let mut attempts: usize = 0;
    while attempts < total
        invariant
            full == script@,
            attempts + rest@.len() == total,
            connect_run(full) == (ConnectRunView {
                attempts: (attempts + connect_run(rest@).attempts) as nat,
                end: connect_run(rest@).end,
            }),
        decreases total - attempts,
    {
        let ghost before = rest@;
        attempts = attempts + 1;
        let attempt = rest.remove(0);
        assert(attempt == before[0]);
        assert(rest@ =~= before.skip(1));
        match decide(attempt.outcome, attempt.tripped) {
            ConnectStep::Done(transport) => {
                return ConnectRun { attempts, end: Some(Ok(transport)) };
            },
            ConnectStep::Abort(error) => {
                return ConnectRun { attempts, end: Some(Err(error)) };
            },
            ConnectStep::Retry(_) => {},
        }
    }
    ConnectRun { attempts, end: None }
}

/// Attempts that fail while the signal is not tripped are all retried: when
/// `failures` of them are followed by one that connects, the connector hands
/// out that attempt's transport after exactly `failures + 1` attempts, and
/// whatever stands after it in the series is never tried.
pub proof fn lemma_connects_after_failures<T>(script: Seq<Attempt<T>>, failures: nat)
    requires
        failures < script.len(),
        forall|i: int| 0 <= i < failures ==> (#[trigger] script[i]).outcome.is_failure() && !script[i].tripped,
        script[failures as int].outcome is Connected,
    ensures
        connect_run(script) == (ConnectRunView {
            attempts: (failures + 1) as nat,
            end: Some(Ok(script[failures as int].outcome->Connected_0)),
        }),
    decreases failures,
{
    if failures > 0 {
        let rest = script.skip(1);
        assert(script[0].outcome.is_failure() && !script[0].tripped);
        assert forall|i: int| 0 <= i < failures - 1 implies (#[trigger] rest[i]).outcome.is_failure()
            && !rest[i].tripped by {
            assert(rest[i] == script[i + 1]);
        }
        assert(rest[failures - 1] == script[failures as int]);
        lemma_connects_after_failures(rest, (failures - 1) as nat);
    }
}

/// Cancellation observed while an attempt is outstanding ends the connector:
/// when `failures` retried attempts are followed by one that the signal cut
/// short, the connector fails with the cancellation error after exactly
/// `failures + 1` attempts, and makes no further attempt.
pub proof fn lemma_cancellation_ends_connect<T>(script: Seq<Attempt<T>>, failures: nat)
    requires
        failures < script.len(),
        forall|i: int| 0 <= i < failures ==> (#[trigger] script[i]).outcome.is_failure() && !script[i].tripped,
        script[failures as int].outcome is Cancelled,
    ensures
        connect_run(script) == (ConnectRunView::<T> {
            attempts: (failures + 1) as nat,
            end: Some(Err(ConnectErrorView::Cancelled)),
        }),
    decreases failures,
{
    if failures > 0 {
        let rest = script.skip(1);
        assert(script[0].outcome.is_failure() && !script[0].tripped);
        assert forall|i: int| 0 <= i < failures - 1 implies (#[trigger] rest[i]).outcome.is_failure()
            && !rest[i].tripped by {
            assert(rest[i] == script[i + 1]);
        }
        assert(rest[failures - 1] == script[failures as int]);
        lemma_cancellation_ends_connect(rest, (failures - 1) as nat);
    }
}

/// A failure after which the signal is found tripped is not retried: when
/// `failures` retried attempts are followed by such a one, the connector
/// fails with that attempt's own error after exactly `failures + 1`
/// attempts.
pub proof fn lemma_failure_under_cancellation_is_final<T>(script: Seq<Attempt<T>>, failures: nat)
    requires
        failures < script.len(),
        forall|i: int| 0 <= i < failures ==> (#[trigger] script[i]).outcome.is_failure() && !script[i].tripped,
        script[failures as int].outcome.is_failure(),
        script[failures as int].tripped,
    ensures
        connect_run(script).attempts == failures + 1,
        connect_run(script).end == Some(
            Err::<T, ConnectErrorView>(
                match script[failures as int].outcome {
                    AttemptOutcome::Failed(detail) => ConnectErrorView::Failed(detail@),
                    _ => ConnectErrorView::TimedOut,
                },
            ),
        ),
    decreases failures,
{
    if failures > 0 {
        let rest = script.skip(1);
        assert(script[0].outcome.is_failure() && !script[0].tripped);
        assert forall|i: int| 0 <= i < failures - 1 implies (#[trigger] rest[i]).outcome.is_failure()
            && !rest[i].tripped by {
            assert(rest[i] == script[i + 1]);
        }
        assert(rest[failures - 1] == script[failures as int]);
        lemma_failure_under_cancellation_is_final(rest, (failures - 1) as nat);
    }
}

/// While the signal stays untripped and no attempt connects, the connector
/// goes on: it has made as many attempts as it was given outcomes and has
/// not ended.
pub proof fn lemma_failures_are_all_retried<T>(script: Seq<Attempt<T>>)
    requires
        forall|i: int| 0 <= i < script.len() ==> (#[trigger] script[i]).outcome.is_failure() && !script[i].tripped,
    ensures
        connect_run(script) == (ConnectRunView::<T> { attempts: script.len(), end: None }),
    decreases script.len(),
{
    if script.len() > 0 {
        let rest = script.skip(1);
        assert(script[0].outcome.is_failure() && !script[0].tripped);
        assert forall|i: int| 0 <= i < rest.len() implies (#[trigger] rest[i]).outcome.is_failure()
            && !rest[i].tripped by {
            assert(rest[i] == script[i + 1]);
        }
        lemma_failures_are_all_retried(rest);
    }
}

} // verus!
