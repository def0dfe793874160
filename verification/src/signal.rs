//! The cancellation signal shared by the loops of a session.
//!
//! The signal is tokio-util's `CancellationToken`: a one-shot flag that every
//! holder of a clone can trip and observe. Its state is shared between
//! concurrently running tasks, so no contract here says what a call observes
//! or changes; the functions that use the signal state what holds for every
//! answer it may give.

use tokio_util::sync::CancellationToken;
use vstd::prelude::*;

verus! {

#[verifier::external_type_specification]
#[verifier::external_body]
pub struct ExCancellationToken(CancellationToken);

/// `CancellationToken::cancel` trips the signal for every clone of the token.
/// Nothing is claimed of it: it returns no value, and its effect is on state
/// shared with other tasks.
pub assume_specification[ CancellationToken::cancel ](token: &CancellationToken);

/// `CancellationToken::is_cancelled` reads whether the signal is tripped right
/// now. Nothing is claimed of the answer: another task may trip the signal at
/// any moment.
pub assume_specification[ CancellationToken::is_cancelled ](token: &CancellationToken) -> (tripped: bool);

} // verus!
