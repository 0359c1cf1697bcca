//! The run's one-shot cancellation signal. The engine keeps the shared flag
//! in tokio_util's `CancellationToken`, the same primitive the surrounding
//! async program races its waits against. The token's state is shared and may
//! be set concurrently by other tasks, so nothing is assumed about what a
//! read returns: the engine states what holds of every outcome.

use tokio_util::sync::CancellationToken;
use vstd::prelude::*;

verus! {

/// tokio_util's cancellation token, declared so that verified code can hold
/// one and call into it. The value is opaque to the verifier.
#[verifier::external_type_specification]
#[verifier::external_body]
pub struct ExCancellationToken(CancellationToken);

/// Relies on tokio_util::sync::CancellationToken::new: creates a token in
/// the non-cancelled state.
pub assume_specification[ CancellationToken::new ]() -> CancellationToken;

/// Relies on tokio_util::sync::CancellationToken::cancel: sets the shared
/// one-shot flag and wakes all waiters; setting it again has no further
/// effect.
pub assume_specification[ CancellationToken::cancel ](t: &CancellationToken);

/// Relies on tokio_util::sync::CancellationToken::is_cancelled: reads the
/// shared flag. Other tasks may set the flag at any moment, so no outcome is
/// assumed.
pub assume_specification[ CancellationToken::is_cancelled ](
    t: &CancellationToken,
) -> bool;

/// Relies on tokio_util::sync::CancellationToken's `Clone` impl: a clone
/// observes and triggers the same cancellation as the token it came from.
pub assume_specification[ <CancellationToken as Clone>::clone ](
    t: &CancellationToken,
) -> CancellationToken;

} // verus!
