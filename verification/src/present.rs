//! The surface-acquisition protocol: what to do with each outcome of
//! asking the surface for its next presentable texture.
//!
//! The GPU shell performs the actual acquisition and reports back a
//! classified outcome; the decision — use the texture, reconfigure the
//! surface at the current size and retry exactly once, or give the
//! frame up — is taken here, so the one-retry rule is a proved fact
//! rather than a convention of the shell's loop.

use vstd::prelude::*;

verus! {

/// What acquiring the next surface texture reported, with the surface
/// conditions that warrant a retry (lost or outdated) classed together.
#[derive(Clone, Copy, Debug, PartialEq, Eq, Structural)]
pub enum AcquireOutcome {
    Granted,
    OutdatedOrLost,
    Failed,
}

/// What the shell must do next with that outcome.
#[derive(Clone, Copy, Debug, PartialEq, Eq, Structural)]
pub enum AcquireAction {
    UseTexture,
    ReconfigureAndRetry,
    GiveUp,
}

/// The decision the protocol takes: a granted texture is used; a lost or
/// outdated surface earns one reconfigure-and-retry, never a second; any
/// other failure, or a recoverable one after the retry, gives the frame
/// up as a per-frame error.
pub open spec fn spec_acquire_step(outcome: AcquireOutcome, prior_retries: u32) -> AcquireAction {
    match outcome {
        AcquireOutcome::Granted => AcquireAction::UseTexture,
        AcquireOutcome::OutdatedOrLost => if prior_retries == 0 {
            AcquireAction::ReconfigureAndRetry
        } else {
            AcquireAction::GiveUp
        },
        AcquireOutcome::Failed => AcquireAction::GiveUp,
    }
}

/// Decides the next step after one acquisition attempt, given how many
/// retries this frame has already spent.
pub fn acquire_step(outcome: AcquireOutcome, prior_retries: u32) -> (a: AcquireAction)
    ensures
        a == spec_acquire_step(outcome, prior_retries),
{
    match outcome {
        AcquireOutcome::Granted => AcquireAction::UseTexture,
        AcquireOutcome::OutdatedOrLost => {
            if prior_retries == 0 {
                AcquireAction::ReconfigureAndRetry
            } else {
                AcquireAction::GiveUp
            }
        },
        AcquireOutcome::Failed => AcquireAction::GiveUp,
    }
}

/// Law: the protocol retries at most once — after any spent retry, no
/// outcome ever earns another reconfiguration.
pub proof fn lemma_single_retry(outcome: AcquireOutcome, prior_retries: u32)
    requires
        prior_retries >= 1,
    ensures
        spec_acquire_step(outcome, prior_retries) != AcquireAction::ReconfigureAndRetry,
{
}

} // verus!
