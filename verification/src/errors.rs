//! The pipeline's failure vocabulary.
//!
//! Setup-time failures are synchronous and surfaced as the result of a
//! start; steady-state per-block failures have no result channel back to
//! the caller and are only logged, never fatal to capture; shutdown never
//! fails from the caller's point of view.  Each failure is surfaced under a
//! fixed message — a prefix, where an underlying operating-system error is
//! appended.

use vstd::prelude::*;

verus! {

/// Every failure the pipeline distinguishes.
#[derive(Clone, Copy, PartialEq, Eq, Structural, Debug)]
pub enum PipelineError {
    /// No input device was found: fatal to a start.
    DeviceUnavailable,
    /// A device was found but the stream could not be built: fatal to a
    /// start.
    StreamSetupFailed,
    /// The stream was built but would not play: fatal to a start.
    StreamPlayFailed,
    /// The worker executable could not be launched: fatal to a start, and
    /// capture is never begun.
    SpawnFailed,
    /// A per-block forwarding write failed: logged, capture continues.
    ForwardWriteFailed,
    /// The device reported an asynchronous error during a session: logged;
    /// recovery is the caller's policy.
    StreamRuntimeError,
}

impl PipelineError {
    /// Whether the failure is fatal to the start that observes it, as
    /// opposed to a steady-state failure that is only logged.
    pub open spec fn is_fatal_to_start(self) -> bool {
        match self {
            PipelineError::DeviceUnavailable => true,
            PipelineError::StreamSetupFailed => true,
            PipelineError::StreamPlayFailed => true,
            PipelineError::SpawnFailed => true,
            PipelineError::ForwardWriteFailed => false,
            PipelineError::StreamRuntimeError => false,
        }
    }

    /// The fixed message the failure is surfaced or logged under.
    pub fn message(&self) -> (r: &'static str)
        ensures
            self is DeviceUnavailable ==> r@ == "No input device found"@,
            self is StreamSetupFailed ==> r@ == "Failed to build input stream"@,
            self is StreamPlayFailed ==> r@ == "Failed to play stream"@,
            self is SpawnFailed ==> r@ == "Failed to spawn sidecar"@,
            self is ForwardWriteFailed ==> r@ == "Failed to forward audio block"@,
            self is StreamRuntimeError ==> r@ == "an error occurred on stream"@,
    {
        match self {
            PipelineError::DeviceUnavailable => "No input device found",
            PipelineError::StreamSetupFailed => "Failed to build input stream",
            PipelineError::StreamPlayFailed => "Failed to play stream",
            PipelineError::SpawnFailed => "Failed to spawn sidecar",
            PipelineError::ForwardWriteFailed => "Failed to forward audio block",
            PipelineError::StreamRuntimeError => "an error occurred on stream",
        }
    }
}

} // verus!
