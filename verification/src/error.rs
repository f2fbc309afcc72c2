//! The errors that a launch reports to its caller.

use crate::verdict::FailureReason;
use crate::verdict::Verdict;
use vstd::prelude::*;

verus! {

/// Why a launch did not end in a passed test.
#[derive(Clone, Copy, Debug, PartialEq, Eq, Structural)]
pub enum LaunchError {
    /// The child process could not be created.
    Spawn,
    /// The child exited with code zero before the body had returned.
    BodyIncomplete,
    /// The child exited with this code, which is not zero.
    NonZeroExit(i32),
    /// The child was terminated by this signal.
    Signaled(i32),
    /// The child was terminated at the deadline, after this many
    /// milliseconds.
    Timeout(u64),
    /// The child could not be waited on or terminated.
    SupervisionError,
}

/// The error that reports a failed verdict.
pub open spec fn error_of(reason: FailureReason) -> LaunchError {
    match reason {
        FailureReason::NonZeroExit(code) => LaunchError::NonZeroExit(code),
        FailureReason::Signaled(signal) => LaunchError::Signaled(signal),
        FailureReason::BodyIncomplete => LaunchError::BodyIncomplete,
        FailureReason::Timeout(elapsed_ms) => LaunchError::Timeout(elapsed_ms),
        FailureReason::SupervisionError => LaunchError::SupervisionError,
    }
}

/// What a launch returns for a verdict.
pub open spec fn outcome_of(verdict: Verdict) -> Result<(), LaunchError> {
    match verdict {
        Verdict::Passed => Ok(()),
        Verdict::Failed(reason) => Err(error_of(reason)),
    }
}

impl LaunchError {
    /// The error that reports `reason`.
    pub fn from_failure(reason: FailureReason) -> (e: LaunchError)
        ensures
            e == error_of(reason),
            e != LaunchError::Spawn,
    {
        match reason {
            FailureReason::NonZeroExit(code) => LaunchError::NonZeroExit(code),
            FailureReason::Signaled(signal) => LaunchError::Signaled(signal),
            FailureReason::BodyIncomplete => LaunchError::BodyIncomplete,
            FailureReason::Timeout(elapsed_ms) => LaunchError::Timeout(elapsed_ms),
            FailureReason::SupervisionError => LaunchError::SupervisionError,
        }
    }

    /// Whether the error says that the harness could not do its work, as
    /// opposed to a test that failed.
    pub fn is_harness_fault(&self) -> (fault: bool)
        ensures
            fault == (*self == LaunchError::Spawn || *self == LaunchError::SupervisionError),
    {
        match self {
            LaunchError::Spawn => true,
            LaunchError::SupervisionError => true,
            _ => false,
        }
    }
}

/// Turns a verdict into what the launch returns: `Ok` for a pass, the
/// matching error for each failure.
pub fn outcome(verdict: Verdict) -> (r: Result<(), LaunchError>)
    ensures
        r == outcome_of(verdict),
        r.is_ok() <==> verdict == Verdict::Passed,
{
    match verdict {
        Verdict::Passed => Ok(()),
        Verdict::Failed(reason) => Err(LaunchError::from_failure(reason)),
    }
}

} // verus!
