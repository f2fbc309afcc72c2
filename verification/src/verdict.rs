//! How a child process ended, and the verdict that follows from it.

use vstd::prelude::*;

verus! {

/// How the operating system reports the end of a child process.
#[derive(Clone, Copy, Debug, PartialEq, Eq, Structural)]
pub enum ChildExit {
    /// The process exited with this code.
    Code(i32),
    /// The process was terminated by this signal.
    Signal(i32),
}

/// Why a launch did not pass.
#[derive(Clone, Copy, Debug, PartialEq, Eq, Structural)]
pub enum FailureReason {
    /// The child exited with a code other than zero.
    NonZeroExit(i32),
    /// The child was terminated by a signal.
    Signaled(i32),
    /// The child exited with code zero, but the completion marker was not
    /// written: the process ended before the body returned.
    BodyIncomplete,
    /// The child was still running at the deadline and was terminated
    /// after this many milliseconds.
    Timeout(u64),
    /// The child could not be waited on or terminated.
    SupervisionError,
}

/// The outcome of one launch.
#[derive(Clone, Copy, Debug, PartialEq, Eq, Structural)]
pub enum Verdict {
    /// The body ran to completion in a child that exited with code zero.
    Passed,
    /// Anything else.
    Failed(FailureReason),
}

/// The verdict for a child that ended with `exit`, given whether the
/// completion marker was found.
pub open spec fn classified(exit: ChildExit, marker_present: bool) -> Verdict {
    match exit {
        ChildExit::Code(code) => if code != 0 {
            Verdict::Failed(FailureReason::NonZeroExit(code))
        } else if marker_present {
            Verdict::Passed
        } else {
            Verdict::Failed(FailureReason::BodyIncomplete)
        },
        ChildExit::Signal(signal) => Verdict::Failed(FailureReason::Signaled(signal)),
    }
}

/// Judges a child that has exited by its exit status and the completion
/// marker together: neither alone lets it pass.
pub fn classify(exit: ChildExit, marker_present: bool) -> (verdict: Verdict)
    ensures
        verdict == classified(exit, marker_present),
{
    match exit {
        ChildExit::Code(code) => {
            if code != 0 {
                Verdict::Failed(FailureReason::NonZeroExit(code))
            } else if marker_present {
                Verdict::Passed
            } else {
                Verdict::Failed(FailureReason::BodyIncomplete)
            }
        },
        ChildExit::Signal(signal) => Verdict::Failed(FailureReason::Signaled(signal)),
    }
}

/// A launch passes only with exit code zero and the marker present.
pub proof fn lemma_passed_needs_both(exit: ChildExit, marker_present: bool)
    ensures
        classified(exit, marker_present) == Verdict::Passed <==> (exit == ChildExit::Code(0)
            && marker_present),
{
}

} // verus!
