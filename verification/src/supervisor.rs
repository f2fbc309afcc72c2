//! The supervisor: waits for the child, enforces the deadline and judges
//! how the child ended.
//!
//! The supervisor is a state machine. Its caller performs each action on
//! the child process and reports what happened as the next event.

use crate::verdict::classified;
use crate::verdict::classify;
use crate::verdict::ChildExit;
use crate::verdict::FailureReason;
use crate::verdict::Verdict;
use vstd::prelude::*;

verus! {

/// The longest single wait under a deadline, in milliseconds.
pub const POLL_INTERVAL_MS: u64 = 50;

/// What the caller reports back to the supervisor.
#[derive(Clone, Copy, Debug, PartialEq, Eq, Structural)]
pub enum SupervisorEvent {
    /// The child has exited.
    Exited(ChildExit),
    /// A wait ended after this many milliseconds with the child still
    /// running.
    StillRunning(u64),
    /// The child could not be waited on.
    WaitFailed,
    /// The child was terminated and is gone.
    Killed,
    /// The child could not be terminated.
    KillFailed,
    /// The completion marker was inspected; `true` if it was present.
    MarkerRead(bool),
}

/// What the supervisor asks its caller to do next.
#[derive(Clone, Copy, Debug, PartialEq, Eq, Structural)]
pub enum SupervisorAction {
    /// Block until the child exits.
    Wait,
    /// Wait for the child to exit, but no longer than this many
    /// milliseconds.
    WaitFor(u64),
    /// Terminate the child and reap it.
    Kill,
    /// Inspect the completion marker.
    ReadMarker,
    /// Supervision is over, with this verdict.
    Done(Verdict),
}

/// Where the supervisor stands.
#[derive(Clone, Copy, Debug, PartialEq, Eq, Structural)]
pub enum Phase {
    /// The child is running, as far as is known.
    Waiting,
    /// The deadline has passed and the child is being terminated.
    Killing,
    /// The child has exited in this way; the marker is being inspected.
    ReadingMarker(ChildExit),
    /// The verdict is in.
    Finished(Verdict),
}

/// The supervisor of one child process.
#[derive(Clone, Copy, Debug, PartialEq, Eq, Structural)]
pub struct Supervisor {
    /// The deadline in milliseconds; zero for none.
    pub timeout_ms: u64,
    /// The time spent in waits that ended with the child still running.
    pub elapsed_ms: u64,
    /// Where the supervisor stands.
    pub phase: Phase,
}

/// `n`, held at the largest `u64`.
pub open spec fn capped(n: nat) -> u64 {
    if n > u64::MAX {
        u64::MAX
    } else {
        n as u64
    }
}

/// The deadline in whole milliseconds for a timeout of `seconds` and
/// `nanoseconds`: rounded up, so that only a timeout of zero stands for no
/// deadline, and held at the largest `u64`.
pub open spec fn deadline_of(seconds: u64, nanoseconds: u32) -> u64 {
    capped(((seconds * 1_000_000_000 + nanoseconds + 999_999) / 1_000_000) as nat)
}

/// The wait that is due with `elapsed_ms` spent: without a deadline a
/// blocking wait, else a bounded one that ends no later than the deadline.
pub open spec fn wait_due(timeout_ms: u64, elapsed_ms: u64) -> SupervisorAction {
    if timeout_ms == 0 {
        SupervisorAction::Wait
    } else if timeout_ms - elapsed_ms < POLL_INTERVAL_MS {
        SupervisorAction::WaitFor((timeout_ms - elapsed_ms) as u64)
    } else {
        SupervisorAction::WaitFor(POLL_INTERVAL_MS)
    }
}

/// The supervisor at the start, with the child just spawned.
pub open spec fn started(timeout_ms: u64) -> Supervisor {
    Supervisor { timeout_ms, elapsed_ms: 0, phase: Phase::Waiting }
}

/// The supervisor once it has settled on `verdict`.
pub open spec fn settled(s: Supervisor, verdict: Verdict) -> (Supervisor, SupervisorAction) {
    (Supervisor { phase: Phase::Finished(verdict), ..s }, SupervisorAction::Done(verdict))
}

/// The state after `event` and the action that answers it.
///
/// An event that the phase does not expect is a fault of supervision.
pub open spec fn next(s: Supervisor, event: SupervisorEvent) -> (Supervisor, SupervisorAction) {
    let fault = Verdict::Failed(FailureReason::SupervisionError);
    match s.phase {
        Phase::Waiting => match event {
            SupervisorEvent::Exited(exit) => (
                Supervisor { phase: Phase::ReadingMarker(exit), ..s },
                SupervisorAction::ReadMarker,
            ),
            SupervisorEvent::StillRunning(waited_ms) => {
                let elapsed_ms = capped(s.elapsed_ms as nat + waited_ms as nat);
                if s.timeout_ms > 0 && elapsed_ms >= s.timeout_ms {
                    (Supervisor { elapsed_ms, phase: Phase::Killing, ..s }, SupervisorAction::Kill)
                } else {
                    (Supervisor { elapsed_ms, ..s }, wait_due(s.timeout_ms, elapsed_ms))
                }
            },
            _ => settled(s, fault),
        },
        Phase::Killing => match event {
            SupervisorEvent::Killed => settled(
                s,
                Verdict::Failed(FailureReason::Timeout(s.elapsed_ms)),
            ),
            _ => settled(s, fault),
        },
        Phase::ReadingMarker(exit) => match event {
            SupervisorEvent::MarkerRead(present) => settled(s, classified(exit, present)),
            _ => settled(s, fault),
        },
        Phase::Finished(verdict) => (s, SupervisorAction::Done(verdict)),
    }
}

/// Converts a timeout, given in seconds and nanoseconds, to the deadline
/// in milliseconds that the supervisor counts in.
pub fn deadline_ms(seconds: u64, nanoseconds: u32) -> (ms: u64)
    ensures
        ms == deadline_of(seconds, nanoseconds),
        ms == 0 <==> seconds == 0 && nanoseconds == 0,
{
    let whole: u128 = seconds as u128 * 1_000_000_000 + nanoseconds as u128 + 999_999;
    let ms: u128 = whole / 1_000_000;
    if ms > u64::MAX as u128 {
        u64::MAX
    } else {
        ms as u64
    }
}

impl Supervisor {
    /// Starts supervising a child that was just spawned. `timeout_ms` is
    /// the deadline, zero for none. The action is the first wait.
    pub fn start(timeout_ms: u64) -> (r: (Supervisor, SupervisorAction))
        ensures
            r.0 == started(timeout_ms),
            r.1 == wait_due(timeout_ms, 0),
    {
        let s = Supervisor { timeout_ms, elapsed_ms: 0, phase: Phase::Waiting };
        (s, Self::wait_action(timeout_ms, 0))
    }

    /// The wait that is due.
    fn wait_action(timeout_ms: u64, elapsed_ms: u64) -> (action: SupervisorAction)
        requires
            timeout_ms == 0 || elapsed_ms < timeout_ms,
        ensures
            action == wait_due(timeout_ms, elapsed_ms),
    {
        if timeout_ms == 0 {
            SupervisorAction::Wait
        } else if timeout_ms - elapsed_ms < POLL_INTERVAL_MS {
            SupervisorAction::WaitFor(timeout_ms - elapsed_ms)
        } else {
            SupervisorAction::WaitFor(POLL_INTERVAL_MS)
        }
    }

    /// Settles on a verdict.
    fn settle(&mut self, verdict: Verdict) -> (action: SupervisorAction)
        ensures
            (*final(self), action) == settled(*old(self), verdict),
    {
        self.phase = Phase::Finished(verdict);
        SupervisorAction::Done(verdict)
    }

    /// Takes in what the caller reports and says what to do next.
    pub fn step(&mut self, event: SupervisorEvent) -> (action: SupervisorAction)
        ensures
            (*final(self), action) == next(*old(self), event),
    {
        let fault = Verdict::Failed(FailureReason::SupervisionError);
        match self.phase {
            Phase::Waiting => match event {
                SupervisorEvent::Exited(exit) => {
                    self.phase = Phase::ReadingMarker(exit);
                    SupervisorAction::ReadMarker
                },
                SupervisorEvent::StillRunning(waited_ms) => {
                    let elapsed_ms = if waited_ms > u64::MAX - self.elapsed_ms {
                        u64::MAX
                    } else {
                        self.elapsed_ms + waited_ms
                    };
                    self.elapsed_ms = elapsed_ms;
                    if self.timeout_ms > 0 && elapsed_ms >= self.timeout_ms {
                        self.phase = Phase::Killing;
                        SupervisorAction::Kill
                    } else {
                        Self::wait_action(self.timeout_ms, elapsed_ms)
                    }
                },
                _ => self.settle(fault),
            },
            Phase::Killing => match event {
                SupervisorEvent::Killed => {
                    let elapsed_ms = self.elapsed_ms;
                    self.settle(Verdict::Failed(FailureReason::Timeout(elapsed_ms)))
                },
                _ => self.settle(fault),
            },
            Phase::ReadingMarker(exit) => match event {
                SupervisorEvent::MarkerRead(present) => {
                    let verdict = classify(exit, present);
                    self.settle(verdict)
                },
                _ => self.settle(fault),
            },
            Phase::Finished(verdict) => SupervisorAction::Done(verdict),
        }
    }

    /// The verdict, once supervision is over.
    pub fn verdict(&self) -> (v: Option<Verdict>)
        ensures
            v == match self.phase {
                Phase::Finished(verdict) => Some(verdict),
                _ => None,
            },
    {
        match self.phase {
            Phase::Finished(verdict) => Some(verdict),
            _ => None,
        }
    }
}

} // verus!
