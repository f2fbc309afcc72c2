//! What holds of whole runs of the supervisor: a run is the sequence of
//! events that its caller reports, from the start on.

use crate::supervisor::capped;
use crate::supervisor::next;
use crate::supervisor::started;
use crate::supervisor::wait_due;
use crate::supervisor::Phase;
use crate::supervisor::Supervisor;
use crate::supervisor::SupervisorAction;
use crate::supervisor::SupervisorEvent;
use crate::supervisor::POLL_INTERVAL_MS;
use crate::verdict::classified;
use crate::verdict::ChildExit;
use crate::verdict::FailureReason;
use crate::verdict::Verdict;
use vstd::prelude::*;

verus! {

/// The state after `events`, taken in from `s` on.
pub open spec fn run(s: Supervisor, events: Seq<SupervisorEvent>) -> Supervisor
    decreases events.len(),
{
    if events.len() == 0 {
        s
    } else {
        next(run(s, events.drop_last()), events.last()).0
    }
}

/// The action that answers the last of `events`.
pub open spec fn answer(s: Supervisor, events: Seq<SupervisorEvent>) -> SupervisorAction
    recommends
        events.len() > 0,
{
    next(run(s, events.drop_last()), events.last()).1
}

/// The sum of the waits.
pub open spec fn total(waits: Seq<u64>) -> nat
    decreases waits.len(),
{
    if waits.len() == 0 {
        0
    } else {
        total(waits.drop_last()) + waits.last() as nat
    }
}

/// The events of a child that is still running at the end of each of
/// `waits`.
pub open spec fn still_running(waits: Seq<u64>) -> Seq<SupervisorEvent> {
    Seq::new(waits.len(), |i: int| SupervisorEvent::StillRunning(waits[i]))
}

/// While the deadline has not been reached the supervisor keeps waiting,
/// and has counted the waits so far.
pub proof fn lemma_keeps_waiting(timeout_ms: u64, waits: Seq<u64>)
    requires
        timeout_ms == 0 || total(waits) < timeout_ms,
    ensures
        run(started(timeout_ms), still_running(waits)) == (Supervisor {
            timeout_ms,
            elapsed_ms: capped(total(waits)),
            phase: Phase::Waiting,
        }),
        waits.len() > 0 ==> answer(started(timeout_ms), still_running(waits)) == wait_due(
            timeout_ms,
            capped(total(waits)),
        ),
    decreases waits.len(),
{
    if waits.len() > 0 {
        lemma_keeps_waiting(timeout_ms, waits.drop_last());
        assert(still_running(waits).drop_last() =~= still_running(waits.drop_last()));
        assert(still_running(waits).last() == SupervisorEvent::StillRunning(waits.last()));
    }
}

/// A child that exits before the deadline is judged by its exit status and
/// the marker, whatever the deadline and however long it ran, and the
/// supervisor asks for no wait after the exit.
pub proof fn lemma_exit_is_judged(
    timeout_ms: u64,
    waits: Seq<u64>,
    exit: ChildExit,
    marker_present: bool,
)
    requires
        timeout_ms == 0 || total(waits) < timeout_ms,
    ensures
        ({
            let exited = still_running(waits).push(SupervisorEvent::Exited(exit));
            let read = exited.push(SupervisorEvent::MarkerRead(marker_present));
            let verdict = classified(exit, marker_present);
            &&& answer(started(timeout_ms), exited) == SupervisorAction::ReadMarker
            &&& answer(started(timeout_ms), read) == SupervisorAction::Done(verdict)
            &&& run(started(timeout_ms), read) == (Supervisor {
                timeout_ms,
                elapsed_ms: capped(total(waits)),
                phase: Phase::Finished(verdict),
            })
        }),
{
    lemma_keeps_waiting(timeout_ms, waits);
    let exited = still_running(waits).push(SupervisorEvent::Exited(exit));
    let read = exited.push(SupervisorEvent::MarkerRead(marker_present));
    assert(exited.drop_last() =~= still_running(waits));
    assert(read.drop_last() =~= exited);
}

/// A body that returns passes: a child that exits with code zero before
/// the deadline, with the marker present, is judged `Passed`, and the time
/// counted is that of the waits before its exit, which is below the
/// deadline where there is one.
pub proof fn lemma_completed_body_passes(timeout_ms: u64, waits: Seq<u64>)
    requires
        timeout_ms == 0 || total(waits) < timeout_ms,
    ensures
        ({
            let events = still_running(waits).push(
                SupervisorEvent::Exited(ChildExit::Code(0)),
            ).push(SupervisorEvent::MarkerRead(true));
            let end = run(started(timeout_ms), events);
            &&& end.phase == Phase::Finished(Verdict::Passed)
            &&& end.elapsed_ms == capped(total(waits))
            &&& timeout_ms > 0 ==> end.elapsed_ms < timeout_ms
        }),
{
    lemma_exit_is_judged(timeout_ms, waits, ChildExit::Code(0), true);
}

/// A body that does not return fails: with the marker absent the verdict
/// is `Failed`, however the child exited; with exit code zero the reason
/// is that the body did not complete.
pub proof fn lemma_unfinished_body_fails(timeout_ms: u64, waits: Seq<u64>, exit: ChildExit)
    requires
        timeout_ms == 0 || total(waits) < timeout_ms,
    ensures
        ({
            let events = still_running(waits).push(SupervisorEvent::Exited(exit)).push(
                SupervisorEvent::MarkerRead(false),
            );
            let end = run(started(timeout_ms), events);
            &&& end.phase is Finished
            &&& end.phase->Finished_0 is Failed
            &&& exit == ChildExit::Code(0) ==> end.phase == Phase::Finished(
                Verdict::Failed(FailureReason::BodyIncomplete),
            )
        }),
{
    lemma_exit_is_judged(timeout_ms, waits, exit, false);
}

/// A child that outlives the deadline is terminated and fails by timeout.
///
/// `waits` are the waits at whose end the child was still running, the
/// last of them the one that reached the deadline. The supervisor answers
/// the last with `Kill`, and once the child is gone gives the verdict
/// `Timeout` with the time counted. That time is at least the deadline,
/// and exceeds it by no more than the last wait exceeded what the
/// supervisor had asked for.
pub proof fn lemma_hang_is_timed_out(timeout_ms: u64, waits: Seq<u64>)
    requires
        timeout_ms > 0,
        waits.len() > 0,
        total(waits.drop_last()) < timeout_ms <= total(waits),
    ensures
        ({
            let hung = still_running(waits);
            let gone = hung.push(SupervisorEvent::Killed);
            let elapsed_ms = capped(total(waits));
            let asked = wait_due(timeout_ms, capped(total(waits.drop_last())));
            &&& answer(started(timeout_ms), hung) == SupervisorAction::Kill
            &&& answer(started(timeout_ms), gone) == SupervisorAction::Done(
                Verdict::Failed(FailureReason::Timeout(elapsed_ms)),
            )
            &&& run(started(timeout_ms), gone).phase == Phase::Finished(
                Verdict::Failed(FailureReason::Timeout(elapsed_ms)),
            )
            &&& elapsed_ms >= timeout_ms
            &&& asked is WaitFor
            &&& total(waits) - timeout_ms <= waits.last() - asked->WaitFor_0
        }),
{
    let hung = still_running(waits);
    let gone = hung.push(SupervisorEvent::Killed);
    lemma_keeps_waiting(timeout_ms, waits.drop_last());
    assert(hung.drop_last() =~= still_running(waits.drop_last()));
    assert(hung.last() == SupervisorEvent::StillRunning(waits.last()));
    assert(gone.drop_last() =~= hung);
}

/// Every bounded wait that the supervisor asks for is longer than zero, no
/// longer than the polling interval, and ends no later than the deadline.
pub proof fn lemma_waits_are_short(s: Supervisor, event: SupervisorEvent)
    requires
        next(s, event).1 is WaitFor,
    ensures
        0 < next(s, event).1->WaitFor_0 <= POLL_INTERVAL_MS,
        next(s, event).0.elapsed_ms + next(s, event).1->WaitFor_0 <= s.timeout_ms,
{
}

/// The child is terminated only under a deadline, and only once the time
/// counted has reached it.
pub proof fn lemma_kill_needs_deadline(s: Supervisor, event: SupervisorEvent)
    requires
        next(s, event).1 == SupervisorAction::Kill,
    ensures
        s.timeout_ms > 0,
        next(s, event).0.elapsed_ms >= s.timeout_ms,
        next(s, event).0.phase == Phase::Killing,
{
}

/// The verdict `Timeout` is given only once the child has been terminated
/// and is gone, and carries the time counted.
pub proof fn lemma_timeout_needs_kill(s: Supervisor, event: SupervisorEvent, elapsed_ms: u64)
    requires
        !(s.phase is Finished),
        next(s, event).0.phase == Phase::Finished(
            Verdict::Failed(FailureReason::Timeout(elapsed_ms)),
        ),
    ensures
        s.phase == Phase::Killing,
        event == SupervisorEvent::Killed,
        elapsed_ms == s.elapsed_ms,
{
}

/// The supervisor comes to `Passed` in one way only: the child has exited
/// with code zero and the marker was then found present. No fault of
/// supervision is taken for a pass.
pub proof fn lemma_pass_needs_exit_and_marker(s: Supervisor, event: SupervisorEvent)
    requires
        s.phase != Phase::Finished(Verdict::Passed),
        next(s, event).0.phase == Phase::Finished(Verdict::Passed),
    ensures
        s.phase == Phase::ReadingMarker(ChildExit::Code(0)),
        event == SupervisorEvent::MarkerRead(true),
{
}

/// Once the verdict is in, no event changes it.
pub proof fn lemma_verdict_is_final(s: Supervisor, event: SupervisorEvent)
    requires
        s.phase is Finished,
    ensures
        next(s, event).0 == s,
        next(s, event).1 == SupervisorAction::Done(s.phase->Finished_0),
{
}

/// Whether each of `waits` that began before the deadline lasted at least
/// as long as the supervisor had asked for.
pub open spec fn waited_out(timeout_ms: u64, waits: Seq<u64>) -> bool {
    forall|i: int|
        0 <= i < waits.len() && total(waits.take(i)) < timeout_ms ==> waits[i] >= (
        #[trigger] wait_due(timeout_ms, capped(total(waits.take(i)))))->WaitFor_0
}

/// Under a deadline the supervisor does not wait forever: where every
/// wait lasts as long as was asked, the time counted reaches the deadline
/// within as many waits as polling intervals cover it.
pub proof fn lemma_deadline_is_reached(timeout_ms: u64, waits: Seq<u64>)
    requires
        timeout_ms > 0,
        waited_out(timeout_ms, waits),
    ensures
        total(waits) >= timeout_ms || total(waits) >= waits.len() * POLL_INTERVAL_MS,
    decreases waits.len(),
{
    if waits.len() > 0 {
        let before = waits.drop_last();
        assert forall|i: int| 0 <= i < before.len() implies before.take(i) == waits.take(i) by {
            assert(before.take(i) =~= waits.take(i));
        }
        assert(waited_out(timeout_ms, before)) by {
            assert forall|i: int|
                0 <= i < before.len() && total(before.take(i)) < timeout_ms implies before[i] >= (
            #[trigger] wait_due(timeout_ms, capped(total(before.take(i)))))->WaitFor_0 by {
                assert(before.take(i) == waits.take(i));
                assert(before[i] == waits[i]);
            }
        }
        lemma_deadline_is_reached(timeout_ms, before);
        assert(waits.take(waits.len() - 1) =~= before);
        if total(before) < timeout_ms {
            let asked = wait_due(timeout_ms, capped(total(waits.take(waits.len() - 1))));
            assert(waits.last() >= asked->WaitFor_0);
        }
    }
}

/// Whether every one of `events` reports a child that is still running.
pub open spec fn all_still_running(events: Seq<SupervisorEvent>) -> bool {
    forall|i: int| 0 <= i < events.len() ==> (#[trigger] events[i]) is StillRunning
}

/// In every run, whatever the caller reports: the supervisor waits only
/// while the child was reported running; it inspects the marker only
/// right after the exit was reported; and it comes to `Passed` only where
/// the run began with waits, then an exit with code zero, then the marker
/// found present.
pub proof fn lemma_pass_is_earned(timeout_ms: u64, events: Seq<SupervisorEvent>)
    ensures
        ({
            let end = run(started(timeout_ms), events).phase;
            &&& end == Phase::Waiting ==> all_still_running(events)
            &&& end is ReadingMarker ==> {
                &&& events.len() >= 1
                &&& events.last() == SupervisorEvent::Exited(end->ReadingMarker_0)
                &&& all_still_running(events.drop_last())
            }
            &&& end == Phase::Finished(Verdict::Passed) ==> exists|k: int|
                {
                    &&& 0 <= k < events.len() - 1
                    &&& all_still_running(events.take(k))
                    &&& events[k] == SupervisorEvent::Exited(ChildExit::Code(0))
                    &&& #[trigger] events[k + 1] == SupervisorEvent::MarkerRead(true)
                }
        }),
    decreases events.len(),
{
    if events.len() > 0 {
        let before = events.drop_last();
        lemma_pass_is_earned(timeout_ms, before);
        let s = run(started(timeout_ms), before);
        let end = run(started(timeout_ms), events).phase;
        if end == Phase::Waiting {
            assert(s.phase == Phase::Waiting);
            assert forall|i: int| 0 <= i < events.len() implies (
            #[trigger] events[i]) is StillRunning by {
                if i < before.len() {
                    assert(before[i] is StillRunning);
                }
            }
        }
        if end == Phase::Finished(Verdict::Passed) {
            if s.phase == Phase::Finished(Verdict::Passed) {
                let k = choose|k: int|
                    {
                        &&& 0 <= k < before.len() - 1
                        &&& all_still_running(before.take(k))
                        &&& before[k] == SupervisorEvent::Exited(ChildExit::Code(0))
                        &&& #[trigger] before[k + 1] == SupervisorEvent::MarkerRead(true)
                    };
                assert(before.take(k) =~= events.take(k));
                assert(events[k + 1] == SupervisorEvent::MarkerRead(true));
            } else {
                lemma_pass_needs_exit_and_marker(s, events.last());
                let k = events.len() - 2;
                assert(before.drop_last() =~= events.take(k));
                assert(events[k] == before.last());
                assert(events[k + 1] == SupervisorEvent::MarkerRead(true));
            }
        }
    }
}

} // verus!
