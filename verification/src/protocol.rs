//! What holds of the protocol as a whole, across the driver, the child it
//! spawns and the supervisor.

use crate::command::arguments_for;
use crate::context::context_of;
use crate::context::role_in;
use crate::context::ContextView;
use crate::context::Role;
use crate::error::error_of;
use crate::error::outcome_of;
use crate::error::LaunchError;
use crate::identity::IdentityView;
use crate::launch::begun;
use crate::launch::launch_next;
use crate::launch::LaunchActionView;
use crate::launch::LaunchEventView;
use crate::launch::LaunchPhase;
use crate::launch::LaunchView;
use crate::marker::marker_bytes;
use crate::marker::holds_marker;
use crate::selection::encoded;
use crate::selection::lemma_decode_encoded;
use crate::supervisor::capped;
use crate::supervisor::started;
use crate::supervisor::Phase;
use crate::supervisor::SupervisorEvent;
use crate::traces::lemma_exit_is_judged;
use crate::traces::lemma_hang_is_timed_out;
use crate::traces::run;
use crate::traces::still_running;
use crate::traces::total;
use crate::verdict::ChildExit;
use crate::verdict::FailureReason;
use crate::verdict::Verdict;
use vstd::prelude::*;

verus! {

/// The context of the child that a driver spawns for `identity`, with the
/// completion marker at `marker_path`: the two reserved variables hold
/// what the `Spawn` action hands over.
pub open spec fn child_context(identity: IdentityView, marker_path: Seq<char>) -> ContextView {
    context_of(Some(encoded(identity)), Some(marker_path))
}

/// In a driver a launch goes through these steps, in this order: create
/// the marker, build and customize the command, set the reserved
/// variables and spawn, supervise, delete the marker, and return what the
/// verdict stands for. The reserved variables are set after the caller's
/// hook has run, to the selection text of the test and the marker's path.
pub proof fn lemma_driver_steps(identity: IdentityView, marker_path: Seq<char>, verdict: Verdict)
    ensures
        ({
            let (s0, a0) = begun(ContextView::Driver, identity);
            let (s1, a1) = launch_next(s0, LaunchEventView::MarkerCreated(marker_path));
            let (s2, a2) = launch_next(s1, LaunchEventView::Configured);
            let (s3, a3) = launch_next(s2, LaunchEventView::Spawned);
            let (s4, a4) = launch_next(s3, LaunchEventView::Supervised(verdict));
            let (s5, a5) = launch_next(s4, LaunchEventView::MarkerDeleted);
            &&& a0 == LaunchActionView::CreateMarker
            &&& a1 == LaunchActionView::Configure(arguments_for(identity.name))
            &&& a2 == (LaunchActionView::Spawn { selection: encoded(identity), marker_path })
            &&& a3 == LaunchActionView::Supervise
            &&& a4 == LaunchActionView::DeleteMarker
            &&& a5 == LaunchActionView::Finish(outcome_of(verdict))
            &&& s5.phase == LaunchPhase::Finished(outcome_of(verdict))
        }),
{
}

/// A driver that cannot create the marker or cannot spawn the child
/// returns `Spawn` at once: it asks for nothing more.
pub proof fn lemma_spawn_failure_is_immediate(identity: IdentityView, marker_path: Seq<char>)
    ensures
        ({
            let (s0, a0) = begun(ContextView::Driver, identity);
            let (s1, a1) = launch_next(s0, LaunchEventView::MarkerCreated(marker_path));
            let (s2, a2) = launch_next(s1, LaunchEventView::Configured);
            &&& launch_next(s0, LaunchEventView::MarkerUnavailable).1 == LaunchActionView::Finish(
                Err(LaunchError::Spawn),
            )
            &&& launch_next(s2, LaunchEventView::SpawnFailed).1 == LaunchActionView::Finish(
                Err(LaunchError::Spawn),
            )
        }),
{
}

/// In the child that a driver spawned for `identity`, the launch of
/// `identity` runs the body, then writes the payload to the marker that
/// the driver created, and returns `Ok`.
pub proof fn lemma_child_steps(identity: IdentityView, marker_path: Seq<char>)
    ensures
        role_in(child_context(identity, marker_path), identity) == Role::Child,
        ({
            let (s0, a0) = begun(child_context(identity, marker_path), identity);
            let (s1, a1) = launch_next(s0, LaunchEventView::BodyReturned);
            let (s2, a2) = launch_next(s1, LaunchEventView::MarkerWritten);
            &&& a0 == LaunchActionView::RunBody
            &&& a1 == (LaunchActionView::WriteMarker {
                path: marker_path,
                payload: marker_bytes(),
            })
            &&& a2 == LaunchActionView::Finish(Ok(()))
        }),
{
    lemma_decode_encoded(identity);
}

/// A child runs the body of the test it was spawned for and of no other:
/// in the child spawned for `target`, the launch of any other identity,
/// be it one of the same name at another site, is over at once, without
/// a body run, a marker created or a process spawned.
pub proof fn lemma_selection_is_exclusive(
    target: IdentityView,
    other: IdentityView,
    marker_path: Seq<char>,
)
    requires
        other != target,
    ensures
        role_in(child_context(target, marker_path), target) == Role::Child,
        role_in(child_context(target, marker_path), other) == Role::Bystander,
        begun(child_context(target, marker_path), other).1 == LaunchActionView::Finish(Ok(())),
        begun(child_context(target, marker_path), other).0.phase == LaunchPhase::Finished(Ok(())),
{
    lemma_decode_encoded(target);
}

/// A process in which the selection variable is set spawns nothing,
/// whatever the variable holds and whichever test is launched.
pub proof fn lemma_child_never_spawns(
    selection: Seq<char>,
    marker_path: Option<Seq<char>>,
    identity: IdentityView,
)
    ensures
        begun(context_of(Some(selection), marker_path), identity).1
            != LaunchActionView::CreateMarker,
        role_in(context_of(Some(selection), marker_path), identity) != Role::Driver,
{
}

/// A launch runs the body in one case only: at its start, in the child
/// that was spawned for its identity. No event makes it run the body
/// again, or in another process.
pub proof fn lemma_body_runs_only_when_selected(
    context: ContextView,
    identity: IdentityView,
    s: LaunchView,
    event: LaunchEventView,
)
    ensures
        begun(context, identity).1 == LaunchActionView::RunBody <==> (context is Child
            && context->target == Some(identity)),
        launch_next(s, event).1 != LaunchActionView::RunBody,
{
}

/// The child is spawned only in answer to the customized command, and
/// with the reserved variables set to the selection text of the launch's
/// own identity and to its own marker: what the caller's hook has set for
/// them does not reach the child.
pub proof fn lemma_spawn_follows_configure(s: LaunchView, event: LaunchEventView)
    requires
        launch_next(s, event).1 is Spawn,
    ensures
        s.phase == LaunchPhase::Configuring,
        event == LaunchEventView::Configured,
        launch_next(s, event).1->Spawn_selection == encoded(s.identity),
        s.marker_path == Some(launch_next(s, event).1->Spawn_marker_path),
{
}

/// The marker is written only in answer to the body's return.
pub proof fn lemma_marker_needs_returned_body(s: LaunchView, event: LaunchEventView)
    requires
        launch_next(s, event).1 is WriteMarker,
    ensures
        s.phase == LaunchPhase::RunningBody,
        event == LaunchEventView::BodyReturned,
        launch_next(s, event).1->WriteMarker_payload == marker_bytes(),
{
}

/// The driver's launch of `identity` once the child is spawned, with the
/// marker at `marker_path`.
pub open spec fn supervising(identity: IdentityView, marker_path: Seq<char>) -> LaunchView {
    let s0 = begun(ContextView::Driver, identity).0;
    let s1 = launch_next(s0, LaunchEventView::MarkerCreated(marker_path)).0;
    let s2 = launch_next(s1, LaunchEventView::Configured).0;
    launch_next(s2, LaunchEventView::Spawned).0
}

/// What the driver's launch returns when supervision ends with `verdict`.
pub open spec fn returned(
    identity: IdentityView,
    marker_path: Seq<char>,
    verdict: Verdict,
) -> LaunchActionView {
    let s4 = launch_next(
        supervising(identity, marker_path),
        LaunchEventView::Supervised(verdict),
    ).0;
    launch_next(s4, LaunchEventView::MarkerDeleted).1
}

/// A body that returns makes its launch pass.
///
/// The child writes the payload once the body has returned. Where the
/// child then exits with code zero before the deadline, the driver finds
/// the marker present, the supervisor's verdict is `Passed`, and the
/// driver's launch returns `Ok`.
pub proof fn lemma_returned_body_passes(
    identity: IdentityView,
    marker_path: Seq<char>,
    timeout_ms: u64,
    waits: Seq<u64>,
)
    requires
        timeout_ms == 0 || total(waits) < timeout_ms,
    ensures
        ({
            let child = begun(child_context(identity, marker_path), identity).0;
            let written = launch_next(child, LaunchEventView::BodyReturned).1;
            let present = holds_marker(written->WriteMarker_payload);
            let events = still_running(waits).push(
                SupervisorEvent::Exited(ChildExit::Code(0)),
            ).push(SupervisorEvent::MarkerRead(present));
            &&& written is WriteMarker
            &&& written->WriteMarker_path == marker_path
            &&& present
            &&& run(started(timeout_ms), events).phase == Phase::Finished(Verdict::Passed)
            &&& returned(identity, marker_path, Verdict::Passed) == LaunchActionView::Finish(
                Ok(()),
            )
        }),
{
    lemma_decode_encoded(identity);
    lemma_exit_is_judged(timeout_ms, waits, ChildExit::Code(0), true);
}

/// A body that does not return makes its launch fail.
///
/// The marker is written only in answer to the body's return, so it stays
/// as the driver created it: empty, which is not the payload. However the
/// child then exits, the supervisor's verdict is `Failed`, and the
/// driver's launch returns the error for it; with exit code zero, that
/// the body did not complete.
pub proof fn lemma_lost_body_fails(
    identity: IdentityView,
    marker_path: Seq<char>,
    timeout_ms: u64,
    waits: Seq<u64>,
    exit: ChildExit,
)
    requires
        timeout_ms == 0 || total(waits) < timeout_ms,
    ensures
        ({
            let present = holds_marker(Seq::<u8>::empty());
            let events = still_running(waits).push(SupervisorEvent::Exited(exit)).push(
                SupervisorEvent::MarkerRead(present),
            );
            let end = run(started(timeout_ms), events).phase;
            &&& !present
            &&& end is Finished
            &&& end->Finished_0 is Failed
            &&& returned(identity, marker_path, end->Finished_0) == LaunchActionView::Finish(
                Err(error_of(end->Finished_0->Failed_0)),
            )
            &&& exit == ChildExit::Code(0) ==> returned(identity, marker_path, end->Finished_0)
                == LaunchActionView::Finish(Err(LaunchError::BodyIncomplete))
        }),
{
    assert(marker_bytes().len() == 5);
    lemma_exit_is_judged(timeout_ms, waits, exit, false);
}

/// A child that outlives the deadline makes its launch fail by timeout:
/// the driver's launch returns `Timeout` with the time that the
/// supervisor counted, which is at least the deadline.
pub proof fn lemma_hung_body_times_out(
    identity: IdentityView,
    marker_path: Seq<char>,
    timeout_ms: u64,
    waits: Seq<u64>,
)
    requires
        timeout_ms > 0,
        waits.len() > 0,
        total(waits.drop_last()) < timeout_ms <= total(waits),
    ensures
        ({
            let events = still_running(waits).push(SupervisorEvent::Killed);
            let end = run(started(timeout_ms), events).phase;
            &&& end == Phase::Finished(
                Verdict::Failed(FailureReason::Timeout(capped(total(waits)))),
            )
            &&& capped(total(waits)) >= timeout_ms
            &&& returned(identity, marker_path, end->Finished_0) == LaunchActionView::Finish(
                Err(LaunchError::Timeout(capped(total(waits)))),
            )
        }),
{
    lemma_hang_is_timed_out(timeout_ms, waits);
}

} // verus!
