use rusty_fork::supervisor::deadline_ms;
use rusty_fork::supervisor::Phase;
use rusty_fork::supervisor::Supervisor;
use rusty_fork::supervisor::SupervisorAction;
use rusty_fork::supervisor::SupervisorEvent;
use rusty_fork::supervisor::POLL_INTERVAL_MS;
use rusty_fork::verdict::ChildExit;
use rusty_fork::verdict::FailureReason;
use rusty_fork::verdict::Verdict;

#[test]
fn polling_interval_is_fifty_milliseconds() {
    assert_eq!(POLL_INTERVAL_MS, 50);
}

#[test]
fn without_deadline_the_first_wait_blocks() {
    let (s, action) = Supervisor::start(0);
    assert_eq!(action, SupervisorAction::Wait);
    assert_eq!(s, Supervisor { timeout_ms: 0, elapsed_ms: 0, phase: Phase::Waiting });
    assert_eq!(s.verdict(), None);
}

#[test]
fn with_deadline_the_first_wait_is_one_interval() {
    let (s, action) = Supervisor::start(1000);
    assert_eq!(action, SupervisorAction::WaitFor(50));
    assert_eq!(s, Supervisor { timeout_ms: 1000, elapsed_ms: 0, phase: Phase::Waiting });
}

#[test]
fn short_deadline_shortens_the_first_wait() {
    assert_eq!(Supervisor::start(20).1, SupervisorAction::WaitFor(20));
    assert_eq!(Supervisor::start(1).1, SupervisorAction::WaitFor(1));
    assert_eq!(Supervisor::start(50).1, SupervisorAction::WaitFor(50));
    assert_eq!(Supervisor::start(51).1, SupervisorAction::WaitFor(50));
}

#[test]
fn untimed_child_that_completes_passes() {
    let (mut s, _) = Supervisor::start(0);
    assert_eq!(s.step(SupervisorEvent::Exited(ChildExit::Code(0))), SupervisorAction::ReadMarker);
    assert_eq!(s.phase, Phase::ReadingMarker(ChildExit::Code(0)));
    assert_eq!(s.step(SupervisorEvent::MarkerRead(true)), SupervisorAction::Done(Verdict::Passed));
    assert_eq!(s.verdict(), Some(Verdict::Passed));
}

#[test]
fn exit_zero_without_marker_fails_as_incomplete() {
    let (mut s, _) = Supervisor::start(0);
    s.step(SupervisorEvent::Exited(ChildExit::Code(0)));
    assert_eq!(
        s.step(SupervisorEvent::MarkerRead(false)),
        SupervisorAction::Done(Verdict::Failed(FailureReason::BodyIncomplete))
    );
}

#[test]
fn panicking_child_fails_with_its_exit_code() {
    let (mut s, _) = Supervisor::start(0);
    s.step(SupervisorEvent::Exited(ChildExit::Code(101)));
    assert_eq!(
        s.step(SupervisorEvent::MarkerRead(false)),
        SupervisorAction::Done(Verdict::Failed(FailureReason::NonZeroExit(101)))
    );
}

#[test]
fn aborting_child_fails_with_its_signal() {
    let (mut s, _) = Supervisor::start(1000);
    s.step(SupervisorEvent::StillRunning(50));
    s.step(SupervisorEvent::Exited(ChildExit::Signal(6)));
    assert_eq!(
        s.step(SupervisorEvent::MarkerRead(false)),
        SupervisorAction::Done(Verdict::Failed(FailureReason::Signaled(6)))
    );
    assert_eq!(s.elapsed_ms, 50);
}

#[test]
fn timed_child_that_completes_early_passes_without_kill() {
    let (mut s, _) = Supervisor::start(1000);
    assert_eq!(s.step(SupervisorEvent::StillRunning(50)), SupervisorAction::WaitFor(50));
    assert_eq!(s.step(SupervisorEvent::StillRunning(52)), SupervisorAction::WaitFor(50));
    assert_eq!(s.step(SupervisorEvent::Exited(ChildExit::Code(0))), SupervisorAction::ReadMarker);
    assert_eq!(s.step(SupervisorEvent::MarkerRead(true)), SupervisorAction::Done(Verdict::Passed));
    assert_eq!(s.elapsed_ms, 102);
    assert_eq!(s.timeout_ms, 1000);
}

#[test]
fn hanging_child_is_killed_at_the_deadline() {
    let (mut s, first) = Supervisor::start(120);
    assert_eq!(first, SupervisorAction::WaitFor(50));
    assert_eq!(s.step(SupervisorEvent::StillRunning(50)), SupervisorAction::WaitFor(50));
    assert_eq!(s.step(SupervisorEvent::StillRunning(50)), SupervisorAction::WaitFor(20));
    assert_eq!(s.step(SupervisorEvent::StillRunning(20)), SupervisorAction::Kill);
    assert_eq!(s.phase, Phase::Killing);
    assert_eq!(s.verdict(), None);
    assert_eq!(
        s.step(SupervisorEvent::Killed),
        SupervisorAction::Done(Verdict::Failed(FailureReason::Timeout(120)))
    );
    assert_eq!(s.verdict(), Some(Verdict::Failed(FailureReason::Timeout(120))));
}

#[test]
fn timeout_reports_the_time_that_was_counted() {
    let (mut s, _) = Supervisor::start(100);
    assert_eq!(s.step(SupervisorEvent::StillRunning(70)), SupervisorAction::WaitFor(30));
    assert_eq!(s.step(SupervisorEvent::StillRunning(45)), SupervisorAction::Kill);
    assert_eq!(
        s.step(SupervisorEvent::Killed),
        SupervisorAction::Done(Verdict::Failed(FailureReason::Timeout(115)))
    );
}

#[test]
fn wait_that_ends_early_is_followed_by_another() {
    let (mut s, _) = Supervisor::start(100);
    assert_eq!(s.step(SupervisorEvent::StillRunning(0)), SupervisorAction::WaitFor(50));
    assert_eq!(s.step(SupervisorEvent::StillRunning(99)), SupervisorAction::WaitFor(1));
    assert_eq!(s.step(SupervisorEvent::StillRunning(1)), SupervisorAction::Kill);
}

#[test]
fn counted_time_does_not_wrap() {
    let (mut s, _) = Supervisor::start(0);
    assert_eq!(s.step(SupervisorEvent::StillRunning(u64::MAX)), SupervisorAction::Wait);
    assert_eq!(s.step(SupervisorEvent::StillRunning(5)), SupervisorAction::Wait);
    assert_eq!(s.elapsed_ms, u64::MAX);
    let (mut t, _) = Supervisor::start(u64::MAX);
    assert_eq!(t.step(SupervisorEvent::StillRunning(u64::MAX - 1)), SupervisorAction::WaitFor(1));
    assert_eq!(t.step(SupervisorEvent::StillRunning(7)), SupervisorAction::Kill);
    assert_eq!(
        t.step(SupervisorEvent::Killed),
        SupervisorAction::Done(Verdict::Failed(FailureReason::Timeout(u64::MAX)))
    );
}

#[test]
fn untimed_child_is_never_killed() {
    let (mut s, _) = Supervisor::start(0);
    for _ in 0..100 {
        assert_eq!(s.step(SupervisorEvent::StillRunning(1_000_000)), SupervisorAction::Wait);
    }
    assert_eq!(s.phase, Phase::Waiting);
}

#[test]
fn failed_wait_is_a_supervision_error() {
    let (mut s, _) = Supervisor::start(0);
    assert_eq!(
        s.step(SupervisorEvent::WaitFailed),
        SupervisorAction::Done(Verdict::Failed(FailureReason::SupervisionError))
    );
}

#[test]
fn failed_kill_is_a_supervision_error() {
    let (mut s, _) = Supervisor::start(10);
    assert_eq!(s.step(SupervisorEvent::StillRunning(10)), SupervisorAction::Kill);
    assert_eq!(
        s.step(SupervisorEvent::KillFailed),
        SupervisorAction::Done(Verdict::Failed(FailureReason::SupervisionError))
    );
}

#[test]
fn unexpected_events_are_supervision_errors_not_passes() {
    let fault = SupervisorAction::Done(Verdict::Failed(FailureReason::SupervisionError));
    let (mut a, _) = Supervisor::start(0);
    assert_eq!(a.step(SupervisorEvent::MarkerRead(true)), fault);
    let (mut b, _) = Supervisor::start(0);
    assert_eq!(b.step(SupervisorEvent::Killed), fault);
    let (mut c, _) = Supervisor::start(0);
    c.step(SupervisorEvent::Exited(ChildExit::Code(0)));
    assert_eq!(c.step(SupervisorEvent::Exited(ChildExit::Code(0))), fault);
    let (mut d, _) = Supervisor::start(5);
    d.step(SupervisorEvent::StillRunning(5));
    assert_eq!(d.step(SupervisorEvent::MarkerRead(true)), fault);
    let (mut e, _) = Supervisor::start(5);
    e.step(SupervisorEvent::StillRunning(5));
    assert_eq!(e.step(SupervisorEvent::Exited(ChildExit::Code(0))), fault);
}

#[test]
fn verdict_does_not_change_once_it_is_in() {
    let (mut s, _) = Supervisor::start(0);
    s.step(SupervisorEvent::Exited(ChildExit::Code(0)));
    s.step(SupervisorEvent::MarkerRead(true));
    let settled = s;
    assert_eq!(s.step(SupervisorEvent::WaitFailed), SupervisorAction::Done(Verdict::Passed));
    assert_eq!(s.step(SupervisorEvent::Killed), SupervisorAction::Done(Verdict::Passed));
    assert_eq!(
        s.step(SupervisorEvent::Exited(ChildExit::Signal(9))),
        SupervisorAction::Done(Verdict::Passed)
    );
    assert_eq!(s, settled);
}

#[test]
fn bounded_waits_stay_within_interval_and_deadline() {
    for timeout in [1u64, 49, 50, 51, 99, 100, 101, 1000] {
        let (mut s, mut action) = Supervisor::start(timeout);
        let mut waits = 0u64;
        loop {
            match action {
                SupervisorAction::WaitFor(ms) => {
                    assert!(ms > 0 && ms <= POLL_INTERVAL_MS);
                    assert!(s.elapsed_ms + ms <= timeout);
                    waits += 1;
                    action = s.step(SupervisorEvent::StillRunning(ms));
                }
                SupervisorAction::Kill => break,
                other => panic!("unexpected action {:?}", other),
            }
        }
        assert_eq!(s.elapsed_ms, timeout);
        assert_eq!(waits, (timeout + POLL_INTERVAL_MS - 1) / POLL_INTERVAL_MS);
    }
}

#[test]
fn deadline_is_the_timeout_in_milliseconds_rounded_up() {
    assert_eq!(deadline_ms(0, 0), 0);
    assert_eq!(deadline_ms(0, 1), 1);
    assert_eq!(deadline_ms(0, 999_999), 1);
    assert_eq!(deadline_ms(0, 1_000_000), 1);
    assert_eq!(deadline_ms(0, 1_000_001), 2);
    assert_eq!(deadline_ms(1, 0), 1000);
    assert_eq!(deadline_ms(1, 500_000_000), 1500);
    assert_eq!(deadline_ms(2, 999_999_999), 3000);
}

#[test]
fn deadline_is_held_at_the_largest_value() {
    assert_eq!(deadline_ms(u64::MAX, 0), u64::MAX);
    assert_eq!(deadline_ms(u64::MAX, 999_999_999), u64::MAX);
    assert_eq!(deadline_ms(u64::MAX / 1000, 0), u64::MAX / 1000 * 1000);
    assert_eq!(deadline_ms(u64::MAX / 1000 + 1, 0), u64::MAX);
}
