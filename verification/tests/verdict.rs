use rusty_fork::error::outcome;
use rusty_fork::error::LaunchError;
use rusty_fork::verdict::classify;
use rusty_fork::verdict::ChildExit;
use rusty_fork::verdict::FailureReason;
use rusty_fork::verdict::Verdict;

#[test]
fn exit_zero_with_marker_passes() {
    assert_eq!(classify(ChildExit::Code(0), true), Verdict::Passed);
}

#[test]
fn exit_zero_without_marker_is_incomplete() {
    assert_eq!(
        classify(ChildExit::Code(0), false),
        Verdict::Failed(FailureReason::BodyIncomplete)
    );
}

#[test]
fn nonzero_exit_reports_the_code() {
    assert_eq!(classify(ChildExit::Code(70), false), Verdict::Failed(FailureReason::NonZeroExit(70)));
    assert_eq!(classify(ChildExit::Code(1), true), Verdict::Failed(FailureReason::NonZeroExit(1)));
    assert_eq!(classify(ChildExit::Code(-1), false), Verdict::Failed(FailureReason::NonZeroExit(-1)));
    assert_eq!(
        classify(ChildExit::Code(i32::MIN), true),
        Verdict::Failed(FailureReason::NonZeroExit(i32::MIN))
    );
}

#[test]
fn signal_reports_the_signal() {
    assert_eq!(classify(ChildExit::Signal(6), false), Verdict::Failed(FailureReason::Signaled(6)));
    assert_eq!(classify(ChildExit::Signal(9), true), Verdict::Failed(FailureReason::Signaled(9)));
    assert_eq!(classify(ChildExit::Signal(0), true), Verdict::Failed(FailureReason::Signaled(0)));
}

#[test]
fn outcome_of_a_pass_is_ok() {
    assert_eq!(outcome(Verdict::Passed), Ok(()));
}

#[test]
fn outcome_of_each_failure_is_its_error() {
    assert_eq!(
        outcome(Verdict::Failed(FailureReason::NonZeroExit(3))),
        Err(LaunchError::NonZeroExit(3))
    );
    assert_eq!(outcome(Verdict::Failed(FailureReason::Signaled(11))), Err(LaunchError::Signaled(11)));
    assert_eq!(
        outcome(Verdict::Failed(FailureReason::BodyIncomplete)),
        Err(LaunchError::BodyIncomplete)
    );
    assert_eq!(outcome(Verdict::Failed(FailureReason::Timeout(250))), Err(LaunchError::Timeout(250)));
    assert_eq!(
        outcome(Verdict::Failed(FailureReason::SupervisionError)),
        Err(LaunchError::SupervisionError)
    );
}

#[test]
fn from_failure_never_gives_spawn() {
    let reasons = [
        FailureReason::NonZeroExit(1),
        FailureReason::Signaled(1),
        FailureReason::BodyIncomplete,
        FailureReason::Timeout(1),
        FailureReason::SupervisionError,
    ];
    for reason in reasons {
        assert_ne!(LaunchError::from_failure(reason), LaunchError::Spawn);
    }
}

#[test]
fn harness_faults_are_spawn_and_supervision() {
    assert!(LaunchError::Spawn.is_harness_fault());
    assert!(LaunchError::SupervisionError.is_harness_fault());
    assert!(!LaunchError::BodyIncomplete.is_harness_fault());
    assert!(!LaunchError::NonZeroExit(1).is_harness_fault());
    assert!(!LaunchError::Signaled(9).is_harness_fault());
    assert!(!LaunchError::Timeout(10).is_harness_fault());
}
