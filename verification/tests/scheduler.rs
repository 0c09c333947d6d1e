use tezedge_snapshots::failure::TezedgeNodeControllerError;
use tezedge_snapshots::scheduler::{
    classify, eligible, AttemptOutcome, SchedulerAction, SchedulerEvent, SchedulerState,
    SnapshotScheduler,
};

#[test]
fn unreachable_node_is_never_due() {
    assert!(!eligible(false, None, 60));
    assert!(!eligible(false, None, 0));
    assert!(!eligible(false, Some(0), 60));
    assert!(!eligible(false, Some(60), 60));
    assert!(!eligible(false, Some(u64::MAX), 60));
    assert!(!eligible(false, Some(u64::MAX), 0));
}

#[test]
fn first_snapshot_is_due_at_once() {
    assert!(eligible(true, None, 86400));
    assert!(eligible(true, None, u64::MAX));
}

#[test]
fn later_snapshots_wait_for_the_frequency() {
    assert!(!eligible(true, Some(0), 60));
    assert!(!eligible(true, Some(59), 60));
    assert!(eligible(true, Some(60), 60));
    assert!(eligible(true, Some(61), 60));
    assert!(eligible(true, Some(0), 0));
}

#[test]
fn results_are_classified() {
    assert_eq!(classify(&Ok(())), AttemptOutcome::Succeeded);
    assert_eq!(classify(&Err(TezedgeNodeControllerError::NodeUnreachable)), AttemptOutcome::Unreachable);
    assert_eq!(
        classify(&Err(TezedgeNodeControllerError::MalformedUrl("x".to_string()))),
        AttemptOutcome::Failed
    );
    assert_eq!(
        classify(&Err(TezedgeNodeControllerError::FailedRequest("x".to_string()))),
        AttemptOutcome::Failed
    );
    assert_eq!(
        classify(&Err(TezedgeNodeControllerError::DockerError("x".to_string()))),
        AttemptOutcome::Failed
    );
    assert_eq!(
        classify(&Err(TezedgeNodeControllerError::FilesystemError("x".to_string()))),
        AttemptOutcome::Failed
    );
    assert_eq!(
        classify(&Err(TezedgeNodeControllerError::IoError("x".to_string()))),
        AttemptOutcome::Failed
    );
}

#[test]
fn node_that_fails_twice_is_waited_for_and_not_snapshotted() {
    let frequency = 60;
    let mut scheduler = SnapshotScheduler::new(5);
    for _ in 0..2 {
        assert_eq!(scheduler.next(SchedulerEvent::Wake { running: true }), SchedulerAction::CheckEligibility);
        assert_eq!(scheduler.state, SchedulerState::Checking);
        let due = eligible(false, None, frequency);
        assert!(!due);
        let action = scheduler.next(SchedulerEvent::Eligibility { eligible: due });
        assert_eq!(action, SchedulerAction::Sleep { seconds: 5 });
        assert_ne!(action, SchedulerAction::TakeSnapshot);
        assert_eq!(scheduler.state, SchedulerState::Idle);
    }
}

#[test]
fn due_snapshot_is_taken_and_the_loop_goes_on() {
    let mut scheduler = SnapshotScheduler::new(5);
    assert_eq!(scheduler.next(SchedulerEvent::Wake { running: true }), SchedulerAction::CheckEligibility);
    assert_eq!(scheduler.next(SchedulerEvent::Eligibility { eligible: true }), SchedulerAction::TakeSnapshot);
    assert_eq!(scheduler.state, SchedulerState::Snapshotting);
    assert_eq!(
        scheduler.next(SchedulerEvent::AttemptReturned { outcome: AttemptOutcome::Succeeded }),
        SchedulerAction::Proceed
    );
    assert_eq!(scheduler.state, SchedulerState::Idle);
    assert!(!scheduler.is_stopped());
}

#[test]
fn no_second_attempt_while_one_is_under_way() {
    let mut scheduler = SnapshotScheduler::new(5);
    scheduler.next(SchedulerEvent::Wake { running: true });
    assert_eq!(scheduler.next(SchedulerEvent::Eligibility { eligible: true }), SchedulerAction::TakeSnapshot);
    for _ in 0..3 {
        assert_eq!(scheduler.next(SchedulerEvent::Wake { running: true }), SchedulerAction::Rest);
        assert_eq!(scheduler.next(SchedulerEvent::Eligibility { eligible: true }), SchedulerAction::Rest);
        assert_eq!(scheduler.next(SchedulerEvent::Wake { running: false }), SchedulerAction::Rest);
        assert_eq!(scheduler.state, SchedulerState::Snapshotting);
    }
    scheduler.next(SchedulerEvent::AttemptReturned { outcome: AttemptOutcome::Succeeded });
    scheduler.next(SchedulerEvent::Wake { running: true });
    assert_eq!(scheduler.next(SchedulerEvent::Eligibility { eligible: true }), SchedulerAction::TakeSnapshot);
}

#[test]
fn unreachable_attempt_is_followed_by_the_next_round() {
    let mut scheduler = SnapshotScheduler::new(5);
    scheduler.next(SchedulerEvent::Wake { running: true });
    scheduler.next(SchedulerEvent::Eligibility { eligible: true });
    let outcome = classify(&Err(TezedgeNodeControllerError::NodeUnreachable));
    assert_eq!(scheduler.next(SchedulerEvent::AttemptReturned { outcome }), SchedulerAction::Proceed);
    assert_eq!(scheduler.state, SchedulerState::Idle);
}

#[test]
fn other_failures_end_the_scheduler() {
    let mut scheduler = SnapshotScheduler::new(5);
    scheduler.next(SchedulerEvent::Wake { running: true });
    scheduler.next(SchedulerEvent::Eligibility { eligible: true });
    let outcome = classify(&Err(TezedgeNodeControllerError::DockerError("no socket".to_string())));
    assert_eq!(scheduler.next(SchedulerEvent::AttemptReturned { outcome }), SchedulerAction::Exit);
    assert!(scheduler.is_stopped());
    assert_eq!(scheduler.next(SchedulerEvent::Wake { running: true }), SchedulerAction::Rest);
    assert_eq!(scheduler.next(SchedulerEvent::Eligibility { eligible: true }), SchedulerAction::Rest);
    assert!(scheduler.is_stopped());
}

#[test]
fn cancellation_is_seen_when_a_round_begins() {
    let mut scheduler = SnapshotScheduler::new(5);
    assert_eq!(scheduler.next(SchedulerEvent::Wake { running: false }), SchedulerAction::Exit);
    assert!(scheduler.is_stopped());

    let mut busy = SnapshotScheduler::new(5);
    busy.next(SchedulerEvent::Wake { running: true });
    assert_eq!(busy.next(SchedulerEvent::Wake { running: false }), SchedulerAction::Rest);
    assert_eq!(busy.state, SchedulerState::Checking);
    assert_eq!(busy.next(SchedulerEvent::Eligibility { eligible: false }), SchedulerAction::Sleep { seconds: 5 });
    assert_eq!(busy.next(SchedulerEvent::Wake { running: false }), SchedulerAction::Exit);
    assert!(busy.is_stopped());
}
