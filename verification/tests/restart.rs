use highway_core::restart_loop::{GuardedRestartLoop, LoopAction, LoopEvent, LoopState};

#[test]
fn guard_mismatch_parks_then_match_runs_then_mismatch_cancels() {
    // Guard: "value == 9".  Start under a value != 9.
    let mut l = GuardedRestartLoop::new(Some(9));
    assert_eq!(l.current_state(), LoopState::Idle);

    // Wrong value: park, never start inner work.
    assert_eq!(l.step(LoopEvent::Observed(3)), LoopAction::Park);
    assert_eq!(l.current_state(), LoopState::Waiting);

    // Still wrong: stay parked, nothing to do.
    assert_eq!(l.step(LoopEvent::Observed(4)), LoopAction::Ignore);
    assert_eq!(l.current_state(), LoopState::Waiting);

    // The expected value arrives: start work bound to it.
    assert_eq!(l.step(LoopEvent::Observed(9)), LoopAction::StartWork(9));
    assert_eq!(l.current_state(), LoopState::Running(9));

    // A value failing the guard cancels the work and parks again.
    assert_eq!(l.step(LoopEvent::Observed(5)), LoopAction::CancelWork);
    assert_eq!(l.current_state(), LoopState::Waiting);
}

#[test]
fn passing_change_while_running_is_ignored() {
    // Without a guard every value passes; the running work keeps the value
    // it was started under — restart is the only propagation mechanism.
    let mut l = GuardedRestartLoop::new(None);
    assert_eq!(l.step(LoopEvent::Observed(1)), LoopAction::StartWork(1));
    assert_eq!(l.step(LoopEvent::Observed(2)), LoopAction::Ignore);
    assert_eq!(l.current_state(), LoopState::Running(1));
}

#[test]
fn natural_exit_returns_to_idle_and_rebinds_current_value() {
    let mut l = GuardedRestartLoop::new(None);
    assert_eq!(l.step(LoopEvent::Observed(1)), LoopAction::StartWork(1));
    assert_eq!(l.step(LoopEvent::WorkExited), LoopAction::Ignore);
    assert_eq!(l.current_state(), LoopState::Idle);
    // Re-evaluation starts from whatever value is current now.
    assert_eq!(l.step(LoopEvent::Observed(6)), LoopAction::StartWork(6));
    assert_eq!(l.current_state(), LoopState::Running(6));
}

#[test]
fn stop_cancels_running_work_and_terminates() {
    let mut l = GuardedRestartLoop::new(Some(2));
    assert_eq!(l.step(LoopEvent::Observed(2)), LoopAction::StartWork(2));
    assert_eq!(l.step(LoopEvent::StopRequested), LoopAction::CancelWork);
    assert_eq!(l.current_state(), LoopState::Terminated);
}

#[test]
fn terminated_absorbs_every_event() {
    let mut l = GuardedRestartLoop::new(Some(2));
    assert_eq!(l.step(LoopEvent::StopRequested), LoopAction::Ignore);
    assert_eq!(l.current_state(), LoopState::Terminated);
    assert_eq!(l.step(LoopEvent::Observed(2)), LoopAction::Ignore);
    assert_eq!(l.step(LoopEvent::WorkExited), LoopAction::Ignore);
    assert_eq!(l.step(LoopEvent::StopRequested), LoopAction::Ignore);
    assert_eq!(l.current_state(), LoopState::Terminated);
}
