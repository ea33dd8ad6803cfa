use highway_core::supervisor::{
    Completion, SupervisorError, TaskMode, TaskOutcome, TaskStatus, TaskSupervisor,
};

#[test]
fn wait_on_empty_group_is_refused() {
    let s = TaskSupervisor::new();
    assert_eq!(s.wait_one_ready(), Err(SupervisorError::EmptyGroup));
}

#[test]
fn wait_on_nonempty_group_is_allowed() {
    let mut s = TaskSupervisor::new();
    s.spawn_cancelable("lewis".to_string());
    assert_eq!(s.wait_one_ready(), Ok(()));
}

#[test]
fn first_exit_signals_every_cooperative_task() {
    // N cooperative tasks plus one task that completes immediately.
    let mut s = TaskSupervisor::new();
    let trigger = s.spawn_cancelable("trigger".to_string());
    let coop: Vec<usize> = (0..3)
        .map(|k| s.spawn_with_shutdown(format!("coop{k}")))
        .collect();

    s.first_completion(trigger, TaskOutcome::Success);

    // Every cooperative task holds its stop signal before any completion is
    // awaited.
    for &i in &coop {
        assert_eq!(s.task_status(i), TaskStatus::Signaled);
        assert_eq!(s.task_mode(i), TaskMode::Cooperative);
    }

    for &i in &coop {
        s.record_drained(i, TaskOutcome::Success);
    }
    assert!(s.all_drained());
    // The residue holds exactly N entries.
    assert_eq!(s.rest_len(), 3);
}

#[test]
fn scenario_first_task_and_cooperative_drain() {
    // A completes (after its short run) with success; B is cooperative and
    // exits only after receiving its stop signal.
    let mut s = TaskSupervisor::new();
    let a = s.spawn_cancelable("A".to_string());
    let b = s.spawn_with_shutdown("B".to_string());

    s.first_completion(a, TaskOutcome::Success);

    // B's stop-signal receipt precedes B's recorded completion.
    assert_eq!(s.task_status(b), TaskStatus::Signaled);
    s.record_drained(b, TaskOutcome::Success);
    assert_eq!(s.task_status(b), TaskStatus::Done(TaskOutcome::Success));

    assert!(s.all_drained());
    assert_eq!(s.first_index(), a);
    assert_eq!(s.task_name(a), "A");
    assert_eq!(s.first_outcome(), TaskOutcome::Success);
    assert_eq!(s.rest_len(), 1);
    let c = s.rest_at(0);
    assert_eq!(c, Completion { index: b, outcome: TaskOutcome::Success });
    assert_eq!(s.task_name(c.index), "B");
    assert!(s.group_ok());
}

#[test]
fn cancelable_tasks_are_marked_abandoned() {
    let mut s = TaskSupervisor::new();
    let a = s.spawn_cancelable("a".to_string());
    let b = s.spawn_cancelable("b".to_string());
    s.first_completion(a, TaskOutcome::ReturnedError);
    assert_eq!(s.task_status(b), TaskStatus::Abandoned);
    s.record_drained(b, TaskOutcome::Panicked);
    assert!(s.all_drained());
    assert!(!s.group_ok());
}

#[test]
fn cooperative_task_may_trigger_shutdown() {
    // The first exit triggers the drain whichever mode the task has, and a
    // successful trigger is escalated exactly like a failing one.
    let mut s = TaskSupervisor::new();
    let a = s.spawn_with_shutdown("stream".to_string());
    let b = s.spawn_cancelable("sigint".to_string());
    s.first_completion(a, TaskOutcome::ReturnedError);
    assert_eq!(s.first_index(), a);
    assert_eq!(s.first_outcome(), TaskOutcome::ReturnedError);
    assert_eq!(s.task_status(b), TaskStatus::Abandoned);
    s.record_drained(b, TaskOutcome::Success);
    assert!(s.all_drained());
    assert!(!s.group_ok());
}

#[test]
fn residue_keeps_completion_order() {
    let mut s = TaskSupervisor::new();
    let t = s.spawn_cancelable("t".to_string());
    let x = s.spawn_with_shutdown("x".to_string());
    let y = s.spawn_with_shutdown("y".to_string());
    let z = s.spawn_with_shutdown("z".to_string());
    s.first_completion(t, TaskOutcome::Success);
    // Completions arrive in an order of their own, not registry order.
    s.record_drained(y, TaskOutcome::Success);
    s.record_drained(z, TaskOutcome::ReturnedError);
    s.record_drained(x, TaskOutcome::Success);
    assert_eq!(s.rest_at(0).index, y);
    assert_eq!(s.rest_at(1).index, z);
    assert_eq!(s.rest_at(2).index, x);
    assert_eq!(s.rest_at(1).outcome, TaskOutcome::ReturnedError);
    assert!(!s.group_ok());
}
