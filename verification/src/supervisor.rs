//! Top-level task supervision: run every registered task until the first one
//! exits, then signal, drain and report.
//!
//! The supervisor owns a group of named tasks, each either *cancelable*
//! (abandoned on shutdown, never cleanly cancelled) or *cooperative*
//! (handed a stop signal and expected to exit voluntarily).  The first
//! completion of any task — success or failure alike — triggers a full
//! shutdown of the group: every remaining cooperative task is signalled and
//! every remaining cancelable task is marked for abandonment *before* any
//! remaining completion is awaited, so one slow task can never delay the stop
//! signal to another.  Remaining completions are then collected in the order
//! they arrive, and the group reports the triggering task plus the residue.
//!
//! The asynchronous driver performs the actual awaiting; this type is the
//! state machine behind it.  The driver's `wait_one` is decomposed into:
//! [`TaskSupervisor::wait_one_ready`] (the only failure: an empty group),
//! [`TaskSupervisor::first_completion`] (the atomic signal phase),
//! [`TaskSupervisor::record_drained`] (one collected completion), and
//! [`TaskSupervisor::all_drained`] / the report accessors.

use vstd::prelude::*;

verus! {

/// How the supervisor treats a task once shutdown is triggered.
#[derive(Clone, Copy, Debug, PartialEq, Eq, Structural)]
pub enum TaskMode {
    /// May be abandoned without waiting for voluntary exit; must hold no
    /// resource whose release is safety-critical.
    Cancelable,
    /// Observes a stop signal and exits on request.
    Cooperative,
}

/// The terminal result of one task.
#[derive(Clone, Copy, Debug, PartialEq, Eq, Structural)]
pub enum TaskOutcome {
    /// The task's work resolved without error.
    Success,
    /// The task's work resolved with an error value.
    ReturnedError,
    /// The task's work panicked.
    Panicked,
}

/// Where one task stands in the group's lifecycle.
#[derive(Clone, Copy, Debug, PartialEq, Eq, Structural)]
pub enum TaskStatus {
    /// Registered; its work has not completed and shutdown has not begun.
    Pending,
    /// Cooperative task whose stop signal has been sent; completion awaited.
    Signaled,
    /// Cancelable task marked for abandonment; completion awaited.
    Abandoned,
    /// Completed, with its terminal result.
    Done(TaskOutcome),
}

/// One registered task.  The name is for diagnostics only; uniqueness is not
/// required.
#[derive(Debug)]
pub struct Task {
    pub name: String,
    pub mode: TaskMode,
    pub status: TaskStatus,
}

/// One completion collected during the drain phase, identified by the index
/// the task was registered under.
#[derive(Clone, Copy, Debug, PartialEq, Eq, Structural)]
pub struct Completion {
    pub index: usize,
    pub outcome: TaskOutcome,
}

/// The one failure `wait_one` can report: waiting on a group that holds no
/// task is a caller programming error, not a runtime condition.
#[derive(Clone, Copy, Debug, PartialEq, Eq, Structural)]
pub enum SupervisorError {
    EmptyGroup,
}

/// How many tasks of the group have completed.
pub open spec fn count_done(tasks: Seq<Task>) -> int
    decreases tasks.len(),
{
    if tasks.len() == 0 {
        0
    } else {
        count_done(tasks.drop_last()) + if tasks.last().status is Done {
            1int
        } else {
            0int
        }
    }
}

proof fn lemma_count_done_none(tasks: Seq<Task>)
    requires
        forall|j: int| 0 <= j < tasks.len() ==> !((#[trigger] tasks[j]).status is Done),
    ensures
        count_done(tasks) == 0,
    decreases tasks.len(),
{
    if tasks.len() > 0 {
        lemma_count_done_none(tasks.drop_last());
    }
}

proof fn lemma_count_done_full(tasks: Seq<Task>)
    requires
        forall|j: int| 0 <= j < tasks.len() ==> (#[trigger] tasks[j]).status is Done,
    ensures
        count_done(tasks) == tasks.len(),
    decreases tasks.len(),
{
    if tasks.len() > 0 {
        lemma_count_done_full(tasks.drop_last());
    }
}

proof fn lemma_count_done_single(tasks: Seq<Task>, i: int)
    requires
        0 <= i < tasks.len(),
        tasks[i].status is Done,
        forall|j: int| 0 <= j < tasks.len() && j != i ==> !((#[trigger] tasks[j]).status is Done),
    ensures
        count_done(tasks) == 1,
    decreases tasks.len(),
{
    if i == tasks.len() - 1 {
        lemma_count_done_none(tasks.drop_last());
    } else {
        lemma_count_done_single(tasks.drop_last(), i);
    }
}

proof fn lemma_count_done_update(tasks: Seq<Task>, i: int, t: Task)
    requires
        0 <= i < tasks.len(),
        !(tasks[i].status is Done),
        t.status is Done,
    ensures
        count_done(tasks.update(i, t)) == count_done(tasks) + 1,
    decreases tasks.len(),
{
    let u = tasks.update(i, t);
    if i == tasks.len() - 1 {
        assert(u.drop_last() =~= tasks.drop_last());
    } else {
        assert(u.drop_last() =~= tasks.drop_last().update(i, t));
        lemma_count_done_update(tasks.drop_last(), i, t);
    }
}

/// The supervision group: the registered tasks, the index of the task whose
/// completion triggered shutdown (if any), and the residual completions in
/// the order they were collected.
#[derive(Debug)]
pub struct TaskSupervisor {
    pub tasks: Vec<Task>,
    pub first: Option<usize>,
    pub rest: Vec<Completion>,
}

impl TaskSupervisor {
    /// Well-formedness: before the first completion every task is pending and
    /// nothing has been collected; afterwards the triggering task is done, no
    /// task is still pending, signalled tasks are cooperative, abandoned
    /// tasks are cancelable, and the collected residue matches — one entry
    /// per completed non-triggering task, no task collected twice, each
    /// entry recording its task's result.
    pub open spec fn wf(self) -> bool {
        match self.first {
            Option::None => {
                &&& self.rest@.len() == 0
                &&& forall|j: int|
                    0 <= j < self.tasks@.len() ==> (#[trigger] self.tasks@[j]).status is Pending
            },
            Option::Some(f) => {
                &&& (f as int) < self.tasks@.len()
                &&& self.tasks@[f as int].status is Done
                &&& self.rest@.len() == count_done(self.tasks@) - 1
                &&& forall|k: int|
                    0 <= k < self.rest@.len() ==> (#[trigger] self.rest@[k]).index < self.tasks@.len()
                        && self.rest@[k].index != f
                        && self.tasks@[self.rest@[k].index as int].status == TaskStatus::Done(
                        self.rest@[k].outcome,
                    )
                &&& forall|k1: int, k2: int|
                    0 <= k1 < k2 < self.rest@.len() ==> (#[trigger] self.rest@[k1]).index != (
                    #[trigger] self.rest@[k2]).index
                &&& forall|j: int|
                    0 <= j < self.tasks@.len() ==> !((#[trigger] self.tasks@[j]).status is Pending)
                &&& forall|j: int|
                    0 <= j < self.tasks@.len() && (#[trigger] self.tasks@[j]).status is Signaled
                        ==> self.tasks@[j].mode is Cooperative
                &&& forall|j: int|
                    0 <= j < self.tasks@.len() && (#[trigger] self.tasks@[j]).status is Abandoned
                        ==> self.tasks@[j].mode is Cancelable
            },
        }
    }

    /// Every task has completed and its result was collected (or it
    /// triggered the shutdown).
    pub open spec fn drained(self) -> bool {
        &&& self.first is Some
        &&& forall|j: int|
            0 <= j < self.tasks@.len() ==> (#[trigger] self.tasks@[j]).status is Done
    }

    /// Every task completed without error.
    pub open spec fn all_succeeded(self) -> bool {
        forall|j: int|
            0 <= j < self.tasks@.len() ==> (#[trigger] self.tasks@[j]).status == TaskStatus::Done(
                TaskOutcome::Success,
            )
    }

    /// An empty group, accepting registrations.
    pub fn new() -> (s: TaskSupervisor)
        ensures
            s.wf(),
            s.tasks@.len() == 0,
            s.first is None,
            s.rest@.len() == 0,
    {
        TaskSupervisor { tasks: Vec::new(), first: Option::None, rest: Vec::new() }
    }

    /// How many tasks are registered.
    pub fn task_count(&self) -> (n: usize)
        ensures
            n == self.tasks@.len(),
    {
        self.tasks.len()
    }

    /// Registers cancelable work under `name` and returns its index.  On
    /// shutdown the work is abandoned, not cleanly cancelled — it must hold
    /// no resource whose release is safety-critical.  Registration is only
    /// accepted while no task has completed.
    pub fn spawn_cancelable(&mut self, name: String) -> (i: usize)
        requires
            old(self).wf(),
            old(self).first is None,
        ensures
            final(self).wf(),
            final(self).first is None,
            final(self).rest@.len() == 0,
            i == old(self).tasks@.len(),
            final(self).tasks@ == old(self).tasks@.push(
                (Task { name: name, mode: TaskMode::Cancelable, status: TaskStatus::Pending }),
            ),
    {
        let i = self.tasks.len();
        self.tasks.push(Task { name, mode: TaskMode::Cancelable, status: TaskStatus::Pending });
        i
    }

    /// Registers cooperative work under `name` and returns its index.  The
    /// driver builds the work by handing it the receiving side of a fresh
    /// stop signal; the work is expected to observe that receiver and exit
    /// voluntarily.  Registration is only accepted while no task has
    /// completed.
    pub fn spawn_with_shutdown(&mut self, name: String) -> (i: usize)
        requires
            old(self).wf(),
            old(self).first is None,
        ensures
            final(self).wf(),
            final(self).first is None,
            final(self).rest@.len() == 0,
            i == old(self).tasks@.len(),
            final(self).tasks@ == old(self).tasks@.push(
                (Task { name: name, mode: TaskMode::Cooperative, status: TaskStatus::Pending }),
            ),
    {
        let i = self.tasks.len();
        self.tasks.push(Task { name, mode: TaskMode::Cooperative, status: TaskStatus::Pending });
        i
    }

    /// Waiting on the group is allowed exactly when it holds at least one
    /// task; waiting on an empty group is the caller's programming error and
    /// the only failure `wait_one` reports.
    pub fn wait_one_ready(&self) -> (r: Result<(), SupervisorError>)
        ensures
            r is Ok <==> self.tasks@.len() > 0,
            r is Err ==> r == Result::<(), SupervisorError>::Err(SupervisorError::EmptyGroup),
    {
        if self.tasks.len() > 0 {
            Result::Ok(())
        } else {
            Result::Err(SupervisorError::EmptyGroup)
        }
    }

    /// The first completion of any task — success or failure alike —
    /// triggers shutdown of the whole group.  In one step, strictly before
    /// any remaining completion is awaited, task `i` is recorded as done and
    /// every other task leaves `Pending`: cooperative tasks have their stop
    /// signal sent, cancelable tasks are marked for abandonment.
    pub fn first_completion(&mut self, i: usize, outcome: TaskOutcome)
        requires
            old(self).wf(),
            old(self).first is None,
            i < old(self).tasks@.len(),
        ensures
            final(self).wf(),
            final(self).first == Option::Some(i),
            final(self).rest@.len() == 0,
            final(self).tasks@.len() == old(self).tasks@.len(),
            forall|j: int|
                0 <= j < old(self).tasks@.len() ==> (#[trigger] final(self).tasks@[j]).name
                    == old(self).tasks@[j].name && final(self).tasks@[j].mode
                    == old(self).tasks@[j].mode,
            final(self).tasks@[i as int].status == TaskStatus::Done(outcome),
            forall|j: int|
                0 <= j < old(self).tasks@.len() && j != i
                    && (#[trigger] final(self).tasks@[j]).mode is Cooperative
                    ==> final(self).tasks@[j].status == TaskStatus::Signaled,
            forall|j: int|
                0 <= j < old(self).tasks@.len() && j != i
                    && (#[trigger] final(self).tasks@[j]).mode is Cancelable
                    ==> final(self).tasks@[j].status == TaskStatus::Abandoned,
    {
        let n = self.tasks.len();
        let name_i = self.tasks[i].name.clone();
        let mode_i = self.tasks[i].mode;
        self.tasks[i] = Task { name: name_i, mode: mode_i, status: TaskStatus::Done(outcome) };
        for j in 0..n
            invariant
                i < n,
                n == self.tasks@.len(),
                self.first is None,
                self.rest@.len() == 0,
                self.tasks@[i as int].status == TaskStatus::Done(outcome),
                forall|k: int|
                    0 <= k < n ==> (#[trigger] self.tasks@[k]).name == old(self).tasks@[k].name
                        && self.tasks@[k].mode == old(self).tasks@[k].mode,
                forall|k: int|
                    0 <= k < j && k != i && (#[trigger] self.tasks@[k]).mode is Cooperative
                        ==> self.tasks@[k].status == TaskStatus::Signaled,
                forall|k: int|
                    0 <= k < j && k != i && (#[trigger] self.tasks@[k]).mode is Cancelable
                        ==> self.tasks@[k].status == TaskStatus::Abandoned,
                forall|k: int|
                    j <= k < n && k != i ==> (#[trigger] self.tasks@[k]).status is Pending,
        {
            if j != i {
                let name_j = self.tasks[j].name.clone();
                let mode_j = self.tasks[j].mode;
                let status_j = match mode_j {
                    TaskMode::Cooperative => TaskStatus::Signaled,
                    TaskMode::Cancelable => TaskStatus::Abandoned,
                };
                self.tasks[j] = Task { name: name_j, mode: mode_j, status: status_j };
            }
        }
        self.first = Option::Some(i);
        proof {
            lemma_count_done_single(self.tasks@, i as int);
        }
    }

    /// One residual completion collected during the drain: task `i`'s work
    /// has resolved (voluntarily after its stop signal, or through
    /// abandonment) with `outcome`, which is appended to the residue in
    /// arrival order.
    pub fn record_drained(&mut self, i: usize, outcome: TaskOutcome)
        requires
            old(self).wf(),
            old(self).first is Some,
            i < old(self).tasks@.len(),
            !((old(self).tasks@[i as int].status) is Done),
        ensures
            final(self).wf(),
            final(self).first == old(self).first,
            final(self).tasks@.len() == old(self).tasks@.len(),
            forall|j: int|
                0 <= j < old(self).tasks@.len() && j != i ==> (#[trigger] final(self).tasks@[j])
                    == old(self).tasks@[j],
            final(self).tasks@[i as int].status == TaskStatus::Done(outcome),
            final(self).tasks@[i as int].name == old(self).tasks@[i as int].name,
            final(self).tasks@[i as int].mode == old(self).tasks@[i as int].mode,
            final(self).rest@ == old(self).rest@.push((Completion { index: i, outcome: outcome })),
    {
        let name_i = self.tasks[i].name.clone();
        let mode_i = self.tasks[i].mode;
        self.tasks[i] = Task { name: name_i, mode: mode_i, status: TaskStatus::Done(outcome) };
        self.rest.push(Completion { index: i, outcome });
        proof {
            lemma_count_done_update(old(self).tasks@, i as int, self.tasks@[i as int]);
        }
    }

    /// Whether the drain is complete: shutdown was triggered and every task
    /// has a collected (or triggering) terminal result.
    pub fn all_drained(&self) -> (b: bool)
        ensures
            b <==> self.drained(),
    {
        if self.first.is_none() {
            return false;
        }
        let n = self.tasks.len();
        for j in 0..n
            invariant
                n == self.tasks@.len(),
                self.first is Some,
                forall|k: int| 0 <= k < j ==> (#[trigger] self.tasks@[k]).status is Done,
        {
            match self.tasks[j].status {
                TaskStatus::Done(_) => {},
                _ => {
                    return false;
                },
            }
        }
        true
    }

    /// The index of the task whose completion triggered shutdown.
    pub fn first_index(&self) -> (i: usize)
        requires
            self.first is Some,
        ensures
            self.first == Option::Some(i),
    {
        self.first.unwrap()
    }

    /// The terminal result of the triggering task.  The triggering task is
    /// escalated whether its exit was a success (an operator interrupt) or a
    /// failure: the supervisor does not distinguish planned from unplanned
    /// first exits.
    pub fn first_outcome(&self) -> (o: TaskOutcome)
        requires
            self.wf(),
            self.first is Some,
        ensures
            ({
                let f = self.first.unwrap() as int;
                self.tasks@[f].status == TaskStatus::Done(o)
            }),
    {
        let f = self.first.unwrap();
        match self.tasks[f].status {
            TaskStatus::Done(o) => o,
            _ => TaskOutcome::Success,  // excluded: the triggering task is done
        }
    }

    /// How many residual completions have been collected so far.
    pub fn rest_len(&self) -> (n: usize)
        ensures
            n == self.rest@.len(),
    {
        self.rest.len()
    }

    /// The `k`-th residual completion, in the order the completions arrived.
    pub fn rest_at(&self, k: usize) -> (c: Completion)
        requires
            k < self.rest@.len(),
        ensures
            c == self.rest@[k as int],
    {
        self.rest[k]
    }

    /// The diagnostic name task `i` was registered under.
    pub fn task_name(&self, i: usize) -> (name: &String)
        requires
            i < self.tasks@.len(),
        ensures
            *name == self.tasks@[i as int].name,
    {
        &self.tasks[i].name
    }

    /// Where task `i` stands in the group's lifecycle.
    pub fn task_status(&self, i: usize) -> (st: TaskStatus)
        requires
            i < self.tasks@.len(),
        ensures
            st == self.tasks@[i as int].status,
    {
        self.tasks[i].status
    }

    /// The mode task `i` was registered with.
    pub fn task_mode(&self, i: usize) -> (m: TaskMode)
        requires
            i < self.tasks@.len(),
        ensures
            m == self.tasks@[i as int].mode,
    {
        self.tasks[i].mode
    }

    /// Whether the whole group completed without error; the process exits
    /// with a non-zero status exactly when this is false for a drained
    /// group.
    pub fn group_ok(&self) -> (b: bool)
        ensures
            b <==> self.all_succeeded(),
    {
        let n = self.tasks.len();
        for j in 0..n
            invariant
                n == self.tasks@.len(),
                forall|k: int|
                    0 <= k < j ==> (#[trigger] self.tasks@[k]).status == TaskStatus::Done(
                        TaskOutcome::Success,
                    ),
        {
            match self.tasks[j].status {
                TaskStatus::Done(TaskOutcome::Success) => {},
                _ => {
                    return false;
                },
            }
        }
        true
    }
}

/// Fail-fast drain accounting: once a group of `n` tasks is fully drained,
/// the residue holds exactly `n - 1` completions — one for every task other
/// than the triggering one, none lost and none duplicated.  Together with
/// the contract of [`TaskSupervisor::first_completion`] — every other
/// cooperative task is signalled in the same step that records the first
/// exit — this is the supervisor's "run until first exit, then coordinated
/// drain" guarantee.
pub proof fn lemma_drained_rest_count(s: TaskSupervisor)
    requires
        s.wf(),
        s.drained(),
    ensures
        s.rest@.len() == s.tasks@.len() - 1,
{
    lemma_count_done_full(s.tasks@);
}

} // verus!
