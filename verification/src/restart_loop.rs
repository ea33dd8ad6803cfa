//! Value-gated restart loop: restarts a protected unit of work whenever the
//! observed value changes in a way that affects it.
//!
//! A [`GuardedRestartLoop`] reacts to the stream of values delivered by an
//! observer of shared state (see [`crate::observed`]).  An optional guard —
//! "the value equals the expected one" — gates whether work may run at all:
//! while the guard rejects the current value the loop parks in `Waiting`
//! instead of starting work under a wrong value.  While work runs, a value
//! change that still passes the guard is deliberately ignored (hot in-place
//! update of live work is unsupported; restart is the only propagation
//! mechanism), whereas a change that fails the guard cancels the work and
//! parks the loop.  A stop request from any state terminates the loop for
//! good.
//!
//! The driver races the running work against the observer and feeds whichever
//! event resolves first into [`GuardedRestartLoop::step`]; the returned
//! [`LoopAction`] tells it what to do (start work bound to a value, cancel
//! the running work, park, or nothing).  Because the observer's cursor
//! consults the version counter rather than an edge-triggered event, a value
//! change racing the work's natural exit is never lost: the next `Observed`
//! event after re-entering `Idle` delivers the then-current value.

use vstd::prelude::*;

verus! {

/// The loop's state.  `Running` records the value the work was started
/// under; the work keeps that originally bound value until it is restarted.
#[derive(Clone, Copy, Debug, PartialEq, Eq, Structural)]
pub enum LoopState {
    /// Between runs: the next observed value decides whether to park or run.
    Idle,
    /// Parked because the guard rejected the current value.  A steady state,
    /// not an error; the driver runs a never-resolving placeholder and logs
    /// once on entry.
    Waiting,
    /// The protected work is running, bound to the recorded value, with a
    /// freshly created stop channel held by the driver.
    Running(u64),
    /// Stopped for good.  Absorbing: no transition leaves it.
    Terminated,
}

/// What the driver feeds into the state machine: the observer delivered a
/// (possibly initial) value, the running work exited naturally, or an
/// exterior stop was requested.
#[derive(Clone, Copy, Debug, PartialEq, Eq, Structural)]
pub enum LoopEvent {
    Observed(u64),
    WorkExited,
    StopRequested,
}

/// What the driver must do after a step.
#[derive(Clone, Copy, Debug, PartialEq, Eq, Structural)]
pub enum LoopAction {
    /// Start the protected work bound to this value, with a fresh stop
    /// channel.
    StartWork(u64),
    /// Close the running work's stop channel and drop the work.
    CancelWork,
    /// Enter the never-resolving placeholder; log once.
    Park,
    /// Nothing to do.
    Ignore,
}

/// A restart loop with an optional guard: with `expected == Some(e)` only
/// the value `e` may run work; with `expected == None` every value passes.
pub struct GuardedRestartLoop {
    pub expected: Option<u64>,
    pub state: LoopState,
}

impl GuardedRestartLoop {
    /// Whether the guard lets work run under value `v`.
    pub open spec fn guard_passes(self, v: u64) -> bool {
        match self.expected {
            Option::None => true,
            Option::Some(e) => v == e,
        }
    }

    /// Work only ever runs under a value the guard accepted.
    pub open spec fn wf(self) -> bool {
        self.state matches LoopState::Running(b) ==> self.guard_passes(b)
    }

    /// The transition table.  `Idle` evaluates the delivered value against
    /// the guard and either starts work or parks; `Waiting` leaves the park
    /// the moment a passing value arrives; `Running` ignores changes that
    /// keep passing the guard, cancels and parks on one that fails it, and
    /// returns to `Idle` when the work exits naturally; a stop request from
    /// any state terminates, and `Terminated` absorbs everything.
    pub open spec fn next(self, ev: LoopEvent) -> LoopState {
        match (self.state, ev) {
            (LoopState::Terminated, _) => LoopState::Terminated,
            (_, LoopEvent::StopRequested) => LoopState::Terminated,
            (LoopState::Idle, LoopEvent::Observed(v)) => if self.guard_passes(v) {
                LoopState::Running(v)
            } else {
                LoopState::Waiting
            },
            (LoopState::Waiting, LoopEvent::Observed(v)) => if self.guard_passes(v) {
                LoopState::Running(v)
            } else {
                LoopState::Waiting
            },
            (LoopState::Running(b), LoopEvent::Observed(v)) => if self.guard_passes(v) {
                LoopState::Running(b)
            } else {
                LoopState::Waiting
            },
            (LoopState::Running(_), LoopEvent::WorkExited) => LoopState::Idle,
            (_, LoopEvent::WorkExited) => self.state,
        }
    }

    /// The action accompanying each transition of [`GuardedRestartLoop::next`].
    pub open spec fn action(self, ev: LoopEvent) -> LoopAction {
        match (self.state, ev) {
            (LoopState::Terminated, _) => LoopAction::Ignore,
            (LoopState::Running(_), LoopEvent::StopRequested) => LoopAction::CancelWork,
            (_, LoopEvent::StopRequested) => LoopAction::Ignore,
            (LoopState::Idle, LoopEvent::Observed(v)) => if self.guard_passes(v) {
                LoopAction::StartWork(v)
            } else {
                LoopAction::Park
            },
            (LoopState::Waiting, LoopEvent::Observed(v)) => if self.guard_passes(v) {
                LoopAction::StartWork(v)
            } else {
                LoopAction::Ignore
            },
            (LoopState::Running(_), LoopEvent::Observed(v)) => if self.guard_passes(v) {
                LoopAction::Ignore
            } else {
                LoopAction::CancelWork
            },
            (_, LoopEvent::WorkExited) => LoopAction::Ignore,
        }
    }

    /// A fresh loop in `Idle`, guarded by `expected` (no guard when `None`).
    pub fn new(expected: Option<u64>) -> (l: GuardedRestartLoop)
        ensures
            l.wf(),
            l.expected == expected,
            l.state == LoopState::Idle,
    {
        GuardedRestartLoop { expected, state: LoopState::Idle }
    }

    /// One step of the loop: applies the transition table to `ev` and tells
    /// the driver what to do.  The guard configuration never changes, and
    /// work only ever runs under a value the guard accepted.
    pub fn step(&mut self, ev: LoopEvent) -> (a: LoopAction)
        requires
            old(self).wf(),
        ensures
            final(self).wf(),
            final(self).expected == old(self).expected,
            final(self).state == old(self).next(ev),
            a == old(self).action(ev),
    {
        let (next_state, action) = match (self.state, ev) {
            (LoopState::Terminated, _) => (LoopState::Terminated, LoopAction::Ignore),
            (LoopState::Running(_), LoopEvent::StopRequested) => (
                LoopState::Terminated,
                LoopAction::CancelWork,
            ),
            (_, LoopEvent::StopRequested) => (LoopState::Terminated, LoopAction::Ignore),
            (LoopState::Idle, LoopEvent::Observed(v)) => if self.guard_accepts(v) {
                (LoopState::Running(v), LoopAction::StartWork(v))
            } else {
                (LoopState::Waiting, LoopAction::Park)
            },
            (LoopState::Waiting, LoopEvent::Observed(v)) => if self.guard_accepts(v) {
                (LoopState::Running(v), LoopAction::StartWork(v))
            } else {
                (LoopState::Waiting, LoopAction::Ignore)
            },
            (LoopState::Running(b), LoopEvent::Observed(v)) => if self.guard_accepts(v) {
                (LoopState::Running(b), LoopAction::Ignore)
            } else {
                (LoopState::Waiting, LoopAction::CancelWork)
            },
            (LoopState::Running(_), LoopEvent::WorkExited) => (LoopState::Idle, LoopAction::Ignore),
            (st, LoopEvent::WorkExited) => (st, LoopAction::Ignore),
        };
        self.state = next_state;
        action
    }

    /// Whether the guard lets work run under value `v` (the runtime check
    /// behind [`GuardedRestartLoop::guard_passes`]).
    pub fn guard_accepts(&self, v: u64) -> (b: bool)
        ensures
            b == self.guard_passes(v),
    {
        match self.expected {
            Option::None => true,
            Option::Some(e) => v == e,
        }
    }

    /// The current state, for the driver and for diagnostics.
    pub fn current_state(&self) -> (s: LoopState)
        ensures
            s == self.state,
    {
        self.state
    }
}

/// `Terminated` is absorbing: whatever event arrives, a terminated loop stays
/// terminated and asks the driver for nothing.
pub proof fn lemma_terminated_absorbing(l: GuardedRestartLoop, ev: LoopEvent)
    requires
        l.state is Terminated,
    ensures
        l.next(ev) == LoopState::Terminated,
        l.action(ev) == LoopAction::Ignore,
{
}

/// The guarded restart behaviour, for a guard expecting `e`:
/// starting from `Idle` under a value `v0 != e` the loop parks in `Waiting`
/// without ever starting work, and stays parked under further non-matching
/// values; the moment `e` is observed it starts work bound to `e`; and a
/// subsequent change to `w != e` cancels the running work and parks again.
pub proof fn lemma_guarded_restart(e: u64, v0: u64, v1: u64, w: u64)
    requires
        v0 != e,
        v1 != e,
        w != e,
    ensures
        ({
            let l0 = GuardedRestartLoop { expected: Some(e), state: LoopState::Idle };
            let l1 = GuardedRestartLoop { expected: Some(e), state: l0.next(
                LoopEvent::Observed(v0),
            ) };
            let l2 = GuardedRestartLoop { expected: Some(e), state: l1.next(
                LoopEvent::Observed(v1),
            ) };
            let l3 = GuardedRestartLoop { expected: Some(e), state: l2.next(
                LoopEvent::Observed(e),
            ) };
            &&& l0.action(LoopEvent::Observed(v0)) == LoopAction::Park
            &&& l1.state == LoopState::Waiting
            &&& l1.action(LoopEvent::Observed(v1)) == LoopAction::Ignore
            &&& l2.state == LoopState::Waiting
            &&& l2.action(LoopEvent::Observed(e)) == LoopAction::StartWork(e)
            &&& l3.state == LoopState::Running(e)
            &&& l3.action(LoopEvent::Observed(w)) == LoopAction::CancelWork
            &&& l3.next(LoopEvent::Observed(w)) == LoopState::Waiting
        }),
{
}

/// While the guard rejects every delivered value, no step from `Idle` or
/// `Waiting` ever starts work: parking is a steady state, not an error.
pub proof fn lemma_waiting_never_starts(l: GuardedRestartLoop, v: u64)
    requires
        l.state is Idle || l.state is Waiting,
        !l.guard_passes(v),
    ensures
        l.next(LoopEvent::Observed(v)) == LoopState::Waiting,
        l.action(LoopEvent::Observed(v)) != LoopAction::StartWork(v),
        forall|u: u64| l.action(LoopEvent::Observed(v)) != LoopAction::StartWork(u),
{
}

} // verus!
