//! The capability contract long-running collaborators implement: an
//! idempotent, non-blocking `shutdown` request, and a `wait_shutdown` that is
//! awaitable any number of times and always resolves to the same terminal
//! result once the unit has settled.
//!
//! [`ShutdownableUnit`] is the state such a collaborator maintains: whether a
//! stop has been requested, and the terminal result once its work has
//! settled.  The driver bridges this contract to the supervisor's stop-signal
//! model: a cooperative task forwards its stop signal to `shutdown()` and
//! reports `wait_shutdown()`'s settled result as its own completion.

use vstd::prelude::*;
use crate::supervisor::TaskOutcome;

verus! {

/// The lifecycle state of one shutdownable collaborator.
#[derive(Clone, Copy, Debug, PartialEq, Eq, Structural)]
pub struct ShutdownableUnit {
    /// Whether a stop has been requested.  Set once, never cleared.
    pub stop_requested: bool,
    /// The terminal result, present once the unit's work has settled and
    /// fixed from then on.
    pub terminal: Option<TaskOutcome>,
}

impl ShutdownableUnit {
    /// The state [`ShutdownableUnit::shutdown`] leaves behind: the stop flag
    /// raised, everything else untouched.
    pub open spec fn after_shutdown(self) -> ShutdownableUnit {
        ShutdownableUnit { stop_requested: true, terminal: self.terminal }
    }

    /// A unit that has neither been asked to stop nor settled.
    pub fn new() -> (u: ShutdownableUnit)
        ensures
            u.stop_requested == false,
            u.terminal is None,
    {
        ShutdownableUnit { stop_requested: false, terminal: Option::None }
    }

    /// Requests the unit to stop: idempotent and non-blocking.  The request
    /// only raises the stop flag; it never touches a terminal result that
    /// has already settled.
    pub fn shutdown(&mut self)
        ensures
            *final(self) == old(self).after_shutdown(),
    {
        self.stop_requested = true;
    }

    /// Records the unit's terminal result once its work has wound down.  A
    /// unit settles exactly once.
    pub fn settle(&mut self, outcome: TaskOutcome)
        requires
            old(self).terminal is None,
        ensures
            final(self).terminal == Option::Some(outcome),
            final(self).stop_requested == old(self).stop_requested,
    {
        self.terminal = Option::Some(outcome);
    }

    /// The settled terminal result, or nothing while the unit is still
    /// winding down.  May be consulted any number of times; once settled it
    /// always resolves to the same result, since nothing ever clears or
    /// replaces a terminal value.
    pub fn wait_shutdown(&self) -> (r: Option<TaskOutcome>)
        ensures
            r == self.terminal,
    {
        self.terminal
    }
}

/// Idempotence of `shutdown`: requesting a stop twice leaves a unit in
/// exactly the state one request leaves it in — the two are observably
/// identical.
pub proof fn lemma_shutdown_idempotent(u: ShutdownableUnit)
    ensures
        u.after_shutdown().after_shutdown() == u.after_shutdown(),
{
}

} // verus!
