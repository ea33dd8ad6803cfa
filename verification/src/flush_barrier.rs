//! Flush barrier: a registry of drainable components plus an all-or-report
//! flush operation.
//!
//! Components buffering identity-attributed in-flight work register here
//! once, during startup (membership is static; there is no deregistration).
//! Before an identity rotation is acknowledged to its administrative caller,
//! every registered flusher is asked to drain, concurrently, and the barrier
//! waits for *all* of them: it never short-circuits on the first failure, so
//! operators always see the complete picture.
//!
//! The driver invokes the flushers and collects one outcome per registered
//! flusher, in registry order; [`FlushBarrier::make_report`] turns those
//! outcomes into the aggregate [`FlushReport`].  The recommended fail-closed
//! policy is provided by [`require_all_flushed`]: a rotation proceeds only on
//! an all-success report.

use vstd::prelude::*;

verus! {

/// What one flusher's `flush()` resolved to.  Flushing must be a safe no-op
/// when nothing is pending.
#[derive(Clone, Copy, Debug, PartialEq, Eq, Structural)]
pub enum FlushOutcome {
    Flushed,
    FlushFailed,
}

/// One line of the aggregate report: a registered flusher and its outcome.
#[derive(Debug)]
pub struct FlushEntry {
    pub name: String,
    pub outcome: FlushOutcome,
}

/// The aggregate outcome of one barrier flush: every registered flusher's
/// outcome, in registry order, plus the overall verdict.
#[derive(Debug)]
pub struct FlushReport {
    pub entries: Vec<FlushEntry>,
    pub ok: bool,
}

/// The error raised by the fail-closed rotation gate.
#[derive(Clone, Copy, Debug, PartialEq, Eq, Structural)]
pub enum FlushError {
    FlushFailure,
}

/// Every outcome in the sequence is a success.
pub open spec fn all_flushed(outcomes: Seq<FlushOutcome>) -> bool {
    forall|k: int| 0 <= k < outcomes.len() ==> outcomes[k] is Flushed
}

/// The append-only ordered registry of flushers, by diagnostic name; the
/// drainable capabilities themselves stay with the driver, in registry
/// order.
#[derive(Debug)]
pub struct FlushBarrier {
    pub flushers: Vec<String>,
}

impl FlushBarrier {
    /// An empty registry.
    pub fn new() -> (b: FlushBarrier)
        ensures
            b.flushers@.len() == 0,
    {
        FlushBarrier { flushers: Vec::new() }
    }

    /// Appends a flusher to the registry and returns its position.  Writes
    /// are expected only during startup.
    pub fn register(&mut self, name: String) -> (i: usize)
        ensures
            i == old(self).flushers@.len(),
            final(self).flushers@ == old(self).flushers@.push(name),
    {
        let i = self.flushers.len();
        self.flushers.push(name);
        i
    }

    /// How many flushers are registered.
    pub fn flusher_count(&self) -> (n: usize)
        ensures
            n == self.flushers@.len(),
    {
        self.flushers.len()
    }

    /// Builds the aggregate report from one outcome per registered flusher,
    /// in registry order.  The report enumerates *every* outcome — one entry
    /// per flusher, none dropped after a failure — and its overall verdict
    /// is success exactly when every flusher succeeded.
    pub fn make_report(&self, outcomes: &Vec<FlushOutcome>) -> (r: FlushReport)
        requires
            outcomes@.len() == self.flushers@.len(),
        ensures
            r.entries@.len() == self.flushers@.len(),
            forall|k: int|
                0 <= k < self.flushers@.len() ==> (#[trigger] r.entries@[k]).name
                    == self.flushers@[k] && r.entries@[k].outcome == outcomes@[k],
            r.ok <==> all_flushed(outcomes@),
    {
        let n = self.flushers.len();
        let mut entries: Vec<FlushEntry> = Vec::new();
        let mut ok = true;
        for j in 0..n
            invariant
                n == self.flushers@.len(),
                outcomes@.len() == n,
                entries@.len() == j,
                forall|k: int|
                    0 <= k < j ==> (#[trigger] entries@[k]).name == self.flushers@[k]
                        && entries@[k].outcome == outcomes@[k],
                ok <==> forall|k: int| 0 <= k < j ==> (#[trigger] outcomes@[k]) is Flushed,
        {
            let outcome = outcomes[j];
            entries.push(FlushEntry { name: self.flushers[j].clone(), outcome });
            match outcome {
                FlushOutcome::Flushed => {},
                FlushOutcome::FlushFailed => {
                    ok = false;
                },
            }
        }
        FlushReport { entries, ok }
    }
}

/// The fail-closed gate on identity rotation: the rotation may be
/// acknowledged exactly when every registered flusher drained successfully;
/// any failure in the report blocks it.
pub fn require_all_flushed(report: &FlushReport) -> (r: Result<(), FlushError>)
    ensures
        r is Ok <==> report.ok,
        r is Err ==> r == Result::<(), FlushError>::Err(FlushError::FlushFailure),
{
    if report.ok {
        Result::Ok(())
    } else {
        Result::Err(FlushError::FlushFailure)
    }
}

} // verus!
