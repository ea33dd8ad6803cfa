//! Shared, versioned, hot-swappable state with last-value-wins change
//! notification.
//!
//! An [`ObservedValue`] pairs a current value with a version counter that
//! strictly increases on every update.  Each observer keeps a [`Cursor`]
//! recording the last version it has seen.  An observation delivers the
//! current value exactly when the live version is ahead of the cursor, and
//! advances the cursor to the live version; otherwise it delivers nothing and
//! the driver suspends the observer until the next update.
//!
//! Observers therefore never see a backlog: several updates published while an
//! observer was busy are coalesced, and the next observation delivers only the
//! then-current value.  Every intermediate value being observed is explicitly
//! not a goal; last-value-wins is sufficient for the identity-rotation use
//! this crate serves.

use vstd::prelude::*;

verus! {

/// An observer's record of the last version it has seen.
#[derive(Clone, Copy, Debug, PartialEq, Eq, Structural)]
pub struct Cursor {
    pub last_seen: u64,
}

/// Shared state: a current value together with a strictly increasing version.
pub struct ObservedValue<T> {
    pub current: T,
    pub version: u64,
}

/// What an observation delivers: the current value when the cursor is behind
/// the live version, nothing otherwise.
pub open spec fn observe_result<T>(v: ObservedValue<T>, c: Cursor) -> Option<T> {
    if c.last_seen < v.version {
        Some(v.current)
    } else {
        None
    }
}

/// Where an observation leaves the cursor: advanced to the live version when
/// it delivered a value, unchanged otherwise.
pub open spec fn observe_cursor<T>(v: ObservedValue<T>, c: Cursor) -> Cursor {
    if c.last_seen < v.version {
        Cursor { last_seen: v.version }
    } else {
        c
    }
}

impl Cursor {
    /// A fresh cursor has seen nothing, so its first observation delivers the
    /// value the `ObservedValue` was created with (or a later one).
    pub fn new() -> (c: Cursor)
        ensures
            c.last_seen == 0,
    {
        Cursor { last_seen: 0 }
    }
}

impl<T: Copy> ObservedValue<T> {
    /// Creates the shared state; creation publishes the initial value at
    /// version 1, ahead of every fresh cursor.
    pub fn new(initial: T) -> (v: ObservedValue<T>)
        ensures
            v.current == initial,
            v.version == 1,
    {
        ObservedValue { current: initial, version: 1 }
    }

    /// Replaces the current value and strictly increases the version.  The
    /// driver wakes every suspended observer after an update; a woken observer
    /// re-runs `observe` and now finds the live version ahead of its cursor.
    pub fn update(&mut self, new_value: T)
        requires
            old(self).version < u64::MAX,
        ensures
            final(self).current == new_value,
            final(self).version == old(self).version + 1,
    {
        self.current = new_value;
        self.version = self.version + 1;
    }

    /// One observation step: delivers the current value and advances the
    /// cursor exactly when the live version is ahead of the cursor; otherwise
    /// delivers nothing and leaves the cursor alone (the driver then suspends
    /// the observer until the next update).
    pub fn observe(&self, cursor: &mut Cursor) -> (r: Option<T>)
        ensures
            r == observe_result(*self, *old(cursor)),
            *final(cursor) == observe_cursor(*self, *old(cursor)),
    {
        if cursor.last_seen < self.version {
            cursor.last_seen = self.version;
            Some(self.current)
        } else {
            None
        }
    }
}

/// Where a cursor stands after observing, in order, each state of a sequence
/// of observation points.
pub open spec fn cursor_after<T>(states: Seq<ObservedValue<T>>, c0: Cursor) -> Cursor
    decreases states.len(),
{
    if states.len() == 0 {
        c0
    } else {
        observe_cursor(states.last(), cursor_after(states.drop_last(), c0))
    }
}

/// Whether the `i`-th observation of the sequence delivered a value.
pub open spec fn delivered<T>(states: Seq<ObservedValue<T>>, c0: Cursor, i: int) -> bool {
    observe_result(states[i], cursor_after(states.take(i), c0)) is Some
}

proof fn lemma_cursor_after_take_succ<T>(states: Seq<ObservedValue<T>>, c0: Cursor, i: int)
    requires
        0 <= i < states.len(),
    ensures
        cursor_after(states.take(i + 1), c0) == observe_cursor(
            states[i],
            cursor_after(states.take(i), c0),
        ),
{
    assert(states.take(i + 1).drop_last() =~= states.take(i));
    assert(states.take(i + 1).last() == states[i]);
}

proof fn lemma_cursor_after_monotone<T>(states: Seq<ObservedValue<T>>, c0: Cursor, i: int, j: int)
    requires
        0 <= i <= j <= states.len(),
    ensures
        cursor_after(states.take(i), c0).last_seen <= cursor_after(states.take(j), c0).last_seen,
    decreases j - i,
{
    if i < j {
        lemma_cursor_after_monotone(states, c0, i, j - 1);
        lemma_cursor_after_take_succ(states, c0, j - 1);
    }
}

/// For any sequence of observation points a single cursor walks through, the
/// delivered versions form a strictly increasing subsequence: whenever the
/// `i`-th and a later `j`-th observation both deliver, the version delivered
/// at `j` is strictly above the one delivered at `i`.  No version is
/// delivered twice and none is delivered out of order, however many updates
/// were published (and coalesced) in between.
pub proof fn lemma_observe_strictly_increasing<T>(
    states: Seq<ObservedValue<T>>,
    c0: Cursor,
    i: int,
    j: int,
)
    requires
        0 <= i < j < states.len(),
        delivered(states, c0, i),
        delivered(states, c0, j),
    ensures
        states[i].version < states[j].version,
{
    // Delivering at `i` parks the cursor exactly at that version,
    lemma_cursor_after_take_succ(states, c0, i);
    // the cursor only ever moves forward,
    lemma_cursor_after_monotone(states, c0, i + 1, j);
    // and delivering at `j` needs the version there to be strictly ahead of
    // the cursor.
}

/// Once updates stop, a cursor that is behind receives exactly the final
/// value and version, and every further observation delivers nothing: the
/// observed subsequence ends at the last published version, with no duplicate
/// delivery.
pub proof fn lemma_observe_settles<T>(v: ObservedValue<T>, c0: Cursor)
    ensures
        c0.last_seen < v.version ==> observe_result(v, c0) == Some(v.current)
            && observe_cursor(v, c0).last_seen == v.version,
        observe_result(v, observe_cursor(v, c0)) is None,
{
}

} // verus!
