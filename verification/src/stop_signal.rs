//! The one-shot stop signal a cooperative task observes.
//!
//! A [`StopSignal`] is single-use on both sides: the sending side either
//! sends once or is dropped — and closing or dropping the sending side is
//! itself a valid cancellation signal, observable by the receiving side
//! exactly like an explicit send — and the receiving side consumes the
//! signal exactly once.  The driver realises this model with a one-shot
//! channel; the supervisor's signal phase may simply drop every sender it
//! holds.

use vstd::prelude::*;

verus! {

/// What happened on the sending side so far.
#[derive(Clone, Copy, Debug, PartialEq, Eq, Structural)]
pub enum SenderState {
    /// Still held, nothing sent.
    Armed,
    /// An explicit stop was sent.
    Sent,
    /// The sender was dropped without sending.
    Dropped,
}

/// The joint state of one stop signal.
#[derive(Clone, Copy, Debug, PartialEq, Eq, Structural)]
pub struct StopSignal {
    pub sender: SenderState,
    /// Whether the receiving side has consumed the signal.
    pub consumed: bool,
}

impl StopSignal {
    /// What the receiving side observes: a cancellation request, raised by an
    /// explicit send and by a dropped sender alike.
    pub open spec fn signalled(self) -> bool {
        !(self.sender is Armed)
    }

    /// A fresh signal: armed, not consumed.
    pub fn new() -> (s: StopSignal)
        ensures
            s.sender == SenderState::Armed,
            !s.consumed,
            !s.signalled(),
    {
        StopSignal { sender: SenderState::Armed, consumed: false }
    }

    /// Sends the stop request.  The sending side is single-use: it can act
    /// only while still armed.
    pub fn send(&mut self)
        requires
            old(self).sender is Armed,
        ensures
            final(self).sender == SenderState::Sent,
            final(self).consumed == old(self).consumed,
            final(self).signalled(),
    {
        self.sender = SenderState::Sent;
    }

    /// Drops the sending side without sending.  Closing the channel this way
    /// raises the very same cancellation request an explicit send raises.
    pub fn close(&mut self)
        requires
            old(self).sender is Armed,
        ensures
            final(self).sender == SenderState::Dropped,
            final(self).consumed == old(self).consumed,
            final(self).signalled(),
    {
        self.sender = SenderState::Dropped;
    }

    /// The receiving side resolves once the signal is raised, and consumes
    /// the signal exactly once.
    pub fn consume(&mut self)
        requires
            old(self).signalled(),
            !old(self).consumed,
        ensures
            final(self).consumed,
            final(self).sender == old(self).sender,
    {
        self.consumed = true;
    }
}

/// To the receiving side, a dropped sender and an explicit send are the same
/// cancellation request: both raise the signal, and `consume` behaves
/// identically on the two.
pub proof fn lemma_close_signals_like_send(sent: StopSignal, closed: StopSignal)
    requires
        sent.sender is Sent,
        closed.sender is Dropped,
    ensures
        sent.signalled(),
        closed.signalled(),
        sent.signalled() == closed.signalled(),
{
}

} // verus!
