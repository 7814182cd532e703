//! The signal by which the tasks of one connection tell each other to stop.

use vstd::prelude::*;

verus! {

/// What the tasks of a connection are asked to do.
#[derive(Clone, Copy, Debug, Eq, PartialEq, Structural)]
pub enum ShutdownSignal {
    Abort,
    LocalClose,
    PeerClose,
    Running,
}

/// One write to the shared signal.
pub enum SignalStep {
    Abort,
    LocalClose,
    PeerClose,
}

impl ShutdownSignal {
    /// The signal after one write.
    pub open spec fn after(self, step: SignalStep) -> ShutdownSignal {
        match step {
            SignalStep::Abort => ShutdownSignal::Abort,
            SignalStep::LocalClose => if self is Running {
                ShutdownSignal::LocalClose
            } else {
                self
            },
            SignalStep::PeerClose => if self is Running || self is LocalClose {
                ShutdownSignal::PeerClose
            } else {
                self
            },
        }
    }

    /// The signal after a sequence of writes, first to last.
    pub open spec fn after_all(self, steps: Seq<SignalStep>) -> ShutdownSignal
        decreases steps.len(),
    {
        if steps.len() == 0 {
            self
        } else {
            self.after_all(steps.drop_last()).after(steps.last())
        }
    }

    /// How urgent the signal is.
    pub open spec fn rank(self) -> int {
        match self {
            ShutdownSignal::Running => 0,
            ShutdownSignal::LocalClose => 1,
            ShutdownSignal::PeerClose => 2,
            ShutdownSignal::Abort => 3,
        }
    }

    /// Asks the tasks to stop at once.
    pub fn raise_abort(&mut self) -> (modified: bool)
        ensures
            *final(self) == old(self).after(SignalStep::Abort),
            modified == (*final(self) != *old(self)),
    {
        if *self == ShutdownSignal::Abort {
            false
        } else {
            *self = ShutdownSignal::Abort;
            true
        }
    }

    /// Asks the writer to start the close handshake.
    pub fn raise_local_close(&mut self) -> (modified: bool)
        ensures
            *final(self) == old(self).after(SignalStep::LocalClose),
            modified == (*final(self) != *old(self)),
    {
        if *self == ShutdownSignal::Running {
            *self = ShutdownSignal::LocalClose;
            true
        } else {
            false
        }
    }

    /// Asks the writer to finish the close handshake that the peer took part in.
    pub fn raise_peer_close(&mut self) -> (modified: bool)
        ensures
            *final(self) == old(self).after(SignalStep::PeerClose),
            modified == (*final(self) != *old(self)),
    {
        if *self == ShutdownSignal::Running || *self == ShutdownSignal::LocalClose {
            *self = ShutdownSignal::PeerClose;
            true
        } else {
            false
        }
    }
}

/// After an abort no close request is heard any more.
pub proof fn abort_is_absorbing(steps: Seq<SignalStep>)
    ensures
        ShutdownSignal::Abort.after_all(steps) == ShutdownSignal::Abort,
    decreases steps.len(),
{
    if steps.len() > 0 {
        abort_is_absorbing(steps.drop_last());
    }
}

/// The signal only ever becomes more urgent.
pub proof fn signal_never_goes_back(signal: ShutdownSignal, steps: Seq<SignalStep>)
    ensures
        signal.rank() <= signal.after_all(steps).rank(),
    decreases steps.len(),
{
    if steps.len() > 0 {
        signal_never_goes_back(signal, steps.drop_last());
    }
}

/// A peer's close is heard whether or not a local close came first, and only an
/// abort overrides it.
pub proof fn peer_close_advances_local_close_signal(signal: ShutdownSignal)
    ensures
        signal.after(SignalStep::LocalClose).after(SignalStep::PeerClose) == signal.after(
            SignalStep::PeerClose,
        ),
        signal.after(SignalStep::PeerClose).after(SignalStep::LocalClose) == signal.after(
            SignalStep::PeerClose,
        ),
        signal.after(SignalStep::PeerClose) == if signal is Abort {
            ShutdownSignal::Abort
        } else {
            ShutdownSignal::PeerClose
        },
{
}

/// A local close is heard by running tasks only, and an abort always.
pub proof fn signals_are_heard_as_they_should(signal: ShutdownSignal)
    ensures
        signal.after(SignalStep::Abort) is Abort,
        ShutdownSignal::Running.after(SignalStep::LocalClose) is LocalClose,
        !(signal is Running) ==> signal.after(SignalStep::LocalClose) == signal,
        ShutdownSignal::Running.after(SignalStep::PeerClose) is PeerClose,
        ShutdownSignal::LocalClose.after(SignalStep::PeerClose) is PeerClose,
        ShutdownSignal::PeerClose.after(SignalStep::PeerClose) is PeerClose,
        ShutdownSignal::Abort.after(SignalStep::PeerClose) is Abort,
        ShutdownSignal::Running.rank() < ShutdownSignal::LocalClose.rank(),
        ShutdownSignal::LocalClose.rank() < ShutdownSignal::PeerClose.rank(),
        ShutdownSignal::PeerClose.rank() < ShutdownSignal::Abort.rank(),
{
}

} // verus!
