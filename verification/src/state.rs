//! The lifecycle that the tasks of one connection share.
//!
//! Every write to the shared state is one of the steps below, applied under the
//! lock of the channel that holds the state. A step reports whether it changed
//! the state, which is when observers are woken.

use vstd::prelude::*;

use crate::error::{CloseInfo, CloseInfoView, DriverError, DriverErrorView};

verus! {

/// Where a connection stands.
#[derive(Debug, Eq, PartialEq)]
pub enum DriverState {
    Closed(DriverError),
    Closing,
    Open,
    PeerClosed(DriverError),
}

/// The content of a [`DriverState`].
#[verifier::ext_equal]
pub enum DriverStateView {
    Closed(DriverErrorView),
    Closing,
    Open,
    PeerClosed(DriverErrorView),
}

impl View for DriverState {
    type V = DriverStateView;

    open spec fn view(&self) -> DriverStateView {
        match *self {
            DriverState::Closed(error) => DriverStateView::Closed(error@),
            DriverState::Closing => DriverStateView::Closing,
            DriverState::Open => DriverStateView::Open,
            DriverState::PeerClosed(error) => DriverStateView::PeerClosed(error@),
        }
    }
}

impl Clone for DriverState {
    fn clone(&self) -> (copy: Self)
        ensures
            copy == *self,
    {
        match self {
            DriverState::Closed(error) => DriverState::Closed(error.clone()),
            DriverState::Closing => DriverState::Closing,
            DriverState::Open => DriverState::Open,
            DriverState::PeerClosed(error) => DriverState::PeerClosed(error.clone()),
        }
    }
}

/// One write to the shared state.
pub enum StateStep {
    /// Both tasks are done, or given up, with this outcome.
    Terminal(DriverErrorView),
    /// The reader saw the peer's side of the close.
    PeerClosed(DriverErrorView),
    /// The bounded wait of a local close ran out.
    CloseTimeout,
    /// The writer could not go on.
    WriterFailure(DriverErrorView),
    /// This endpoint starts to close.
    LocalClose,
}

/// The error of a close that was not answered in time.
pub open spec fn close_timed_out() -> DriverErrorView {
    DriverErrorView::Transport("WebSocket close timed out"@)
}

/// The error of a connection whose tasks are gone without an outcome.
pub open spec fn stopped_unexpectedly() -> DriverErrorView {
    DriverErrorView::Transport("connection driver stopped unexpectedly"@)
}

impl DriverStateView {
    pub open spec fn is_terminal(self) -> bool {
        self is Closed
    }

    /// The outcome that the peer or an earlier failure already decided.
    pub open spec fn outcome(self) -> Option<DriverErrorView> {
        match self {
            DriverStateView::Closed(error) => Some(error),
            DriverStateView::PeerClosed(error) => Some(error),
            _ => None,
        }
    }

    /// The outcome of a close that the peer took part in and that has not ended.
    pub open spec fn peer_outcome(self) -> Option<DriverErrorView> {
        match self {
            DriverStateView::PeerClosed(error) => Some(error),
            _ => None,
        }
    }

    /// The outcome already decided, or `error` where there is none.
    pub open spec fn outcome_or(self, error: DriverErrorView) -> DriverErrorView {
        match self.outcome() {
            Some(decided) => decided,
            None => error,
        }
    }

    /// The state after one write.
    pub open spec fn after(self, step: StateStep) -> DriverStateView {
        match step {
            StateStep::Terminal(error) => if self is Closed {
                self
            } else {
                DriverStateView::Closed(error)
            },
            StateStep::PeerClosed(error) => if self.outcome() is Some {
                self
            } else {
                DriverStateView::PeerClosed(error)
            },
            StateStep::CloseTimeout => DriverStateView::Closed(self.outcome_or(close_timed_out())),
            StateStep::WriterFailure(error) => DriverStateView::Closed(self.outcome_or(error)),
            StateStep::LocalClose => if self is Open {
                DriverStateView::Closing
            } else {
                self
            },
        }
    }

    /// The state after a sequence of writes, first to last.
    pub open spec fn after_all(self, steps: Seq<StateStep>) -> DriverStateView
        decreases steps.len(),
    {
        if steps.len() == 0 {
            self
        } else {
            self.after_all(steps.drop_last()).after(steps.last())
        }
    }

    /// How far the lifecycle has come.
    pub open spec fn rank(self) -> int {
        match self {
            DriverStateView::Open => 0,
            DriverStateView::Closing => 1,
            DriverStateView::PeerClosed(_) => 2,
            DriverStateView::Closed(_) => 3,
        }
    }

    /// What an operation is told on a connection that is not open.
    pub open spec fn admission(self) -> Result<(), DriverErrorView> {
        match self {
            DriverStateView::Open => Ok(()),
            DriverStateView::Closing => Err(
                DriverErrorView::ClosedOk(CloseInfoView::local_normal()),
            ),
            DriverStateView::Closed(error) => Err(error),
            DriverStateView::PeerClosed(error) => Err(error),
        }
    }

    /// What an operation is told once the tasks can no longer serve it.
    pub open spec fn terminal_error(self) -> DriverErrorView {
        match self {
            DriverStateView::Closed(error) => error,
            DriverStateView::PeerClosed(error) => error,
            DriverStateView::Closing => DriverErrorView::ClosedOk(CloseInfoView::local_normal()),
            DriverStateView::Open => stopped_unexpectedly(),
        }
    }
}

impl DriverState {
    /// Whether nothing can change this state any more.
    pub fn is_terminal(&self) -> (terminal: bool)
        ensures
            terminal == self@.is_terminal(),
    {
        matches!(self, DriverState::Closed(_))
    }

    /// Ends the connection with `terminal`, unless it has ended already.
    pub fn end(&mut self, terminal: &DriverError) -> (modified: bool)
        ensures
            final(self)@ == old(self)@.after(StateStep::Terminal(terminal@)),
            modified == (final(self)@ != old(self)@),
    {
        if self.is_terminal() {
            false
        } else {
            *self = DriverState::Closed(terminal.clone());
            true
        }
    }

    /// Records the peer's side of the close, unless an outcome is decided.
    pub fn observe_peer_close(&mut self, outcome: &DriverError) -> (modified: bool)
        ensures
            final(self)@ == old(self)@.after(StateStep::PeerClosed(outcome@)),
            modified == (final(self)@ != old(self)@),
    {
        if matches!(self, DriverState::Closed(_)) || matches!(self, DriverState::PeerClosed(_)) {
            false
        } else {
            *self = DriverState::PeerClosed(outcome.clone());
            true
        }
    }

    /// Ends a close that was not answered in time. What the peer already said
    /// stays the outcome.
    pub fn expire_close(&mut self) -> (modified: bool)
        ensures
            final(self)@ == old(self)@.after(StateStep::CloseTimeout),
            modified == (final(self)@ != old(self)@),
    {
        if self.is_terminal() {
            return false;
        }
        let terminal = match self {
            DriverState::PeerClosed(outcome) => outcome.clone(),
            _ => DriverError::Transport("WebSocket close timed out".to_owned()),
        };
        *self = DriverState::Closed(terminal);
        true
    }

    /// The outcome already decided, or `error` where there is none.
    pub fn outcome_or(&self, error: &DriverError) -> (outcome: DriverError)
        ensures
            outcome@ == self@.outcome_or(error@),
    {
        match self {
            DriverState::Closed(outcome) => outcome.clone(),
            DriverState::PeerClosed(outcome) => outcome.clone(),
            DriverState::Closing => error.clone(),
            DriverState::Open => error.clone(),
        }
    }

    /// Ends the connection because the writer failed with `error`. What the peer
    /// already said stays the outcome.
    pub fn fail_writer(&mut self, error: &DriverError) -> (modified: bool)
        ensures
            final(self)@ == old(self)@.after(StateStep::WriterFailure(error@)),
            modified == (final(self)@ != old(self)@),
    {
        let terminal = self.outcome_or(error);
        if self.is_terminal() {
            return false;
        }
        *self = DriverState::Closed(terminal);
        true
    }

    /// Starts a local close on an open connection.
    pub fn start_local_close(&mut self) -> (modified: bool)
        ensures
            final(self)@ == old(self)@.after(StateStep::LocalClose),
            modified == (old(self)@ is Open),
            modified == (final(self)@ != old(self)@),
    {
        if matches!(self, DriverState::Open) {
            *self = DriverState::Closing;
            true
        } else {
            false
        }
    }

    /// The outcome that the peer's close left for the writer to publish.
    pub fn peer_close_outcome(&self) -> (outcome: Option<DriverError>)
        ensures
            crate::error::optional_view(outcome) == self@.peer_outcome(),
    {
        match self {
            DriverState::PeerClosed(outcome) => Some(outcome.clone()),
            _ => None,
        }
    }

    /// Admits an operation on an open connection only.
    pub fn ensure_open(&self) -> (result: Result<(), DriverError>)
        ensures
            crate::error::result_view(result) == self@.admission(),
    {
        match self {
            DriverState::Open => Ok(()),
            DriverState::Closing => Err(DriverError::ClosedOk(CloseInfo::local_normal())),
            DriverState::Closed(error) => Err(error.clone()),
            DriverState::PeerClosed(error) => Err(error.clone()),
        }
    }

    /// What an operation is told once the tasks can no longer serve it.
    pub fn terminal_error(&self) -> (error: DriverError)
        ensures
            error@ == self@.terminal_error(),
    {
        match self {
            DriverState::Closed(error) => error.clone(),
            DriverState::PeerClosed(error) => error.clone(),
            DriverState::Closing => DriverError::ClosedOk(CloseInfo::local_normal()),
            DriverState::Open => DriverError::Transport(
                "connection driver stopped unexpectedly".to_owned(),
            ),
        }
    }
}

/// An ended connection stays ended, with the same outcome, whatever is written.
pub proof fn closed_is_absorbing(error: DriverErrorView, steps: Seq<StateStep>)
    ensures
        DriverStateView::Closed(error).after_all(steps) == DriverStateView::Closed(error),
    decreases steps.len(),
{
    if steps.len() > 0 {
        closed_is_absorbing(error, steps.drop_last());
    }
}

/// Writing one sequence after another is writing them joined.
pub proof fn writes_compose(
    state: DriverStateView,
    first: Seq<StateStep>,
    second: Seq<StateStep>,
)
    ensures
        state.after_all(first + second) == state.after_all(first).after_all(second),
    decreases second.len(),
{
    if second.len() == 0 {
        assert(first + second =~= first);
    } else {
        writes_compose(state, first, second.drop_last());
        assert((first + second).drop_last() =~= first + second.drop_last());
        assert((first + second).last() == second.last());
    }
}

/// A connection has one outcome: once some writes have ended it, no later ones
/// change how it ended.
pub proof fn first_outcome_wins(
    state: DriverStateView,
    earlier: Seq<StateStep>,
    later: Seq<StateStep>,
)
    requires
        state.after_all(earlier) is Closed,
    ensures
        state.after_all(earlier + later) == state.after_all(earlier),
{
    writes_compose(state, earlier, later);
    closed_is_absorbing(state.after_all(earlier)->Closed_0, later);
}

/// The lifecycle never goes back: an open connection starts to close, then the
/// peer's close is seen, then it has ended, and each of these may be skipped.
pub proof fn lifecycle_never_goes_back(state: DriverStateView, steps: Seq<StateStep>)
    ensures
        state.rank() <= state.after_all(steps).rank(),
    decreases steps.len(),
{
    if steps.len() > 0 {
        lifecycle_never_goes_back(state, steps.drop_last());
    }
}

/// Neither a close timeout nor a writer failure replaces what the peer said:
/// unless some task publishes another terminal outcome, a connection that the
/// peer closed ends with the peer's outcome.
pub proof fn peer_outcome_is_preserved(outcome: DriverErrorView, steps: Seq<StateStep>)
    requires
        forall|i: int|
            0 <= i < steps.len() ==> (#[trigger] steps[i] matches StateStep::Terminal(error)
                ==> error == outcome),
    ensures
        DriverStateView::PeerClosed(outcome).after_all(steps).outcome() == Some(outcome),
    decreases steps.len(),
{
    if steps.len() > 0 {
        let earlier = steps.drop_last();
        assert forall|i: int| 0 <= i < earlier.len() implies (
        #[trigger] earlier[i] matches StateStep::Terminal(error) ==> error == outcome) by {
            assert(earlier[i] == steps[i]);
        }
        peer_outcome_is_preserved(outcome, earlier);
        assert(steps.last() == steps[steps.len() - 1]);
    }
}

/// The outcome that a failed writer reads back is the one its own write selected,
/// whatever was written in between.
pub proof fn writer_failure_is_read_back(
    state: DriverStateView,
    error: DriverErrorView,
    later: Seq<StateStep>,
)
    ensures
        state.after(StateStep::WriterFailure(error)).after_all(later).outcome_or(error)
            == state.outcome_or(error),
{
    closed_is_absorbing(state.outcome_or(error), later);
}

/// What each write makes of each state.
pub proof fn writes_do_what_they_say(state: DriverStateView, error: DriverErrorView)
    ensures
        ({
            let ended = state.after(StateStep::Terminal(error));
            let seen = state.after(StateStep::PeerClosed(error));
            let expired = state.after(StateStep::CloseTimeout);
            let failed = state.after(StateStep::WriterFailure(error));
            let closing = state.after(StateStep::LocalClose);
            let timed_out = DriverErrorView::Transport("WebSocket close timed out"@);
            &&& state matches DriverStateView::Closed(_) ==> ended == state && seen == state
                && expired == state && failed == state && closing == state
            &&& state matches DriverStateView::PeerClosed(outcome) ==> {
                &&& ended == DriverStateView::Closed(error)
                &&& seen == state
                &&& expired == DriverStateView::Closed(outcome)
                &&& failed == DriverStateView::Closed(outcome)
                &&& closing == state
            }
            &&& state is Closing || state is Open ==> {
                &&& ended == DriverStateView::Closed(error)
                &&& seen == DriverStateView::PeerClosed(error)
                &&& expired == DriverStateView::Closed(timed_out)
                &&& failed == DriverStateView::Closed(error)
                &&& closing is Closing
            }
        }),
{
}

/// An operation may start exactly on an open connection, and otherwise every
/// operation is told how the connection ended or is ending: a local close as a normal
/// closure, any other end as it is. One that finds its tasks gone from an open
/// connection is told so.
pub proof fn operations_are_told_how_it_ended(state: DriverStateView, error: DriverErrorView)
    ensures
        ({
            let normal = DriverErrorView::ClosedOk(
                CloseInfoView { code: Some(1000), initiated_by_local: true, reason: Seq::empty() },
            );
            &&& state.admission() is Ok <==> state is Open
            &&& !(state is Open) ==> state.admission() == Err::<(), DriverErrorView>(
                state.terminal_error(),
            )
            &&& DriverStateView::Closed(error).terminal_error() == error
            &&& DriverStateView::PeerClosed(error).terminal_error() == error
            &&& DriverStateView::Closing.terminal_error() == normal
            &&& DriverStateView::Open.terminal_error() == DriverErrorView::Transport(
                "connection driver stopped unexpectedly"@,
            )
        }),
{
}

/// An outcome is decided by the peer's close and by the end, and by nothing else;
/// only the end is terminal.
pub proof fn outcomes_are_decided_by_peer_or_end(
    state: DriverStateView,
    error: DriverErrorView,
    other: DriverErrorView,
)
    ensures
        DriverStateView::Closed(error).outcome() == Some(error),
        DriverStateView::PeerClosed(error).outcome() == Some(error),
        DriverStateView::Closing.outcome() is None,
        DriverStateView::Open.outcome() is None,
        DriverStateView::Closed(error).outcome_or(other) == error,
        DriverStateView::PeerClosed(error).outcome_or(other) == error,
        DriverStateView::Closing.outcome_or(other) == other,
        DriverStateView::Open.outcome_or(other) == other,
        DriverStateView::PeerClosed(error).peer_outcome() == Some(error),
        !(state is PeerClosed) ==> state.peer_outcome() is None,
        state.is_terminal() <==> state is Closed,
        DriverStateView::Open.rank() < DriverStateView::Closing.rank(),
        DriverStateView::Closing.rank() < DriverStateView::PeerClosed(error).rank(),
        DriverStateView::PeerClosed(error).rank() < DriverStateView::Closed(other).rank(),
{
}

/// The content of a state keeps its kind and its outcome.
pub proof fn state_contents_are_whole(error: DriverError)
    ensures
        DriverState::Closed(error)@ == DriverStateView::Closed(error@),
        DriverState::PeerClosed(error)@ == DriverStateView::PeerClosed(error@),
        DriverState::Closing@ == DriverStateView::Closing,
        DriverState::Open@ == DriverStateView::Open,
{
}

} // verus!
