//! What a caller of `close` waits for, and the tasks that a close waits for.

use vstd::prelude::*;

use crate::error::{close_result, DriverError, DriverErrorView};
use crate::state::{DriverState, DriverStateView, StateStep};

verus! {

/// What a caller of `close` waits for.
#[derive(Debug, Eq, PartialEq)]
pub enum ClosePhase {
    /// A first look at the state.
    Starting,
    /// The end of the connection.
    AwaitingEnd,
    /// The end of the tasks, the connection having ended like this.
    AwaitingTasks(DriverError),
}

/// The content of a [`ClosePhase`].
#[verifier::ext_equal]
pub enum ClosePhaseView {
    Starting,
    AwaitingEnd,
    AwaitingTasks(DriverErrorView),
}

impl View for ClosePhase {
    type V = ClosePhaseView;

    open spec fn view(&self) -> ClosePhaseView {
        match *self {
            ClosePhase::Starting => ClosePhaseView::Starting,
            ClosePhase::AwaitingEnd => ClosePhaseView::AwaitingEnd,
            ClosePhase::AwaitingTasks(error) => ClosePhaseView::AwaitingTasks(error@),
        }
    }
}

/// What a caller of `close` observed.
#[derive(Debug)]
pub enum CloseEvent {
    /// The state is this.
    State(DriverState),
    /// Nobody can write the state any more.
    StateAbandoned,
    /// This many tasks are left, and whether the count can still change.
    Tasks { remaining: usize, alive: bool },
}

/// The content of a [`CloseEvent`].
#[verifier::ext_equal]
pub enum CloseEventView {
    State(DriverStateView),
    StateAbandoned,
    Tasks { remaining: usize, alive: bool },
}

impl View for CloseEvent {
    type V = CloseEventView;

    open spec fn view(&self) -> CloseEventView {
        match *self {
            CloseEvent::State(state) => CloseEventView::State(state@),
            CloseEvent::StateAbandoned => CloseEventView::StateAbandoned,
            CloseEvent::Tasks { remaining, alive } => CloseEventView::Tasks { remaining, alive },
        }
    }
}

/// What a caller of `close` has to do.
#[derive(Debug, Eq, PartialEq)]
pub enum CloseAction {
    /// Begin to close, then look at the state.
    BeginClose,
    /// Wait for a change of the state.
    AwaitState,
    /// Look at the number of tasks.
    CheckTasks,
    /// Wait for a change of the number of tasks.
    AwaitTasks,
    /// Return this.
    Return(Result<(), DriverError>),
}

/// The content of a [`CloseAction`].
#[verifier::ext_equal]
pub enum CloseActionView {
    BeginClose,
    AwaitState,
    CheckTasks,
    AwaitTasks,
    Return(Result<(), DriverErrorView>),
}

impl View for CloseAction {
    type V = CloseActionView;

    open spec fn view(&self) -> CloseActionView {
        match *self {
            CloseAction::BeginClose => CloseActionView::BeginClose,
            CloseAction::AwaitState => CloseActionView::AwaitState,
            CloseAction::CheckTasks => CloseActionView::CheckTasks,
            CloseAction::AwaitTasks => CloseActionView::AwaitTasks,
            CloseAction::Return(result) => CloseActionView::Return(
                crate::error::result_view(result),
            ),
        }
    }
}

/// The error of a connection that nobody can end any more.
pub open spec fn abandoned() -> DriverErrorView {
    DriverErrorView::Transport("connection driver stopped before publishing a terminal state"@)
}

/// The result of waiting for the tasks: `None` while some are left.
pub open spec fn tasks_outcome(remaining: usize, alive: bool) -> Option<
    Result<(), DriverErrorView>,
> {
    if remaining == 0 {
        Some(Ok(()))
    } else if !alive {
        Some(
            Err(
                DriverErrorView::Transport(
                    "connection tasks stopped without completion confirmation"@,
                ),
            ),
        )
    } else {
        None
    }
}

/// Decides whether the wait for the tasks is over, and how.
pub fn tasks_settled(remaining: usize, alive: bool) -> (outcome: Option<Result<(), DriverError>>)
    ensures
        match outcome {
            Some(result) => tasks_outcome(remaining, alive) == Some(
                crate::error::result_view(result),
            ),
            None => tasks_outcome(remaining, alive) is None,
        },
{
    if remaining == 0 {
        Some(Ok(()))
    } else if !alive {
        Some(
            Err(
                DriverError::Transport(
                    "connection tasks stopped without completion confirmation".to_owned(),
                ),
            ),
        )
    } else {
        None
    }
}

impl ClosePhaseView {
    /// What an observation leads to. One that does not belong to the phase leads
    /// to another look.
    pub open spec fn next(self, event: CloseEventView) -> (ClosePhaseView, CloseActionView) {
        match (self, event) {
            (ClosePhaseView::Starting, CloseEventView::State(DriverStateView::Closed(error))) => (
                ClosePhaseView::AwaitingTasks(error),
                CloseActionView::CheckTasks,
            ),
            (ClosePhaseView::Starting, _) => (
                ClosePhaseView::AwaitingEnd,
                CloseActionView::BeginClose,
            ),
            (
                ClosePhaseView::AwaitingEnd,
                CloseEventView::State(DriverStateView::Closed(error)),
            ) => (ClosePhaseView::AwaitingTasks(error), CloseActionView::CheckTasks),
            (ClosePhaseView::AwaitingEnd, CloseEventView::StateAbandoned) => (
                ClosePhaseView::AwaitingTasks(abandoned()),
                CloseActionView::CheckTasks,
            ),
            (ClosePhaseView::AwaitingEnd, _) => (
                ClosePhaseView::AwaitingEnd,
                CloseActionView::AwaitState,
            ),
            (
                ClosePhaseView::AwaitingTasks(error),
                CloseEventView::Tasks { remaining, alive },
            ) => match tasks_outcome(remaining, alive) {
                Some(Ok(_)) => (
                    self,
                    CloseActionView::Return(crate::error::closing_result(error)),
                ),
                Some(failed) => (self, CloseActionView::Return(failed)),
                None => (self, CloseActionView::AwaitTasks),
            },
            (ClosePhaseView::AwaitingTasks(_), _) => (self, CloseActionView::CheckTasks),
        }
    }
}

impl ClosePhase {
    /// Decides what an observation leads to.
    pub fn step(self, event: CloseEvent) -> (next: (ClosePhase, CloseAction))
        ensures
            (next.0@, next.1@) == self@.next(event@),
    {
        match (self, event) {
            (ClosePhase::Starting, CloseEvent::State(DriverState::Closed(error))) => (
                ClosePhase::AwaitingTasks(error),
                CloseAction::CheckTasks,
            ),
            (ClosePhase::Starting, _) => (ClosePhase::AwaitingEnd, CloseAction::BeginClose),
            (ClosePhase::AwaitingEnd, CloseEvent::State(DriverState::Closed(error))) => (
                ClosePhase::AwaitingTasks(error),
                CloseAction::CheckTasks,
            ),
            (ClosePhase::AwaitingEnd, CloseEvent::StateAbandoned) => (
                ClosePhase::AwaitingTasks(nobody_ends_it()),
                CloseAction::CheckTasks,
            ),
            (ClosePhase::AwaitingEnd, _) => (ClosePhase::AwaitingEnd, CloseAction::AwaitState),
            (ClosePhase::AwaitingTasks(error), CloseEvent::Tasks { remaining, alive }) => {
                let action = match tasks_settled(remaining, alive) {
                    Some(Ok(_)) => CloseAction::Return(close_result(error.clone())),
                    Some(Err(failed)) => CloseAction::Return(Err(failed)),
                    None => CloseAction::AwaitTasks,
                };
                (ClosePhase::AwaitingTasks(error), action)
            },
            (ClosePhase::AwaitingTasks(error), _) => (
                ClosePhase::AwaitingTasks(error),
                CloseAction::CheckTasks,
            ),
        }
    }
}

fn nobody_ends_it() -> (error: DriverError)
    ensures
        error@ == abandoned(),
{
    DriverError::Transport(
        "connection driver stopped before publishing a terminal state".to_owned(),
    )
}

/// One change of the number of tasks.
pub enum TaskStep {
    Started,
    Finished,
}

/// The number of tasks after one change. It never falls below zero.
pub open spec fn tasks_after(remaining: nat, step: TaskStep) -> nat {
    match step {
        TaskStep::Started => remaining + 1,
        TaskStep::Finished => if remaining > 0 {
            (remaining - 1) as nat
        } else {
            0
        },
    }
}

/// The number of tasks after a sequence of changes, first to last.
pub open spec fn tasks_left(steps: Seq<TaskStep>) -> nat
    decreases steps.len(),
{
    if steps.len() == 0 {
        0
    } else {
        tasks_after(tasks_left(steps.drop_last()), steps.last())
    }
}

/// How many tasks were started.
pub open spec fn started(steps: Seq<TaskStep>) -> nat {
    steps.filter(|step: TaskStep| step is Started).len()
}

/// How many tasks finished.
pub open spec fn finished(steps: Seq<TaskStep>) -> nat {
    steps.filter(|step: TaskStep| step is Finished).len()
}

/// Whether no task finishes that was not started before.
pub open spec fn in_order(steps: Seq<TaskStep>) -> bool {
    forall|i: int|
        0 <= i <= steps.len() ==> finished(#[trigger] steps.take(i)) <= started(steps.take(i))
}

/// The number of tasks after one change, as far as it can be counted.
pub open spec fn counted(remaining: usize, step: TaskStep) -> usize {
    if tasks_after(remaining as nat, step) > usize::MAX {
        usize::MAX
    } else {
        tasks_after(remaining as nat, step) as usize
    }
}

/// Counts one more task of the connection.
pub fn task_started(remaining: &mut usize)
    ensures
        *final(remaining) == counted(*old(remaining), TaskStep::Started),
{
    *remaining = remaining.saturating_add(1);
}

/// Counts one task of the connection less.
pub fn task_finished(remaining: &mut usize)
    ensures
        *final(remaining) == counted(*old(remaining), TaskStep::Finished),
{
    *remaining = remaining.saturating_sub(1);
}

/// The count is the number of tasks that were started and have not finished, so
/// it is zero exactly when every task that was started has finished.
pub proof fn count_is_unfinished_tasks(steps: Seq<TaskStep>)
    requires
        in_order(steps),
    ensures
        tasks_left(steps) == started(steps) - finished(steps),
        tasks_left(steps) == 0 <==> started(steps) == finished(steps),
    decreases steps.len(),
{
    if steps.len() == 0 {
        reveal(Seq::filter);
    } else {
        let earlier = steps.drop_last();
        assert forall|i: int| 0 <= i <= earlier.len() implies finished(#[trigger] earlier.take(i))
            <= started(earlier.take(i)) by {
            assert(earlier.take(i) =~= steps.take(i));
        }
        count_is_unfinished_tasks(earlier);
        assert(steps.take(steps.len() as int) =~= steps);
        reveal(Seq::filter);
    }
}

/// A close is made known before it is waited for: on a connection that has not
/// ended the first thing is to begin the close, after which no message is
/// admitted any more.
pub proof fn closing_is_published_before_waiting(state: DriverStateView)
    requires
        !(state is Closed),
    ensures
        ClosePhaseView::Starting.next(CloseEventView::State(state)) == (
            ClosePhaseView::AwaitingEnd,
            CloseActionView::BeginClose,
        ),
        state.after(StateStep::LocalClose).admission() is Err,
{
}

/// Closing is idempotent: once a connection has ended, every caller of `close`
/// gets the same result, whatever else is written to the state meanwhile, as soon
/// as the tasks are gone.
pub proof fn close_is_idempotent(
    state: DriverStateView,
    earlier: Seq<StateStep>,
    later: Seq<StateStep>,
)
    requires
        state.after_all(earlier) is Closed,
    ensures
        ({
            let first = ClosePhaseView::Starting.next(
                CloseEventView::State(state.after_all(earlier)),
            );
            let second = ClosePhaseView::Starting.next(
                CloseEventView::State(state.after_all(earlier + later)),
            );
            &&& first == second
            &&& first.1 is CheckTasks
            &&& first.0.next(CloseEventView::Tasks { remaining: 0, alive: true }).1
                == CloseActionView::Return(
                crate::error::closing_result(state.after_all(earlier)->Closed_0),
            )
        }),
{
    crate::state::first_outcome_wins(state, earlier, later);
}

/// `close` succeeds only on a connection that ended cleanly, and only when no
/// task of it is left.
pub proof fn close_succeeds_only_after_clean_end(phase: ClosePhaseView, event: CloseEventView)
    requires
        phase.next(event).1 == CloseActionView::Return(Ok(())),
    ensures
        phase matches ClosePhaseView::AwaitingTasks(error) && error is ClosedOk,
        event matches CloseEventView::Tasks { remaining, .. } && remaining == 0,
{
}

/// `close` succeeds on every cleanly ended connection as soon as no task is left, and
/// reports every other end as it is, whatever the code, the reason and who began.
pub proof fn clean_end_closes_successfully(
    info: crate::error::CloseInfoView,
    error: DriverErrorView,
    alive: bool,
)
    ensures
        ClosePhaseView::AwaitingTasks(DriverErrorView::ClosedOk(info)).next(
            CloseEventView::Tasks { remaining: 0, alive },
        ).1 == CloseActionView::Return(Ok(())),
        !(error is ClosedOk) ==> ClosePhaseView::AwaitingTasks(error).next(
            CloseEventView::Tasks { remaining: 0, alive },
        ).1 == CloseActionView::Return(Err(error)),
{
}

/// A peer that closed with an empty frame, a normal closure or going away lets `close`
/// succeed, and with any other frame `close` reports what the peer said.
pub proof fn clean_peer_close_closes_successfully(
    frame: Option<crate::message::CloseFrameView>,
    initiated_by_local: bool,
    alive: bool,
)
    ensures
        ({
            let outcome = crate::reader::close_outcome(frame, initiated_by_local);
            let action = ClosePhaseView::AwaitingTasks(outcome).next(
                CloseEventView::Tasks { remaining: 0, alive },
            ).1;
            &&& action == CloseActionView::Return(Ok(())) <==> frame is None || frame->0.code
                == 1000 || frame->0.code == 1001
            &&& action == CloseActionView::Return(Ok(())) || action == CloseActionView::Return(
                Err(outcome),
            )
        }),
{
}

/// What a caller of `close` does about each observation.
pub proof fn closer_reacts_to_every_observation(
    state: DriverStateView,
    error: DriverErrorView,
    remaining: usize,
    alive: bool,
)
    ensures
        ({
            let starting = |event: CloseEventView| ClosePhaseView::Starting.next(event);
            let awaiting = |event: CloseEventView| ClosePhaseView::AwaitingEnd.next(event);
            let counting = ClosePhaseView::AwaitingTasks(error).next(
                CloseEventView::Tasks { remaining, alive },
            );
            let ended = CloseEventView::State(DriverStateView::Closed(error));
            let done = (ClosePhaseView::AwaitingTasks(error), CloseActionView::CheckTasks);
            &&& starting(ended) == done
            &&& awaiting(ended) == done
            &&& !(state is Closed) ==> starting(CloseEventView::State(state)) == (
                ClosePhaseView::AwaitingEnd,
                CloseActionView::BeginClose,
            )
            &&& !(state is Closed) ==> awaiting(CloseEventView::State(state)) == (
                ClosePhaseView::AwaitingEnd,
                CloseActionView::AwaitState,
            )
            &&& awaiting(CloseEventView::StateAbandoned) == (
                ClosePhaseView::AwaitingTasks(
                    DriverErrorView::Transport(
                        "connection driver stopped before publishing a terminal state"@,
                    ),
                ),
                CloseActionView::CheckTasks,
            )
            &&& counting.0 == ClosePhaseView::AwaitingTasks(error)
            &&& remaining > 0 && alive ==> counting.1 is AwaitTasks
            &&& remaining > 0 && !alive ==> counting.1 == CloseActionView::Return(
                Err(
                    DriverErrorView::Transport(
                        "connection tasks stopped without completion confirmation"@,
                    ),
                ),
            )
            &&& remaining == 0 ==> counting.1 is Return
            &&& tasks_outcome(remaining, alive) == Some(Ok::<(), DriverErrorView>(()))
                <==> remaining == 0
            &&& tasks_outcome(remaining, alive) is None <==> remaining > 0 && alive
        }),
{
}

/// Every task that starts adds one to the count and every one that finishes takes one
/// away, so that the two undo each other, as far as there are numbers to count with.
pub proof fn starting_and_finishing_undo_each_other(remaining: usize)
    ensures
        remaining < usize::MAX ==> counted(remaining, TaskStep::Started) == remaining + 1,
        remaining < usize::MAX ==> counted(
            counted(remaining, TaskStep::Started),
            TaskStep::Finished,
        ) == remaining,
        remaining > 0 ==> counted(remaining, TaskStep::Finished) == remaining - 1,
        counted(0, TaskStep::Finished) == 0,
        counted(usize::MAX, TaskStep::Started) == usize::MAX,
{
}

/// The content of a close keeps everything that it carries.
pub proof fn closing_contents_are_whole(
    error: DriverError,
    state: DriverState,
    remaining: usize,
    alive: bool,
)
    ensures
        ClosePhase::Starting@ == ClosePhaseView::Starting,
        ClosePhase::AwaitingEnd@ == ClosePhaseView::AwaitingEnd,
        ClosePhase::AwaitingTasks(error)@ == ClosePhaseView::AwaitingTasks(error@),
        CloseEvent::State(state)@ == CloseEventView::State(state@),
        CloseEvent::StateAbandoned@ == CloseEventView::StateAbandoned,
        (CloseEvent::Tasks { remaining, alive })@ == (CloseEventView::Tasks { remaining, alive }),
        CloseAction::BeginClose@ == CloseActionView::BeginClose,
        CloseAction::AwaitState@ == CloseActionView::AwaitState,
        CloseAction::CheckTasks@ == CloseActionView::CheckTasks,
        CloseAction::AwaitTasks@ == CloseActionView::AwaitTasks,
        CloseAction::Return(Ok(()))@ == CloseActionView::Return(Ok(())),
        CloseAction::Return(Err(error))@ == CloseActionView::Return(Err(error@)),
{
}

} // verus!
