//! Writes to the state, the signal and the number of tasks that the tasks of a
//! connection share.
//!
//! Each function makes one step of [`crate::state`], [`crate::shutdown`] or
//! [`crate::closing`] on the shared value, and wakes who waits for the value if the
//! step changed it. Other tasks may write before and after it, so the value that
//! the step found is whichever they left; the contract says what the step made of
//! it.

use tokio::sync::watch;
use vstd::prelude::*;

use crate::channel::{modify_shared, watched};
use crate::closing::{task_finished, task_started, TaskStep};
use crate::error::{DriverError, DriverErrorView};
use crate::journal::{Act, Journal};
use crate::shutdown::{ShutdownSignal, SignalStep};
use crate::state::{DriverState, DriverStateView, StateStep};

verus! {

/// Whether `step` changes the state `before`.
pub open spec fn state_changes(before: DriverStateView, step: StateStep) -> bool {
    before.after(step) != before
}

/// Whether `step` changes the signal `before`.
pub open spec fn signal_changes(before: ShutdownSignal, step: SignalStep) -> bool {
    before.after(step) != before
}

/// The change `step` to a number of tasks that was `before`. It wakes who waits.
pub open spec fn tasks_write(cell: watch::Sender<usize>, before: usize, step: TaskStep) -> Act {
    Act::TasksWritten {
        cell,
        before,
        after: crate::closing::counted(before, step),
        woken: true,
    }
}

/// Makes the step that `modify` stands for on the shared state.
fn write_state<F: FnOnce(&mut DriverState) -> bool>(
    cell: &watch::Sender<DriverState>,
    modify: F,
    Ghost(step): Ghost<StateStep>,
    journal: &mut Journal,
) -> (modified: bool)
    requires
        forall|current: &mut DriverState| call_requires(modify, (current,)),
        forall|current: &mut DriverState, modified: bool| #[trigger]
            call_ensures(modify, (current,), modified) ==> {
                &&& final(current)@ == current@.after(step)
                &&& modified == state_changes(current@, step)
            },
    ensures
        final(journal).acts() == old(journal).acts().push(
            crate::journal::state_write(*cell, final(journal).state_found(), step),
        ),
        modified == state_changes(final(journal).state_found(), step),
{
    modify_shared(cell, modify, journal)
}

/// Makes the step that `modify` stands for on the shared signal.
fn write_signal<F: FnOnce(&mut ShutdownSignal) -> bool>(
    cell: &watch::Sender<ShutdownSignal>,
    modify: F,
    Ghost(step): Ghost<SignalStep>,
    journal: &mut Journal,
) -> (modified: bool)
    requires
        forall|current: &mut ShutdownSignal| call_requires(modify, (current,)),
        forall|current: &mut ShutdownSignal, modified: bool| #[trigger]
            call_ensures(modify, (current,), modified) ==> {
                &&& *final(current) == current.after(step)
                &&& modified == signal_changes(*current, step)
            },
    ensures
        final(journal).acts() == old(journal).acts().push(
            crate::journal::signal_write(*cell, final(journal).signal_found(), step),
        ),
        modified == signal_changes(final(journal).signal_found(), step),
{
    modify_shared(cell, modify, journal)
}

/// Makes the change that `modify` stands for on the shared number of tasks.
fn write_tasks<F: FnOnce(&mut usize) -> bool>(
    cell: &watch::Sender<usize>,
    modify: F,
    Ghost(step): Ghost<TaskStep>,
    journal: &mut Journal,
)
    requires
        forall|current: &mut usize| call_requires(modify, (current,)),
        forall|current: &mut usize, modified: bool| #[trigger]
            call_ensures(modify, (current,), modified) ==> {
                &&& *final(current) == crate::closing::counted(*current, step)
                &&& modified
            },
    ensures
        final(journal).acts() == old(journal).acts().push(
            tasks_write(*cell, final(journal).tasks_found(), step),
        ),
{
    modify_shared(cell, modify, journal);
}

/// Ends the connection with `terminal`, unless it has ended already.
pub fn publish_terminal(state: &watch::Sender<DriverState>, terminal: &DriverError, journal: &mut Journal) -> (modified: bool)
    ensures
        final(journal).acts() == old(journal).acts().push(
            crate::journal::state_write(*state, final(journal).state_found(), StateStep::Terminal(terminal@)),
        ),
        modified == state_changes(final(journal).state_found(), StateStep::Terminal(terminal@)),
{
    let end = |current: &mut DriverState| -> (modified: bool)
        ensures
            final(current)@ == old(current)@.after(StateStep::Terminal(terminal@)),
            modified == state_changes(old(current)@, StateStep::Terminal(terminal@)),
        { current.end(terminal) };
    write_state(state, end, Ghost(StateStep::Terminal(terminal@)), journal)
}

/// Records that the peer closed with `outcome`, unless an outcome is decided.
pub fn publish_peer_closed(state: &watch::Sender<DriverState>, outcome: &DriverError, journal: &mut Journal) -> (modified: bool)
    ensures
        final(journal).acts() == old(journal).acts().push(
            crate::journal::state_write(*state, final(journal).state_found(), StateStep::PeerClosed(outcome@)),
        ),
        modified == state_changes(final(journal).state_found(), StateStep::PeerClosed(outcome@)),
{
    let observe = |current: &mut DriverState| -> (modified: bool)
        ensures
            final(current)@ == old(current)@.after(StateStep::PeerClosed(outcome@)),
            modified == state_changes(old(current)@, StateStep::PeerClosed(outcome@)),
        { current.observe_peer_close(outcome) };
    write_state(state, observe, Ghost(StateStep::PeerClosed(outcome@)), journal)
}

/// Ends a close that was not answered in time.
pub fn publish_close_timeout(state: &watch::Sender<DriverState>, journal: &mut Journal) -> (modified: bool)
    ensures
        final(journal).acts() == old(journal).acts().push(
            crate::journal::state_write(*state, final(journal).state_found(), StateStep::CloseTimeout),
        ),
        modified == state_changes(final(journal).state_found(), StateStep::CloseTimeout),
{
    let expire = |current: &mut DriverState| -> (modified: bool)
        ensures
            final(current)@ == old(current)@.after(StateStep::CloseTimeout),
            modified == state_changes(old(current)@, StateStep::CloseTimeout),
        { current.expire_close() };
    write_state(state, expire, Ghost(StateStep::CloseTimeout), journal)
}

/// Starts a local close, if the connection is open.
pub fn publish_local_close(state: &watch::Sender<DriverState>, journal: &mut Journal) -> (modified: bool)
    ensures
        final(journal).acts() == old(journal).acts().push(
            crate::journal::state_write(*state, final(journal).state_found(), StateStep::LocalClose),
        ),
        modified == state_changes(final(journal).state_found(), StateStep::LocalClose),
{
    let start = |current: &mut DriverState| -> (modified: bool)
        ensures
            final(current)@ == old(current)@.after(StateStep::LocalClose),
            modified == state_changes(old(current)@, StateStep::LocalClose),
        { current.start_local_close() };
    write_state(state, start, Ghost(StateStep::LocalClose), journal)
}

/// What a failed writer does to the state: it ends the connection and looks how it
/// ended.
pub open spec fn writer_failure_acts(
    state: watch::Sender<DriverState>,
    error: DriverErrorView,
    before: DriverStateView,
    found: DriverStateView,
) -> Seq<Act> {
    seq![
        crate::journal::state_write(state, before, StateStep::WriterFailure(error)),
        crate::journal::state_read(state, found),
    ]
}

/// Whether `selected` is the outcome of a failure with `error` of a connection that
/// was `before`, given the state `found` afterwards: it is what was found, and where
/// only further steps came between, what the failure itself selected.
pub open spec fn is_selected(
    selected: DriverErrorView,
    error: DriverErrorView,
    before: DriverStateView,
    found: DriverStateView,
) -> bool {
    &&& selected == found.outcome_or(error)
    &&& (exists|later: Seq<StateStep>|
        found == #[trigger] before.after(StateStep::WriterFailure(error)).after_all(later))
        ==> selected == before.outcome_or(error)
}

/// Ends the connection because the writer failed with `error`, and says with
/// which outcome it ended. The outcome is read back after the write, which no
/// later write can have changed.
pub fn publish_writer_failure(
    state: &watch::Sender<DriverState>,
    error: &DriverError,
    journal: &mut Journal,
) -> (selected: DriverError)
    ensures
        exists|before: DriverStateView, found: DriverStateView|
            {
                &&& final(journal).acts() == old(journal).acts() + #[trigger] writer_failure_acts(
                    *state,
                    error@,
                    before,
                    found,
                )
                &&& is_selected(selected@, error@, before, found)
            },
{
    let fail = |current: &mut DriverState| -> (modified: bool)
        ensures
            final(current)@ == old(current)@.after(StateStep::WriterFailure(error@)),
            modified == state_changes(old(current)@, StateStep::WriterFailure(error@)),
        { current.fail_writer(error) };
    write_state(state, fail, Ghost(StateStep::WriterFailure(error@)), journal);
    let ghost before = journal.state_found();
    let found = watched(state, journal);
    proof {
        assert(journal.acts() =~= old(journal).acts() + writer_failure_acts(
            *state,
            error@,
            before,
            found@,
        ));
        let failed = before.after(StateStep::WriterFailure(error@));
        assert forall|later: Seq<StateStep>| found@ == #[trigger] failed.after_all(later) implies
            found@.outcome_or(error@) == before.outcome_or(error@) by {
            crate::state::writer_failure_is_read_back(before, error@, later);
        }
    }
    found.outcome_or(error)
}

/// The outcome that the peer's close left for the writer to publish.
pub fn peer_close_outcome(state: &watch::Sender<DriverState>, journal: &mut Journal) -> (outcome:
    Option<DriverError>)
    ensures
        final(journal).acts() == old(journal).acts().push(
            crate::journal::state_read(*state, final(journal).state_found()),
        ),
        crate::error::optional_view(outcome) == final(journal).state_found().peer_outcome(),
{
    let found = watched(state, journal);
    found.peer_close_outcome()
}

/// Asks the tasks to stop at once.
pub fn signal_abort(shutdown: &watch::Sender<ShutdownSignal>, journal: &mut Journal) -> (modified: bool)
    ensures
        final(journal).acts() == old(journal).acts().push(
            crate::journal::signal_write(
                *shutdown,
                final(journal).signal_found(),
                SignalStep::Abort,
            ),
        ),
        modified == signal_changes(final(journal).signal_found(), SignalStep::Abort),
{
    let raise = |current: &mut ShutdownSignal| -> (modified: bool)
        ensures
            *final(current) == old(current).after(SignalStep::Abort),
            modified == signal_changes(*old(current), SignalStep::Abort),
        { current.raise_abort() };
    write_signal(shutdown, raise, Ghost(SignalStep::Abort), journal)
}

/// Asks the writer to start the close handshake.
pub fn signal_local_close(shutdown: &watch::Sender<ShutdownSignal>, journal: &mut Journal) -> (modified: bool)
    ensures
        final(journal).acts() == old(journal).acts().push(
            crate::journal::signal_write(
                *shutdown,
                final(journal).signal_found(),
                SignalStep::LocalClose,
            ),
        ),
        modified == signal_changes(final(journal).signal_found(), SignalStep::LocalClose),
{
    let raise = |current: &mut ShutdownSignal| -> (modified: bool)
        ensures
            *final(current) == old(current).after(SignalStep::LocalClose),
            modified == signal_changes(*old(current), SignalStep::LocalClose),
        { current.raise_local_close() };
    write_signal(shutdown, raise, Ghost(SignalStep::LocalClose), journal)
}

/// Asks the writer to finish the close handshake that the peer took part in.
pub fn signal_peer_close(shutdown: &watch::Sender<ShutdownSignal>, journal: &mut Journal) -> (modified: bool)
    ensures
        final(journal).acts() == old(journal).acts().push(
            crate::journal::signal_write(
                *shutdown,
                final(journal).signal_found(),
                SignalStep::PeerClose,
            ),
        ),
        modified == signal_changes(final(journal).signal_found(), SignalStep::PeerClose),
{
    let raise = |current: &mut ShutdownSignal| -> (modified: bool)
        ensures
            *final(current) == old(current).after(SignalStep::PeerClose),
            modified == signal_changes(*old(current), SignalStep::PeerClose),
        { current.raise_peer_close() };
    write_signal(shutdown, raise, Ghost(SignalStep::PeerClose), journal)
}

/// Counts one more task of the connection, and wakes who waits for the count.
pub fn publish_task_started(tasks: &watch::Sender<usize>, journal: &mut Journal)
    ensures
        final(journal).acts() == old(journal).acts().push(
            tasks_write(*tasks, final(journal).tasks_found(), TaskStep::Started),
        ),
{
    let count = |current: &mut usize| -> (modified: bool)
        ensures
            *final(current) == crate::closing::counted(*old(current), TaskStep::Started),
            modified,
        {
            task_started(current);
            true
        };
    write_tasks(tasks, count, Ghost(TaskStep::Started), journal);
}

/// Counts one task of the connection less, and wakes who waits for the count.
pub fn publish_task_finished(tasks: &watch::Sender<usize>, journal: &mut Journal)
    ensures
        final(journal).acts() == old(journal).acts().push(
            tasks_write(*tasks, final(journal).tasks_found(), TaskStep::Finished),
        ),
{
    let count = |current: &mut usize| -> (modified: bool)
        ensures
            *final(current) == crate::closing::counted(*old(current), TaskStep::Finished),
            modified,
        {
            task_finished(current);
            true
        };
    write_tasks(tasks, count, Ghost(TaskStep::Finished), journal);
}

/// A write changes what it changes: it is reported, and wakes who waits, exactly where
/// the value afterwards is another, and a count always does.
pub proof fn writes_report_their_changes(
    state_cell: watch::Sender<DriverState>,
    signal_cell: watch::Sender<ShutdownSignal>,
    tasks_cell: watch::Sender<usize>,
    state: DriverStateView,
    step: StateStep,
    signal: ShutdownSignal,
    raised: SignalStep,
    tasks: usize,
    count: TaskStep,
)
    ensures
        state_changes(state, step) <==> state.after(step) != state,
        signal_changes(signal, raised) <==> signal.after(raised) != signal,
        crate::journal::state_write(state_cell, state, step) matches Act::StateWritten {
            cell,
            before,
            after,
            woken,
        } && cell == state_cell && before == state && after == state.after(step) && woken == (after
            != before),
        crate::journal::signal_write(signal_cell, signal, raised) matches Act::SignalWritten {
            cell,
            before,
            after,
            woken,
        } && cell == signal_cell && before == signal && after == signal.after(raised) && woken == (
        after != before),
        tasks_write(tasks_cell, tasks, count) matches Act::TasksWritten {
            cell,
            before,
            after,
            woken,
        } && cell == tasks_cell && before == tasks && woken && (count is Started && tasks
            < usize::MAX ==> after == tasks + 1) && (count is Finished && tasks > 0 ==> after
            == tasks - 1),
{
}

/// The outcome that a failed writer tells is the one it finds on the ended connection,
/// and there is just one.
pub proof fn failed_writer_tells_the_end(
    selected: DriverErrorView,
    other: DriverErrorView,
    error: DriverErrorView,
    before: DriverStateView,
    end: DriverErrorView,
)
    requires
        is_selected(selected, error, before, DriverStateView::Closed(end)),
        is_selected(other, error, before, DriverStateView::Closed(end)),
    ensures
        selected == end,
        other == selected,
{
}

} // verus!
