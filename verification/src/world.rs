//! What the acts in a journal make of what the tasks of a connection share.
//!
//! A [`World`] is the content of everything that is shared. A sequence of acts is
//! explained by a world if each act found what the acts before it left there. The
//! laws of this module follow whole operations: what a connection is like after
//! one, given what it was like before. All handles to the state, the signal or the
//! number of tasks of a connection lead to the same value.

use std::sync::atomic::AtomicBool;

use tokio::sync::{mpsc, oneshot, watch, OwnedSemaphorePermit, Semaphore};
use tokio::task::AbortHandle;
use vstd::prelude::*;

use crate::channel::ReserveError;
use crate::closing::{CloseActionView, CloseEventView, ClosePhaseView, TaskStep};
use crate::config::ConnectionConfig;
use crate::driver::{
    AdmissionSeen, AdmissionView, Channels, CloseSeen, ConnectionDriver, OutboundCommand,
    ReaderContext,
};
use crate::error::{CloseInfoView, DriverError, DriverErrorView};
use crate::journal::Act;
use crate::message::{CloseFrameView, Message, MessageView};
use crate::reader::{ReaderActionView, ReaderEventView, ReaderPhase};
use crate::shutdown::{ShutdownSignal, SignalStep};
use crate::state::{DriverState, DriverStateView, StateStep};
use crate::writer::{WriterActionView, WriterEventView, WriterPhase};

verus! {

/// The content of what the tasks of a connection share.
pub struct World {
    pub state: DriverStateView,
    pub signal: ShutdownSignal,
    pub tasks: usize,
    /// The free permits of each pool, or `None` for a closed one.
    pub pools: Map<Semaphore, Option<nat>>,
    /// The permits that are out: their pool and their number.
    pub held: Map<OwnedSemaphorePermit, (Semaphore, nat)>,
    /// The free places of each queue, or `None` for one that nobody takes from.
    pub places: Map<mpsc::Sender<OutboundCommand>, Option<nat>>,
    /// The places that are reserved: their queue.
    pub reserved: Map<mpsc::OwnedPermit<OutboundCommand>, mpsc::Sender<OutboundCommand>>,
    /// The commands that were put in their places, in order.
    pub queue: Seq<OutboundCommand>,
    /// The replies that were given.
    pub replies: Map<oneshot::Sender<Result<(), DriverError>>, Result<(), DriverErrorView>>,
    pub flags: Map<AtomicBool, bool>,
    /// The tasks that were told to stop.
    pub stopped: Set<AbortHandle>,
}

/// `count` more than a number that may be absent.
pub open spec fn more(free: Option<nat>, count: nat) -> Option<nat> {
    match free {
        Some(free) => Some(free + count),
        None => None,
    }
}

/// `count` less than a number that may be absent.
pub open spec fn less(free: Option<nat>, count: nat) -> Option<nat> {
    match free {
        Some(free) => Some((free - count) as nat),
        None => None,
    }
}

impl World {
    /// Whether an act finds here what it says it found.
    pub open spec fn sees(self, act: Act) -> bool {
        match act {
            Act::StateRead { found, .. } => found == self.state,
            Act::StateWritten { before, .. } => before == self.state,
            Act::SignalWritten { before, .. } => before == self.signal,
            Act::TasksWritten { before, .. } => before == self.tasks,
            Act::FlagRead { flag, found } => found == self.flags[flag],
            Act::FlagSwapped { flag, found, .. } => found == self.flags[flag],
            Act::FlagClaimed { flag, found } => found == self.flags[flag],
            Act::BytesAsked { pool, free, .. } => free == self.pools[pool],
            Act::PlaceAsked { queue, free, .. } => free == self.places[queue],
            _ => true,
        }
    }

    /// What an act leaves.
    pub open spec fn after(self, act: Act) -> World {
        match act {
            Act::StateMade { value, .. } => World { state: value, ..self },
            Act::SignalMade { value, .. } => World { signal: value, ..self },
            Act::TasksMade { value, .. } => World { tasks: value, ..self },
            Act::OutboundMade { sender, capacity, .. } => World {
                places: self.places.insert(sender, Some(capacity as nat)),
                ..self
            },
            Act::PoolMade { pool, permits } => World {
                pools: self.pools.insert(pool, Some(permits as nat)),
                ..self
            },
            Act::FlagMade { flag, value } => World {
                flags: self.flags.insert(flag, value),
                ..self
            },
            Act::StateWritten { after, .. } => World { state: after, ..self },
            Act::SignalWritten { after, .. } => World { signal: after, ..self },
            Act::TasksWritten { after, .. } => World { tasks: after, ..self },
            Act::FlagSet { flag, value } => World { flags: self.flags.insert(flag, value), ..self },
            Act::FlagSwapped { flag, value, .. } => World {
                flags: self.flags.insert(flag, value),
                ..self
            },
            Act::FlagClaimed { flag, .. } => World {
                flags: self.flags.insert(flag, true),
                ..self
            },
            Act::BytesAsked { pool, count, permit: Some(permit), .. } => World {
                pools: self.pools.insert(pool, less(self.pools[pool], count as nat)),
                held: self.held.insert(permit, (pool, count as nat)),
                ..self
            },
            Act::BytesReturned { permit } => {
                let (pool, count) = self.held[permit];
                World { pools: self.pools.insert(pool, more(self.pools[pool], count)), ..self }
            },
            Act::PlaceAsked { queue, place: Ok(place), .. } => World {
                places: self.places.insert(queue, less(self.places[queue], 1)),
                reserved: self.reserved.insert(place, queue),
                ..self
            },
            Act::PlaceReturned { place } => {
                let queue = self.reserved[place];
                World { places: self.places.insert(queue, more(self.places[queue], 1)), ..self }
            },
            Act::ReplyGiven { response, result } => World {
                replies: self.replies.insert(response, result),
                ..self
            },
            Act::Sent { command, .. } => World { queue: self.queue.push(command), ..self },
            Act::Stopped { task } => World { stopped: self.stopped.insert(task), ..self },
            _ => self,
        }
    }

    /// What a sequence of acts leaves, first to last.
    pub open spec fn after_all(self, acts: Seq<Act>) -> World
        decreases acts.len(),
    {
        if acts.len() == 0 {
            self
        } else {
            self.after_all(acts.drop_last()).after(acts.last())
        }
    }

    /// Whether every act finds what the acts before it left.
    pub open spec fn explains(self, acts: Seq<Act>) -> bool
        decreases acts.len(),
    {
        acts.len() == 0 || {
            &&& self.explains(acts.drop_last())
            &&& self.after_all(acts.drop_last()).sees(acts.last())
        }
    }
}

broadcast proof fn act_after_acts(world: World, acts: Seq<Act>, act: Act)
    ensures
        #[trigger] world.after_all(acts.push(act)) == world.after_all(acts).after(act),
{
    assert(acts.push(act).drop_last() =~= acts);
}

broadcast proof fn act_explained(world: World, acts: Seq<Act>, act: Act)
    ensures
        #[trigger] world.explains(acts.push(act)) <==> world.explains(acts) && world.after_all(
            acts,
        ).sees(act),
{
    assert(acts.push(act).drop_last() =~= acts);
}

/// A message is admitted exactly when the connection is open, the message is within
/// its limit, its bytes are free and a place is free. An admission takes the bytes
/// and the place; a refusal, whichever it is, takes nothing, and says what there
/// was no room for.
pub proof fn admission_is_exact(
    driver: ConnectionDriver,
    world: World,
    message_size: usize,
    seen: AdmissionSeen,
)
    requires
        driver.config().valid(),
        world.pools[*driver.outbound_budget()] is Some,
        world.places[driver.outbound()] is Some,
        world.explains(driver.admission_acts(message_size, seen)),
        seen.is_answered(message_size),
    ensures
        ({
            let max = driver.config().max_message_size;
            let pool = *driver.outbound_budget();
            let queue = driver.outbound();
            let bytes = world.pools[pool]->0;
            let places = world.places[queue]->0;
            let answer = seen.answer(message_size, max);
            let after = world.after_all(driver.admission_acts(message_size, seen));
            &&& answer is Ok <==> world.state is Open && message_size <= max && message_size
                <= bytes && places >= 1
            &&& answer matches Ok(admission) ==> {
                &&& after.pools[pool] == Some((bytes - message_size) as nat)
                &&& after.places[queue] == Some((places - 1) as nat)
                &&& after.held[admission.byte_permit] == (pool, message_size as nat)
                &&& after.reserved[admission.item_permit] == queue
            }
            &&& answer is Err ==> after.pools[pool] == world.pools[pool] && after.places[queue]
                == world.places[queue]
            &&& after.state == world.state && after.signal == world.signal && after.queue
                == world.queue
            &&& !(world.state is Open) ==> answer == Err::<AdmissionView, DriverErrorView>(
                world.state.admission()->Err_0,
            )
            &&& world.state is Open && message_size > max ==> answer == Err::<
                AdmissionView,
                DriverErrorView,
            >(crate::driver::oversized(message_size, max))
            &&& world.state is Open && message_size <= max && message_size > bytes ==> answer
                == Err::<AdmissionView, DriverErrorView>(crate::driver::exhausted_budget())
            &&& world.state is Open && message_size <= max && message_size <= bytes && places == 0
                ==> answer == Err::<AdmissionView, DriverErrorView>(
                crate::driver::refused_place(ReserveError::Full, world.state),
            )
        }),
{
    broadcast use {act_after_acts, act_explained};

    let acts = driver.admission_acts(message_size, seen);
    let checked = seq![crate::journal::state_read(driver.state(), seen.state)];
    assert(world.after_all(Seq::<Act>::empty()) == world);
    assert(world.explains(checked));
    assert(seen.state == world.state);
}

/// An admission that is given up frees its bytes and its place.
pub proof fn dropped_admission_frees_its_room(world: World, admission: AdmissionView)
    ensures
        ({
            let (pool, count) = world.held[admission.byte_permit];
            let queue = world.reserved[admission.item_permit];
            let after = world.after_all(admission.return_acts());
            &&& after.pools[pool] == more(world.pools[pool], count)
            &&& after.places[queue] == more(world.places[queue], 1)
        }),
{
    broadcast use act_after_acts;

    let bytes = Act::BytesReturned { permit: admission.byte_permit };
    let place = Act::PlaceReturned { place: admission.item_permit };
    assert(admission.return_acts() =~= Seq::<Act>::empty().push(bytes).push(place));
    assert(world.after_all(admission.return_acts()) == world.after(bytes).after(place));
}

/// Whether these admissions are out at once: each has its bytes of the pool and its
/// place in the queue.
pub open spec fn are_out(
    world: World,
    driver: ConnectionDriver,
    admissions: Seq<AdmissionView>,
) -> bool {
    forall|i: int|
        0 <= i < admissions.len() ==> {
            &&& world.held[(#[trigger] admissions[i]).byte_permit] == (
                *driver.outbound_budget(),
                admissions[i].message_size as nat,
            )
            &&& world.reserved[admissions[i].item_permit] == driver.outbound()
        }
}

/// The bytes of all these admissions together.
pub open spec fn total_bytes(admissions: Seq<AdmissionView>) -> nat
    decreases admissions.len(),
{
    if admissions.len() == 0 {
        0
    } else {
        total_bytes(admissions.drop_last()) + admissions.last().message_size as nat
    }
}

/// What giving up all these admissions does, first to last.
pub open spec fn return_all_acts(admissions: Seq<AdmissionView>) -> Seq<Act>
    decreases admissions.len(),
{
    if admissions.len() == 0 {
        Seq::empty()
    } else {
        return_all_acts(admissions.drop_last()).push(
            Act::BytesReturned { permit: admissions.last().byte_permit },
        ).push(Act::PlaceReturned { place: admissions.last().item_permit })
    }
}

/// A further admission leaves those that are out as they are, since its permit and
/// its place are new: they and it are out at once.
pub proof fn further_admission_keeps_the_others(
    driver: ConnectionDriver,
    world: World,
    admissions: Seq<AdmissionView>,
    message_size: usize,
    seen: AdmissionSeen,
    entered: Seq<Act>,
)
    requires
        driver.config().valid(),
        world.pools[*driver.outbound_budget()] is Some,
        world.places[driver.outbound()] is Some,
        world.explains(driver.admission_acts(message_size, seen)),
        seen.is_answered(message_size),
        are_out(world, driver, admissions),
        seen.answer(message_size, driver.config().max_message_size) matches Ok(admission)
            && admission.is_new(entered),
        forall|i: int|
            0 <= i < admissions.len() ==> (#[trigger] admissions[i]).is_entered(entered),
    ensures
        are_out(
            world.after_all(driver.admission_acts(message_size, seen)),
            driver,
            admissions.push(
                seen.answer(message_size, driver.config().max_message_size)->Ok_0,
            ),
        ),
{
    broadcast use {act_after_acts, act_explained};

    admission_is_exact(driver, world, message_size, seen);
    let admission = seen.answer(message_size, driver.config().max_message_size)->Ok_0;
    let after = world.after_all(driver.admission_acts(message_size, seen));
    assert(after.held =~= world.held.insert(
        admission.byte_permit,
        (*driver.outbound_budget(), message_size as nat),
    ));
    assert(after.reserved =~= world.reserved.insert(admission.item_permit, driver.outbound()));
    let all = admissions.push(admission);
    assert forall|i: int| 0 <= i < all.len() implies {
        &&& after.held[(#[trigger] all[i]).byte_permit] == (
            *driver.outbound_budget(),
            all[i].message_size as nat,
        )
        &&& after.reserved[all[i].item_permit] == driver.outbound()
    } by {
        if i < admissions.len() {
            assert(all[i] == admissions[i]);
        }
    }
}

/// Giving up all admissions that are out at once frees all their bytes and places.
pub proof fn dropped_admissions_free_all_their_room(
    driver: ConnectionDriver,
    world: World,
    admissions: Seq<AdmissionView>,
)
    requires
        are_out(world, driver, admissions),
    ensures
        ({
            let pool = *driver.outbound_budget();
            let queue = driver.outbound();
            let after = world.after_all(return_all_acts(admissions));
            &&& after.pools[pool] == more(world.pools[pool], total_bytes(admissions))
            &&& after.places[queue] == more(world.places[queue], admissions.len())
            &&& after.held == world.held
            &&& after.reserved == world.reserved
            &&& after.state == world.state
        }),
    decreases admissions.len(),
{
    broadcast use act_after_acts;

    if admissions.len() > 0 {
        let earlier = admissions.drop_last();
        assert forall|i: int| 0 <= i < earlier.len() implies {
            &&& world.held[(#[trigger] earlier[i]).byte_permit] == (
                *driver.outbound_budget(),
                earlier[i].message_size as nat,
            )
            &&& world.reserved[earlier[i].item_permit] == driver.outbound()
        } by {
            assert(earlier[i] == admissions[i]);
        }
        dropped_admissions_free_all_their_room(driver, world, earlier);
        let last = admissions[admissions.len() - 1];
        assert(last == admissions.last());
        assert(world.held[last.byte_permit].0 == *driver.outbound_budget());
    }
}

proof fn two_acts(world: World, first: Act, second: Act)
    ensures
        world.after_all(seq![first, second]) == world.after(first).after(second),
        world.explains(seq![first, second]) <==> world.sees(first) && world.after(first).sees(
            second,
        ),
{
    broadcast use {act_after_acts, act_explained};

    assert(seq![first, second] =~= Seq::<Act>::empty().push(first).push(second));
}

proof fn three_acts(world: World, first: Act, second: Act, third: Act)
    ensures
        world.after_all(seq![first, second, third]) == world.after(first).after(second).after(
            third,
        ),
        world.explains(seq![first, second, third]) <==> world.sees(first) && world.after(
            first,
        ).sees(second) && world.after(first).after(second).sees(third),
{
    broadcast use {act_after_acts, act_explained};

    assert(seq![first, second, third] =~= Seq::<Act>::empty().push(first).push(second).push(
        third,
    ));
}

/// An admitted message is queued once, with its byte permit and the giving side of
/// the reply that its sender gets, unless it is refused, and then its room is free
/// again.
pub proof fn admitted_message_is_queued_or_its_room_freed(
    driver: ConnectionDriver,
    world: World,
    admission: AdmissionView,
    message: Message,
    found: DriverStateView,
    response: oneshot::Sender<Result<(), DriverError>>,
    reply: oneshot::Receiver<Result<(), DriverError>>,
)
    requires
        world.explains(driver.send_acts(admission, message, found, response, reply)),
    ensures
        ({
            let acts = driver.send_acts(admission, message, found, response, reply);
            let after = world.after_all(acts);
            let outcome = crate::driver::send_outcome(
                message@.size(),
                admission.message_size,
                world.state,
            );
            &&& found == world.state
            &&& outcome is Ok ==> after == (World {
                queue: world.queue.push(
                    OutboundCommand { message, response, permit: admission.byte_permit },
                ),
                ..world
            })
            &&& outcome is Err ==> after == world.after_all(admission.return_acts())
        }),
{
    broadcast use {act_after_acts, act_explained};

    let look = crate::journal::state_read(driver.state(), found);
    let bytes = Act::BytesReturned { permit: admission.byte_permit };
    let place = Act::PlaceReturned { place: admission.item_permit };
    let made = Act::ReplyMade { response, reply };
    let sent = Act::Sent {
        place: admission.item_permit,
        command: OutboundCommand { message, response, permit: admission.byte_permit },
    };
    let acts = driver.send_acts(admission, message, found, response, reply);
    two_acts(world, bytes, place);
    if crate::driver::send_outcome(message@.size(), admission.message_size, found) is Err {
        assert(acts =~= Seq::<Act>::empty().push(look).push(bytes).push(place));
    } else {
        assert(acts =~= Seq::<Act>::empty().push(look).push(made).push(sent));
    }
}

/// A message whose connection ended after it was admitted is not queued: its sender
/// is told how the connection ended.
pub proof fn ended_connection_answers_an_admitted_message(
    driver: ConnectionDriver,
    world: World,
    admission: AdmissionView,
    message: Message,
    found: DriverStateView,
    response: oneshot::Sender<Result<(), DriverError>>,
    reply: oneshot::Receiver<Result<(), DriverError>>,
    error: DriverErrorView,
)
    requires
        world.explains(driver.send_acts(admission, message, found, response, reply)),
        world.state == DriverStateView::Closed(error),
        message@.size() == admission.message_size,
    ensures
        crate::driver::send_outcome(message@.size(), admission.message_size, found) == Err::<
            (),
            DriverErrorView,
        >(error),
        world.after_all(driver.send_acts(admission, message, found, response, reply)).queue
            == world.queue,
{
    admitted_message_is_queued_or_its_room_freed(
        driver,
        world,
        admission,
        message,
        found,
        response,
        reply,
    );
    two_acts(
        world,
        Act::BytesReturned { permit: admission.byte_permit },
        Act::PlaceReturned { place: admission.item_permit },
    );
}

proof fn abort_leaves(
    driver: ConnectionDriver,
    world: World,
    state: DriverStateView,
    signal: ShutdownSignal,
)
    requires
        world.explains(driver.abort_acts(state, signal)),
    ensures
        ({
            let after = world.after_all(driver.abort_acts(state, signal));
            &&& state == world.state
            &&& after.state == world.state.after(StateStep::Terminal(crate::driver::given_up()))
            &&& after.signal is Abort
            &&& after.flags[*driver.closing()]
            &&& after.stopped.contains(driver.reader_abort())
            &&& after.stopped.contains(driver.writer_abort())
            &&& after.queue == world.queue
        }),
{
    broadcast use {act_after_acts, act_explained};

    let acts = driver.abort_acts(state, signal);
    assert(acts =~= Seq::<Act>::empty().push(acts[0]).push(acts[1]).push(acts[2]).push(
        acts[3],
    ).push(acts[4]));
}

/// Giving a connection up ends it, unless it has ended, asks the tasks to stop and
/// stops both. Doing it again changes neither the state nor the signal, and from
/// then on every request to send is refused with the outcome.
pub proof fn abort_ends_the_connection(
    driver: ConnectionDriver,
    world: World,
    state: DriverStateView,
    signal: ShutdownSignal,
    state_again: DriverStateView,
    signal_again: ShutdownSignal,
    later: Seq<StateStep>,
)
    requires
        world.explains(driver.abort_acts(state, signal)),
        world.after_all(driver.abort_acts(state, signal)).explains(
            driver.abort_acts(state_again, signal_again),
        ),
    ensures
        ({
            let after = world.after_all(driver.abort_acts(state, signal));
            let again = after.after_all(driver.abort_acts(state_again, signal_again));
            let outcome = match world.state {
                DriverStateView::Closed(error) => error,
                _ => crate::driver::given_up(),
            };
            &&& after.state == DriverStateView::Closed(outcome)
            &&& after.signal is Abort
            &&& after.stopped.contains(driver.reader_abort())
            &&& after.stopped.contains(driver.writer_abort())
            &&& again.state == after.state
            &&& again.signal == after.signal
            &&& after.state.after_all(later).admission() == Err::<(), DriverErrorView>(outcome)
        }),
{
    abort_leaves(driver, world, state, signal);
    let after = world.after_all(driver.abort_acts(state, signal));
    abort_leaves(driver, after, state_again, signal_again);
    crate::state::closed_is_absorbing(after.state->Closed_0, later);
}

proof fn close_leaves(driver: ConnectionDriver, world: World, seen: CloseSeen)
    requires
        world.explains(driver.close_acts(seen)),
        world.tasks < usize::MAX,
        driver.has_own_flags(),
    ensures
        ({
            let after = world.after_all(driver.close_acts(seen));
            let first = !world.flags[*driver.closing()];
            let started = first && world.state is Open;
            &&& seen.closing == !first
            &&& first ==> seen.state == world.state
            &&& started ==> seen.signal == world.signal && seen.watched
                == world.flags[driver.close_timeout_started()]
            &&& after.flags[*driver.closing()]
            &&& after.state == if first {
                world.state.after(StateStep::LocalClose)
            } else {
                world.state
            }
            &&& after.signal == if started {
                world.signal.after(SignalStep::LocalClose)
            } else {
                world.signal
            }
            &&& after.tasks == if seen.needs_watchdog() {
                world.tasks + 1
            } else {
                world.tasks as int
            }
        }),
{
    broadcast use {act_after_acts, act_explained};

    let count = driver.close_acts(seen)[0];
    let swap = driver.close_acts(seen)[1];
    assert(count == crate::lifecycle::tasks_write(
        driver.tasks_remaining(),
        seen.tasks,
        TaskStep::Started,
    ));
    assert(swap == Act::FlagSwapped {
        flag: *driver.closing(),
        found: seen.closing,
        value: true,
    });
    assert(seq![count, swap] =~= Seq::<Act>::empty().push(count).push(swap));
    two_acts(world, count, swap);
    let write = crate::journal::state_write(driver.state(), seen.state, StateStep::LocalClose);
    let counted = seq![count, swap];
    assert(world.after_all(counted).tasks == world.tasks + 1);
    if !seen.closing {
        assert(world.explains(counted.push(write)));
    }
    assert(world.explains(counted));
}

/// The first close of an open connection makes the close known, asks the writer to
/// start the handshake and counts one watchdog, and no message is admitted any more.
pub proof fn close_is_published_and_watched(
    driver: ConnectionDriver,
    world: World,
    seen: CloseSeen,
)
    requires
        world.explains(driver.close_acts(seen)),
        driver.has_own_flags(),
        world.state is Open,
        world.signal is Running,
        world.tasks < usize::MAX,
        !world.flags[*driver.closing()],
        !world.flags[driver.close_timeout_started()],
    ensures
        ({
            let after = world.after_all(driver.close_acts(seen));
            &&& seen.needs_watchdog()
            &&& after.state is Closing
            &&& after.signal is LocalClose
            &&& after.tasks == world.tasks + 1
            &&& after.flags[*driver.closing()]
            &&& after.state.admission() == Err::<(), DriverErrorView>(
                DriverErrorView::ClosedOk(CloseInfoView::local_normal()),
            )
        }),
{
    close_leaves(driver, world, seen);
}

/// A repeated close leaves the state, the signal and the number of tasks as they
/// were: a connection has at most one watchdog.
pub proof fn repeated_close_changes_nothing(
    driver: ConnectionDriver,
    world: World,
    seen: CloseSeen,
)
    requires
        world.explains(driver.close_acts(seen)),
        driver.has_own_flags(),
        world.tasks < usize::MAX,
        world.flags[*driver.closing()],
    ensures
        ({
            let after = world.after_all(driver.close_acts(seen));
            &&& !seen.needs_watchdog()
            &&& after.state == world.state
            &&& after.signal == world.signal
            &&& after.tasks == world.tasks
            &&& after.flags[*driver.closing()]
        }),
{
    close_leaves(driver, world, seen);
}

/// A second receive is refused and changes nothing, and once the first is over,
/// whether it got a message or was dropped, the next one may go on.
pub proof fn second_receive_changes_nothing(
    driver: ConnectionDriver,
    world: World,
    found: bool,
    found_later: bool,
)
    requires
        world.flags.contains_key(*driver.receive_active()),
        world.flags[*driver.receive_active()],
        world.sees(Act::FlagClaimed { flag: *driver.receive_active(), found }),
        world.after(Act::FlagSet { flag: *driver.receive_active(), value: false }).sees(
            Act::FlagClaimed { flag: *driver.receive_active(), found: found_later },
        ),
    ensures
        found,
        world.after(Act::FlagClaimed { flag: *driver.receive_active(), found }) == world,
        !found_later,
{
    assert(world.flags.insert(*driver.receive_active(), true) =~= world.flags);
}

/// A close that the peer does not answer ends with a timeout: both tasks are
/// stopped, and every caller of `close` gets that error as soon as no task is left,
/// whatever else is written.
pub proof fn silent_peer_times_out(
    driver: ConnectionDriver,
    world: World,
    found: DriverStateView,
    later: Seq<StateStep>,
)
    requires
        world.explains(driver.expiry_acts(found)),
        world.state is Closing || world.state is Open,
    ensures
        ({
            let after = world.after_all(driver.expiry_acts(found));
            let end = after.state.after_all(later);
            let timed_out = crate::state::close_timed_out();
            let waiting = ClosePhaseView::AwaitingEnd.next(CloseEventView::State(end));
            let looking = ClosePhaseView::Starting.next(CloseEventView::State(end));
            &&& after.state == DriverStateView::Closed(timed_out)
            &&& after.stopped.contains(driver.reader_abort())
            &&& after.stopped.contains(driver.writer_abort())
            &&& waiting == (
                ClosePhaseView::AwaitingTasks(timed_out),
                CloseActionView::CheckTasks,
            )
            &&& looking == waiting
            &&& forall|alive: bool|
                (#[trigger] waiting.0.next(CloseEventView::Tasks { remaining: 0, alive })).1
                    == CloseActionView::Return(Err(timed_out))
        }),
{
    let acts = driver.expiry_acts(found);
    assert(acts =~= seq![acts[0], acts[1], acts[2]]);
    three_acts(world, acts[0], acts[1], acts[2]);
    crate::state::closed_is_absorbing(crate::state::close_timed_out(), later);
}

/// The counting of the two tasks of a connection.
pub open spec fn two_tasks(cell: watch::Sender<usize>, first: usize, second: usize) -> Seq<Act> {
    seq![
        crate::lifecycle::tasks_write(cell, first, TaskStep::Started),
        crate::lifecycle::tasks_write(cell, second, TaskStep::Started),
    ]
}

/// A connection starts open and running, with all its bytes and places free, and
/// nobody closes it. It has no task, and two once its two tasks are counted.
pub proof fn connection_starts_as_configured(
    world: World,
    config: ConnectionConfig,
    channels: Channels,
    first: usize,
    second: usize,
)
    ensures
        ({
            let after = world.after_all(channels.opening_acts(config));
            &&& after.state is Open
            &&& after.signal is Running
            &&& after.tasks == 0
            &&& after.pools[*channels.inbound_budget] == Some(config.max_buffered_bytes as nat)
            &&& after.pools[*channels.outbound_budget] == Some(config.max_buffered_bytes as nat)
            &&& after.places[channels.outbound] == Some(config.max_queue as nat)
            &&& !after.flags[*channels.closing]
            &&& after.explains(two_tasks(channels.tasks_remaining, first, second))
                ==> after.after_all(two_tasks(channels.tasks_remaining, first, second)).tasks == 2
            &&& forall|size: usize|
                (#[trigger] crate::driver::outbound_check(
                    after.state,
                    size,
                    config.max_message_size,
                )) is Ok <==> size <= config.max_message_size
        }),
{
    broadcast use act_after_acts;

    let acts = channels.opening_acts(config);
    assert(acts =~= Seq::<Act>::empty().push(acts[0]).push(acts[1]).push(acts[2]).push(
        acts[3],
    ).push(acts[4]).push(acts[5]).push(acts[6]).push(acts[7]).push(acts[8]));
    let tasks = two_tasks(channels.tasks_remaining, first, second);
    two_acts(world.after_all(acts), tasks[0], tasks[1]);
    assert(tasks =~= seq![tasks[0], tasks[1]]);
}

/// A peer's close runs to its end: on a connection that had no outcome it is
/// recorded and signalled, and both the settling writer and the expired wait then
/// end the connection with it.
pub proof fn peer_close_runs_to_its_end(
    context: ReaderContext,
    world: World,
    outcome: DriverErrorView,
    state: DriverStateView,
    signal: ShutdownSignal,
    cell: watch::Sender<DriverState>,
    found: DriverStateView,
    before: DriverStateView,
)
    requires
        world.explains(context.peer_close_acts(outcome, state, signal)),
        world.state is Open || world.state is Closing,
    ensures
        ({
            let known = world.after_all(context.peer_close_acts(outcome, state, signal));
            let settled = known.after_all(crate::driver::settle_acts(cell, found, before));
            let expired = known.after_all(context.peer_expiry_acts(outcome, before));
            &&& known.state == DriverStateView::PeerClosed(outcome)
            &&& known.signal.rank() >= ShutdownSignal::PeerClose.rank()
            &&& known.explains(crate::driver::settle_acts(cell, found, before)) ==> settled.state
                == DriverStateView::Closed(outcome)
            &&& known.explains(context.peer_expiry_acts(outcome, before)) ==> {
                &&& expired.state == DriverStateView::Closed(outcome)
                &&& expired.stopped.contains(context.writer_abort)
            }
        }),
{
    broadcast use {act_after_acts, act_explained};

    let recorded = context.peer_close_acts(outcome, state, signal);
    assert(recorded =~= seq![recorded[0], recorded[1]]);
    two_acts(world, recorded[0], recorded[1]);
    let known = world.after_all(recorded);
    let expiry = context.peer_expiry_acts(outcome, before);
    assert(expiry =~= seq![expiry[0], expiry[1]]);
    two_acts(known, expiry[0], expiry[1]);
    let look = crate::journal::state_read(cell, found);
    if known.explains(crate::driver::settle_acts(cell, found, before)) {
        assert(known.explains(seq![look]));
        assert(found == known.state);
    }
}

/// A close frame ends the connection with what it says: the reader reads no further,
/// and the outcome that it finishes the close with is that of the frame, with who
/// began as it was before the frame.
pub proof fn close_frame_ends_the_connection(
    context: ReaderContext,
    world: World,
    frame: Option<CloseFrameView>,
    closing: bool,
    state: DriverStateView,
    signal: ShutdownSignal,
    cell: watch::Sender<DriverState>,
    found: DriverStateView,
    before: DriverStateView,
)
    requires
        world.explains(
            context.peer_close_acts(
                crate::reader::close_outcome(frame, closing),
                state,
                signal,
            ),
        ),
        world.state is Open || world.state is Closing,
    ensures
        ({
            let outcome = crate::reader::close_outcome(frame, closing);
            let known = world.after_all(context.peer_close_acts(outcome, state, signal));
            &&& ReaderPhase::Polling.next(
                ReaderEventView::Received(MessageView::Close(frame)),
                closing,
            ) == (ReaderPhase::Stopped, ReaderActionView::FinishPeerClose(outcome))
            &&& known.state == DriverStateView::PeerClosed(outcome)
            &&& known.signal.rank() >= ShutdownSignal::PeerClose.rank()
            &&& known.explains(crate::driver::settle_acts(cell, found, before))
                ==> known.after_all(crate::driver::settle_acts(cell, found, before)).state
                == DriverStateView::Closed(outcome)
            &&& known.explains(context.peer_expiry_acts(outcome, before)) ==> known.after_all(
                context.peer_expiry_acts(outcome, before),
            ).state == DriverStateView::Closed(outcome)
        }),
{
    peer_close_runs_to_its_end(
        context,
        world,
        crate::reader::close_outcome(frame, closing),
        state,
        signal,
        cell,
        found,
        before,
    );
}

/// A socket that ends while a close is under way ends the connection as a clean
/// close by this endpoint.
pub proof fn clean_end_becomes_the_outcome(
    context: ReaderContext,
    world: World,
    event: ReaderEventView,
    state: DriverStateView,
    signal: ShutdownSignal,
    cell: watch::Sender<DriverState>,
    found: DriverStateView,
    before: DriverStateView,
)
    requires
        event is Ended || (event matches ReaderEventView::Failed { connection_closed, .. }
            && connection_closed),
        world.explains(
            context.peer_close_acts(
                DriverErrorView::ClosedOk(CloseInfoView::local_normal()),
                state,
                signal,
            ),
        ),
        world.state is Open || world.state is Closing,
    ensures
        ({
            let outcome = DriverErrorView::ClosedOk(CloseInfoView::local_normal());
            let known = world.after_all(context.peer_close_acts(outcome, state, signal));
            &&& ReaderPhase::Polling.next(event, true) == (
                ReaderPhase::Stopped,
                ReaderActionView::FinishPeerClose(outcome),
            )
            &&& known.state == DriverStateView::PeerClosed(outcome)
            &&& known.explains(crate::driver::settle_acts(cell, found, before))
                ==> known.after_all(crate::driver::settle_acts(cell, found, before)).state
                == DriverStateView::Closed(outcome)
        }),
{
    peer_close_runs_to_its_end(
        context,
        world,
        DriverErrorView::ClosedOk(CloseInfoView::local_normal()),
        state,
        signal,
        cell,
        found,
        before,
    );
}

/// The error of a socket that failed, or ended, while no close was under way.
pub open spec fn reading_error(event: ReaderEventView) -> DriverErrorView {
    match event {
        ReaderEventView::Failed { description, .. } => DriverErrorView::Transport(
            "WebSocket receive failed: "@ + description,
        ),
        _ => DriverErrorView::Transport("WebSocket transport ended without a close frame"@),
    }
}

/// A reading failure ends the connection at once: unless it has ended, it ends with
/// the failure, the tasks are asked to stop and the writer is stopped.
pub proof fn reading_failure_stops_the_writer(
    context: ReaderContext,
    world: World,
    event: ReaderEventView,
    state: DriverStateView,
    signal: ShutdownSignal,
)
    requires
        event is Ended || event is Failed,
        world.explains(context.failure_acts(reading_error(event), state, signal)),
        !(world.state is Closed),
    ensures
        ({
            let after = world.after_all(
                context.failure_acts(reading_error(event), state, signal),
            );
            &&& ReaderPhase::Polling.next(event, false) == (
                ReaderPhase::Stopped,
                ReaderActionView::Fail(reading_error(event)),
            )
            &&& after.state == DriverStateView::Closed(reading_error(event))
            &&& after.signal is Abort
            &&& after.stopped.contains(context.writer_abort)
        }),
{
    let acts = context.failure_acts(reading_error(event), state, signal);
    assert(acts =~= seq![acts[0], acts[1], acts[2]]);
    three_acts(world, acts[0], acts[1], acts[2]);
}

/// A writing failure ends the connection with the outcome already decided, or else
/// with the failure, and asks the tasks to stop. The sender of the message at hand
/// is told that very outcome.
pub proof fn writing_failure_ends_the_connection(
    state: watch::Sender<DriverState>,
    shutdown: watch::Sender<ShutdownSignal>,
    world: World,
    event: WriterEventView,
    phase: WriterPhase,
    before: DriverStateView,
    found: DriverStateView,
    signal: ShutdownSignal,
)
    requires
        phase.next(event).1 is Fail,
        world.explains(
            crate::driver::writer_end_acts(
                state,
                shutdown,
                phase.next(event).1->error,
                before,
                found,
                signal,
            ),
        ),
    ensures
        ({
            let error = phase.next(event).1->error;
            let after = world.after_all(
                crate::driver::writer_end_acts(state, shutdown, error, before, found, signal),
            );
            let outcome = world.state.outcome_or(error);
            &&& after.state == DriverStateView::Closed(outcome)
            &&& after.signal is Abort
            &&& found.outcome_or(error) == outcome
        }),
{
    broadcast use {act_after_acts, act_explained};

    let error = phase.next(event).1->error;
    let acts = crate::driver::writer_end_acts(state, shutdown, error, before, found, signal);
    assert(acts =~= Seq::<Act>::empty().push(acts[0]).push(acts[1]).push(acts[2]));
}

/// A failed send and a reader that is gone are such failures.
pub proof fn failed_send_and_stopped_reader_are_writing_failures(description: Seq<char>)
    ensures
        WriterPhase::Sending.next(WriterEventView::Written(Some(description))).1
            == (WriterActionView::Fail {
            error: DriverErrorView::Transport("WebSocket send failed: "@ + description),
            reply: true,
        }),
        WriterPhase::Selecting.next(WriterEventView::Control(None)).1 == (WriterActionView::Fail {
            error: DriverErrorView::Transport("connection reader stopped unexpectedly"@),
            reply: false,
        }),
{
}

/// Whether an act publishes a state at least as far as `rank`.
pub open spec fn publishes(act: Act, rank: int) -> bool {
    act matches Act::StateWritten { after, .. } && after.rank() >= rank
}

/// Whether some act publishes a state at least as far as `rank`.
pub open spec fn has_published(acts: Seq<Act>, rank: int) -> bool {
    exists|j: int| 0 <= j < acts.len() && #[trigger] publishes(acts[j], rank)
}

/// Whether an act may follow the acts of its task: it never takes the lifecycle
/// back, and it raises a signal only after a state at least as far was published.
pub open spec fn may_follow(acts: Seq<Act>, act: Act) -> bool {
    match act {
        Act::StateMade { .. } => false,
        Act::SignalMade { .. } => false,
        Act::StateWritten { before, after, .. } => before.rank() <= after.rank(),
        Act::SignalWritten { before, after, .. } => after == before || has_published(
            acts,
            after.rank(),
        ),
        _ => true,
    }
}

/// Whether every act may follow those before it.
pub open spec fn in_order(acts: Seq<Act>) -> bool
    decreases acts.len(),
{
    acts.len() == 0 || {
        &&& in_order(acts.drop_last())
        &&& may_follow(acts.drop_last(), acts.last())
    }
}

broadcast proof fn act_in_order(acts: Seq<Act>, act: Act)
    ensures
        #[trigger] in_order(acts.push(act)) <==> in_order(acts) && may_follow(acts, act),
{
    assert(acts.push(act).drop_last() =~= acts);
}

proof fn raises_after(acts: Seq<Act>, j: int, act: Act)
    requires
        0 <= j < acts.len(),
        act matches Act::SignalWritten { before, after, .. } && (after == before || publishes(
            acts[j],
            after.rank(),
        )),
    ensures
        may_follow(acts, act),
{
}

/// Every operation keeps the order: whatever it finds, it publishes before it
/// signals.
pub proof fn operations_keep_the_order(
    driver: ConnectionDriver,
    context: ReaderContext,
    message_size: usize,
    seen: AdmissionSeen,
    admission: AdmissionView,
    message: Message,
    response: oneshot::Sender<Result<(), DriverError>>,
    reply: oneshot::Receiver<Result<(), DriverError>>,
    close: CloseSeen,
    error: DriverErrorView,
    found: DriverStateView,
    before: DriverStateView,
    signal: ShutdownSignal,
)
    ensures
        in_order(driver.admission_acts(message_size, seen)),
        in_order(driver.send_acts(admission, message, found, response, reply)),
        in_order(driver.close_acts(close)),
        in_order(driver.abort_acts(before, signal)),
        in_order(driver.expiry_acts(before)),
        in_order(context.peer_close_acts(error, before, signal)),
        in_order(context.peer_expiry_acts(error, before)),
        in_order(context.failure_acts(error, before, signal)),
        in_order(
            crate::driver::writer_end_acts(
                context.state,
                context.shutdown,
                error,
                before,
                found,
                signal,
            ),
        ),
        in_order(crate::driver::settle_acts(context.state, found, before)),
{
    broadcast use act_in_order;

    let nothing = Seq::<Act>::empty();
    let abort = driver.abort_acts(before, signal);
    let ended = nothing.push(abort[0]).push(abort[1]);
    raises_after(ended, 1, abort[2]);
    assert(abort =~= ended.push(abort[2]).push(abort[3]).push(abort[4]));
    let expiry = driver.expiry_acts(before);
    assert(expiry =~= nothing.push(expiry[0]).push(expiry[1]).push(expiry[2]));
    let peer = context.peer_close_acts(error, before, signal);
    raises_after(nothing.push(peer[0]), 0, peer[1]);
    assert(peer =~= nothing.push(peer[0]).push(peer[1]));
    let stalled = context.peer_expiry_acts(error, before);
    assert(stalled =~= nothing.push(stalled[0]).push(stalled[1]));
    let failure = context.failure_acts(error, before, signal);
    raises_after(nothing.push(failure[0]), 0, failure[1]);
    assert(failure =~= nothing.push(failure[0]).push(failure[1]).push(failure[2]));
    let end = crate::driver::writer_end_acts(
        context.state,
        context.shutdown,
        error,
        before,
        found,
        signal,
    );
    let told = nothing.push(end[0]).push(end[1]);
    raises_after(told, 0, end[2]);
    assert(end =~= told.push(end[2]));
    let send = driver.send_acts(admission, message, found, response, reply);
    assert(send =~= nothing.push(send[0]).push(send[1]).push(send[2]));
    let close_acts = driver.close_acts(close);
    let counted = nothing.push(close_acts[0]).push(close_acts[1]);
    assert(counted =~= seq![close_acts[0], close_acts[1]]);
    assert(in_order(counted));
    if !close.closing && close.state is Open {
        let published = counted.push(close_acts[2]);
        raises_after(published, 2, close_acts[3]);
        assert(in_order(published.push(close_acts[3]).push(close_acts[4])));
    }
}

/// Whether `all` is the acts of two tasks, each in its own order, with the acts of
/// the other in between.
pub open spec fn interleaved(one: Seq<Act>, other: Seq<Act>, all: Seq<Act>) -> bool
    decreases all.len(),
{
    if all.len() == 0 {
        one.len() == 0 && other.len() == 0
    } else {
        ||| one.len() > 0 && one.last() == all.last() && interleaved(
            one.drop_last(),
            other,
            all.drop_last(),
        )
        ||| other.len() > 0 && other.last() == all.last() && interleaved(
            one,
            other.drop_last(),
            all.drop_last(),
        )
    }
}

proof fn later_acts_keep_published(acts: Seq<Act>, rank: int)
    requires
        acts.len() > 0,
    ensures
        has_published(acts, rank) <==> has_published(acts.drop_last(), rank) || publishes(
            acts.last(),
            rank,
        ),
{
    let earlier = acts.drop_last();
    if has_published(earlier, rank) {
        let j = choose|j: int| 0 <= j < earlier.len() && #[trigger] publishes(earlier[j], rank);
        assert(publishes(acts[j], rank));
    }
    if publishes(acts.last(), rank) {
        assert(publishes(acts[acts.len() - 1], rank));
    }
    if has_published(acts, rank) {
        let j = choose|j: int| 0 <= j < acts.len() && #[trigger] publishes(acts[j], rank);
        if j < acts.len() - 1 {
            assert(publishes(earlier[j], rank));
        }
    }
}

proof fn interleaving_keeps_published(one: Seq<Act>, other: Seq<Act>, all: Seq<Act>, rank: int)
    requires
        interleaved(one, other, all),
        has_published(one, rank) || has_published(other, rank),
    ensures
        has_published(all, rank),
    decreases all.len(),
{
    if all.len() > 0 {
        later_acts_keep_published(all, rank);
        if !publishes(all.last(), rank) {
            if one.len() > 0 && one.last() == all.last() && interleaved(
                one.drop_last(),
                other,
                all.drop_last(),
            ) {
                later_acts_keep_published(one, rank);
                interleaving_keeps_published(one.drop_last(), other, all.drop_last(), rank);
            } else {
                later_acts_keep_published(other, rank);
                interleaving_keeps_published(one, other.drop_last(), all.drop_last(), rank);
            }
        }
    }
}

/// Tasks that keep the order each for itself keep it together, however their acts
/// fall between each other.
pub proof fn interleaving_keeps_the_order(one: Seq<Act>, other: Seq<Act>, all: Seq<Act>)
    requires
        in_order(one),
        in_order(other),
        interleaved(one, other, all),
    ensures
        in_order(all),
    decreases all.len(),
{
    if all.len() > 0 {
        let rest = all.drop_last();
        if one.len() > 0 && one.last() == all.last() && interleaved(one.drop_last(), other, rest) {
            interleaving_keeps_the_order(one.drop_last(), other, rest);
            match all.last() {
                Act::SignalWritten { before, after, .. } => {
                    if after != before {
                        interleaving_keeps_published(one.drop_last(), other, rest, after.rank());
                    }
                },
                _ => {},
            }
        } else {
            interleaving_keeps_the_order(one, other.drop_last(), rest);
            match all.last() {
                Act::SignalWritten { before, after, .. } => {
                    if after != before {
                        interleaving_keeps_published(one, other.drop_last(), rest, after.rank());
                    }
                },
                _ => {},
            }
        }
    }
}

proof fn published_state_stays(world: World, acts: Seq<Act>, j: int, rank: int)
    requires
        in_order(acts),
        world.explains(acts),
        0 <= j < acts.len(),
        publishes(acts[j], rank),
    ensures
        world.after_all(acts).state.rank() >= rank,
    decreases acts.len(),
{
    if j < acts.len() - 1 {
        assert(acts.drop_last()[j] == acts[j]);
        published_state_stays(world, acts.drop_last(), j, rank);
    }
}

/// What a signal asks for has been published before: whoever sees a local close,
/// a peer's close or an abort finds the state at least as far, so no message is
/// admitted any more. It holds of all tasks together, because each operation keeps
/// the order and so do tasks side by side.
pub proof fn signal_never_outruns_state(world: World, acts: Seq<Act>)
    requires
        world.signal.rank() <= world.state.rank(),
        world.explains(acts),
        in_order(acts),
    ensures
        world.after_all(acts).signal.rank() <= world.after_all(acts).state.rank(),
        !(world.after_all(acts).signal is Running) ==> world.after_all(
            acts,
        ).state.admission() is Err,
    decreases acts.len(),
{
    if acts.len() > 0 {
        let earlier = acts.drop_last();
        signal_never_outruns_state(world, earlier);
        match acts.last() {
            Act::SignalWritten { before, after, .. } => {
                if after != before {
                    let j = choose|j: int|
                        0 <= j < earlier.len() && #[trigger] publishes(earlier[j], after.rank());
                    published_state_stays(world, earlier, j, after.rank());
                }
            },
            _ => {},
        }
    }
}

/// Whether an act wakes who waits: every change of the state and of the signal
/// does, and so does every count.
pub open spec fn wakes(act: Act) -> bool {
    match act {
        Act::StateWritten { before, after, woken, .. } => woken == (after != before),
        Act::SignalWritten { before, after, woken, .. } => woken == (after != before),
        Act::TasksWritten { woken, .. } => woken,
        _ => true,
    }
}

/// Whether every act wakes who waits.
pub open spec fn all_wake(acts: Seq<Act>) -> bool {
    forall|i: int| 0 <= i < acts.len() ==> wakes(#[trigger] acts[i])
}

/// No operation changes what a task waits for without waking it.
pub proof fn operations_wake_who_waits(
    driver: ConnectionDriver,
    context: ReaderContext,
    close: CloseSeen,
    error: DriverErrorView,
    found: DriverStateView,
    before: DriverStateView,
    signal: ShutdownSignal,
)
    ensures
        all_wake(driver.close_acts(close)),
        all_wake(driver.abort_acts(before, signal)),
        all_wake(driver.expiry_acts(before)),
        all_wake(context.peer_close_acts(error, before, signal)),
        all_wake(context.peer_expiry_acts(error, before)),
        all_wake(context.failure_acts(error, before, signal)),
        all_wake(
            crate::driver::writer_end_acts(
                context.state,
                context.shutdown,
                error,
                before,
                found,
                signal,
            ),
        ),
        all_wake(crate::driver::settle_acts(context.state, found, before)),
{
}

/// A message that is handed over on a connection that has not ended is queued, however
/// large it is, with its byte permit and the giving side of its reply, and nothing else
/// changes.
pub proof fn handed_over_message_is_queued(
    driver: ConnectionDriver,
    world: World,
    admission: AdmissionView,
    message: Message,
    found: DriverStateView,
    response: oneshot::Sender<Result<(), DriverError>>,
    reply: oneshot::Receiver<Result<(), DriverError>>,
)
    requires
        world.explains(driver.send_acts(admission, message, found, response, reply)),
        message@.size() == admission.message_size,
        !(world.state is Closed),
    ensures
        ({
            let after = world.after_all(
                driver.send_acts(admission, message, found, response, reply),
            );
            &&& after.queue.len() == world.queue.len() + 1
            &&& after.queue.drop_last() == world.queue
            &&& after.queue.last().message == message
            &&& after.queue.last().permit == admission.byte_permit
            &&& after.queue.last().response == response
            &&& after.state == world.state
            &&& after.pools == world.pools
            &&& after.places == world.places
        }),
{
    admitted_message_is_queued_or_its_room_freed(
        driver,
        world,
        admission,
        message,
        found,
        response,
        reply,
    );
    let after = world.after_all(driver.send_acts(admission, message, found, response, reply));
    assert(after.queue.drop_last() =~= world.queue);
}

/// A close on a connection that is not open starts nothing: state, signal and number of
/// tasks are as before, and nobody watches.
pub proof fn close_starts_on_an_open_connection_only(
    driver: ConnectionDriver,
    world: World,
    seen: CloseSeen,
)
    requires
        world.explains(driver.close_acts(seen)),
        driver.has_own_flags(),
        world.tasks < usize::MAX,
        !(world.state is Open),
    ensures
        ({
            let after = world.after_all(driver.close_acts(seen));
            &&& !seen.needs_watchdog()
            &&& after.state == world.state
            &&& after.signal == world.signal
            &&& after.tasks == world.tasks
            &&& after.flags[*driver.closing()]
        }),
{
    close_leaves(driver, world, seen);
}

/// An expired close ends the connection and stops both tasks in whatever state it finds
/// it, and keeps an outcome that was decided.
pub proof fn expired_close_always_stops_the_tasks(
    driver: ConnectionDriver,
    world: World,
    found: DriverStateView,
)
    requires
        world.explains(driver.expiry_acts(found)),
    ensures
        ({
            let after = world.after_all(driver.expiry_acts(found));
            &&& after.state matches DriverStateView::Closed(end) && (world.state.outcome() matches
                Some(outcome) ==> end == outcome)
            &&& after.stopped.contains(driver.reader_abort())
            &&& after.stopped.contains(driver.writer_abort())
            &&& after.signal == world.signal
        }),
{
    let acts = driver.expiry_acts(found);
    assert(acts =~= seq![acts[0], acts[1], acts[2]]);
    three_acts(world, acts[0], acts[1], acts[2]);
}

/// A reading failure aborts and stops the writer in whatever state it finds the
/// connection, and keeps an end that came before.
pub proof fn reading_failure_always_aborts(
    context: ReaderContext,
    world: World,
    error: DriverErrorView,
    state: DriverStateView,
    signal: ShutdownSignal,
)
    requires
        world.explains(context.failure_acts(error, state, signal)),
    ensures
        ({
            let after = world.after_all(context.failure_acts(error, state, signal));
            &&& world.state is Closed ==> after.state == world.state
            &&& !(world.state is Closed) ==> after.state == DriverStateView::Closed(error)
            &&& after.signal is Abort
            &&& after.stopped.contains(context.writer_abort)
        }),
{
    let acts = context.failure_acts(error, state, signal);
    assert(acts =~= seq![acts[0], acts[1], acts[2]]);
    three_acts(world, acts[0], acts[1], acts[2]);
}

/// A peer's close is signalled in whatever state it finds the connection, unless an
/// abort was, and recorded unless an outcome was decided.
pub proof fn peer_close_is_always_signalled(
    context: ReaderContext,
    world: World,
    outcome: DriverErrorView,
    state: DriverStateView,
    signal: ShutdownSignal,
)
    requires
        world.explains(context.peer_close_acts(outcome, state, signal)),
    ensures
        ({
            let after = world.after_all(context.peer_close_acts(outcome, state, signal));
            &&& world.signal is Abort ==> after.signal is Abort
            &&& !(world.signal is Abort) ==> after.signal is PeerClose
            &&& world.state is Closed || world.state is PeerClosed ==> after.state == world.state
            &&& world.state is Open || world.state is Closing ==> after.state
                == DriverStateView::PeerClosed(outcome)
        }),
{
    let acts = context.peer_close_acts(outcome, state, signal);
    assert(acts =~= seq![acts[0], acts[1]]);
    two_acts(world, acts[0], acts[1]);
}

/// A peer's close that stalls ends the connection with its outcome and stops the writer,
/// unless the connection had ended.
pub proof fn stalled_peer_close_always_stops_the_writer(
    context: ReaderContext,
    world: World,
    outcome: DriverErrorView,
    state: DriverStateView,
)
    requires
        world.explains(context.peer_expiry_acts(outcome, state)),
    ensures
        ({
            let after = world.after_all(context.peer_expiry_acts(outcome, state));
            &&& world.state is Closed ==> after.state == world.state
            &&& !(world.state is Closed) ==> after.state == DriverStateView::Closed(outcome)
            &&& after.stopped.contains(context.writer_abort)
        }),
{
    let acts = context.peer_expiry_acts(outcome, state);
    assert(acts =~= seq![acts[0], acts[1]]);
    two_acts(world, acts[0], acts[1]);
}

/// A writing failure aborts in whatever state it finds the connection, ends it with what
/// the peer or an earlier end decided, or else with the failure, and finds that outcome.
pub proof fn writing_failure_always_aborts(
    state: watch::Sender<DriverState>,
    shutdown: watch::Sender<ShutdownSignal>,
    world: World,
    error: DriverErrorView,
    before: DriverStateView,
    found: DriverStateView,
    signal: ShutdownSignal,
)
    requires
        world.explains(
            crate::driver::writer_end_acts(state, shutdown, error, before, found, signal),
        ),
    ensures
        ({
            let after = world.after_all(
                crate::driver::writer_end_acts(state, shutdown, error, before, found, signal),
            );
            &&& after.signal is Abort
            &&& after.state == found
            &&& world.state matches DriverStateView::Closed(outcome) ==> found
                == DriverStateView::Closed(outcome)
            &&& world.state matches DriverStateView::PeerClosed(outcome) ==> found
                == DriverStateView::Closed(outcome)
            &&& world.state is Open || world.state is Closing ==> found == DriverStateView::Closed(
                error,
            )
        }),
{
    broadcast use {act_after_acts, act_explained};

    let acts = crate::driver::writer_end_acts(state, shutdown, error, before, found, signal);
    assert(acts =~= Seq::<Act>::empty().push(acts[0]).push(acts[1]).push(acts[2]));
}

/// Settling ends exactly a connection that the peer closed, with the peer's outcome, and
/// leaves every other as it is.
pub proof fn settling_ends_exactly_peer_closes(
    cell: watch::Sender<DriverState>,
    world: World,
    found: DriverStateView,
    before: DriverStateView,
)
    requires
        world.explains(crate::driver::settle_acts(cell, found, before)),
    ensures
        ({
            let after = world.after_all(crate::driver::settle_acts(cell, found, before));
            &&& world.state matches DriverStateView::PeerClosed(outcome) ==> after.state
                == DriverStateView::Closed(outcome)
            &&& !(world.state is PeerClosed) ==> after == world
            &&& found == world.state
        }),
{
    broadcast use {act_after_acts, act_explained};

    let look = crate::journal::state_read(cell, found);
    assert(world.explains(seq![look]));
    assert(world.after_all(seq![look]) == world);
}

/// Whatever the limits of a connection are, a message is admitted exactly when the
/// connection is open and the message is within the limit, can be counted in permits and
/// finds its bytes and a place free. It takes just those bytes and that place, and a
/// refused one takes nothing.
pub proof fn admission_takes_its_room_exactly(
    driver: ConnectionDriver,
    world: World,
    message_size: usize,
    seen: AdmissionSeen,
)
    requires
        world.pools[*driver.outbound_budget()] is Some,
        world.places[driver.outbound()] is Some,
        world.explains(driver.admission_acts(message_size, seen)),
        seen.is_answered(message_size),
    ensures
        ({
            let max = driver.config().max_message_size;
            let pool = *driver.outbound_budget();
            let queue = driver.outbound();
            let bytes = world.pools[pool]->0;
            let places = world.places[queue]->0;
            let admitted = seen.answer(message_size, max) is Ok;
            let after = world.after_all(driver.admission_acts(message_size, seen));
            &&& admitted <==> world.state is Open && message_size <= max && message_size
                <= 0xffff_ffff && message_size <= bytes && places >= 1
            &&& admitted ==> after.pools[pool]->0 + message_size == bytes && after.pools[pool]
                is Some
            &&& admitted ==> after.places[queue]->0 + 1 == places && after.places[queue] is Some
            &&& !admitted ==> after.pools[pool] == world.pools[pool] && after.places[queue]
                == world.places[queue]
            &&& admitted ==> (seen.answer(message_size, max)->Ok_0).message_size == message_size
        }),
{
    broadcast use {act_after_acts, act_explained};

    let checked = seq![crate::journal::state_read(driver.state(), seen.state)];
    assert(world.after_all(Seq::<Act>::empty()) == world);
    assert(world.explains(checked));
    assert(seen.state == world.state);
}

} // verus!
