//! What a task does to what the tasks of a connection share.
//!
//! The values behind tokio's handles are shared, so no contract can say what a
//! handle holds from one call to the next. What a function did, and what it
//! found when it did it, can be said: every act on a shared value is entered in a
//! [`Journal`], and the contracts speak of the entries. They bind the journal that
//! the caller hands in, so no function of this library makes a journal of its own
//! to act in. A journal exists for proofs only; at run time it is empty.

use std::sync::atomic::AtomicBool;

use tokio::sync::{mpsc, oneshot, watch, OwnedSemaphorePermit, Semaphore};
use tokio::task::AbortHandle;
use vstd::prelude::*;

use crate::channel::ReserveError;
use crate::driver::{InboundEnvelope, OutboundCommand};
use crate::error::{DriverError, DriverErrorView};
use crate::shutdown::{ShutdownSignal, SignalStep};
use crate::state::{DriverState, DriverStateView, StateStep};
use crate::writer::WriterControl;

verus! {

/// One act on what the tasks of a connection share, with what it found.
#[allow(inconsistent_fields)]
pub enum Act {
    /// The shared state was made.
    StateMade {
        sender: watch::Sender<DriverState>,
        receiver: watch::Receiver<DriverState>,
        value: DriverStateView,
    },
    /// The shared signal was made.
    SignalMade {
        sender: watch::Sender<ShutdownSignal>,
        receiver: watch::Receiver<ShutdownSignal>,
        value: ShutdownSignal,
    },
    /// The shared number of tasks was made.
    TasksMade { sender: watch::Sender<usize>, receiver: watch::Receiver<usize>, value: usize },
    /// A queue of received messages was made.
    InboundMade {
        sender: mpsc::Sender<InboundEnvelope>,
        receiver: mpsc::Receiver<InboundEnvelope>,
        capacity: usize,
    },
    /// A queue of messages to send was made.
    OutboundMade {
        sender: mpsc::Sender<OutboundCommand>,
        receiver: mpsc::Receiver<OutboundCommand>,
        capacity: usize,
    },
    /// A queue of control requests was made.
    ControlMade {
        sender: mpsc::Sender<WriterControl>,
        receiver: mpsc::Receiver<WriterControl>,
        capacity: usize,
    },
    /// A pool with this many free permits was made.
    PoolMade { pool: Semaphore, permits: usize },
    /// A flag with this value was made.
    FlagMade { flag: AtomicBool, value: bool },
    /// The state was read.
    StateRead { cell: watch::Sender<DriverState>, found: DriverStateView },
    /// The state was written, and who waits for it was woken or not.
    StateWritten {
        cell: watch::Sender<DriverState>,
        before: DriverStateView,
        after: DriverStateView,
        woken: bool,
    },
    /// The signal was written, and who waits for it was woken or not.
    SignalWritten {
        cell: watch::Sender<ShutdownSignal>,
        before: ShutdownSignal,
        after: ShutdownSignal,
        woken: bool,
    },
    /// The number of tasks was written, and who waits for it was woken or not.
    TasksWritten { cell: watch::Sender<usize>, before: usize, after: usize, woken: bool },
    /// A flag was read.
    FlagRead { flag: AtomicBool, found: bool },
    /// A flag was set to this value.
    FlagSet { flag: AtomicBool, value: bool },
    /// A flag was set to this value, in exchange for what it held.
    FlagSwapped { flag: AtomicBool, found: bool, value: bool },
    /// A flag was set unless it was set already.
    FlagClaimed { flag: AtomicBool, found: bool },
    /// Permits were asked of a pool with this many free ones, or of a closed one.
    BytesAsked {
        pool: Semaphore,
        count: u32,
        free: Option<nat>,
        permit: Option<OwnedSemaphorePermit>,
    },
    /// Permits were given back.
    BytesReturned { permit: OwnedSemaphorePermit },
    /// A place was asked of a queue with this many free ones, or of one that
    /// nobody takes from any more.
    PlaceAsked {
        queue: mpsc::Sender<OutboundCommand>,
        free: Option<nat>,
        place: Result<mpsc::OwnedPermit<OutboundCommand>, ReserveError>,
    },
    /// A place was given back.
    PlaceReturned { place: mpsc::OwnedPermit<OutboundCommand> },
    /// Both sides of a reply were made.
    ReplyMade {
        response: oneshot::Sender<Result<(), DriverError>>,
        reply: oneshot::Receiver<Result<(), DriverError>>,
    },
    /// A reply was given.
    ReplyGiven {
        response: oneshot::Sender<Result<(), DriverError>>,
        result: Result<(), DriverErrorView>,
    },
    /// A command was put in its place.
    Sent { place: mpsc::OwnedPermit<OutboundCommand>, command: OutboundCommand },
    /// A task was told to stop.
    Stopped { task: AbortHandle },
}

/// The acts of one task, or of one call, in order.
pub struct Journal {
    acts: Ghost<Seq<Act>>,
}

impl Journal {
    pub closed spec fn acts(&self) -> Seq<Act> {
        self.acts@
    }

    /// The state that the last act found.
    pub open spec fn state_found(&self) -> DriverStateView {
        match self.acts().last() {
            Act::StateRead { found, .. } => found,
            Act::StateWritten { before, .. } => before,
            _ => arbitrary(),
        }
    }

    /// The signal that the last act found.
    pub open spec fn signal_found(&self) -> ShutdownSignal {
        match self.acts().last() {
            Act::SignalWritten { before, .. } => before,
            _ => arbitrary(),
        }
    }

    /// The number of tasks that the last act found.
    pub open spec fn tasks_found(&self) -> usize {
        match self.acts().last() {
            Act::TasksWritten { before, .. } => before,
            _ => arbitrary(),
        }
    }

    /// How much room the last act found.
    pub open spec fn room_found(&self) -> Option<nat> {
        match self.acts().last() {
            Act::BytesAsked { free, .. } => free,
            Act::PlaceAsked { free, .. } => free,
            _ => arbitrary(),
        }
    }

    /// A journal without entries.
    pub fn new() -> (journal: Self)
        ensures
            journal.acts() == Seq::<Act>::empty(),
    {
        Journal { acts: Ghost(Seq::empty()) }
    }
}

/// A value that the tasks of a connection share, and what is entered of it.
pub trait Shared: Sized {
    spec fn made(sender: watch::Sender<Self>, receiver: watch::Receiver<Self>, value: Self) -> Act;

    spec fn written(cell: watch::Sender<Self>, before: Self, after: Self, woken: bool) -> Act;
}

impl Shared for DriverState {
    open spec fn made(
        sender: watch::Sender<Self>,
        receiver: watch::Receiver<Self>,
        value: Self,
    ) -> Act {
        Act::StateMade { sender, receiver, value: value@ }
    }

    open spec fn written(cell: watch::Sender<Self>, before: Self, after: Self, woken: bool) -> Act {
        Act::StateWritten { cell, before: before@, after: after@, woken }
    }
}

impl Shared for ShutdownSignal {
    open spec fn made(
        sender: watch::Sender<Self>,
        receiver: watch::Receiver<Self>,
        value: Self,
    ) -> Act {
        Act::SignalMade { sender, receiver, value }
    }

    open spec fn written(cell: watch::Sender<Self>, before: Self, after: Self, woken: bool) -> Act {
        Act::SignalWritten { cell, before, after, woken }
    }
}

impl Shared for usize {
    open spec fn made(
        sender: watch::Sender<Self>,
        receiver: watch::Receiver<Self>,
        value: Self,
    ) -> Act {
        Act::TasksMade { sender, receiver, value }
    }

    open spec fn written(cell: watch::Sender<Self>, before: Self, after: Self, woken: bool) -> Act {
        Act::TasksWritten { cell, before, after, woken }
    }
}

/// An item of a bounded queue, and what is entered of the queue.
pub trait Queued: Sized {
    spec fn made(
        sender: mpsc::Sender<Self>,
        receiver: mpsc::Receiver<Self>,
        capacity: usize,
    ) -> Act;
}

impl Queued for InboundEnvelope {
    open spec fn made(
        sender: mpsc::Sender<Self>,
        receiver: mpsc::Receiver<Self>,
        capacity: usize,
    ) -> Act {
        Act::InboundMade { sender, receiver, capacity }
    }
}

impl Queued for OutboundCommand {
    open spec fn made(
        sender: mpsc::Sender<Self>,
        receiver: mpsc::Receiver<Self>,
        capacity: usize,
    ) -> Act {
        Act::OutboundMade { sender, receiver, capacity }
    }
}

impl Queued for WriterControl {
    open spec fn made(
        sender: mpsc::Sender<Self>,
        receiver: mpsc::Receiver<Self>,
        capacity: usize,
    ) -> Act {
        Act::ControlMade { sender, receiver, capacity }
    }
}

/// A read of the state that found `found`.
pub open spec fn state_read(cell: watch::Sender<DriverState>, found: DriverStateView) -> Act {
    Act::StateRead { cell, found }
}

/// The write `step` to a state that was `before`. A change wakes who waits.
pub open spec fn state_write(
    cell: watch::Sender<DriverState>,
    before: DriverStateView,
    step: StateStep,
) -> Act {
    Act::StateWritten {
        cell,
        before,
        after: before.after(step),
        woken: before.after(step) != before,
    }
}

/// The write `step` to a signal that was `before`. A change wakes who waits.
pub open spec fn signal_write(
    cell: watch::Sender<ShutdownSignal>,
    before: ShutdownSignal,
    step: SignalStep,
) -> Act {
    Act::SignalWritten {
        cell,
        before,
        after: before.after(step),
        woken: before.after(step) != before,
    }
}

/// A request for permits to a pool with `free` free ones.
pub open spec fn bytes_asked(
    pool: Semaphore,
    count: u32,
    free: Option<nat>,
    permit: Option<OwnedSemaphorePermit>,
) -> Act {
    Act::BytesAsked { pool, count, free, permit }
}

/// A request for a place to a queue with `free` free ones.
pub open spec fn place_asked(
    queue: mpsc::Sender<OutboundCommand>,
    free: Option<nat>,
    place: Result<mpsc::OwnedPermit<OutboundCommand>, ReserveError>,
) -> Act {
    Act::PlaceAsked { queue, free, place }
}

/// Whether `count` permits can be had where `free` are free.
pub open spec fn has_room(free: Option<nat>, count: nat) -> bool {
    free is Some && count <= free->0
}

/// Why no place can be had where `free` are free, or `None` if one can.
pub open spec fn place_refusal(free: Option<nat>) -> Option<ReserveError> {
    match free {
        None => Some(ReserveError::Closed),
        Some(places) => if places == 0 {
            Some(ReserveError::Full)
        } else {
            None
        },
    }
}

/// Whether an act made this flag.
pub open spec fn makes_flag(act: Act, flag: AtomicBool) -> bool {
    act matches Act::FlagMade { flag: made, .. } && made == flag
}

/// Whether the making of this flag is entered.
pub open spec fn has_flag(acts: Seq<Act>, flag: AtomicBool) -> bool {
    exists|i: int| 0 <= i < acts.len() && #[trigger] makes_flag(acts[i], flag)
}

/// Whether an act made this pool.
pub open spec fn makes_pool(act: Act, pool: Semaphore) -> bool {
    act matches Act::PoolMade { pool: made, .. } && made == pool
}

/// Whether the making of this pool is entered.
pub open spec fn has_pool(acts: Seq<Act>, pool: Semaphore) -> bool {
    exists|i: int| 0 <= i < acts.len() && #[trigger] makes_pool(acts[i], pool)
}

/// Whether an act was given this permit.
pub open spec fn gives_permit(act: Act, permit: OwnedSemaphorePermit) -> bool {
    act matches Act::BytesAsked { permit: Some(given), .. } && given == permit
}

/// Whether the giving of this permit is entered.
pub open spec fn has_permit(acts: Seq<Act>, permit: OwnedSemaphorePermit) -> bool {
    exists|i: int| 0 <= i < acts.len() && #[trigger] gives_permit(acts[i], permit)
}

/// Whether an act was given this place.
pub open spec fn gives_place(act: Act, place: mpsc::OwnedPermit<OutboundCommand>) -> bool {
    act matches Act::PlaceAsked { place: Ok(given), .. } && given == place
}

/// Whether the giving of this place is entered.
pub open spec fn has_place(acts: Seq<Act>, place: mpsc::OwnedPermit<OutboundCommand>) -> bool {
    exists|i: int| 0 <= i < acts.len() && #[trigger] gives_place(acts[i], place)
}

/// What is not among some acts is not among the first of them.
pub proof fn earlier_acts_lack_permit(older: Seq<Act>, acts: Seq<Act>, permit: OwnedSemaphorePermit)
    requires
        older.is_prefix_of(acts),
        !has_permit(acts, permit),
    ensures
        !has_permit(older, permit),
{
    assert forall|i: int| 0 <= i < older.len() implies !#[trigger] gives_permit(
        older[i],
        permit,
    ) by {
        assert(older[i] == acts[i]);
        assert(!gives_permit(acts[i], permit));
    }
}

/// The same of places.
pub proof fn earlier_acts_lack_place(
    older: Seq<Act>,
    acts: Seq<Act>,
    place: mpsc::OwnedPermit<OutboundCommand>,
)
    requires
        older.is_prefix_of(acts),
        !has_place(acts, place),
    ensures
        !has_place(older, place),
{
    assert forall|i: int| 0 <= i < older.len() implies !#[trigger] gives_place(older[i], place) by {
        assert(older[i] == acts[i]);
        assert(!gives_place(acts[i], place));
    }
}

/// Permits can be had exactly where as many are free, and a place where one is.
pub proof fn room_is_what_is_free(free: nat, count: nat)
    ensures
        has_room(Some(free), count) <==> count <= free,
        !has_room(None, count),
        place_refusal(Some(free)) is None <==> free >= 1,
        free == 0 ==> place_refusal(Some(free)) == Some(ReserveError::Full),
        place_refusal(None) == Some(ReserveError::Closed),
{
}

/// What was made or given is entered from then on, and nothing else is entered with it.
pub proof fn made_and_given_things_are_entered(
    acts: Seq<Act>,
    flag: AtomicBool,
    other: AtomicBool,
    value: bool,
    pool: Semaphore,
    permits: usize,
    count: u32,
    room: Option<nat>,
    permit: OwnedSemaphorePermit,
    queue: mpsc::Sender<OutboundCommand>,
    place: mpsc::OwnedPermit<OutboundCommand>,
)
    ensures
        has_flag(acts.push(Act::FlagMade { flag, value }), flag),
        has_flag(acts.push(Act::FlagMade { flag, value }), other) ==> other == flag || has_flag(
            acts,
            other,
        ),
        has_pool(acts.push(Act::PoolMade { pool, permits }), pool),
        has_permit(acts.push(bytes_asked(pool, count, room, Some(permit))), permit),
        has_place(acts.push(place_asked(queue, room, Ok(place))), place),
        !has_flag(Seq::empty(), flag),
        !has_pool(Seq::empty(), pool),
        !has_permit(Seq::empty(), permit),
        !has_place(Seq::empty(), place),
{
    let last = acts.len() as int;
    assert(makes_flag(acts.push(Act::FlagMade { flag, value })[last], flag));
    assert(makes_pool(acts.push(Act::PoolMade { pool, permits })[last], pool));
    assert(gives_permit(acts.push(bytes_asked(pool, count, room, Some(permit)))[last], permit));
    assert(gives_place(acts.push(place_asked(queue, room, Ok(place)))[last], place));
    let with_flag = acts.push(Act::FlagMade { flag, value });
    if has_flag(with_flag, other) {
        let i = choose|i: int| 0 <= i < with_flag.len() && #[trigger] makes_flag(
            with_flag[i],
            other,
        );
        if i < last {
            assert(makes_flag(acts[i], other));
        }
    }
}

} // verus!
