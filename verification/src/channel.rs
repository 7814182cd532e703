//! The synchronisation primitives of tokio that a connection is built from.
//!
//! Every item here is trusted: its contract is believed, not proved. The values
//! behind these handles are shared between tasks, so a contract says nothing
//! about what a handle holds from one call to the next. It enters the act, and
//! what the act found, in the caller's journal.

use std::sync::atomic::{AtomicBool, Ordering};
use std::sync::Arc;

use tokio::sync::{mpsc, oneshot, watch, OwnedSemaphorePermit, Semaphore};
use tokio::task::AbortHandle;
use vstd::prelude::*;

use crate::config::MAX_QUEUE_CAPACITY;
use crate::driver::OutboundCommand;
use crate::error::DriverError;
use crate::journal::{Act, Journal, Queued, Shared};
use crate::state::DriverState;

verus! {

/// tokio's `watch::Sender`: one shared value that any holder may change.
#[verifier::external_type_specification]
#[verifier::external_body]
#[verifier::reject_recursive_types(T)]
pub struct ExWatchSender<T>(watch::Sender<T>);

/// tokio's `watch::Receiver`: an observer of such a value.
#[verifier::external_type_specification]
#[verifier::external_body]
#[verifier::reject_recursive_types(T)]
pub struct ExWatchReceiver<T>(watch::Receiver<T>);

/// tokio's `mpsc::Sender`: the sending side of a bounded queue.
#[verifier::external_type_specification]
#[verifier::external_body]
#[verifier::reject_recursive_types(T)]
pub struct ExQueueSender<T>(mpsc::Sender<T>);

/// tokio's `mpsc::Receiver`: the receiving side of a bounded queue.
#[verifier::external_type_specification]
#[verifier::external_body]
#[verifier::reject_recursive_types(T)]
pub struct ExQueueReceiver<T>(mpsc::Receiver<T>);

/// tokio's `mpsc::OwnedPermit`: one reserved place in a bounded queue.
#[verifier::external_type_specification]
#[verifier::external_body]
#[verifier::reject_recursive_types(T)]
pub struct ExQueuePermit<T>(mpsc::OwnedPermit<T>);

/// tokio's `oneshot::Sender`: the side of a single reply that gives it.
#[verifier::external_type_specification]
#[verifier::external_body]
#[verifier::reject_recursive_types(T)]
pub struct ExReplySender<T>(oneshot::Sender<T>);

/// tokio's `oneshot::Receiver`: the side of a single reply that awaits it.
#[verifier::external_type_specification]
#[verifier::external_body]
#[verifier::reject_recursive_types(T)]
pub struct ExReplyReceiver<T>(oneshot::Receiver<T>);

/// tokio's `oneshot::error::RecvError`: the reply was dropped without being given.
#[verifier::external_type_specification]
#[verifier::external_body]
pub struct ExReplyError(oneshot::error::RecvError);

/// tokio's `Semaphore`: a pool of permits.
#[verifier::external_type_specification]
#[verifier::external_body]
pub struct ExSemaphore(Semaphore);

/// tokio's `OwnedSemaphorePermit`: permits taken from a pool until it is dropped.
#[verifier::external_type_specification]
#[verifier::external_body]
pub struct ExSemaphorePermit(OwnedSemaphorePermit);

/// tokio's `AbortHandle`: the right to stop a spawned task.
#[verifier::external_type_specification]
#[verifier::external_body]
pub struct ExAbortHandle(AbortHandle);

/// tokio's `watch::channel`: a shared value that starts as `value`.
#[verifier::external_body]
pub(crate) fn shared_value<T: Shared>(value: T, journal: &mut Journal) -> (shared: (
    watch::Sender<T>,
    watch::Receiver<T>,
))
    ensures
        final(journal).acts() == old(journal).acts().push(T::made(shared.0, shared.1, value)),
{
    watch::channel(value)
}

/// tokio's `watch::Sender::borrow`: a copy of the shared state as it was found.
/// Which state that is depends on what the tasks wrote.
#[verifier::external_body]
pub(crate) fn watched(cell: &watch::Sender<DriverState>, journal: &mut Journal) -> (found:
    DriverState)
    ensures
        final(journal).acts() == old(journal).acts().push(
            crate::journal::state_read(*cell, found@),
        ),
{
    cell.borrow().clone()
}

/// tokio's `watch::Sender::send_if_modified`: runs `modify` once on the shared
/// value, under its lock, and hands back what `modify` returned. Who waits for the
/// value is woken exactly when that is `true`. Which value `modify` finds depends on what the
/// tasks wrote, so it has to accept every one.
#[verifier::external_body]
pub(crate) fn modify_shared<T: Shared, F: FnOnce(&mut T) -> bool>(
    cell: &watch::Sender<T>,
    modify: F,
    journal: &mut Journal,
) -> (modified: bool)
    requires
        forall|current: &mut T| call_requires(modify, (current,)),
    ensures
        exists|current: &mut T|
            {
                &&& #[trigger] call_ensures(modify, (current,), modified)
                &&& final(journal).acts() == old(journal).acts().push(
                    T::written(*cell, *current, *final(current), modified),
                )
            },
{
    cell.send_if_modified(modify)
}

/// tokio's `mpsc::channel`: a queue that holds up to `capacity` items. A bound of
/// zero, or above the number of permits that a semaphore can have, would panic.
#[verifier::external_body]
pub(crate) fn bounded_queue<T: Queued>(capacity: usize, journal: &mut Journal) -> (queue: (
    mpsc::Sender<T>,
    mpsc::Receiver<T>,
))
    requires
        0 < capacity <= MAX_QUEUE_CAPACITY,
    ensures
        final(journal).acts() == old(journal).acts().push(T::made(queue.0, queue.1, capacity)),
{
    mpsc::channel(capacity)
}

/// tokio's `Semaphore::new`: a new pool with `permits` free permits. More permits
/// than `Semaphore::MAX_PERMITS` would panic.
#[verifier::external_body]
pub(crate) fn permit_pool(permits: usize, journal: &mut Journal) -> (pool: Arc<Semaphore>)
    requires
        permits <= MAX_QUEUE_CAPACITY,
    ensures
        final(journal).acts() == old(journal).acts().push(Act::PoolMade { pool: *pool, permits }),
        !crate::journal::has_pool(old(journal).acts(), *pool),
{
    Arc::new(Semaphore::new(permits))
}

/// tokio's `Semaphore::MAX_PERMITS`: the most permits a semaphore can have, and
/// so the longest bounded queue, which is one eighth of the address range.
#[verifier::external_body]
pub(crate) fn max_permits() -> (limit: usize)
    ensures
        limit == MAX_QUEUE_CAPACITY,
{
    Semaphore::MAX_PERMITS
}

/// tokio's `Semaphore::try_acquire_many_owned`: takes `count` permits at once if
/// the pool has as many free ones and is not closed, and none otherwise. How many
/// are free depends on the other holders of the pool. Every success gives a permit of
/// its own. Asking for more than `Semaphore::MAX_PERMITS` would panic.
#[verifier::external_body]
pub(crate) fn try_acquire(pool: &Arc<Semaphore>, count: u32, journal: &mut Journal) -> (permit:
    Option<OwnedSemaphorePermit>)
    requires
        count <= MAX_QUEUE_CAPACITY,
    ensures
        final(journal).acts() == old(journal).acts().push(
            crate::journal::bytes_asked(**pool, count, final(journal).room_found(), permit),
        ),
        permit is Some <==> crate::journal::has_room(final(journal).room_found(), count as nat),
        permit matches Some(given) ==> !crate::journal::has_permit(old(journal).acts(), given),
{
    Arc::clone(pool).try_acquire_many_owned(count).ok()
}

/// tokio's `Drop` for `OwnedSemaphorePermit`: gives the permits back to their
/// pool.
#[verifier::external_body]
pub(crate) fn return_bytes(permit: OwnedSemaphorePermit, journal: &mut Journal)
    ensures
        final(journal).acts() == old(journal).acts().push(Act::BytesReturned { permit }),
{
    drop(permit)
}

/// Why no place in a queue could be reserved.
#[derive(Clone, Copy, Debug, Eq, PartialEq, Structural)]
pub enum ReserveError {
    /// Every place is taken.
    Full,
    /// The receiving side is gone.
    Closed,
}

/// tokio's `mpsc::Sender::try_reserve_owned`: reserves one place in the queue
/// without waiting if one is free and the receiving side is there, or says which
/// is not so. How many places are free depends on the other holders of the queue.
/// Every success gives a place of its own.
#[verifier::external_body]
pub(crate) fn try_reserve(queue: &mpsc::Sender<OutboundCommand>, journal: &mut Journal) -> (place:
    Result<mpsc::OwnedPermit<OutboundCommand>, ReserveError>)
    ensures
        final(journal).acts() == old(journal).acts().push(
            crate::journal::place_asked(*queue, final(journal).room_found(), place),
        ),
        match place {
            Ok(given) => {
                &&& crate::journal::place_refusal(final(journal).room_found()) is None
                &&& !crate::journal::has_place(old(journal).acts(), given)
            },
            Err(refusal) => crate::journal::place_refusal(final(journal).room_found()) == Some(
                refusal,
            ),
        },
{
    queue.clone().try_reserve_owned().map_err(
        |error|
            match error {
                mpsc::error::TrySendError::Full(_) => ReserveError::Full,
                mpsc::error::TrySendError::Closed(_) => ReserveError::Closed,
            },
    )
}

/// tokio's `mpsc::OwnedPermit::release`: gives the reserved place back.
#[verifier::external_body]
pub(crate) fn return_place(place: mpsc::OwnedPermit<OutboundCommand>, journal: &mut Journal)
    ensures
        final(journal).acts() == old(journal).acts().push(Act::PlaceReturned { place }),
{
    place.release();
}

/// tokio's `mpsc::OwnedPermit::send`: puts `command` in the reserved place. It
/// always succeeds, also where nobody takes from the queue any more.
#[verifier::external_body]
pub(crate) fn send_command(
    place: mpsc::OwnedPermit<OutboundCommand>,
    command: OutboundCommand,
    journal: &mut Journal,
)
    ensures
        final(journal).acts() == old(journal).acts().push(Act::Sent { place, command }),
{
    place.send(command);
}

/// tokio's `oneshot::channel`: both sides of one reply that is not given yet.
#[verifier::external_body]
pub(crate) fn reply_channel(journal: &mut Journal) -> (sides: (
    oneshot::Sender<Result<(), DriverError>>,
    oneshot::Receiver<Result<(), DriverError>>,
))
    ensures
        final(journal).acts() == old(journal).acts().push(
            Act::ReplyMade { response: sides.0, reply: sides.1 },
        ),
{
    oneshot::channel()
}

/// tokio's `oneshot::Sender::send`: gives the reply, if anybody still waits for it.
#[verifier::external_body]
pub(crate) fn give_reply(
    response: oneshot::Sender<Result<(), DriverError>>,
    result: Result<(), DriverError>,
    journal: &mut Journal,
)
    ensures
        final(journal).acts() == old(journal).acts().push(
            Act::ReplyGiven { response, result: crate::error::result_view(result) },
        ),
{
    let _ = response.send(result);
}

/// tokio's `AbortHandle::abort`: asks the runtime to stop the task.
#[verifier::external_body]
pub(crate) fn stop_task(task: &AbortHandle, journal: &mut Journal)
    ensures
        final(journal).acts() == old(journal).acts().push(Act::Stopped { task: *task }),
{
    task.abort()
}

/// `AtomicBool::new`: a new flag that starts as `value`.
#[verifier::external_body]
pub(crate) fn make_flag(value: bool, journal: &mut Journal) -> (flag: AtomicBool)
    ensures
        final(journal).acts() == old(journal).acts().push(Act::FlagMade { flag, value }),
        !crate::journal::has_flag(old(journal).acts(), flag),
{
    AtomicBool::new(value)
}

/// `AtomicBool::load`: what the flag holds.
#[verifier::external_body]
pub(crate) fn read_flag(flag: &AtomicBool, journal: &mut Journal) -> (found: bool)
    ensures
        final(journal).acts() == old(journal).acts().push(Act::FlagRead { flag: *flag, found }),
{
    flag.load(Ordering::Acquire)
}

/// `AtomicBool::store`: sets the flag to `value`.
#[verifier::external_body]
pub(crate) fn set_flag(flag: &AtomicBool, value: bool, journal: &mut Journal)
    ensures
        final(journal).acts() == old(journal).acts().push(Act::FlagSet { flag: *flag, value }),
{
    flag.store(value, Ordering::Release)
}

/// `AtomicBool::swap`: sets the flag to `value` and hands back what it held.
#[verifier::external_body]
pub(crate) fn swap_flag(flag: &AtomicBool, value: bool, journal: &mut Journal) -> (found: bool)
    ensures
        final(journal).acts() == old(journal).acts().push(
            Act::FlagSwapped { flag: *flag, found, value },
        ),
{
    flag.swap(value, Ordering::AcqRel)
}

/// `AtomicBool::compare_exchange` of `false` for `true`: sets the flag unless it
/// is set, and hands back what it held, as a failure where it was set.
#[verifier::external_body]
pub(crate) fn claim_flag(flag: &AtomicBool, journal: &mut Journal) -> (exchange: Result<bool, bool>)
    ensures
        match exchange {
            Ok(held) => !held,
            Err(held) => held,
        },
        final(journal).acts() == old(journal).acts().push(
            Act::FlagClaimed { flag: *flag, found: exchange is Err },
        ),
{
    flag.compare_exchange(false, true, Ordering::AcqRel, Ordering::Acquire)
}

} // verus!
