//! One connection: its queues and budgets, the operations that callers have on
//! it, and what its tasks do to the state they share.

use std::sync::atomic::AtomicBool;
use std::sync::Arc;

use tokio::sync::{mpsc, oneshot, watch, OwnedSemaphorePermit, Semaphore};
use tokio::task::AbortHandle;
use vstd::prelude::*;

use crate::channel::{
    bounded_queue, claim_flag, give_reply, make_flag, permit_pool, reply_channel, return_bytes, return_place,
    send_command, set_flag, shared_value, stop_task, swap_flag, try_acquire, try_reserve, watched,
    ReserveError,
};
use crate::closing::TaskStep;
use crate::config::{ConnectionConfig, Timeout, MAX_QUEUE_CAPACITY};
use crate::error::{DriverError, DriverErrorView};
use crate::journal::{Act, Journal};
use crate::lifecycle::{
    peer_close_outcome, publish_close_timeout, publish_local_close, publish_peer_closed,
    publish_task_finished, publish_task_started, publish_terminal, publish_writer_failure,
    signal_abort, signal_local_close, signal_peer_close,
};
use crate::message::{InboundMessage, Message, MessageView};
use crate::shutdown::{ShutdownSignal, SignalStep};
use crate::state::{DriverState, DriverStateView, StateStep};
use crate::text::{decimal_text, join};
use crate::writer::WriterControl;

verus! {

/// How many control requests may wait for the writer.
pub const CONTROL_QUEUE_CAPACITY: usize = 4;

/// A received message and the permits for its bytes.
pub struct InboundEnvelope {
    pub message: InboundMessage,
    pub permit: OwnedSemaphorePermit,
}

/// A message to send, the permits for its bytes and who waits for the result.
pub struct OutboundCommand {
    pub message: Message,
    pub response: oneshot::Sender<Result<(), DriverError>>,
    pub permit: OwnedSemaphorePermit,
}

/// Who waits for the result of a message that is being sent, and the permits for its
/// bytes, which are held until then.
pub struct Unanswered {
    response: oneshot::Sender<Result<(), DriverError>>,
    permit: OwnedSemaphorePermit,
}

impl OutboundCommand {
    /// Takes the message out to be sent.
    pub fn take(self) -> (taken: (Message, Unanswered))
        ensures
            taken.0 == self.message,
            taken.1.response() == self.response,
            taken.1.permit() == self.permit,
    {
        (self.message, Unanswered { response: self.response, permit: self.permit })
    }
}

impl Unanswered {
    /// The giving side of the reply.
    pub closed spec fn response(&self) -> oneshot::Sender<Result<(), DriverError>> {
        self.response
    }

    /// The permits for the bytes of the message.
    pub closed spec fn permit(&self) -> OwnedSemaphorePermit {
        self.permit
    }

    /// Tells the sender the result, and gives the bytes back only then.
    pub fn answer(self, result: Result<(), DriverError>, journal: &mut Journal)
        ensures
            final(journal).acts() == old(journal).acts() + seq![
                Act::ReplyGiven {
                    response: self.response(),
                    result: crate::error::result_view(result),
                },
                Act::BytesReturned { permit: self.permit() },
            ],
    {
        give_reply(self.response, result, journal);
        return_bytes(self.permit, journal);
    }
}

/// The right to send one message of a given size.
pub struct OutboundAdmission {
    byte_permit: OwnedSemaphorePermit,
    item_permit: mpsc::OwnedPermit<OutboundCommand>,
    message_size: usize,
}

/// The content of an [`OutboundAdmission`]: the permit for the bytes of the
/// message, its place in the queue and its size.
pub struct AdmissionView {
    pub byte_permit: OwnedSemaphorePermit,
    pub item_permit: mpsc::OwnedPermit<OutboundCommand>,
    pub message_size: usize,
}

impl View for OutboundAdmission {
    type V = AdmissionView;

    closed spec fn view(&self) -> AdmissionView {
        AdmissionView {
            byte_permit: self.byte_permit,
            item_permit: self.item_permit,
            message_size: self.message_size,
        }
    }
}

impl AdmissionView {
    /// Whether its permit and its place are not among those entered before.
    pub open spec fn is_new(self, acts: Seq<Act>) -> bool {
        &&& !crate::journal::has_permit(acts, self.byte_permit)
        &&& !crate::journal::has_place(acts, self.item_permit)
    }

    /// Whether its permit and its place are among those entered.
    pub open spec fn is_entered(self, acts: Seq<Act>) -> bool {
        &&& crate::journal::has_permit(acts, self.byte_permit)
        &&& crate::journal::has_place(acts, self.item_permit)
    }

    /// What giving an admission up does.
    pub open spec fn return_acts(self) -> Seq<Act> {
        seq![
            Act::BytesReturned { permit: self.byte_permit },
            Act::PlaceReturned { place: self.item_permit },
        ]
    }
}

impl OutboundAdmission {
    /// Gives the room for the message back, as dropping the admission does.
    pub fn discard(self, journal: &mut Journal)
        ensures
            final(journal).acts() == old(journal).acts() + self@.return_acts(),
    {
        return_bytes(self.byte_permit, journal);
        return_place(self.item_permit, journal);
        assert(journal.acts() =~= old(journal).acts() + self@.return_acts());
    }
}

/// The report on a message that is not the one that was admitted.
pub open spec fn changed_message() -> DriverErrorView {
    DriverErrorView::Transport("outbound message changed after capacity admission"@)
}

/// Whether an admitted message is handed to the writer: it has to be the one that
/// was admitted, and the connection must not have ended since, or nobody would
/// ever answer for it.
pub open spec fn send_outcome(
    message_size: nat,
    admitted_size: usize,
    state: DriverStateView,
) -> Result<(), DriverErrorView> {
    if message_size != admitted_size {
        Err(changed_message())
    } else {
        match state {
            DriverStateView::Closed(error) => Err(error),
            _ => Ok(()),
        }
    }
}

/// Decides whether an admitted message is handed to the writer.
pub fn decide_send(message_size: usize, admitted_size: usize, state: &DriverState) -> (result:
    Result<(), DriverError>)
    ensures
        crate::error::result_view(result) == send_outcome(
            message_size as nat,
            admitted_size,
            state@,
        ),
{
    if message_size != admitted_size {
        return Err(
            DriverError::Transport("outbound message changed after capacity admission".to_owned()),
        );
    }
    match state {
        DriverState::Closed(error) => Err(error.clone()),
        _ => Ok(()),
    }
}

/// Everything that the caller's side and the two tasks of a connection share.
pub struct Channels {
    pub closing: Arc<AtomicBool>,
    pub control: mpsc::Sender<WriterControl>,
    pub control_receiver: mpsc::Receiver<WriterControl>,
    pub inbound: mpsc::Sender<InboundEnvelope>,
    pub inbound_receiver: mpsc::Receiver<InboundEnvelope>,
    pub inbound_budget: Arc<Semaphore>,
    pub outbound: mpsc::Sender<OutboundCommand>,
    pub outbound_receiver: mpsc::Receiver<OutboundCommand>,
    pub outbound_budget: Arc<Semaphore>,
    pub shutdown: watch::Sender<ShutdownSignal>,
    pub shutdown_receiver: watch::Receiver<ShutdownSignal>,
    pub state: watch::Sender<DriverState>,
    pub state_receiver: watch::Receiver<DriverState>,
    pub tasks_remaining: watch::Sender<usize>,
    pub tasks_remaining_receiver: watch::Receiver<usize>,
}

impl ConnectionConfig {
    /// Whether queues and budgets of these sizes can be made, and a permit for
    /// any message within them can be asked for.
    pub open spec fn startable(self) -> bool {
        &&& 0 < self.max_queue <= MAX_QUEUE_CAPACITY
        &&& self.max_buffered_bytes <= MAX_QUEUE_CAPACITY
        &&& self.max_message_size <= MAX_QUEUE_CAPACITY || u32::MAX <= MAX_QUEUE_CAPACITY
    }

    /// Whether a connection with these limits can be started.
    pub fn is_startable(&self) -> (startable: bool)
        ensures
            startable == self.startable(),
    {
        0 < self.max_queue && self.max_queue <= MAX_QUEUE_CAPACITY && self.max_buffered_bytes
            <= MAX_QUEUE_CAPACITY && (self.max_message_size <= MAX_QUEUE_CAPACITY
            || u32::MAX as usize <= MAX_QUEUE_CAPACITY)
    }
}

impl Channels {
    /// The making of these channels for a connection with the given limits: one
    /// queue of messages and one budget of bytes in each direction, a short queue
    /// of control requests, an open state, a running signal and no task.
    pub open spec fn opening_acts(self, config: ConnectionConfig) -> Seq<Act> {
        seq![
            Act::InboundMade {
                sender: self.inbound,
                receiver: self.inbound_receiver,
                capacity: config.max_queue,
            },
            Act::OutboundMade {
                sender: self.outbound,
                receiver: self.outbound_receiver,
                capacity: config.max_queue,
            },
            Act::ControlMade {
                sender: self.control,
                receiver: self.control_receiver,
                capacity: CONTROL_QUEUE_CAPACITY,
            },
            Act::SignalMade {
                sender: self.shutdown,
                receiver: self.shutdown_receiver,
                value: ShutdownSignal::Running,
            },
            Act::StateMade {
                sender: self.state,
                receiver: self.state_receiver,
                value: DriverStateView::Open,
            },
            Act::TasksMade {
                sender: self.tasks_remaining,
                receiver: self.tasks_remaining_receiver,
                value: 0,
            },
            Act::FlagMade { flag: *self.closing, value: false },
            Act::PoolMade { pool: *self.inbound_budget, permits: config.max_buffered_bytes },
            Act::PoolMade { pool: *self.outbound_budget, permits: config.max_buffered_bytes },
        ]
    }

    /// Makes the channels of an open connection.
    pub fn open(config: &ConnectionConfig, journal: &mut Journal) -> (channels: Self)
        requires
            config.startable(),
        ensures
            final(journal).acts() == old(journal).acts() + channels.opening_acts(*config),
            crate::journal::has_flag(final(journal).acts(), *channels.closing),
            *channels.inbound_budget != *channels.outbound_budget,
    {
        let (inbound, inbound_receiver) = bounded_queue(config.max_queue, journal);
        let (outbound, outbound_receiver) = bounded_queue(config.max_queue, journal);
        let (control, control_receiver) = bounded_queue(CONTROL_QUEUE_CAPACITY, journal);
        let (shutdown, shutdown_receiver) = shared_value(ShutdownSignal::Running, journal);
        let (state, state_receiver) = shared_value(DriverState::Open, journal);
        let (tasks_remaining, tasks_remaining_receiver) = shared_value(0usize, journal);
        let closing = Arc::new(make_flag(false, journal));
        let inbound_budget = permit_pool(config.max_buffered_bytes, journal);
        assert(crate::journal::makes_pool(
            journal.acts()[journal.acts().len() - 1],
            *inbound_budget,
        ));
        let outbound_budget = permit_pool(config.max_buffered_bytes, journal);
        let channels = Channels {
            closing,
            control,
            control_receiver,
            inbound,
            inbound_receiver,
            inbound_budget,
            outbound,
            outbound_receiver,
            outbound_budget,
            shutdown,
            shutdown_receiver,
            state,
            state_receiver,
            tasks_remaining,
            tasks_remaining_receiver,
        };
        assert(journal.acts() =~= old(journal).acts() + channels.opening_acts(*config));
        assert(crate::journal::makes_flag(
            journal.acts()[old(journal).acts().len() as int + 6],
            *channels.closing,
        ));
        channels
    }
}

/// The report on a message that is larger than the limit.
pub open spec fn oversized(message_size: usize, max_message_size: usize) -> DriverErrorView {
    DriverErrorView::ResourceLimit(
        "message contains "@ + crate::text::decimal(message_size as nat) + " bytes; maximum is "@
            + crate::text::decimal(max_message_size as nat),
    )
}

/// Whether a message may be sent, as far as the state and the size limit go.
pub open spec fn outbound_check(
    state: DriverStateView,
    message_size: usize,
    max_message_size: usize,
) -> Result<(), DriverErrorView> {
    if state.admission() is Err {
        state.admission()
    } else if message_size > max_message_size {
        Err(oversized(message_size, max_message_size))
    } else {
        Ok(())
    }
}

/// Checks a message against the state and the size limit.
pub fn check_outbound_message(
    state: &DriverState,
    message_size: usize,
    max_message_size: usize,
) -> (result: Result<(), DriverError>)
    ensures
        crate::error::result_view(result) == outbound_check(state@, message_size, max_message_size),
{
    match state.ensure_open() {
        Err(error) => Err(error),
        Ok(_) => {
            if message_size > max_message_size {
                let size = decimal_text(message_size);
                let limit = decimal_text(max_message_size);
                let mut message = join("message contains ", size.as_str());
                message.append(" bytes; maximum is ");
                message.append(limit.as_str());
                Err(DriverError::ResourceLimit(message))
            } else {
                Ok(())
            }
        },
    }
}

/// How many permits a message needs, or why it may not be sent at all.
pub open spec fn permits_needed(
    state: DriverStateView,
    message_size: usize,
    max_message_size: usize,
) -> Result<u32, DriverErrorView> {
    match outbound_check(state, message_size, max_message_size) {
        Err(error) => Err(error),
        Ok(_) => if message_size > u32::MAX {
            Err(DriverErrorView::ResourceLimit("message byte count exceeds the supported budget"@))
        } else {
            Ok(message_size as u32)
        },
    }
}

/// Counts the permits that a message needs, or reports why it may not be sent at
/// all.
pub fn permit_count(state: &DriverState, message_size: usize, max_message_size: usize) -> (count:
    Result<u32, DriverError>)
    ensures
        match count {
            Ok(count) => permits_needed(state@, message_size, max_message_size) == Ok::<
                u32,
                DriverErrorView,
            >(count),
            Err(error) => permits_needed(state@, message_size, max_message_size) == Err::<
                u32,
                DriverErrorView,
            >(error@),
        },
{
    match check_outbound_message(state, message_size, max_message_size) {
        Err(error) => Err(error),
        Ok(_) => {
            if message_size > u32::MAX as usize {
                Err(
                    DriverError::ResourceLimit(
                        "message byte count exceeds the supported budget".to_owned(),
                    ),
                )
            } else {
                Ok(message_size as u32)
            }
        },
    }
}

/// The report on a message that the budget of bytes has no room for.
pub open spec fn exhausted_budget() -> DriverErrorView {
    DriverErrorView::ResourceLimit(
        "outbound byte budget is exhausted; retry after an accepted send completes"@,
    )
}

/// Reports that the budget of bytes has no room for a message.
pub fn budget_exhausted() -> (error: DriverError)
    ensures
        error@ == exhausted_budget(),
{
    DriverError::ResourceLimit(
        "outbound byte budget is exhausted; retry after an accepted send completes".to_owned(),
    )
}

/// Why no place for a message was to be had: the queue is full, or nobody takes
/// from it any more and `state` says why.
pub open spec fn refused_place(refusal: ReserveError, state: DriverStateView) -> DriverErrorView {
    match refusal {
        ReserveError::Full => DriverErrorView::ResourceLimit(
            "outbound item queue is full; retry after an accepted send completes"@,
        ),
        ReserveError::Closed => state.terminal_error(),
    }
}

/// Reports why no place for a message was to be had.
pub fn explain_refusal(refusal: ReserveError, state: &DriverState) -> (error: DriverError)
    ensures
        error@ == refused_place(refusal, state@),
{
    match refusal {
        ReserveError::Full => DriverError::ResourceLimit(
            "outbound item queue is full; retry after an accepted send completes".to_owned(),
        ),
        ReserveError::Closed => state.terminal_error(),
    }
}

/// The whole decision on a message to send. `bytes_free` is whether the budget
/// had room for it, `place` whether the queue had, and `later` the state at that
/// moment.
pub open spec fn admission_outcome(
    state: DriverStateView,
    message_size: usize,
    max_message_size: usize,
    bytes_free: bool,
    place: Result<(), ReserveError>,
    later: DriverStateView,
) -> Result<(), DriverErrorView> {
    match permits_needed(state, message_size, max_message_size) {
        Err(error) => Err(error),
        Ok(_) => if !bytes_free {
            Err(exhausted_budget())
        } else {
            match place {
                Ok(_) => Ok(()),
                Err(refusal) => Err(refused_place(refusal, later)),
            }
        },
    }
}

/// Decides on a message to send, given what was found.
pub fn decide_admission(
    state: &DriverState,
    message_size: usize,
    max_message_size: usize,
    bytes_free: bool,
    place: Result<(), ReserveError>,
    later: &DriverState,
) -> (result: Result<(), DriverError>)
    ensures
        crate::error::result_view(result) == admission_outcome(
            state@,
            message_size,
            max_message_size,
            bytes_free,
            place,
            later@,
        ),
{
    match permit_count(state, message_size, max_message_size) {
        Err(error) => Err(error),
        Ok(_) => {
            if !bytes_free {
                Err(budget_exhausted())
            } else {
                match place {
                    Ok(_) => Ok(()),
                    Err(refusal) => Err(explain_refusal(refusal, later)),
                }
            }
        },
    }
}

/// The content of the answer to a request to send.
pub open spec fn admission_view(result: Result<OutboundAdmission, DriverError>) -> Result<
    AdmissionView,
    DriverErrorView,
> {
    match result {
        Ok(admission) => Ok(admission@),
        Err(error) => Err(error@),
    }
}

/// What a request to send found: the state, the free bytes and the permit for
/// them, the free places and the place, and the state once more where the queue
/// was abandoned.
pub struct AdmissionSeen {
    pub state: DriverStateView,
    pub free_bytes: Option<nat>,
    pub permit: Option<OwnedSemaphorePermit>,
    pub free_places: Option<nat>,
    pub place: Result<mpsc::OwnedPermit<OutboundCommand>, ReserveError>,
    pub later: DriverStateView,
}

impl AdmissionSeen {
    /// Whether the permit and the place were given where there was room.
    pub open spec fn is_answered(self, message_size: usize) -> bool {
        &&& self.permit is Some <==> crate::journal::has_room(self.free_bytes, message_size as nat)
        &&& match self.place {
            Ok(_) => crate::journal::place_refusal(self.free_places) is None,
            Err(refusal) => crate::journal::place_refusal(self.free_places) == Some(refusal),
        }
    }

    /// The decision on what was found.
    pub open spec fn outcome(self, message_size: usize, max_message_size: usize) -> Result<
        (),
        DriverErrorView,
    > {
        admission_outcome(
            self.state,
            message_size,
            max_message_size,
            self.permit is Some,
            match self.place {
                Ok(_) => Ok(()),
                Err(refusal) => Err(refusal),
            },
            self.later,
        )
    }

    /// The answer to the request.
    pub open spec fn answer(self, message_size: usize, max_message_size: usize) -> Result<
        AdmissionView,
        DriverErrorView,
    > {
        match self.outcome(message_size, max_message_size) {
            Ok(_) => Ok(
                AdmissionView {
                    byte_permit: self.permit->0,
                    item_permit: self.place->Ok_0,
                    message_size,
                },
            ),
            Err(error) => Err(error),
        }
    }
}

/// What a call of `close` found: the number of tasks, whether a close was under
/// way, the state, the signal, whether a close was watched, and the number of
/// tasks at the end.
pub struct CloseSeen {
    pub tasks: usize,
    pub closing: bool,
    pub state: DriverStateView,
    pub signal: ShutdownSignal,
    pub watched: bool,
    pub tasks_left: usize,
}

impl CloseSeen {
    /// Whether the caller has to watch the close: it was the first, it found the
    /// connection open, and nobody watches yet.
    pub open spec fn needs_watchdog(self) -> bool {
        close_needs_watchdog(self.closing, self.state is Open, self.watched)
    }
}

/// Whether a call of `close` has to watch for a timeout, given whether a close was
/// under way, whether it started one and whether one is watched.
pub open spec fn close_needs_watchdog(closing: bool, started: bool, watched: bool) -> bool {
    !closing && started && !watched
}

/// The operations that callers have on one connection.
pub struct ConnectionDriver {
    close_timeout_started: AtomicBool,
    closing: Arc<AtomicBool>,
    config: ConnectionConfig,
    outbound: mpsc::Sender<OutboundCommand>,
    outbound_budget: Arc<Semaphore>,
    reader_abort: AbortHandle,
    receive_active: Arc<AtomicBool>,
    shutdown: watch::Sender<ShutdownSignal>,
    state: watch::Sender<DriverState>,
    tasks_remaining: watch::Sender<usize>,
    writer_abort: AbortHandle,
}

impl ConnectionDriver {
    #[verifier::type_invariant]
    spec fn well_formed(&self) -> bool {
        self.config.startable()
    }

    /// The limits of the connection.
    pub closed spec fn config(&self) -> ConnectionConfig {
        self.config
    }

    /// The flag that says whether a close is under way.
    pub closed spec fn closing(&self) -> Arc<AtomicBool> {
        self.closing
    }

    /// The flag that says whether a close is watched.
    pub closed spec fn close_timeout_started(&self) -> AtomicBool {
        self.close_timeout_started
    }

    /// The flag that stands for the right to receive.
    pub closed spec fn receive_active(&self) -> Arc<AtomicBool> {
        self.receive_active
    }

    /// Where messages to send go.
    pub closed spec fn outbound(&self) -> mpsc::Sender<OutboundCommand> {
        self.outbound
    }

    /// The budget of bytes to send.
    pub closed spec fn outbound_budget(&self) -> Arc<Semaphore> {
        self.outbound_budget
    }

    /// The shared signal.
    pub closed spec fn shutdown(&self) -> watch::Sender<ShutdownSignal> {
        self.shutdown
    }

    /// The shared state.
    pub closed spec fn state(&self) -> watch::Sender<DriverState> {
        self.state
    }

    /// The shared number of tasks.
    pub closed spec fn tasks_remaining(&self) -> watch::Sender<usize> {
        self.tasks_remaining
    }

    /// The handle by which the reading task is stopped.
    pub closed spec fn reader_abort(&self) -> AbortHandle {
        self.reader_abort
    }

    /// The handle by which the writing task is stopped.
    pub closed spec fn writer_abort(&self) -> AbortHandle {
        self.writer_abort
    }

    /// Whether its three flags are three, as they are in a connection that was put
    /// together in the journal that its channels were made in.
    pub open spec fn has_own_flags(&self) -> bool {
        &&& *self.closing() != self.close_timeout_started()
        &&& *self.closing() != *self.receive_active()
        &&& self.close_timeout_started() != *self.receive_active()
    }

    /// Puts a connection together, once its tasks run. No receive is active and no
    /// close is watched.
    pub fn new(
        config: ConnectionConfig,
        closing: Arc<AtomicBool>,
        outbound: mpsc::Sender<OutboundCommand>,
        outbound_budget: Arc<Semaphore>,
        shutdown: watch::Sender<ShutdownSignal>,
        state: watch::Sender<DriverState>,
        tasks_remaining: watch::Sender<usize>,
        reader_abort: AbortHandle,
        writer_abort: AbortHandle,
        journal: &mut Journal,
    ) -> (driver: Self)
        requires
            config.startable(),
        ensures
            driver.config() == config,
            driver.closing() == closing,
            driver.outbound() == outbound,
            driver.outbound_budget() == outbound_budget,
            driver.shutdown() == shutdown,
            driver.state() == state,
            driver.tasks_remaining() == tasks_remaining,
            driver.reader_abort() == reader_abort,
            driver.writer_abort() == writer_abort,
            final(journal).acts() == old(journal).acts() + seq![
                Act::FlagMade { flag: driver.close_timeout_started(), value: false },
                Act::FlagMade { flag: *driver.receive_active(), value: false },
            ],
            crate::journal::has_flag(old(journal).acts(), *closing) ==> driver.has_own_flags(),
    {
        let close_timeout_started = make_flag(false, journal);
        assert(crate::journal::makes_flag(
            journal.acts()[journal.acts().len() - 1],
            close_timeout_started,
        ));
        assert(forall|i: int| 0 <= i < old(journal).acts().len() ==> journal.acts()[i] == old(
            journal,
        ).acts()[i]);
        let receive_active = Arc::new(make_flag(false, journal));
        assert(journal.acts() =~= old(journal).acts() + seq![
            Act::FlagMade { flag: close_timeout_started, value: false },
            Act::FlagMade { flag: *receive_active, value: false },
        ]);
        ConnectionDriver {
            close_timeout_started,
            closing,
            config,
            outbound,
            outbound_budget,
            reader_abort,
            receive_active,
            shutdown,
            state,
            tasks_remaining,
            writer_abort,
        }
    }

    /// What a request to send does: it looks at the state, asks the budget for the
    /// bytes and the queue for a place, and gives the bytes back where there is no
    /// place.
    pub open spec fn admission_acts(&self, message_size: usize, seen: AdmissionSeen) -> Seq<Act> {
        let checked = seq![crate::journal::state_read(self.state(), seen.state)];
        if permits_needed(seen.state, message_size, self.config().max_message_size) is Err {
            checked
        } else {
            let asked = checked.push(
                crate::journal::bytes_asked(
                    *self.outbound_budget(),
                    message_size as u32,
                    seen.free_bytes,
                    seen.permit,
                ),
            );
            if seen.permit is None {
                asked
            } else {
                let placed = asked.push(
                    crate::journal::place_asked(self.outbound(), seen.free_places, seen.place),
                );
                let returned = Act::BytesReturned { permit: seen.permit->0 };
                match seen.place {
                    Ok(_) => placed,
                    Err(ReserveError::Full) => placed.push(returned),
                    Err(ReserveError::Closed) => placed.push(
                        crate::journal::state_read(self.state(), seen.later),
                    ).push(returned),
                }
            }
        }
    }

    /// Admits a message of this size if the connection is open, the message is
    /// within its limit and there is room for it right now. Room is held until
    /// the message has been sent or the admission is given up.
    pub fn try_admit_outbound(&self, message_size: usize, journal: &mut Journal) -> (result: Result<
        OutboundAdmission,
        DriverError,
    >)
        ensures
            exists|seen: AdmissionSeen|
                {
                    &&& final(journal).acts() == old(journal).acts()
                        + #[trigger] self.admission_acts(message_size, seen)
                    &&& seen.is_answered(message_size)
                    &&& admission_view(result) == seen.answer(
                        message_size,
                        self.config().max_message_size,
                    )
                },
            result matches Ok(admission) ==> {
                &&& admission@.is_new(old(journal).acts())
                &&& admission@.is_entered(final(journal).acts())
            },
    {
        proof {
            use_type_invariant(self);
        }
        let state = watched(&self.state, journal);
        let ghost mut free_bytes: Option<nat> = None;
        let ghost mut free_places: Option<nat> = None;
        let ghost max = self.config().max_message_size;
        let mut permit: Option<OwnedSemaphorePermit> = None;
        let mut place: Result<mpsc::OwnedPermit<OutboundCommand>, ReserveError> = Err(
            ReserveError::Closed,
        );
        let mut later = state.clone();
        if let Ok(count) = permit_count(&state, message_size, self.config.max_message_size) {
            let ghost earlier = journal.acts();
            permit = try_acquire(&self.outbound_budget, count, journal);
            proof {
                free_bytes = journal.room_found();
                if permit is Some {
                    crate::journal::earlier_acts_lack_permit(old(journal).acts(), earlier, permit->0);
                }
            }
            if permit.is_some() {
                let ghost earlier = journal.acts();
                place = try_reserve(&self.outbound, journal);
                proof {
                    free_places = journal.room_found();
                    if place is Ok {
                        crate::journal::earlier_acts_lack_place(
                            old(journal).acts(),
                            earlier,
                            place->Ok_0,
                        );
                    }
                }
                if let Err(ReserveError::Closed) = &place {
                    later = watched(&self.state, journal);
                }
            }
        }
        let ghost seen = AdmissionSeen {
            state: state@,
            free_bytes,
            permit,
            free_places,
            place,
            later: later@,
        };
        let reserved = match &place {
            Ok(_) => Ok(()),
            Err(refusal) => Err(*refusal),
        };
        let decision = decide_admission(
            &state,
            message_size,
            self.config.max_message_size,
            permit.is_some(),
            reserved,
            &later,
        );
        let result = match decision {
            Ok(_) => Ok(
                OutboundAdmission {
                    byte_permit: permit.unwrap(),
                    item_permit: place.unwrap(),
                    message_size,
                },
            ),
            Err(error) => {
                if let Some(permit) = permit {
                    return_bytes(permit, journal);
                }
                Err(error)
            },
        };
        proof {
            assert(admission_view(result) == seen.answer(message_size, max));
            if result is Ok {
                let last = journal.acts().len() - 1;
                assert(crate::journal::gives_permit(journal.acts()[last - 1], seen.permit->0));
                assert(crate::journal::gives_place(journal.acts()[last], seen.place->Ok_0));
            }
            assert(journal.acts() =~= old(journal).acts() + self.admission_acts(
                message_size,
                seen,
            ));
        }
        result
    }

    /// What handing an admitted message over does: it looks at the state, and then
    /// either gives the room back or makes the two sides of a reply and puts the
    /// message in its place, with its byte permit and the giving side.
    pub open spec fn send_acts(
        &self,
        admission: AdmissionView,
        message: Message,
        found: DriverStateView,
        response: oneshot::Sender<Result<(), DriverError>>,
        reply: oneshot::Receiver<Result<(), DriverError>>,
    ) -> Seq<Act> {
        let checked = seq![crate::journal::state_read(self.state(), found)];
        if send_outcome(message@.size(), admission.message_size, found) is Err {
            checked + admission.return_acts()
        } else {
            checked + seq![
                Act::ReplyMade { response, reply },
                Act::Sent {
                    place: admission.item_permit,
                    command: OutboundCommand { message, response, permit: admission.byte_permit },
                },
            ]
        }
    }

    /// Hands an admitted message to the writer and gives back where its result
    /// will arrive. A message of another size than was admitted is refused, and so
    /// is one on a connection that has ended, with how it ended.
    pub fn send_admitted(
        &self,
        admission: OutboundAdmission,
        message: Message,
        journal: &mut Journal,
    ) -> (result: Result<oneshot::Receiver<Result<(), DriverError>>, DriverError>)
        ensures
            exists|
                found: DriverStateView,
                response: oneshot::Sender<Result<(), DriverError>>,
                reply: oneshot::Receiver<Result<(), DriverError>>,
            |
                {
                    &&& final(journal).acts() == old(journal).acts() + #[trigger] self.send_acts(
                        admission@,
                        message,
                        found,
                        response,
                        reply,
                    )
                    &&& match result {
                        Ok(given) => {
                            &&& send_outcome(message@.size(), admission@.message_size, found) is Ok
                            &&& given == reply
                        },
                        Err(error) => send_outcome(message@.size(), admission@.message_size, found)
                            == Err::<(), DriverErrorView>(error@),
                    }
                },
    {
        let found = watched(&self.state, journal);
        match decide_send(message.len(), admission.message_size, &found) {
            Err(error) => {
                let ghost given = admission@;
                admission.discard(journal);
                proof {
                    let response = arbitrary::<oneshot::Sender<Result<(), DriverError>>>();
                    let reply = arbitrary::<oneshot::Receiver<Result<(), DriverError>>>();
                    assert(journal.acts() =~= old(journal).acts() + self.send_acts(
                        given,
                        message,
                        found@,
                        response,
                        reply,
                    ));
                }
                Err(error)
            },
            Ok(_) => {
                let ghost given = admission@;
                let (response, reply) = reply_channel(journal);
                let ghost side = response;
                let command = OutboundCommand { message, response, permit: admission.byte_permit };
                send_command(admission.item_permit, command, journal);
                assert(journal.acts() =~= old(journal).acts() + self.send_acts(
                    given,
                    message,
                    found@,
                    side,
                    reply,
                ));
                Ok(reply)
            },
        }
    }

    /// The result of a send: what the writer replied, or, where it is gone
    /// without a reply, how the connection ended.
    pub fn send_result(&self, reply: Option<Result<(), DriverError>>, journal: &mut Journal) -> (
        result: Result<(), DriverError>)
        ensures
            crate::error::result_view(result) == send_answer(
                match reply {
                    Some(reply) => Some(crate::error::result_view(reply)),
                    None => None,
                },
                final(journal).state_found(),
            ),
            final(journal).acts() == match reply {
                Some(_) => old(journal).acts(),
                None => old(journal).acts().push(
                    crate::journal::state_read(self.state(), final(journal).state_found()),
                ),
            },
    {
        match reply {
            Some(reply) => reply,
            None => Err(self.terminal_error(journal)),
        }
    }

    /// Whether a message of this size may be sent, as far as the state and the
    /// size limit go.
    pub fn validate_outbound_message(&self, message_size: usize, journal: &mut Journal) -> (result:
        Result<(), DriverError>)
        ensures
            final(journal).acts() == old(journal).acts().push(
                crate::journal::state_read(self.state(), final(journal).state_found()),
            ),
            crate::error::result_view(result) == outbound_check(
                final(journal).state_found(),
                message_size,
                self.config().max_message_size,
            ),
    {
        let found = watched(&self.state, journal);
        check_outbound_message(&found, message_size, self.config.max_message_size)
    }

    /// Claims the right to be the one receive of the connection.
    pub fn claim_receive(&self, journal: &mut Journal) -> (guard: Result<ReceiveGuard, DriverError>)
        ensures
            final(journal).acts() == old(journal).acts().push(
                Act::FlagClaimed { flag: *self.receive_active(), found: guard is Err },
            ),
            match guard {
                Ok(guard) => guard.active() == self.receive_active(),
                Err(error) => error@ == second_receive(),
            },
    {
        ReceiveGuard::claim(Arc::clone(&self.receive_active), journal)
    }

    /// The result of a receive: the message that came, whose bytes are given back, or,
    /// where none can come any more, how the connection ended.
    pub fn received(&self, envelope: Option<InboundEnvelope>, journal: &mut Journal) -> (result:
        Result<InboundMessage, DriverError>)
        ensures
            received_view(result) == receive_answer(
                match envelope {
                    Some(envelope) => Some(envelope.message@),
                    None => None,
                },
                final(journal).state_found(),
            ),
            final(journal).acts() == match envelope {
                Some(envelope) => old(journal).acts().push(
                    Act::BytesReturned { permit: envelope.permit },
                ),
                None => old(journal).acts().push(
                    crate::journal::state_read(self.state(), final(journal).state_found()),
                ),
            },
    {
        match envelope {
            Some(envelope) => {
                return_bytes(envelope.permit, journal);
                Ok(envelope.message)
            },
            None => Err(self.terminal_error(journal)),
        }
    }

    /// What giving the connection up does: a close is under way, the connection
    /// has ended, the tasks are asked to stop, and both are stopped.
    pub open spec fn abort_acts(&self, state: DriverStateView, signal: ShutdownSignal) -> Seq<Act> {
        seq![
            Act::FlagSet { flag: *self.closing(), value: true },
            crate::journal::state_write(self.state(), state, StateStep::Terminal(given_up())),
            crate::journal::signal_write(self.shutdown(), signal, SignalStep::Abort),
            Act::Stopped { task: self.reader_abort() },
            Act::Stopped { task: self.writer_abort() },
        ]
    }

    /// Gives the connection up at once. Says whether that is how it ended.
    pub fn abort(&self, journal: &mut Journal) -> (ended: bool)
        ensures
            exists|state: DriverStateView, signal: ShutdownSignal|
                {
                    &&& final(journal).acts() == old(journal).acts() + #[trigger] self.abort_acts(
                        state,
                        signal,
                    )
                    &&& ended == !(state is Closed)
                },
    {
        set_flag(&self.closing, true, journal);
        let terminal = DriverError::Transport("connection was abandoned".to_owned());
        let ended = publish_terminal(&self.state, &terminal, journal);
        let ghost state = journal.state_found();
        signal_abort(&self.shutdown, journal);
        let ghost signal = journal.signal_found();
        stop_task(&self.reader_abort, journal);
        stop_task(&self.writer_abort, journal);
        assert(journal.acts() =~= old(journal).acts() + self.abort_acts(state, signal));
        ended
    }

    /// What the start of a close does. It counts itself as a task first, and no
    /// longer where it is not the one to watch. Only the first call goes on to the
    /// state, and only on an open connection to the signal.
    pub open spec fn close_acts(&self, seen: CloseSeen) -> Seq<Act> {
        let counted = seq![
            crate::lifecycle::tasks_write(self.tasks_remaining(), seen.tasks, TaskStep::Started),
            Act::FlagSwapped { flag: *self.closing(), found: seen.closing, value: true },
        ];
        let published = if seen.closing {
            counted
        } else {
            counted.push(
                crate::journal::state_write(self.state(), seen.state, StateStep::LocalClose),
            )
        };
        let started = if seen.closing || !(seen.state is Open) {
            published
        } else {
            published.push(
                crate::journal::signal_write(self.shutdown(), seen.signal, SignalStep::LocalClose),
            ).push(
                Act::FlagSwapped {
                    flag: self.close_timeout_started(),
                    found: seen.watched,
                    value: true,
                },
            )
        };
        if seen.needs_watchdog() {
            started
        } else {
            started.push(
                crate::lifecycle::tasks_write(
                    self.tasks_remaining(),
                    seen.tasks_left,
                    TaskStep::Finished,
                ),
            )
        }
    }

    /// Starts to close an open connection, and says whether the caller has to
    /// watch the close for a timeout: only the one call that starts the close has
    /// to, and it is counted as a task of the connection then.
    pub fn begin_close(&self, journal: &mut Journal) -> (watch: bool)
        ensures
            exists|seen: CloseSeen|
                {
                    &&& final(journal).acts() == old(journal).acts() + #[trigger] self.close_acts(
                        seen,
                    )
                    &&& watch == seen.needs_watchdog()
                },
    {
        let ghost mut seen = CloseSeen {
            tasks: 0,
            closing: true,
            state: DriverStateView::Open,
            signal: ShutdownSignal::Running,
            watched: true,
            tasks_left: 0,
        };
        publish_task_started(&self.tasks_remaining, journal);
        proof {
            seen.tasks = journal.tasks_found();
        }
        let closing = swap_flag(&self.closing, true, journal);
        let mut started = false;
        let mut watched = true;
        proof {
            seen.closing = closing;
        }
        if !closing {
            started = publish_local_close(&self.state, journal);
            proof {
                seen.state = journal.state_found();
            }
            if started {
                signal_local_close(&self.shutdown, journal);
                proof {
                    seen.signal = journal.signal_found();
                }
                watched = swap_flag(&self.close_timeout_started, true, journal);
                proof {
                    seen.watched = watched;
                }
            }
        }
        let watch = needs_watchdog(closing, started, watched);
        if !watch {
            publish_task_finished(&self.tasks_remaining, journal);
            proof {
                seen.tasks_left = journal.tasks_found();
            }
        }
        assert(watch == seen.needs_watchdog());
        assert(journal.acts() =~= old(journal).acts() + self.close_acts(seen));
        watch
    }

    /// What ending an unanswered close does: the connection has ended, and both
    /// tasks are stopped.
    pub open spec fn expiry_acts(&self, state: DriverStateView) -> Seq<Act> {
        seq![
            crate::journal::state_write(self.state(), state, StateStep::CloseTimeout),
            Act::Stopped { task: self.reader_abort() },
            Act::Stopped { task: self.writer_abort() },
        ]
    }

    /// Ends a close that was not answered in time, and stops the tasks. Says
    /// whether that is how the connection ended.
    pub fn expire_close(&self, journal: &mut Journal) -> (ended: bool)
        ensures
            exists|state: DriverStateView|
                {
                    &&& final(journal).acts() == old(journal).acts() + #[trigger] self.expiry_acts(
                        state,
                    )
                    &&& ended == !(state is Closed)
                },
    {
        let ended = publish_close_timeout(&self.state, journal);
        let ghost state = journal.state_found();
        stop_task(&self.reader_abort, journal);
        stop_task(&self.writer_abort, journal);
        assert(journal.acts() =~= old(journal).acts() + self.expiry_acts(state));
        ended
    }

    /// Admits an operation on an open connection only.
    pub fn ensure_open(&self, journal: &mut Journal) -> (result: Result<(), DriverError>)
        ensures
            final(journal).acts() == old(journal).acts().push(
                crate::journal::state_read(self.state(), final(journal).state_found()),
            ),
            crate::error::result_view(result) == final(journal).state_found().admission(),
    {
        let found = watched(&self.state, journal);
        found.ensure_open()
    }

    /// What an operation is told once the tasks can no longer serve it.
    pub fn terminal_error(&self, journal: &mut Journal) -> (error: DriverError)
        ensures
            final(journal).acts() == old(journal).acts().push(
                crate::journal::state_read(self.state(), final(journal).state_found()),
            ),
            error@ == final(journal).state_found().terminal_error(),
    {
        let found = watched(&self.state, journal);
        found.terminal_error()
    }
}

/// What the sender of a message is told: the reply that was given, or, without one,
/// how the connection ended.
pub open spec fn send_answer(
    reply: Option<Result<(), DriverErrorView>>,
    state: DriverStateView,
) -> Result<(), DriverErrorView> {
    match reply {
        Some(reply) => reply,
        None => Err(state.terminal_error()),
    }
}

/// What a receiver is told: the message that was taken from the queue, or, where
/// none can come any more, how the connection ended.
pub open spec fn receive_answer(taken: Option<MessageView>, state: DriverStateView) -> Result<
    MessageView,
    DriverErrorView,
> {
    match taken {
        Some(message) => Ok(message),
        None => Err(state.terminal_error()),
    }
}

/// The content of the result of a receive.
pub open spec fn received_view(result: Result<InboundMessage, DriverError>) -> Result<
    MessageView,
    DriverErrorView,
> {
    match result {
        Ok(message) => Ok(message@),
        Err(error) => Err(error@),
    }
}

/// Decides whether a call of `close` has to watch for a timeout.
pub fn needs_watchdog(closing: bool, started: bool, watched: bool) -> (watch: bool)
    ensures
        watch == close_needs_watchdog(closing, started, watched),
{
    !closing && started && !watched
}

/// The outcome of a connection that was given up.
pub open spec fn given_up() -> DriverErrorView {
    DriverErrorView::Transport("connection was abandoned"@)
}

/// The report on a receive while another one is active.
pub open spec fn second_receive() -> DriverErrorView {
    DriverErrorView::Concurrency("only one receive operation may be active per connection"@)
}

/// The right to be the one receive of a connection.
pub struct ReceiveGuard {
    active: Arc<AtomicBool>,
}

/// The answer to a claim, given how the exchange on the shared flag went.
pub fn claim_result(exchange: Result<bool, bool>) -> (result: Result<(), DriverError>)
    ensures
        crate::error::result_view(result) == match exchange {
            Ok(_) => Ok::<(), DriverErrorView>(()),
            Err(_) => Err(second_receive()),
        },
{
    match exchange {
        Ok(_) => Ok(()),
        Err(_) => Err(
            DriverError::Concurrency(
                "only one receive operation may be active per connection".to_owned(),
            ),
        ),
    }
}

impl ReceiveGuard {
    /// The flag that stands for the right.
    pub closed spec fn active(&self) -> Arc<AtomicBool> {
        self.active
    }

    /// Claims the right, unless another receive has it.
    pub fn claim(active: Arc<AtomicBool>, journal: &mut Journal) -> (guard: Result<
        Self,
        DriverError,
    >)
        ensures
            final(journal).acts() == old(journal).acts().push(
                Act::FlagClaimed { flag: *active, found: guard is Err },
            ),
            match guard {
                Ok(guard) => guard.active() == active,
                Err(error) => error@ == second_receive(),
            },
    {
        match claim_result(claim_flag(&active, journal)) {
            Ok(_) => Ok(ReceiveGuard { active }),
            Err(error) => Err(error),
        }
    }

    /// Gives the right back.
    pub fn release(&self, journal: &mut Journal)
        ensures
            final(journal).acts() == old(journal).acts().push(
                Act::FlagSet { flag: *self.active(), value: false },
            ),
    {
        set_flag(&self.active, false, journal);
    }
}

/// What the reading task needs to end a connection.
pub struct ReaderContext {
    pub close_timeout: Timeout,
    pub closing: Arc<AtomicBool>,
    pub control: mpsc::Sender<WriterControl>,
    pub inbound: mpsc::Sender<InboundEnvelope>,
    pub inbound_budget: Arc<Semaphore>,
    pub shutdown: watch::Sender<ShutdownSignal>,
    pub shutdown_receiver: watch::Receiver<ShutdownSignal>,
    pub state: watch::Sender<DriverState>,
    pub writer_abort: AbortHandle,
}

impl ReaderContext {
    /// What making a peer's close known does: the outcome is recorded, and the
    /// writer is asked to finish the handshake.
    pub open spec fn peer_close_acts(
        self,
        outcome: DriverErrorView,
        state: DriverStateView,
        signal: ShutdownSignal,
    ) -> Seq<Act> {
        seq![
            crate::journal::state_write(self.state, state, StateStep::PeerClosed(outcome)),
            crate::journal::signal_write(self.shutdown, signal, SignalStep::PeerClose),
        ]
    }

    /// What ending a stalled peer's close does: the connection has ended, and the
    /// writer is stopped.
    pub open spec fn peer_expiry_acts(
        self,
        outcome: DriverErrorView,
        state: DriverStateView,
    ) -> Seq<Act> {
        seq![
            crate::journal::state_write(self.state, state, StateStep::Terminal(outcome)),
            Act::Stopped { task: self.writer_abort },
        ]
    }

    /// What a reading failure does: the connection has ended, the tasks are asked
    /// to stop, and the writer is stopped.
    pub open spec fn failure_acts(
        self,
        terminal: DriverErrorView,
        state: DriverStateView,
        signal: ShutdownSignal,
    ) -> Seq<Act> {
        seq![
            crate::journal::state_write(self.state, state, StateStep::Terminal(terminal)),
            crate::journal::signal_write(self.shutdown, signal, SignalStep::Abort),
            Act::Stopped { task: self.writer_abort },
        ]
    }
}

/// Makes the peer's close known and leaves the rest of it to the writer. Says
/// whether the outcome is news.
pub fn begin_peer_close(context: &ReaderContext, outcome: &DriverError, journal: &mut Journal) -> (
    news: bool)
    ensures
        exists|state: DriverStateView, signal: ShutdownSignal|
            {
                &&& final(journal).acts() == old(journal).acts()
                    + #[trigger] context.peer_close_acts(outcome@, state, signal)
                &&& news == (state.outcome() is None)
            },
{
    let news = publish_peer_closed(&context.state, outcome, journal);
    let ghost state = journal.state_found();
    signal_peer_close(&context.shutdown, journal);
    let ghost signal = journal.signal_found();
    assert(journal.acts() =~= old(journal).acts() + context.peer_close_acts(
        outcome@,
        state,
        signal,
    ));
    news
}

/// Ends a peer's close that the writer did not finish in time. Says whether that
/// is how the connection ended.
pub fn expire_peer_close(context: &ReaderContext, outcome: &DriverError, journal: &mut Journal) -> (
    ended: bool)
    ensures
        exists|state: DriverStateView|
            {
                &&& final(journal).acts() == old(journal).acts()
                    + #[trigger] context.peer_expiry_acts(outcome@, state)
                &&& ended == !(state is Closed)
            },
{
    let ended = publish_terminal(&context.state, outcome, journal);
    let ghost state = journal.state_found();
    stop_task(&context.writer_abort, journal);
    assert(journal.acts() =~= old(journal).acts() + context.peer_expiry_acts(outcome@, state));
    ended
}

/// Ends the connection because reading failed, and stops the writer. Says whether
/// that is how the connection ended.
pub fn finish_reader_failure(
    context: &ReaderContext,
    terminal: &DriverError,
    journal: &mut Journal,
) -> (ended: bool)
    ensures
        exists|state: DriverStateView, signal: ShutdownSignal|
            {
                &&& final(journal).acts() == old(journal).acts() + #[trigger] context.failure_acts(
                    terminal@,
                    state,
                    signal,
                )
                &&& ended == !(state is Closed)
            },
{
    let ended = publish_terminal(&context.state, terminal, journal);
    let ghost state = journal.state_found();
    signal_abort(&context.shutdown, journal);
    let ghost signal = journal.signal_found();
    stop_task(&context.writer_abort, journal);
    assert(journal.acts() =~= old(journal).acts() + context.failure_acts(
        terminal@,
        state,
        signal,
    ));
    ended
}

/// What a writing failure does: the connection has ended, the outcome is read
/// back, and the tasks are asked to stop.
pub open spec fn writer_end_acts(
    state: watch::Sender<DriverState>,
    shutdown: watch::Sender<ShutdownSignal>,
    error: DriverErrorView,
    before: DriverStateView,
    found: DriverStateView,
    signal: ShutdownSignal,
) -> Seq<Act> {
    crate::lifecycle::writer_failure_acts(state, error, before, found).push(
        crate::journal::signal_write(shutdown, signal, SignalStep::Abort),
    )
}

/// Ends the connection because writing failed, and tells the tasks to stop. The
/// result is how the connection ended.
pub fn finish_writer_failure(
    state: &watch::Sender<DriverState>,
    shutdown: &watch::Sender<ShutdownSignal>,
    error: &DriverError,
    journal: &mut Journal,
) -> (terminal: DriverError)
    ensures
        exists|before: DriverStateView, found: DriverStateView, signal: ShutdownSignal|
            {
                &&& final(journal).acts() == old(journal).acts() + #[trigger] writer_end_acts(
                    *state,
                    *shutdown,
                    error@,
                    before,
                    found,
                    signal,
                )
                &&& crate::lifecycle::is_selected(terminal@, error@, before, found)
            },
{
    let terminal = publish_writer_failure(state, error, journal);
    let ghost published = journal.acts();
    signal_abort(shutdown, journal);
    proof {
        let (before, found) = choose|before: DriverStateView, found: DriverStateView|
            {
                &&& published == old(journal).acts()
                    + #[trigger] crate::lifecycle::writer_failure_acts(
                    *state,
                    error@,
                    before,
                    found,
                )
                &&& crate::lifecycle::is_selected(terminal@, error@, before, found)
            };
        assert(journal.acts() =~= old(journal).acts() + writer_end_acts(
            *state,
            *shutdown,
            error@,
            before,
            found,
            journal.signal_found(),
        ));
    }
    terminal
}

/// What settling a close does: it looks for the outcome of the peer's close, and
/// ends the connection with it where there is one.
pub open spec fn settle_acts(
    state: watch::Sender<DriverState>,
    found: DriverStateView,
    before: DriverStateView,
) -> Seq<Act> {
    let looked = seq![crate::journal::state_read(state, found)];
    match found.peer_outcome() {
        Some(outcome) => looked.push(
            crate::journal::state_write(state, before, StateStep::Terminal(outcome)),
        ),
        None => looked,
    }
}

/// Ends the connection with the outcome of the peer's close, if the peer has
/// closed, after the writer wrote its last. The result is that outcome.
pub fn settle_writer_close(state: &watch::Sender<DriverState>, journal: &mut Journal) -> (outcome:
    Option<DriverError>)
    ensures
        exists|found: DriverStateView, before: DriverStateView|
            {
                &&& final(journal).acts() == old(journal).acts() + #[trigger] settle_acts(
                    *state,
                    found,
                    before,
                )
                &&& crate::error::optional_view(outcome) == found.peer_outcome()
            },
{
    let outcome = peer_close_outcome(state, journal);
    let ghost found = journal.state_found();
    let ghost mut before = found;
    if let Some(outcome) = &outcome {
        publish_terminal(state, outcome, journal);
        proof {
            before = journal.state_found();
        }
    }
    assert(journal.acts() =~= old(journal).acts() + settle_acts(*state, found, before));
    outcome
}

/// A connection without room for a message refuses it as a limit on resources,
/// and one that is not open refuses it with how it ended.
pub proof fn saturation_is_a_resource_limit(
    state: DriverStateView,
    message_size: usize,
    max_message_size: usize,
    bytes_free: bool,
    place: Result<(), ReserveError>,
    later: DriverStateView,
)
    ensures
        ({
            let outcome = admission_outcome(
                state,
                message_size,
                max_message_size,
                bytes_free,
                place,
                later,
            );
            &&& state is Open && (message_size > max_message_size || !bytes_free || place == Err::<
                (),
                ReserveError,
            >(ReserveError::Full)) ==> (outcome matches Err(error) && error is ResourceLimit)
            &&& !(state is Open) ==> outcome == state.admission() && outcome is Err
        }),
{
}

/// With valid limits every message within the size limit can be counted in
/// permits.
pub proof fn valid_limits_fit_the_budget(config: ConnectionConfig, message_size: usize)
    requires
        config.valid(),
        message_size <= config.max_message_size,
    ensures
        message_size <= u32::MAX,
        message_size <= config.max_buffered_bytes,
        config.max_buffered_bytes <= MAX_QUEUE_CAPACITY ==> config.startable(),
{
}

/// Once a connection has ended, a send without a reply, a receive without a
/// message, a new operation and a close all tell the same outcome.
pub proof fn operations_agree_on_the_outcome(error: DriverErrorView, steps: Seq<StateStep>)
    ensures
        ({
            let state = DriverStateView::Closed(error).after_all(steps);
            &&& send_answer(None, state) == Err::<(), DriverErrorView>(error)
            &&& receive_answer(None, state) == Err::<MessageView, DriverErrorView>(error)
            &&& state.admission() == Err::<(), DriverErrorView>(error)
            &&& crate::closing::ClosePhaseView::Starting.next(
                crate::closing::CloseEventView::State(state),
            ).0 == crate::closing::ClosePhaseView::AwaitingTasks(error)
        }),
{
    crate::state::closed_is_absorbing(error, steps);
}

/// A message may be sent exactly when the connection is open, the message is within
/// its limit and can be counted in permits, and bytes and a place are free. The first
/// of these that is not so is what the sender is told, and a message takes as many
/// permits as it has bytes.
pub proof fn sending_is_decided_exactly(
    state: DriverStateView,
    message_size: usize,
    max_message_size: usize,
    bytes_free: bool,
    place: Result<(), ReserveError>,
    later: DriverStateView,
)
    ensures
        ({
            let checked = outbound_check(state, message_size, max_message_size);
            let permits = permits_needed(state, message_size, max_message_size);
            let outcome = admission_outcome(
                state,
                message_size,
                max_message_size,
                bytes_free,
                place,
                later,
            );
            let fits = state is Open && message_size <= max_message_size;
            let counts = fits && message_size <= 0xffff_ffff;
            let limit = |message: Seq<char>| DriverErrorView::ResourceLimit(message);
            &&& checked is Ok <==> fits
            &&& permits is Ok <==> counts
            &&& counts ==> permits->Ok_0 == message_size
            &&& outcome is Ok <==> counts && bytes_free && place is Ok
            &&& !(state is Open) ==> checked == Err::<(), DriverErrorView>(state.terminal_error())
            &&& state is Open && message_size > max_message_size ==> checked == Err::<
                (),
                DriverErrorView,
            >(
                limit(
                    "message contains "@ + crate::text::decimal(message_size as nat)
                        + " bytes; maximum is "@ + crate::text::decimal(max_message_size as nat),
                ),
            )
            &&& checked is Err ==> permits == Err::<u32, DriverErrorView>(checked->Err_0)
            &&& fits && !counts ==> permits == Err::<u32, DriverErrorView>(
                limit("message byte count exceeds the supported budget"@),
            )
            &&& permits is Err ==> outcome == Err::<(), DriverErrorView>(permits->Err_0)
            &&& counts && !bytes_free ==> outcome == Err::<(), DriverErrorView>(
                limit("outbound byte budget is exhausted; retry after an accepted send completes"@),
            )
            &&& counts && bytes_free && place == Err::<(), ReserveError>(ReserveError::Full)
                ==> outcome == Err::<(), DriverErrorView>(
                limit("outbound item queue is full; retry after an accepted send completes"@),
            )
            &&& counts && bytes_free && place == Err::<(), ReserveError>(ReserveError::Closed)
                ==> outcome == Err::<(), DriverErrorView>(later.terminal_error())
        }),
{
}

/// An admitted message is handed over whatever its size, unless it is another one
/// than was admitted or the connection has ended, and then that is what is told.
pub proof fn admitted_message_is_handed_over(
    size: nat,
    admitted: usize,
    state: DriverStateView,
    error: DriverErrorView,
)
    ensures
        send_outcome(size, admitted, state) is Ok <==> size == admitted && !(state is Closed),
        send_outcome(admitted as nat, admitted, DriverStateView::Closed(error)) == Err::<
            (),
            DriverErrorView,
        >(error),
        size != admitted ==> send_outcome(size, admitted, state) == Err::<(), DriverErrorView>(
            DriverErrorView::Transport("outbound message changed after capacity admission"@),
        ),
{
}

/// The reports of the operations.
pub proof fn operations_report_in_these_words()
    ensures
        changed_message() == DriverErrorView::Transport(
            "outbound message changed after capacity admission"@,
        ),
        given_up() == DriverErrorView::Transport("connection was abandoned"@),
        second_receive() == DriverErrorView::Concurrency(
            "only one receive operation may be active per connection"@,
        ),
{
}

/// A sender is told what the writer replied and a receiver what was taken, and where
/// there is neither, both are told the same of the connection.
pub proof fn senders_and_receivers_are_told(
    reply: Result<(), DriverErrorView>,
    message: MessageView,
    state: DriverStateView,
    inbound: InboundMessage,
    error: DriverError,
    admission: OutboundAdmission,
)
    ensures
        send_answer(Some(reply), state) == reply,
        receive_answer(Some(message), state) == Ok::<MessageView, DriverErrorView>(message),
        send_answer(None, state) == Err::<(), DriverErrorView>(state.terminal_error()),
        receive_answer(None, state) == Err::<MessageView, DriverErrorView>(state.terminal_error()),
        received_view(Ok(inbound)) == Ok::<MessageView, DriverErrorView>(inbound@),
        received_view(Err(error)) == Err::<MessageView, DriverErrorView>(error@),
        admission_view(Ok(admission)) == Ok::<AdmissionView, DriverErrorView>(admission@),
        admission_view(Err(error)) == Err::<AdmissionView, DriverErrorView>(error@),
{
}

/// A call of `close` watches exactly if it is the one that started the close and
/// nobody watches yet.
pub proof fn one_call_watches(closing: bool, started: bool, watched: bool)
    ensures
        close_needs_watchdog(false, true, false),
        closing ==> !close_needs_watchdog(closing, started, watched),
        !started ==> !close_needs_watchdog(closing, started, watched),
        watched ==> !close_needs_watchdog(closing, started, watched),
{
}

/// A connection can be started exactly with a queue and a budget that tokio can hold,
/// and with permits that can be asked for.
pub proof fn startable_limits_can_be_held(config: ConnectionConfig)
    ensures
        config.startable() <==> {
            &&& 1 <= config.max_queue <= usize::MAX / 8
            &&& config.max_buffered_bytes <= usize::MAX / 8
            &&& config.max_message_size <= usize::MAX / 8 || 0xffff_ffff <= usize::MAX / 8
        },
{
}

/// The queues hold as many messages as configured, in each direction, and four
/// control requests; the budgets hold as many bytes as configured, in each direction;
/// and each is made once.
pub proof fn channels_are_made_as_configured(channels: Channels, config: ConnectionConfig, i: int)
    requires
        0 <= i < channels.opening_acts(config).len(),
    ensures
        ({
            let acts = channels.opening_acts(config);
            let act = acts[i];
            &&& acts.len() == 9
            &&& act matches Act::InboundMade { sender, receiver, capacity } ==> i == 0 && sender
                == channels.inbound && receiver == channels.inbound_receiver && capacity
                == config.max_queue
            &&& act matches Act::OutboundMade { sender, receiver, capacity } ==> i == 1 && sender
                == channels.outbound && receiver == channels.outbound_receiver && capacity
                == config.max_queue
            &&& act matches Act::ControlMade { sender, receiver, capacity } ==> i == 2 && sender
                == channels.control && receiver == channels.control_receiver && capacity == 4
            &&& act matches Act::PoolMade { permits, .. } ==> (i == 7 || i == 8) && permits
                == config.max_buffered_bytes
            &&& acts[0] is InboundMade && acts[1] is OutboundMade && acts[2] is ControlMade
            &&& acts[7] is PoolMade && acts[7]->PoolMade_pool == *channels.inbound_budget
            &&& acts[8] is PoolMade && acts[8]->PoolMade_pool == *channels.outbound_budget
        }),
{
}

/// A new admission shares neither its permit nor its place with one that is entered,
/// and a connection with flags of its own has three.
pub proof fn new_admissions_share_nothing(
    admission: AdmissionView,
    earlier: AdmissionView,
    acts: Seq<Act>,
    driver: ConnectionDriver,
)
    requires
        admission.is_new(acts),
        earlier.is_entered(acts),
        driver.has_own_flags(),
    ensures
        admission.byte_permit != earlier.byte_permit,
        admission.item_permit != earlier.item_permit,
        *driver.closing() != driver.close_timeout_started(),
        *driver.closing() != *driver.receive_active(),
        driver.close_timeout_started() != *driver.receive_active(),
{
}

} // verus!
