//! How a received message gets into the bounded inbound queue.
//!
//! The message first needs permits for all its bytes, then a place in the queue.
//! Both may have to be waited for, and a shutdown ends either wait.

use vstd::prelude::*;

use crate::message::{InboundMessage, Message, MessageView};
use crate::shutdown::ShutdownSignal;

verus! {

/// What the transfer of a message waits for.
#[derive(Debug, Eq, PartialEq)]
pub enum TransferPhase {
    /// Permits for the bytes of this message.
    Acquiring(Message),
    /// A place in the queue.
    Delivering,
    /// Nothing: the transfer is over.
    Finished,
}

/// The content of a [`TransferPhase`].
#[verifier::ext_equal]
pub enum TransferPhaseView {
    Acquiring(MessageView),
    Delivering,
    Finished,
}

impl View for TransferPhase {
    type V = TransferPhaseView;

    open spec fn view(&self) -> TransferPhaseView {
        match *self {
            TransferPhase::Acquiring(message) => TransferPhaseView::Acquiring(message@),
            TransferPhase::Delivering => TransferPhaseView::Delivering,
            TransferPhase::Finished => TransferPhaseView::Finished,
        }
    }
}

/// What happened to the transfer.
#[derive(Clone, Copy, Debug, Eq, PartialEq, Structural)]
pub enum TransferEvent {
    /// The permits are there, or none will be given any more.
    Acquired(bool),
    /// The message is in the queue, or its receiving side is gone.
    Delivered(bool),
    /// The shutdown signal changed, or its writers are all gone.
    ShutdownChanged { alive: bool },
}

/// What the transfer has to do.
#[derive(Debug, Eq, PartialEq)]
pub enum TransferAction {
    /// Acquire this many permits, unless the shutdown signal changes first.
    Acquire(u32),
    /// Put this into the queue with its permits, unless the shutdown signal
    /// changes first.
    Deliver(InboundMessage),
    /// The transfer is over, and reading may go on or not.
    Done(bool),
}

/// The content of a [`TransferAction`].
#[verifier::ext_equal]
pub enum TransferActionView {
    Acquire(u32),
    Deliver(MessageView),
    Done(bool),
}

impl View for TransferAction {
    type V = TransferActionView;

    open spec fn view(&self) -> TransferActionView {
        match *self {
            TransferAction::Acquire(count) => TransferActionView::Acquire(count),
            TransferAction::Deliver(message) => TransferActionView::Deliver(message@),
            TransferAction::Done(proceed) => TransferActionView::Done(proceed),
        }
    }
}

/// How the transfer of a message begins: it is dropped once a shutdown is asked
/// for, and refused where its size cannot be counted in permits.
pub open spec fn transfer_start(payload: MessageView, signal: ShutdownSignal) -> (
    TransferPhaseView,
    TransferActionView,
) {
    if !(signal is Running) {
        (TransferPhaseView::Finished, TransferActionView::Done(true))
    } else if payload.size() > u32::MAX {
        (TransferPhaseView::Finished, TransferActionView::Done(false))
    } else {
        (
            TransferPhaseView::Acquiring(payload),
            TransferActionView::Acquire(payload.size() as u32),
        )
    }
}

impl TransferPhaseView {
    /// What an event leads to. One that the phase does not wait for ends the
    /// transfer and the reading.
    pub open spec fn next(self, event: TransferEvent) -> (TransferPhaseView, TransferActionView) {
        match (self, event) {
            (TransferPhaseView::Acquiring(payload), TransferEvent::Acquired(true)) => {
                if payload.is_payload() {
                    (TransferPhaseView::Delivering, TransferActionView::Deliver(payload))
                } else {
                    (TransferPhaseView::Finished, TransferActionView::Done(false))
                }
            },
            (TransferPhaseView::Acquiring(_), TransferEvent::ShutdownChanged { alive }) => (
                TransferPhaseView::Finished,
                TransferActionView::Done(alive),
            ),
            (TransferPhaseView::Delivering, TransferEvent::Delivered(taken)) => (
                TransferPhaseView::Finished,
                TransferActionView::Done(taken),
            ),
            (TransferPhaseView::Delivering, TransferEvent::ShutdownChanged { alive }) => (
                TransferPhaseView::Finished,
                TransferActionView::Done(alive),
            ),
            _ => (TransferPhaseView::Finished, TransferActionView::Done(false)),
        }
    }

    /// The phase and the actions of a whole run.
    pub open spec fn run(self, events: Seq<TransferEvent>) -> (
        TransferPhaseView,
        Seq<TransferActionView>,
    )
        decreases events.len(),
    {
        if events.len() == 0 {
            (self, Seq::empty())
        } else {
            let (phase, actions) = self.run(events.drop_last());
            let (next, action) = phase.next(events.last());
            (next, actions.push(action))
        }
    }
}

impl TransferPhase {
    /// Begins the transfer of a message, `signal` being the shutdown signal.
    pub fn begin(payload: Message, signal: ShutdownSignal) -> (next: (
        TransferPhase,
        TransferAction,
    ))
        ensures
            (next.0@, next.1@) == transfer_start(payload@, signal),
    {
        if signal != ShutdownSignal::Running {
            return (TransferPhase::Finished, TransferAction::Done(true));
        }
        let size: usize = payload.len();
        if size > u32::MAX as usize {
            return (TransferPhase::Finished, TransferAction::Done(false));
        }
        (TransferPhase::Acquiring(payload), TransferAction::Acquire(size as u32))
    }

    /// Decides what an event leads to.
    pub fn step(self, event: TransferEvent) -> (next: (TransferPhase, TransferAction))
        ensures
            (next.0@, next.1@) == self@.next(event),
    {
        match (self, event) {
            (TransferPhase::Acquiring(payload), TransferEvent::Acquired(true)) => {
                match InboundMessage::from_message(payload) {
                    Some(message) => (TransferPhase::Delivering, TransferAction::Deliver(message)),
                    None => (TransferPhase::Finished, TransferAction::Done(false)),
                }
            },
            (TransferPhase::Acquiring(_), TransferEvent::ShutdownChanged { alive }) => (
                TransferPhase::Finished,
                TransferAction::Done(alive),
            ),
            (TransferPhase::Delivering, TransferEvent::Delivered(taken)) => (
                TransferPhase::Finished,
                TransferAction::Done(taken),
            ),
            (TransferPhase::Delivering, TransferEvent::ShutdownChanged { alive }) => (
                TransferPhase::Finished,
                TransferAction::Done(alive),
            ),
            _ => (TransferPhase::Finished, TransferAction::Done(false)),
        }
    }
}

/// How many of the actions put something into the queue.
pub open spec fn deliveries(actions: Seq<TransferActionView>) -> nat
    decreases actions.len(),
{
    if actions.len() == 0 {
        0
    } else {
        deliveries(actions.drop_last()) + if actions.last() is Deliver {
            1nat
        } else {
            0
        }
    }
}

/// A message enters the queue at most once, unchanged, only while the connection
/// runs, and only after permits for all its bytes were asked for and given.
pub proof fn message_is_delivered_once_with_its_permits(
    payload: MessageView,
    signal: ShutdownSignal,
    events: Seq<TransferEvent>,
)
    ensures
        deliveries(transfer_start(payload, signal).0.run(events).1) <= 1,
        forall|i: int|
            0 <= i < events.len() && (#[trigger] transfer_start(payload, signal).0.run(
                events,
            ).1[i]) is Deliver ==> {
                &&& i == 0
                &&& transfer_start(payload, signal).0.run(events).1[i]
                    == TransferActionView::Deliver(payload)
                &&& signal is Running
                &&& transfer_start(payload, signal).1 == TransferActionView::Acquire(
                    payload.size() as u32,
                )
                &&& payload.size() <= u32::MAX
                &&& events[0] == TransferEvent::Acquired(true)
            },
{
    transfer_progress(payload, signal, events);
}

proof fn transfer_progress(
    payload: MessageView,
    signal: ShutdownSignal,
    events: Seq<TransferEvent>,
)
    ensures
        ({
            let (phase, actions) = transfer_start(payload, signal).0.run(events);
            &&& actions.len() == events.len()
            &&& deliveries(actions) <= 1
            &&& events.len() == 0 ==> phase == transfer_start(payload, signal).0
            &&& events.len() > 0 ==> !(phase is Acquiring)
            &&& events.len() > 1 ==> phase is Finished
            &&& events.len() == 0 ==> deliveries(actions) == 0
            &&& forall|i: int|
                0 <= i < events.len() && (#[trigger] actions[i]) is Deliver ==> {
                    &&& i == 0
                    &&& actions[i] == TransferActionView::Deliver(payload)
                    &&& transfer_start(payload, signal).0 is Acquiring
                    &&& events[0] == TransferEvent::Acquired(true)
                }
        }),
    decreases events.len(),
{
    if events.len() > 0 {
        transfer_progress(payload, signal, events.drop_last());
        let earlier = transfer_start(payload, signal).0.run(events.drop_last()).1;
        let actions = transfer_start(payload, signal).0.run(events).1;
        assert(actions.drop_last() =~= earlier);
        assert forall|i: int| 0 <= i < events.len() && (#[trigger] actions[i]) is Deliver implies {
            &&& i == 0
            &&& actions[i] == TransferActionView::Deliver(payload)
            &&& transfer_start(payload, signal).0 is Acquiring
            &&& events[0] == TransferEvent::Acquired(true)
        } by {
            if i < events.len() - 1 {
                assert(actions[i] == earlier[i]);
                assert(events.drop_last()[0] == events[0]);
            }
        }
    }
}

/// A payload is transferred with a permit for each of its bytes, however many they
/// are, as long as they can be counted: a binary one by its length, a text by that of
/// its UTF-8 form. What is more is refused, and after a shutdown all is dropped.
pub proof fn every_byte_takes_a_permit(bytes: Seq<u8>, text: Seq<char>, signal: ShutdownSignal)
    ensures
        ({
            let binary = transfer_start(MessageView::Binary(bytes), signal);
            let written = transfer_start(MessageView::Text(text), signal);
            let encoded = vstd::utf8::encode_utf8(text);
            &&& signal is Running && bytes.len() <= 0xffff_ffff ==> binary == (
                TransferPhaseView::Acquiring(MessageView::Binary(bytes)),
                TransferActionView::Acquire(bytes.len() as u32),
            )
            &&& signal is Running && encoded.len() <= 0xffff_ffff ==> written == (
                TransferPhaseView::Acquiring(MessageView::Text(text)),
                TransferActionView::Acquire(encoded.len() as u32),
            )
            &&& signal is Running && bytes.len() > 0xffff_ffff ==> binary == (
                TransferPhaseView::Finished,
                TransferActionView::Done(false),
            )
            &&& signal is Running && encoded.len() > 0xffff_ffff ==> written == (
                TransferPhaseView::Finished,
                TransferActionView::Done(false),
            )
            &&& !(signal is Running) ==> binary == (
                TransferPhaseView::Finished,
                TransferActionView::Done(true),
            ) && written == binary
        }),
{
}

/// A payload that is delivered took as many permits as it has bytes.
pub proof fn delivered_bytes_have_permits(
    bytes: Seq<u8>,
    text: Seq<char>,
    signal: ShutdownSignal,
    event: TransferEvent,
)
    ensures
        transfer_start(MessageView::Binary(bytes), signal).0.next(event).1 is Deliver ==> (
        transfer_start(MessageView::Binary(bytes), signal).1 matches TransferActionView::Acquire(
            count,
        ) && count == bytes.len()),
        transfer_start(MessageView::Text(text), signal).0.next(event).1 is Deliver ==> (
        transfer_start(MessageView::Text(text), signal).1 matches TransferActionView::Acquire(count)
            && count == vstd::utf8::encode_utf8(text).len()),
{
}

/// What each event makes of a transfer: permits lead to the delivery of the payload
/// as it is, a delivery to the next message, and a shutdown ends either wait.
pub proof fn transfer_reacts_to_every_event(
    bytes: Seq<u8>,
    text: Seq<char>,
    alive: bool,
    taken: bool,
)
    ensures
        ({
            let binary = TransferPhaseView::Acquiring(MessageView::Binary(bytes));
            let written = TransferPhaseView::Acquiring(MessageView::Text(text));
            let changed = TransferEvent::ShutdownChanged { alive };
            let over = (TransferPhaseView::Finished, TransferActionView::Done(alive));
            let refused = (TransferPhaseView::Finished, TransferActionView::Done(false));
            &&& binary.next(TransferEvent::Acquired(true)) == (
                TransferPhaseView::Delivering,
                TransferActionView::Deliver(MessageView::Binary(bytes)),
            )
            &&& written.next(TransferEvent::Acquired(true)) == (
                TransferPhaseView::Delivering,
                TransferActionView::Deliver(MessageView::Text(text)),
            )
            &&& binary.next(TransferEvent::Acquired(false)) == refused
            &&& written.next(TransferEvent::Acquired(false)) == refused
            &&& binary.next(changed) == over
            &&& written.next(changed) == over
            &&& TransferPhaseView::Delivering.next(changed) == over
            &&& TransferPhaseView::Delivering.next(TransferEvent::Delivered(taken)) == (
                TransferPhaseView::Finished,
                TransferActionView::Done(taken),
            )
        }),
{
}

/// The content of a transfer keeps everything that it carries.
pub proof fn transfer_contents_are_whole(
    message: Message,
    inbound: InboundMessage,
    count: u32,
    proceed: bool,
)
    ensures
        TransferPhase::Acquiring(message)@ == TransferPhaseView::Acquiring(message@),
        TransferPhase::Delivering@ == TransferPhaseView::Delivering,
        TransferPhase::Finished@ == TransferPhaseView::Finished,
        TransferAction::Acquire(count)@ == TransferActionView::Acquire(count),
        TransferAction::Deliver(inbound)@ == TransferActionView::Deliver(inbound@),
        TransferAction::Done(proceed)@ == TransferActionView::Done(proceed),
{
}

} // verus!
