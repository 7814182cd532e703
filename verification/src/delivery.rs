//! What becomes of a message: from the socket to a receive, and from a send to its
//! answer.
//!
//! Between the reading task and the receivers lies tokio's bounded queue: what is put
//! in first is taken first, and a wait for it that is dropped takes nothing.
//! [`Delivery`] is that queue together with the reading task's phase and what the
//! receivers were given.

use vstd::prelude::*;

use crate::error::DriverErrorView;
use crate::inbound::{TransferActionView, TransferEvent, TransferPhaseView};
use crate::message::{CloseFrameView, MessageView};
use crate::reader::{ReaderActionView, ReaderEventView, ReaderPhase};
use crate::shutdown::ShutdownSignal;
use crate::state::{DriverStateView, StateStep};
use crate::writer::{WriterActionView, WriterEventView, WriterPhase};

verus! {

/// One step on the way of received messages.
pub enum DeliveryStep {
    /// The reading task handles an event, `closing` being whether a close was under
    /// way.
    Socket { event: ReaderEventView, closing: bool },
    /// A receive takes the next message, if there is one.
    Receive,
    /// A receive that waits is dropped.
    Abandon,
}

/// Where the received messages of a connection are.
#[verifier::ext_equal]
pub struct Delivery {
    pub phase: ReaderPhase,
    /// What is in the queue, first to last.
    pub queue: Seq<MessageView>,
    /// What the receives returned, first to last.
    pub returned: Seq<MessageView>,
}

/// What the transfer of a payload puts in the queue while the connection runs and
/// both its permits and its place are given.
pub open spec fn transferred(payload: MessageView) -> Seq<MessageView> {
    let begun = crate::inbound::transfer_start(payload, ShutdownSignal::Running);
    match begun.0.next(TransferEvent::Acquired(true)) {
        (TransferPhaseView::Delivering, TransferActionView::Deliver(message)) => seq![message],
        _ => Seq::empty(),
    }
}

impl Delivery {
    /// Nothing was received yet.
    pub open spec fn start() -> Delivery {
        Delivery { phase: ReaderPhase::Checking, queue: Seq::empty(), returned: Seq::empty() }
    }

    /// What a step leaves.
    pub open spec fn after(self, step: DeliveryStep) -> Delivery {
        match step {
            DeliveryStep::Socket { event, closing } => {
                let (phase, action) = self.phase.next(event, closing);
                let queue = match action {
                    ReaderActionView::Queue(payload) => self.queue + transferred(payload),
                    _ => self.queue,
                };
                Delivery { phase, queue, ..self }
            },
            DeliveryStep::Receive => if self.queue.len() > 0 {
                Delivery {
                    queue: self.queue.drop_first(),
                    returned: self.returned.push(self.queue.first()),
                    ..self
                }
            } else {
                self
            },
            DeliveryStep::Abandon => self,
        }
    }

    /// What a sequence of steps leaves, first to last.
    pub open spec fn after_all(self, steps: Seq<DeliveryStep>) -> Delivery
        decreases steps.len(),
    {
        if steps.len() == 0 {
            self
        } else {
            self.after_all(steps.drop_last()).after(steps.last())
        }
    }

    /// What a receive is told now, `state` being the state of the connection, or `None`
    /// while it has to wait. The reading task holds the queue open.
    pub open spec fn answer(self, state: DriverStateView) -> Option<
        Result<MessageView, DriverErrorView>,
    > {
        if self.queue.len() > 0 {
            Some(crate::driver::receive_answer(Some(self.queue.first()), state))
        } else if self.phase is Stopped {
            Some(crate::driver::receive_answer(None, state))
        } else {
            None
        }
    }
}

/// The events that the reading task handled, each with whether a close was under way.
pub open spec fn socket_inputs(steps: Seq<DeliveryStep>) -> Seq<(ReaderEventView, bool)>
    decreases steps.len(),
{
    if steps.len() == 0 {
        Seq::empty()
    } else {
        let earlier = socket_inputs(steps.drop_last());
        match steps.last() {
            DeliveryStep::Socket { event, closing } => earlier.push((event, closing)),
            _ => earlier,
        }
    }
}

/// Whether an event leaves the transfers alone: a payload can be counted in permits,
/// and the queue took what it was given.
pub open spec fn is_undisturbed(event: ReaderEventView) -> bool {
    match event {
        ReaderEventView::Received(message) => message.size() <= u32::MAX,
        ReaderEventView::Queued(taken) => taken,
        _ => true,
    }
}

/// Whether every event is one that the reading task was waiting for, and none
/// disturbs a transfer.
pub open spec fn runs_undisturbed(inputs: Seq<(ReaderEventView, bool)>) -> bool {
    &&& ReaderPhase::Checking.driven(inputs)
    &&& forall|i: int| 0 <= i < inputs.len() ==> is_undisturbed((#[trigger] inputs[i]).0)
}

/// What the receives returned and what is still queued is together what the socket
/// delivered for the application: nothing is lost, repeated, changed or put out of
/// order, whatever receives are dropped, and nothing else is ever returned.
pub proof fn messages_are_received_in_order(steps: Seq<DeliveryStep>)
    requires
        runs_undisturbed(socket_inputs(steps)),
    ensures
        ({
            let now = Delivery::start().after_all(steps);
            let delivered = crate::reader::received_payloads(socket_inputs(steps));
            &&& now.returned + now.queue == delivered
            &&& now.phase == ReaderPhase::Checking.run(socket_inputs(steps)).0
            &&& forall|i: int|
                0 <= i < delivered.len() ==> (#[trigger] delivered[i]).is_payload()
        }),
    decreases steps.len(),
{
    if steps.len() > 0 {
        let earlier = steps.drop_last();
        let inputs = socket_inputs(steps);
        let before = Delivery::start().after_all(earlier);
        let now = Delivery::start().after_all(steps);
        match steps.last() {
            DeliveryStep::Socket { event, closing } => {
                assert(inputs.drop_last() =~= socket_inputs(earlier));
                assert forall|i: int| 0 <= i < inputs.drop_last().len() implies is_undisturbed(
                    (#[trigger] inputs.drop_last()[i]).0,
                ) by {
                    assert(inputs.drop_last()[i] == inputs[i]);
                }
                messages_are_received_in_order(earlier);
                assert(is_undisturbed(inputs[inputs.len() - 1].0));
                assert(now.returned + now.queue =~= crate::reader::received_payloads(inputs));
            },
            DeliveryStep::Receive => {
                messages_are_received_in_order(earlier);
                assert(now.returned + now.queue =~= before.returned + before.queue);
            },
            DeliveryStep::Abandon => {
                messages_are_received_in_order(earlier);
            },
        }
    } else {
        assert(Seq::<MessageView>::empty() + Seq::<MessageView>::empty() =~= Seq::<
            MessageView,
        >::empty());
    }
}

/// The messages of a peer come out of the receives one by one, in order, and only
/// after the last of them comes the peer's close, as the peer said it.
pub proof fn peer_messages_come_before_its_close(
    steps: Seq<DeliveryStep>,
    frame: Option<CloseFrameView>,
    state: DriverStateView,
)
    requires
        runs_undisturbed(socket_inputs(steps)),
        socket_inputs(steps).len() > 0,
        socket_inputs(steps).last() == (
            ReaderEventView::Received(MessageView::Close(frame)),
            false,
        ),
        state.outcome() == Some(crate::reader::close_outcome(frame, false)),
    ensures
        ({
            let now = Delivery::start().after_all(steps);
            let sent = crate::reader::received_payloads(socket_inputs(steps));
            let count = now.returned.len();
            let outcome = crate::reader::close_outcome(frame, false);
            &&& count <= sent.len()
            &&& now.returned == sent.take(count as int)
            &&& now.answer(state) == Some(
                if count < sent.len() {
                    Ok(sent[count as int])
                } else {
                    Err(outcome)
                },
            )
            &&& outcome is ClosedOk <==> (frame is None || frame->0.code == 1000
                || frame->0.code == 1001)
            &&& outcome is ClosedOk || outcome is ClosedError
        }),
{
    messages_are_received_in_order(steps);
    let now = Delivery::start().after_all(steps);
    let sent = crate::reader::received_payloads(socket_inputs(steps));
    assert(now.returned =~= sent.take(now.returned.len() as int));
    if now.queue.len() > 0 {
        assert(sent[now.returned.len() as int] == now.queue[0]);
    }
}

/// A receive that is dropped while it waits consumes nothing: the next one is told
/// what the dropped one would have been.
pub proof fn dropped_receive_consumes_nothing(
    before: Delivery,
    later: Seq<DeliveryStep>,
    state: DriverStateView,
)
    ensures
        before.after(DeliveryStep::Abandon).answer(state) == before.answer(state),
        before.after(DeliveryStep::Abandon).after_all(later) == before.after_all(later),
{
}

/// The reply that an action of the writing task gives to the sender of the message at
/// hand, `outcome` being how the connection ended.
pub open spec fn writer_reply(action: WriterActionView, outcome: DriverErrorView) -> Option<
    Result<(), DriverErrorView>,
> {
    match action {
        WriterActionView::Acknowledge => Some(Ok(())),
        WriterActionView::Fail { reply: true, .. } => Some(Err(outcome)),
        _ => None,
    }
}

/// The reply to the message whose sending is action `i` of a run of the writing task:
/// that of the next action, or none where the task was stopped before.
pub open spec fn reply_to_send(
    events: Seq<WriterEventView>,
    i: int,
    outcome: DriverErrorView,
) -> Option<Result<(), DriverErrorView>> {
    if i + 1 < events.len() {
        writer_reply(WriterPhase::Selecting.run(events).1[i + 1], outcome)
    } else {
        None
    }
}

/// Whether the connection ended as the writing task's failure after action `i` made
/// it, on a state that was `before`, or ended otherwise where the task was stopped.
pub open spec fn ended_after_send(
    events: Seq<WriterEventView>,
    i: int,
    before: DriverStateView,
    later: Seq<StateStep>,
    end: DriverStateView,
) -> bool {
    if i + 1 < events.len() {
        WriterPhase::Selecting.run(events).1[i + 1] matches WriterActionView::Fail { error, .. }
            ==> end == before.after(StateStep::WriterFailure(error)).after_all(later)
    } else {
        end is Closed
    }
}

/// A sender is told of success exactly when its message was written and flushed, and
/// otherwise gets the one outcome of the connection, which a receive then gets too.
/// What a peer had said before the writing failed is that outcome.
pub proof fn send_is_flushed_or_gets_the_outcome(
    events: Seq<WriterEventView>,
    i: int,
    before: DriverStateView,
    later: Seq<StateStep>,
    end: DriverStateView,
)
    requires
        WriterPhase::Selecting.driven(events),
        0 <= i < events.len(),
        WriterPhase::Selecting.run(events).1[i] is SendCommand,
        ended_after_send(events, i, before, later, end),
    ensures
        ({
            let flushed = i + 1 < events.len() && events[i + 1] == WriterEventView::Written(None);
            let failed = i + 1 < events.len() && !flushed;
            let outcome = match end {
                DriverStateView::Closed(error) => error,
                _ => arbitrary(),
            };
            let told = crate::driver::send_answer(reply_to_send(events, i, outcome), end);
            &&& told is Ok <==> flushed
            &&& told is Err ==> {
                &&& end == DriverStateView::Closed(told->Err_0)
                &&& crate::driver::receive_answer(None, end) == Err::<
                    MessageView,
                    DriverErrorView,
                >(told->Err_0)
            }
            &&& failed ==> {
                &&& WriterPhase::Selecting.run(events).1[i + 1] matches WriterActionView::Fail {
                    error,
                    ..
                }
                &&& told == Err::<(), DriverErrorView>(before.outcome_or(error))
            }
            &&& failed && before.outcome() is Some ==> told == Err::<(), DriverErrorView>(
                before.outcome()->0,
            )
        }),
    decreases events.len(),
{
    send_is_followed_by_its_write(events, i);
    if i + 1 < events.len() {
        match WriterPhase::Selecting.run(events).1[i + 1] {
            WriterActionView::Fail { error, .. } => {
                crate::state::closed_is_absorbing(before.outcome_or(error), later);
            },
            _ => {},
        }
    }
}

proof fn send_is_followed_by_its_write(events: Seq<WriterEventView>, i: int)
    requires
        WriterPhase::Selecting.driven(events),
        0 <= i < events.len(),
        WriterPhase::Selecting.run(events).1[i] is SendCommand,
    ensures
        i + 1 == events.len() ==> WriterPhase::Selecting.run(events).0 is Sending,
        i + 1 < events.len() ==> match events[i + 1] {
            WriterEventView::Written(None) => WriterPhase::Selecting.run(events).1[i
                + 1] is Acknowledge,
            WriterEventView::Written(Some(_)) => WriterPhase::Selecting.run(events).1[i
                + 1] matches WriterActionView::Fail { reply, .. } && reply,
            _ => false,
        },
    decreases events.len(),
{
    let earlier = events.drop_last();
    crate::writer::writer_run_length(WriterPhase::Selecting, earlier);
    let actions = WriterPhase::Selecting.run(events).1;
    if i + 1 < events.len() {
        assert(actions[i] == WriterPhase::Selecting.run(earlier).1[i]);
        send_is_followed_by_its_write(earlier, i);
        if i + 2 < events.len() {
            assert(actions[i + 1] == WriterPhase::Selecting.run(earlier).1[i + 1]);
            assert(earlier[i + 1] == events[i + 1]);
        }
    }
}

} // verus!
