//! What the reading task of a connection does next.
//!
//! The task waits for the socket or for the shutdown signal, hands what happened
//! to [`Reader::handle`] and does what it is told.

use std::sync::atomic::AtomicBool;
use std::sync::Arc;

use vstd::prelude::*;

use crate::channel::{read_flag, set_flag};
use crate::error::{CloseInfo, CloseInfoView, DriverError, DriverErrorView};
use crate::journal::{Act, Journal};
use crate::message::{CloseFrame, CloseFrameView, Message, MessageView};
use crate::shutdown::ShutdownSignal;
use crate::text::join;

verus! {

/// What the reading task waits for.
#[derive(Clone, Copy, Debug, Eq, PartialEq, Structural)]
pub enum ReaderPhase {
    /// A look at the shutdown signal.
    Checking,
    /// The socket, or a change of the shutdown signal.
    Polling,
    /// A payload to be taken into the inbound queue.
    Queueing,
    /// Nothing: the task is over.
    Stopped,
}

/// What happened to the reading task.
#[derive(Debug)]
pub enum ReaderEvent {
    /// The shutdown signal is this.
    Signal(ShutdownSignal),
    /// The shutdown signal changed to this, or its writers are all gone.
    ShutdownChanged { alive: bool, signal: ShutdownSignal },
    /// The socket delivered a message.
    Received(Message),
    /// The socket ended.
    Ended,
    /// The socket failed, be it because the connection was closed before.
    Failed { connection_closed: bool, description: String },
    /// The inbound queue took the payload, or cannot take any more.
    Queued(bool),
}

/// The content of a [`ReaderEvent`].
#[verifier::ext_equal]
pub enum ReaderEventView {
    Signal(ShutdownSignal),
    ShutdownChanged { alive: bool, signal: ShutdownSignal },
    Received(MessageView),
    Ended,
    Failed { connection_closed: bool, description: Seq<char> },
    Queued(bool),
}

impl View for ReaderEvent {
    type V = ReaderEventView;

    open spec fn view(&self) -> ReaderEventView {
        match *self {
            ReaderEvent::Signal(signal) => ReaderEventView::Signal(signal),
            ReaderEvent::ShutdownChanged { alive, signal } => ReaderEventView::ShutdownChanged {
                alive,
                signal,
            },
            ReaderEvent::Received(message) => ReaderEventView::Received(message@),
            ReaderEvent::Ended => ReaderEventView::Ended,
            ReaderEvent::Failed { connection_closed, description } => ReaderEventView::Failed {
                connection_closed,
                description: description@,
            },
            ReaderEvent::Queued(taken) => ReaderEventView::Queued(taken),
        }
    }
}

/// What the reading task has to do.
#[derive(Debug, Eq, PartialEq)]
pub enum ReaderAction {
    /// Look at the shutdown signal.
    CheckShutdown,
    /// Wait for the socket or for a change of the shutdown signal.
    Poll,
    /// Take this payload into the inbound queue.
    Queue(Message),
    /// Ask the writer to flush an automatic reply, then look at the signal.
    RequestFlush,
    /// Finish a close with this outcome, then stop.
    FinishPeerClose(DriverError),
    /// End the connection with this error, then stop.
    Fail(DriverError),
    /// Stop.
    Stop,
}

/// The content of a [`ReaderAction`].
#[verifier::ext_equal]
pub enum ReaderActionView {
    CheckShutdown,
    Poll,
    Queue(MessageView),
    RequestFlush,
    FinishPeerClose(DriverErrorView),
    Fail(DriverErrorView),
    Stop,
}

impl View for ReaderAction {
    type V = ReaderActionView;

    open spec fn view(&self) -> ReaderActionView {
        match *self {
            ReaderAction::CheckShutdown => ReaderActionView::CheckShutdown,
            ReaderAction::Poll => ReaderActionView::Poll,
            ReaderAction::Queue(message) => ReaderActionView::Queue(message@),
            ReaderAction::RequestFlush => ReaderActionView::RequestFlush,
            ReaderAction::FinishPeerClose(error) => ReaderActionView::FinishPeerClose(error@),
            ReaderAction::Fail(error) => ReaderActionView::Fail(error@),
            ReaderAction::Stop => ReaderActionView::Stop,
        }
    }
}

impl ReaderActionView {
    /// Whether the action settles how the connection ends.
    pub open spec fn is_final(self) -> bool {
        self is FinishPeerClose || self is Fail
    }
}

/// How a close frame ends the connection: an empty frame and the codes for a
/// normal closure and for going away are clean, every other code is not.
pub open spec fn close_outcome(
    frame: Option<CloseFrameView>,
    initiated_by_local: bool,
) -> DriverErrorView {
    match frame {
        None => DriverErrorView::ClosedOk(
            CloseInfoView { code: None, initiated_by_local, reason: Seq::empty() },
        ),
        Some(frame) => {
            let info = CloseInfoView {
                code: Some(frame.code),
                initiated_by_local,
                reason: frame.reason,
            };
            if frame.code == 1000 || frame.code == 1001 {
                DriverErrorView::ClosedOk(info)
            } else {
                DriverErrorView::ClosedError(info)
            }
        },
    }
}

/// Decides how a close frame ends the connection.
pub fn classify_close(frame: Option<CloseFrame>, initiated_by_local: bool) -> (outcome: DriverError)
    ensures
        outcome@ == close_outcome(crate::message::close_view(frame), initiated_by_local),
{
    match frame {
        None => {
            let reason = String::new();
            assert(reason@ =~= Seq::empty());
            DriverError::ClosedOk(CloseInfo { code: None, initiated_by_local, reason })
        },
        Some(frame) => {
            let clean = frame.code == 1000 || frame.code == 1001;
            let info = CloseInfo {
                code: Some(frame.code),
                initiated_by_local,
                reason: frame.reason,
            };
            if clean {
                DriverError::ClosedOk(info)
            } else {
                DriverError::ClosedError(info)
            }
        },
    }
}

/// What a socket that ended without a close frame means, `closing` being whether
/// a close was under way.
pub open spec fn end_of_stream(closing: bool) -> ReaderActionView {
    if closing {
        ReaderActionView::FinishPeerClose(
            DriverErrorView::ClosedOk(CloseInfoView::local_normal()),
        )
    } else {
        ReaderActionView::Fail(
            DriverErrorView::Transport("WebSocket transport ended without a close frame"@),
        )
    }
}

/// What a failing socket means, `closing` being whether a close was under way.
pub open spec fn socket_failure(
    connection_closed: bool,
    description: Seq<char>,
    closing: bool,
) -> ReaderActionView {
    if closing && connection_closed {
        ReaderActionView::FinishPeerClose(
            DriverErrorView::ClosedOk(CloseInfoView::local_normal()),
        )
    } else {
        ReaderActionView::Fail(
            DriverErrorView::Transport("WebSocket receive failed: "@ + description),
        )
    }
}

impl ReaderPhase {
    /// Whether the event is one that the phase waits for.
    pub open spec fn expects(self, event: ReaderEventView) -> bool {
        match self {
            ReaderPhase::Checking => event is Signal,
            ReaderPhase::Polling => event is ShutdownChanged || event is Received
                || event is Ended || event is Failed,
            ReaderPhase::Queueing => event is Queued,
            ReaderPhase::Stopped => false,
        }
    }

    /// Whether the event is a close frame that the task was waiting for.
    pub open spec fn takes_close(self, event: ReaderEventView) -> bool {
        self is Polling && (event matches ReaderEventView::Received(message) && message is Close)
    }

    /// What an event leads to. One that the phase does not wait for stops the
    /// task.
    pub open spec fn next(self, event: ReaderEventView, closing: bool) -> (
        ReaderPhase,
        ReaderActionView,
    ) {
        match (self, event) {
            (ReaderPhase::Checking, ReaderEventView::Signal(signal)) => if signal is Abort {
                (ReaderPhase::Stopped, ReaderActionView::Stop)
            } else {
                (ReaderPhase::Polling, ReaderActionView::Poll)
            },
            (ReaderPhase::Polling, ReaderEventView::ShutdownChanged { alive, signal }) => if !alive
                || signal is Abort {
                (ReaderPhase::Stopped, ReaderActionView::Stop)
            } else {
                (ReaderPhase::Checking, ReaderActionView::CheckShutdown)
            },
            (ReaderPhase::Polling, ReaderEventView::Received(message)) => match message {
                MessageView::Text(_) => (ReaderPhase::Queueing, ReaderActionView::Queue(message)),
                MessageView::Binary(_) => (ReaderPhase::Queueing, ReaderActionView::Queue(message)),
                MessageView::Ping(_) => (ReaderPhase::Checking, ReaderActionView::RequestFlush),
                MessageView::Pong(_) => (ReaderPhase::Checking, ReaderActionView::RequestFlush),
                MessageView::Frame(_) => (ReaderPhase::Checking, ReaderActionView::CheckShutdown),
                MessageView::Close(frame) => (
                    ReaderPhase::Stopped,
                    ReaderActionView::FinishPeerClose(close_outcome(frame, closing)),
                ),
            },
            (ReaderPhase::Polling, ReaderEventView::Ended) => (
                ReaderPhase::Stopped,
                end_of_stream(closing),
            ),
            (
                ReaderPhase::Polling,
                ReaderEventView::Failed { connection_closed, description },
            ) => (ReaderPhase::Stopped, socket_failure(connection_closed, description, closing)),
            (ReaderPhase::Queueing, ReaderEventView::Queued(taken)) => if taken {
                (ReaderPhase::Checking, ReaderActionView::CheckShutdown)
            } else {
                (ReaderPhase::Stopped, end_of_stream(closing))
            },
            _ => (ReaderPhase::Stopped, ReaderActionView::Stop),
        }
    }

    /// Decides what an event leads to, `closing` being whether a close was under
    /// way when it happened.
    pub fn step(self, event: ReaderEvent, closing: bool) -> (next: (ReaderPhase, ReaderAction))
        ensures
            (next.0, next.1@) == self.next(event@, closing),
    {
        match (self, event) {
            (ReaderPhase::Checking, ReaderEvent::Signal(signal)) => {
                if signal == ShutdownSignal::Abort {
                    (ReaderPhase::Stopped, ReaderAction::Stop)
                } else {
                    (ReaderPhase::Polling, ReaderAction::Poll)
                }
            },
            (ReaderPhase::Polling, ReaderEvent::ShutdownChanged { alive, signal }) => {
                if !alive || signal == ShutdownSignal::Abort {
                    (ReaderPhase::Stopped, ReaderAction::Stop)
                } else {
                    (ReaderPhase::Checking, ReaderAction::CheckShutdown)
                }
            },
            (ReaderPhase::Polling, ReaderEvent::Received(message)) => match message {
                Message::Close(frame) => (
                    ReaderPhase::Stopped,
                    ReaderAction::FinishPeerClose(classify_close(frame, closing)),
                ),
                Message::Ping(_) | Message::Pong(_) => (
                    ReaderPhase::Checking,
                    ReaderAction::RequestFlush,
                ),
                Message::Frame(_) => (ReaderPhase::Checking, ReaderAction::CheckShutdown),
                payload => (ReaderPhase::Queueing, ReaderAction::Queue(payload)),
            },
            (ReaderPhase::Polling, ReaderEvent::Ended) => (
                ReaderPhase::Stopped,
                stream_ended(closing),
            ),
            (ReaderPhase::Polling, ReaderEvent::Failed { connection_closed, description }) => {
                if closing && connection_closed {
                    (
                        ReaderPhase::Stopped,
                        ReaderAction::FinishPeerClose(
                            DriverError::ClosedOk(CloseInfo::local_normal()),
                        ),
                    )
                } else {
                    let message = join("WebSocket receive failed: ", description.as_str());
                    (ReaderPhase::Stopped, ReaderAction::Fail(DriverError::Transport(message)))
                }
            },
            (ReaderPhase::Queueing, ReaderEvent::Queued(taken)) => {
                if taken {
                    (ReaderPhase::Checking, ReaderAction::CheckShutdown)
                } else {
                    (ReaderPhase::Stopped, stream_ended(closing))
                }
            },
            _ => (ReaderPhase::Stopped, ReaderAction::Stop),
        }
    }

    /// The phase and the actions of a whole run. Each input is an event and
    /// whether a close was under way when it happened.
    pub open spec fn run(self, inputs: Seq<(ReaderEventView, bool)>) -> (
        ReaderPhase,
        Seq<ReaderActionView>,
    )
        decreases inputs.len(),
    {
        if inputs.len() == 0 {
            (self, Seq::empty())
        } else {
            let (phase, actions) = self.run(inputs.drop_last());
            let (event, closing) = inputs.last();
            let (next, action) = phase.next(event, closing);
            (next, actions.push(action))
        }
    }

    /// Whether every event of the run is one that the task was waiting for.
    pub open spec fn driven(self, inputs: Seq<(ReaderEventView, bool)>) -> bool
        decreases inputs.len(),
    {
        inputs.len() == 0 || {
            &&& self.driven(inputs.drop_last())
            &&& self.run(inputs.drop_last()).0.expects(inputs.last().0)
        }
    }
}

fn stream_ended(closing: bool) -> (action: ReaderAction)
    ensures
        action@ == end_of_stream(closing),
{
    if closing {
        ReaderAction::FinishPeerClose(DriverError::ClosedOk(CloseInfo::local_normal()))
    } else {
        ReaderAction::Fail(
            DriverError::Transport("WebSocket transport ended without a close frame".to_owned()),
        )
    }
}

/// The reading task of one connection.
pub struct Reader {
    phase: ReaderPhase,
    closing: Arc<AtomicBool>,
}

impl Reader {
    /// What the task waits for.
    pub closed spec fn phase(&self) -> ReaderPhase {
        self.phase
    }

    /// The flag that says whether a close is under way.
    pub closed spec fn closing(&self) -> Arc<AtomicBool> {
        self.closing
    }

    /// A reader that first looks at the shutdown signal. The flag says whether a
    /// close is under way.
    pub fn new(closing: Arc<AtomicBool>) -> (reader: Self)
        ensures
            reader.phase() == ReaderPhase::Checking,
            reader.closing() == closing,
    {
        Reader { phase: ReaderPhase::Checking, closing }
    }

    /// What handling an event does: it reads the flag, and a close frame sets it.
    pub open spec fn handling_acts(&self, event: ReaderEventView, closing: bool) -> Seq<Act> {
        let looked = seq![Act::FlagRead { flag: *self.closing(), found: closing }];
        if self.phase().takes_close(event) {
            looked.push(Act::FlagSet { flag: *self.closing(), value: true })
        } else {
            looked
        }
    }

    /// Decides what an event leads to. Whether a close is under way is read from
    /// the shared flag, which a close frame sets.
    pub fn handle(&mut self, event: ReaderEvent, journal: &mut Journal) -> (action: ReaderAction)
        ensures
            exists|closing: bool|
                {
                    &&& final(journal).acts() == old(journal).acts()
                        + #[trigger] old(self).handling_acts(event@, closing)
                    &&& (final(self).phase(), action@) == old(self).phase().next(event@, closing)
                },
            final(self).closing() == old(self).closing(),
    {
        let ghost before = *self;
        let ghost happened = event@;
        let closing = read_flag(&self.closing, journal);
        if self.phase == ReaderPhase::Polling && matches!(
            event,
            ReaderEvent::Received(Message::Close(_))
        ) {
            set_flag(&self.closing, true, journal);
        }
        assert(journal.acts() =~= old(journal).acts() + before.handling_acts(happened, closing));
        let (phase, action) = self.phase.step(event, closing);
        self.phase = phase;
        action
    }
}

/// The payloads among the events of a run, in order.
pub open spec fn received_payloads(inputs: Seq<(ReaderEventView, bool)>) -> Seq<MessageView>
    decreases inputs.len(),
{
    if inputs.len() == 0 {
        Seq::empty()
    } else {
        let earlier = received_payloads(inputs.drop_last());
        match inputs.last().0 {
            ReaderEventView::Received(message) => if message.is_payload() {
                earlier.push(message)
            } else {
                earlier
            },
            _ => earlier,
        }
    }
}

/// The payloads that a sequence of actions queues, in order.
pub open spec fn queued_payloads(actions: Seq<ReaderActionView>) -> Seq<MessageView>
    decreases actions.len(),
{
    if actions.len() == 0 {
        Seq::empty()
    } else {
        let earlier = queued_payloads(actions.drop_last());
        match actions.last() {
            ReaderActionView::Queue(message) => earlier.push(message),
            _ => earlier,
        }
    }
}

/// Every payload that the socket delivers is queued, once, unchanged and in the
/// order of delivery, and nothing else is.
pub proof fn payloads_are_queued_in_order(
    phase: ReaderPhase,
    inputs: Seq<(ReaderEventView, bool)>,
)
    requires
        phase.driven(inputs),
    ensures
        queued_payloads(phase.run(inputs).1) == received_payloads(inputs),
    decreases inputs.len(),
{
    if inputs.len() > 0 {
        payloads_are_queued_in_order(phase, inputs.drop_last());
        let actions = phase.run(inputs).1;
        assert(actions.drop_last() =~= phase.run(inputs.drop_last()).1);
    }
}

/// A stopped reader has nothing to do.
pub proof fn stopped_reader_stays_stopped(event: ReaderEventView, closing: bool)
    ensures
        ReaderPhase::Stopped.next(event, closing) == (
            ReaderPhase::Stopped,
            ReaderActionView::Stop,
        ),
{
}

/// The reader settles how the connection ends at most once: after that action it
/// does nothing more.
pub proof fn reader_settles_once(
    phase: ReaderPhase,
    inputs: Seq<(ReaderEventView, bool)>,
    i: int,
    j: int,
)
    requires
        0 <= i < j < inputs.len(),
        phase.run(inputs).1[i].is_final(),
    ensures
        phase.run(inputs).1[j] is Stop,
        phase.run(inputs).0 is Stopped,
    decreases inputs.len(),
{
    let earlier = inputs.drop_last();
    reader_run_length(phase, earlier);
    if i == inputs.len() - 2 {
        // The settling action came last before this one.
        reader_run_length(phase, earlier.drop_last());
    } else {
        reader_settles_once(phase, earlier, i, earlier.len() - 1);
        if j < inputs.len() - 1 {
            reader_settles_once(phase, earlier, i, j);
        }
    }
}

/// A run has as many actions as inputs.
pub proof fn reader_run_length(phase: ReaderPhase, inputs: Seq<(ReaderEventView, bool)>)
    ensures
        phase.run(inputs).1.len() == inputs.len(),
    decreases inputs.len(),
{
    if inputs.len() > 0 {
        reader_run_length(phase, inputs.drop_last());
    }
}

/// A close frame tells its own code and reason and who began. It is clean without a
/// code and with those for a normal closure and for going away, and with no other.
pub proof fn close_frames_are_classified(
    frame: Option<CloseFrameView>,
    initiated_by_local: bool,
    info: CloseInfoView,
)
    ensures
        ({
            let outcome = close_outcome(frame, initiated_by_local);
            &&& outcome is ClosedOk <==> frame is None || frame->0.code == 1000 || frame->0.code
                == 1001
            &&& outcome is ClosedOk || outcome is ClosedError
            &&& outcome == DriverErrorView::ClosedOk(info) || outcome
                == DriverErrorView::ClosedError(info) ==> {
                &&& info.code is Some <==> frame is Some
                &&& frame matches Some(frame) ==> info.code == Some(frame.code) && info.reason
                    == frame.reason
                &&& frame is None ==> info.reason.len() == 0
                &&& info.initiated_by_local == initiated_by_local
            }
        }),
{
}

/// What the reading task does about each event that it waits for.
pub proof fn reader_reacts_to_every_event(
    signal: ShutdownSignal,
    alive: bool,
    closing: bool,
    text: Seq<char>,
    bytes: Seq<u8>,
    encoded: usize,
    description: Seq<char>,
    frame: Option<CloseFrameView>,
)
    ensures
        ({
            let polling = |event: ReaderEventView| ReaderPhase::Polling.next(event, closing);
            let queueing = |event: ReaderEventView| ReaderPhase::Queueing.next(event, closing);
            let stop = (ReaderPhase::Stopped, ReaderActionView::Stop);
            let check = (ReaderPhase::Checking, ReaderActionView::CheckShutdown);
            let flush = (ReaderPhase::Checking, ReaderActionView::RequestFlush);
            let clean = (
                ReaderPhase::Stopped,
                ReaderActionView::FinishPeerClose(
                    DriverErrorView::ClosedOk(
                        CloseInfoView {
                            code: Some(1000),
                            initiated_by_local: true,
                            reason: Seq::empty(),
                        },
                    ),
                ),
            );
            let ended = (
                ReaderPhase::Stopped,
                ReaderActionView::Fail(
                    DriverErrorView::Transport("WebSocket transport ended without a close frame"@),
                ),
            );
            let failed = (
                ReaderPhase::Stopped,
                ReaderActionView::Fail(
                    DriverErrorView::Transport("WebSocket receive failed: "@ + description),
                ),
            );
            let gone = ReaderEventView::Failed { connection_closed: true, description };
            let broken = ReaderEventView::Failed { connection_closed: false, description };
            &&& signal is Abort ==> ReaderPhase::Checking.next(
                ReaderEventView::Signal(signal),
                closing,
            ) == stop
            &&& !(signal is Abort) ==> ReaderPhase::Checking.next(
                ReaderEventView::Signal(signal),
                closing,
            ) == (ReaderPhase::Polling, ReaderActionView::Poll)
            &&& polling(ReaderEventView::ShutdownChanged { alive, signal }) == if alive && !(
            signal is Abort) {
                check
            } else {
                stop
            }
            &&& polling(ReaderEventView::Received(MessageView::Text(text))) == (
                ReaderPhase::Queueing,
                ReaderActionView::Queue(MessageView::Text(text)),
            )
            &&& polling(ReaderEventView::Received(MessageView::Binary(bytes))) == (
                ReaderPhase::Queueing,
                ReaderActionView::Queue(MessageView::Binary(bytes)),
            )
            &&& polling(ReaderEventView::Received(MessageView::Ping(bytes))) == flush
            &&& polling(ReaderEventView::Received(MessageView::Pong(bytes))) == flush
            &&& polling(ReaderEventView::Received(MessageView::Frame(encoded))) == check
            &&& polling(ReaderEventView::Received(MessageView::Close(frame))) == (
                ReaderPhase::Stopped,
                ReaderActionView::FinishPeerClose(close_outcome(frame, closing)),
            )
            &&& closing ==> polling(ReaderEventView::Ended) == clean && polling(gone) == clean
                && queueing(ReaderEventView::Queued(false)) == clean
            &&& !closing ==> polling(ReaderEventView::Ended) == ended && polling(gone) == failed
                && queueing(ReaderEventView::Queued(false)) == ended
            &&& polling(broken) == failed
            &&& queueing(ReaderEventView::Queued(true)) == check
        }),
{
}

/// A task waits for the signal, then for the socket or the signal, then for the
/// transfer; a stopped one for nothing. What it does not wait for stops it.
pub proof fn reader_waits_for_what_it_should(
    phase: ReaderPhase,
    event: ReaderEventView,
    closing: bool,
)
    ensures
        phase.expects(event) <==> {
            ||| phase is Checking && event is Signal
            ||| phase is Polling && !(event is Signal) && !(event is Queued)
            ||| phase is Queueing && event is Queued
        },
        !phase.expects(event) ==> phase.next(event, closing) == (
            ReaderPhase::Stopped,
            ReaderActionView::Stop,
        ),
{
}

/// Handling an event reads the flag once, and sets it exactly where a close frame
/// came while the task read the socket.
pub proof fn close_frame_alone_sets_the_flag(
    reader: Reader,
    event: ReaderEventView,
    closing: bool,
    frame: Option<CloseFrameView>,
)
    ensures
        ({
            let read = Act::FlagRead { flag: *reader.closing(), found: closing };
            let set = Act::FlagSet { flag: *reader.closing(), value: true };
            let on_close = reader.handling_acts(
                ReaderEventView::Received(MessageView::Close(frame)),
                closing,
            );
            let acts = reader.handling_acts(event, closing);
            &&& reader.phase() is Polling ==> on_close == seq![read, set]
            &&& !(reader.phase() is Polling) ==> acts == seq![read]
            &&& !(event matches ReaderEventView::Received(message) && message is Close) ==> acts
                == seq![read]
        }),
{
    assert(reader.phase() is Polling ==> reader.handling_acts(
        ReaderEventView::Received(MessageView::Close(frame)),
        closing,
    ) =~= seq![
        Act::FlagRead { flag: *reader.closing(), found: closing },
        Act::FlagSet { flag: *reader.closing(), value: true },
    ]);
}

/// The content of an event or an action keeps everything that it carries.
pub proof fn reader_contents_are_whole(
    signal: ShutdownSignal,
    flag: bool,
    message: Message,
    error: DriverError,
    description: String,
)
    ensures
        ReaderEvent::Signal(signal)@ == ReaderEventView::Signal(signal),
        (ReaderEvent::ShutdownChanged { alive: flag, signal })@
            == (ReaderEventView::ShutdownChanged { alive: flag, signal }),
        ReaderEvent::Received(message)@ == ReaderEventView::Received(message@),
        ReaderEvent::Ended@ == ReaderEventView::Ended,
        (ReaderEvent::Failed { connection_closed: flag, description })@
            == (ReaderEventView::Failed { connection_closed: flag, description: description@ }),
        ReaderEvent::Queued(flag)@ == ReaderEventView::Queued(flag),
        ReaderAction::CheckShutdown@ == ReaderActionView::CheckShutdown,
        ReaderAction::Poll@ == ReaderActionView::Poll,
        ReaderAction::Queue(message)@ == ReaderActionView::Queue(message@),
        ReaderAction::RequestFlush@ == ReaderActionView::RequestFlush,
        ReaderAction::FinishPeerClose(error)@ == ReaderActionView::FinishPeerClose(error@),
        ReaderAction::Fail(error)@ == ReaderActionView::Fail(error@),
        ReaderAction::Stop@ == ReaderActionView::Stop,
{
}

} // verus!
