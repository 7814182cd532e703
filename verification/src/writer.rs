//! What the writing task of a connection does next.
//!
//! All writes to the socket go through this one task. It waits for the shutdown
//! signal, for a control request or for a message to send, hands what happened to
//! [`WriterPhase::step`] and does what it is told.

use vstd::prelude::*;

use crate::error::{DriverError, DriverErrorView};
use crate::message::{CloseFrame, CloseFrameView};
use crate::shutdown::ShutdownSignal;
use crate::text::join;

verus! {

/// What the reading task asks of the writing task.
#[derive(Clone, Copy, Debug, Eq, PartialEq, Structural)]
pub enum WriterControl {
    Flush,
}

/// What the writing task waits for.
#[derive(Clone, Copy, Debug, Eq, PartialEq, Structural)]
pub enum WriterPhase {
    /// The shutdown signal, a control request or a message to send.
    Selecting,
    /// The flush of an automatic reply.
    Flushing,
    /// The sending of a message.
    Sending,
    /// The sending of the close frame.
    SendingClose,
    /// A change of the shutdown signal after the close frame was sent.
    AwaitingPeer,
    /// The last flush.
    FlushingClose,
    /// Nothing: the task is over.
    Stopped,
}

/// What happened to the writing task.
#[derive(Debug)]
pub enum WriterEvent {
    /// The shutdown signal changed to this, or its writers are all gone.
    ShutdownChanged { alive: bool, signal: ShutdownSignal },
    /// A control request came, or none can come any more.
    Control(Option<WriterControl>),
    /// A message to send came, or none can come any more.
    Outbound(bool),
    /// A message was sent or the socket was flushed, or this went wrong.
    Written(Option<String>),
    /// The close frame was sent, or this went wrong, and the signal is this.
    CloseSent { error: Option<String>, signal: ShutdownSignal },
}

/// The content of a [`WriterEvent`].
#[verifier::ext_equal]
pub enum WriterEventView {
    ShutdownChanged { alive: bool, signal: ShutdownSignal },
    Control(Option<WriterControl>),
    Outbound(bool),
    Written(Option<Seq<char>>),
    CloseSent { error: Option<Seq<char>>, signal: ShutdownSignal },
}

/// The content of a text that may be absent.
pub open spec fn text_view(text: Option<String>) -> Option<Seq<char>> {
    match text {
        Some(text) => Some(text@),
        None => None,
    }
}

impl View for WriterEvent {
    type V = WriterEventView;

    open spec fn view(&self) -> WriterEventView {
        match *self {
            WriterEvent::ShutdownChanged { alive, signal } => WriterEventView::ShutdownChanged {
                alive,
                signal,
            },
            WriterEvent::Control(request) => WriterEventView::Control(request),
            WriterEvent::Outbound(present) => WriterEventView::Outbound(present),
            WriterEvent::Written(error) => WriterEventView::Written(text_view(error)),
            WriterEvent::CloseSent { error, signal } => WriterEventView::CloseSent {
                error: text_view(error),
                signal,
            },
        }
    }
}

/// What the writing task has to do.
#[derive(Debug, Eq, PartialEq)]
pub enum WriterAction {
    /// Wait for the shutdown signal, which goes first, a control request or a
    /// message to send.
    Select,
    /// Flush the socket.
    Flush,
    /// Send the message that came.
    SendCommand,
    /// Report the message that was sent as sent, then wait as for `Select`.
    Acknowledge,
    /// Send this close frame, then look at the signal.
    SendClose(CloseFrame),
    /// Wait for a change of the shutdown signal.
    AwaitShutdown,
    /// Flush the socket for the last time.
    FlushClose,
    /// End the connection with this error, tell the sender of the message at hand
    /// if there is one, then stop.
    Fail { error: DriverError, reply: bool },
    /// Publish the outcome of the peer's close if there is one, then stop.
    Settle,
    /// Stop.
    Stop,
}

/// The content of a [`WriterAction`].
#[verifier::ext_equal]
pub enum WriterActionView {
    Select,
    Flush,
    SendCommand,
    Acknowledge,
    SendClose(CloseFrameView),
    AwaitShutdown,
    FlushClose,
    Fail { error: DriverErrorView, reply: bool },
    Settle,
    Stop,
}

impl View for WriterAction {
    type V = WriterActionView;

    open spec fn view(&self) -> WriterActionView {
        match *self {
            WriterAction::Select => WriterActionView::Select,
            WriterAction::Flush => WriterActionView::Flush,
            WriterAction::SendCommand => WriterActionView::SendCommand,
            WriterAction::Acknowledge => WriterActionView::Acknowledge,
            WriterAction::SendClose(frame) => WriterActionView::SendClose(frame@),
            WriterAction::AwaitShutdown => WriterActionView::AwaitShutdown,
            WriterAction::FlushClose => WriterActionView::FlushClose,
            WriterAction::Fail { error, reply } => WriterActionView::Fail { error: error@, reply },
            WriterAction::Settle => WriterActionView::Settle,
            WriterAction::Stop => WriterActionView::Stop,
        }
    }
}

impl WriterActionView {
    /// Whether the action serves the application or the reading task.
    pub open spec fn is_service(self) -> bool {
        self is Select || self is Flush || self is SendCommand || self is Acknowledge
    }

    /// Whether the action answers the sender of a message.
    pub open spec fn is_reply(self) -> bool {
        self is Acknowledge || (self matches WriterActionView::Fail { reply, .. } && reply)
    }
}

/// The frame by which this endpoint starts a close.
pub open spec fn normal_close() -> CloseFrameView {
    CloseFrameView { code: 1000, reason: Seq::empty() }
}

/// The failure with this message, and whether a sender has to be told.
pub open spec fn failure(message: Seq<char>, reply: bool) -> (WriterPhase, WriterActionView) {
    (
        WriterPhase::Stopped,
        WriterActionView::Fail { error: DriverErrorView::Transport(message), reply },
    )
}

/// What follows the close frame while the signal is `signal`: wait for the peer,
/// give up, or flush what is left.
pub open spec fn after_close_frame(signal: ShutdownSignal) -> (WriterPhase, WriterActionView) {
    match signal {
        ShutdownSignal::LocalClose => (WriterPhase::AwaitingPeer, WriterActionView::AwaitShutdown),
        ShutdownSignal::Abort => (WriterPhase::Stopped, WriterActionView::Settle),
        _ => (WriterPhase::FlushingClose, WriterActionView::FlushClose),
    }
}

impl WriterPhase {
    /// Whether the task still serves messages and control requests.
    pub open spec fn is_serving(self) -> bool {
        self is Selecting || self is Flushing || self is Sending
    }

    /// Whether the event is one that the phase waits for.
    pub open spec fn expects(self, event: WriterEventView) -> bool {
        match self {
            WriterPhase::Selecting => event is ShutdownChanged || event is Control
                || event is Outbound,
            WriterPhase::Flushing => event is Written,
            WriterPhase::Sending => event is Written,
            WriterPhase::SendingClose => event is CloseSent,
            WriterPhase::AwaitingPeer => event is ShutdownChanged,
            WriterPhase::FlushingClose => event is Written,
            WriterPhase::Stopped => false,
        }
    }

    /// What an event leads to. One that the phase does not wait for stops the
    /// task.
    pub open spec fn next(self, event: WriterEventView) -> (WriterPhase, WriterActionView) {
        match (self, event) {
            (WriterPhase::Selecting, WriterEventView::ShutdownChanged { alive, signal }) => {
                if alive && signal is Running {
                    (WriterPhase::Selecting, WriterActionView::Select)
                } else if signal is Abort {
                    (WriterPhase::Stopped, WriterActionView::Stop)
                } else if signal is LocalClose {
                    (WriterPhase::SendingClose, WriterActionView::SendClose(normal_close()))
                } else {
                    (WriterPhase::FlushingClose, WriterActionView::FlushClose)
                }
            },
            (WriterPhase::Selecting, WriterEventView::Control(Some(WriterControl::Flush))) => (
                WriterPhase::Flushing,
                WriterActionView::Flush,
            ),
            (WriterPhase::Selecting, WriterEventView::Control(None)) => failure(
                "connection reader stopped unexpectedly"@,
                false,
            ),
            (WriterPhase::Selecting, WriterEventView::Outbound(present)) => if present {
                (WriterPhase::Sending, WriterActionView::SendCommand)
            } else {
                (WriterPhase::Stopped, WriterActionView::Stop)
            },
            (WriterPhase::Flushing, WriterEventView::Written(error)) => match error {
                None => (WriterPhase::Selecting, WriterActionView::Select),
                Some(_) => failure("WebSocket control flush failed"@, false),
            },
            (WriterPhase::Sending, WriterEventView::Written(error)) => match error {
                None => (WriterPhase::Selecting, WriterActionView::Acknowledge),
                Some(description) => failure("WebSocket send failed: "@ + description, true),
            },
            (WriterPhase::SendingClose, WriterEventView::CloseSent { error, signal }) => {
                match error {
                    None => after_close_frame(signal),
                    Some(description) => failure("WebSocket close failed: "@ + description, false),
                }
            },
            (WriterPhase::AwaitingPeer, WriterEventView::ShutdownChanged { alive, signal }) => {
                if alive {
                    after_close_frame(signal)
                } else {
                    failure("connection driver stopped during the close handshake"@, false)
                }
            },
            (WriterPhase::FlushingClose, WriterEventView::Written(error)) => match error {
                None => (WriterPhase::Stopped, WriterActionView::Settle),
                Some(description) => failure("WebSocket close failed: "@ + description, false),
            },
            _ => (WriterPhase::Stopped, WriterActionView::Stop),
        }
    }

    /// Decides what an event leads to.
    pub fn step(self, event: WriterEvent) -> (next: (WriterPhase, WriterAction))
        ensures
            (next.0, next.1@) == self.next(event@),
    {
        match (self, event) {
            (WriterPhase::Selecting, WriterEvent::ShutdownChanged { alive, signal }) => {
                if alive && signal == ShutdownSignal::Running {
                    (WriterPhase::Selecting, WriterAction::Select)
                } else if signal == ShutdownSignal::Abort {
                    (WriterPhase::Stopped, WriterAction::Stop)
                } else if signal == ShutdownSignal::LocalClose {
                    let reason = String::new();
                    assert(reason@ =~= Seq::empty());
                    (
                        WriterPhase::SendingClose,
                        WriterAction::SendClose(CloseFrame { code: 1000, reason }),
                    )
                } else {
                    (WriterPhase::FlushingClose, WriterAction::FlushClose)
                }
            },
            (WriterPhase::Selecting, WriterEvent::Control(Some(WriterControl::Flush))) => (
                WriterPhase::Flushing,
                WriterAction::Flush,
            ),
            (WriterPhase::Selecting, WriterEvent::Control(None)) => fail(
                "connection reader stopped unexpectedly".to_owned(),
                false,
            ),
            (WriterPhase::Selecting, WriterEvent::Outbound(present)) => {
                if present {
                    (WriterPhase::Sending, WriterAction::SendCommand)
                } else {
                    (WriterPhase::Stopped, WriterAction::Stop)
                }
            },
            (WriterPhase::Flushing, WriterEvent::Written(error)) => match error {
                None => (WriterPhase::Selecting, WriterAction::Select),
                Some(_) => fail("WebSocket control flush failed".to_owned(), false),
            },
            (WriterPhase::Sending, WriterEvent::Written(error)) => match error {
                None => (WriterPhase::Selecting, WriterAction::Acknowledge),
                Some(description) => fail(
                    join("WebSocket send failed: ", description.as_str()),
                    true,
                ),
            },
            (WriterPhase::SendingClose, WriterEvent::CloseSent { error, signal }) => match error {
                None => continue_close(signal),
                Some(description) => fail(
                    join("WebSocket close failed: ", description.as_str()),
                    false,
                ),
            },
            (WriterPhase::AwaitingPeer, WriterEvent::ShutdownChanged { alive, signal }) => {
                if alive {
                    continue_close(signal)
                } else {
                    fail("connection driver stopped during the close handshake".to_owned(), false)
                }
            },
            (WriterPhase::FlushingClose, WriterEvent::Written(error)) => match error {
                None => (WriterPhase::Stopped, WriterAction::Settle),
                Some(description) => fail(
                    join("WebSocket close failed: ", description.as_str()),
                    false,
                ),
            },
            _ => (WriterPhase::Stopped, WriterAction::Stop),
        }
    }

    /// The phase and the actions of a whole run.
    pub open spec fn run(self, events: Seq<WriterEventView>) -> (
        WriterPhase,
        Seq<WriterActionView>,
    )
        decreases events.len(),
    {
        if events.len() == 0 {
            (self, Seq::empty())
        } else {
            let (phase, actions) = self.run(events.drop_last());
            let (next, action) = phase.next(events.last());
            (next, actions.push(action))
        }
    }

    /// Whether every event of the run is one that the task was waiting for.
    pub open spec fn driven(self, events: Seq<WriterEventView>) -> bool
        decreases events.len(),
    {
        events.len() == 0 || {
            &&& self.driven(events.drop_last())
            &&& self.run(events.drop_last()).0.expects(events.last())
        }
    }
}

fn fail(message: String, reply: bool) -> (next: (WriterPhase, WriterAction))
    ensures
        (next.0, next.1@) == failure(message@, reply),
{
    (WriterPhase::Stopped, WriterAction::Fail { error: DriverError::Transport(message), reply })
}

fn continue_close(signal: ShutdownSignal) -> (next: (WriterPhase, WriterAction))
    ensures
        (next.0, next.1@) == after_close_frame(signal),
{
    match signal {
        ShutdownSignal::LocalClose => (WriterPhase::AwaitingPeer, WriterAction::AwaitShutdown),
        ShutdownSignal::Abort => (WriterPhase::Stopped, WriterAction::Settle),
        _ => (WriterPhase::FlushingClose, WriterAction::FlushClose),
    }
}

/// A run has as many actions as events.
pub proof fn writer_run_length(phase: WriterPhase, events: Seq<WriterEventView>)
    ensures
        phase.run(events).1.len() == events.len(),
    decreases events.len(),
{
    if events.len() > 0 {
        writer_run_length(phase, events.drop_last());
    }
}

/// A writer that has begun to close, or stopped, never serves a message or a
/// control request again.
pub proof fn closing_writer_never_serves_again(phase: WriterPhase, events: Seq<WriterEventView>)
    requires
        !phase.is_serving(),
    ensures
        !phase.run(events).0.is_serving(),
        forall|i: int|
            0 <= i < events.len() ==> {
                &&& !(#[trigger] phase.run(events).1[i]).is_service()
                &&& !(phase.run(events).1[i] is SendClose)
            },
    decreases events.len(),
{
    if events.len() > 0 {
        closing_writer_never_serves_again(phase, events.drop_last());
        writer_run_length(phase, events.drop_last());
        let earlier = phase.run(events.drop_last()).1;
        let actions = phase.run(events).1;
        assert forall|i: int| 0 <= i < events.len() implies {
            &&& !(#[trigger] actions[i]).is_service()
            &&& !(actions[i] is SendClose)
        } by {
            if i < events.len() - 1 {
                assert(actions[i] == earlier[i]);
            }
        }
    }
}

/// The close frame is sent at most once, it says normal closure, and nothing is
/// sent for the application after it.
pub proof fn close_frame_is_last(
    phase: WriterPhase,
    events: Seq<WriterEventView>,
    i: int,
    j: int,
)
    requires
        0 <= i < j < events.len(),
        phase.run(events).1[i] is SendClose,
    ensures
        phase.run(events).1[i] == WriterActionView::SendClose(normal_close()),
        !phase.run(events).1[j].is_service(),
        !(phase.run(events).1[j] is SendClose),
{
    close_frame_stops_service(phase, events, i);
}

proof fn close_frame_stops_service(phase: WriterPhase, events: Seq<WriterEventView>, i: int)
    requires
        0 <= i < events.len(),
        phase.run(events).1[i] is SendClose,
    ensures
        phase.run(events).1[i] == WriterActionView::SendClose(normal_close()),
        !phase.run(events).0.is_serving(),
        forall|j: int|
            i < j < events.len() ==> {
                &&& !(#[trigger] phase.run(events).1[j]).is_service()
                &&& !(phase.run(events).1[j] is SendClose)
            },
    decreases events.len(),
{
    let earlier = phase.run(events.drop_last()).1;
    let actions = phase.run(events).1;
    writer_run_length(phase, events.drop_last());
    if i < events.len() - 1 {
        assert(actions[i] == earlier[i]);
        close_frame_stops_service(phase, events.drop_last(), i);
        assert forall|j: int| i < j < events.len() implies {
            &&& !(#[trigger] actions[j]).is_service()
            &&& !(actions[j] is SendClose)
        } by {
            if j < events.len() - 1 {
                assert(actions[j] == earlier[j]);
            }
        }
    }
}

/// How many of the actions send a message of the application.
pub open spec fn sends(actions: Seq<WriterActionView>) -> nat
    decreases actions.len(),
{
    if actions.len() == 0 {
        0
    } else {
        sends(actions.drop_last()) + if actions.last() is SendCommand {
            1nat
        } else {
            0
        }
    }
}

/// How many of the actions answer the sender of a message.
pub open spec fn replies(actions: Seq<WriterActionView>) -> nat
    decreases actions.len(),
{
    if actions.len() == 0 {
        0
    } else {
        replies(actions.drop_last()) + if actions.last().is_reply() {
            1nat
        } else {
            0
        }
    }
}

/// Every message that the writer takes is answered exactly once, by success or by
/// the failure that ended the connection; at most the one being sent is still
/// open.
pub proof fn every_send_is_answered_once(events: Seq<WriterEventView>)
    requires
        WriterPhase::Selecting.driven(events),
    ensures
        sends(WriterPhase::Selecting.run(events).1) == replies(
            WriterPhase::Selecting.run(events).1,
        ) + if WriterPhase::Selecting.run(events).0 is Sending {
            1int
        } else {
            0
        },
    decreases events.len(),
{
    if events.len() > 0 {
        every_send_is_answered_once(events.drop_last());
        let actions = WriterPhase::Selecting.run(events).1;
        assert(actions.drop_last() =~= WriterPhase::Selecting.run(events.drop_last()).1);
    }
}

/// A stopped writer has nothing to do.
pub proof fn stopped_writer_stays_stopped(event: WriterEventView)
    ensures
        WriterPhase::Stopped.next(event) == (WriterPhase::Stopped, WriterActionView::Stop),
{
}

/// An abort stops the writer where it waits for signals: nothing more is written.
pub proof fn abort_stops_the_writer(phase: WriterPhase, alive: bool)
    requires
        phase is Selecting || phase is AwaitingPeer,
    ensures
        ({
            let (next, action) = phase.next(
                WriterEventView::ShutdownChanged { alive, signal: ShutdownSignal::Abort },
            );
            &&& next is Stopped
            &&& action is Stop || action is Settle || action is Fail
        }),
{
}

/// A message is reported as sent only after it was written and flushed: the act
/// before the report was to send it, and it went well.
pub proof fn acknowledgement_follows_the_write(events: Seq<WriterEventView>, i: int)
    requires
        0 <= i < events.len(),
        WriterPhase::Selecting.run(events).1[i] is Acknowledge,
    ensures
        events[i] == WriterEventView::Written(None),
        i > 0,
        WriterPhase::Selecting.run(events).1[i - 1] is SendCommand,
    decreases events.len(),
{
    let earlier = events.drop_last();
    writer_run_length(WriterPhase::Selecting, earlier);
    let actions = WriterPhase::Selecting.run(events).1;
    if i < events.len() - 1 {
        assert(actions[i] == WriterPhase::Selecting.run(earlier).1[i]);
        acknowledgement_follows_the_write(earlier, i);
    } else {
        sending_follows_the_command(earlier);
    }
}

proof fn sending_follows_the_command(events: Seq<WriterEventView>)
    requires
        WriterPhase::Selecting.run(events).0 is Sending,
    ensures
        events.len() > 0,
        WriterPhase::Selecting.run(events).1.len() == events.len(),
        WriterPhase::Selecting.run(events).1.last() is SendCommand,
{
    writer_run_length(WriterPhase::Selecting, events);
}

/// What the writing task does about each event that it waits for while it serves.
pub proof fn serving_writer_reacts_to_every_event(
    alive: bool,
    signal: ShutdownSignal,
    description: Seq<char>,
)
    ensures
        ({
            let selecting = |event: WriterEventView| WriterPhase::Selecting.next(event);
            let stop = (WriterPhase::Stopped, WriterActionView::Stop);
            let changed = selecting(WriterEventView::ShutdownChanged { alive, signal });
            &&& signal is Abort ==> changed == stop
            &&& signal is LocalClose ==> changed == (
                WriterPhase::SendingClose,
                WriterActionView::SendClose(CloseFrameView { code: 1000, reason: Seq::empty() }),
            )
            &&& signal is PeerClose || signal is Running && !alive ==> changed == (
                WriterPhase::FlushingClose,
                WriterActionView::FlushClose,
            )
            &&& signal is Running && alive ==> changed == (
                WriterPhase::Selecting,
                WriterActionView::Select,
            )
            &&& selecting(WriterEventView::Control(Some(WriterControl::Flush))) == (
                WriterPhase::Flushing,
                WriterActionView::Flush,
            )
            &&& selecting(WriterEventView::Outbound(true)) == (
                WriterPhase::Sending,
                WriterActionView::SendCommand,
            )
            &&& selecting(WriterEventView::Outbound(false)) == stop
            &&& selecting(WriterEventView::Control(None)) == (
                WriterPhase::Stopped,
                WriterActionView::Fail {
                    error: DriverErrorView::Transport("connection reader stopped unexpectedly"@),
                    reply: false,
                },
            )
            &&& WriterPhase::Flushing.next(WriterEventView::Written(None)) == (
                WriterPhase::Selecting,
                WriterActionView::Select,
            )
            &&& WriterPhase::Flushing.next(WriterEventView::Written(Some(description))) == (
                WriterPhase::Stopped,
                WriterActionView::Fail {
                    error: DriverErrorView::Transport("WebSocket control flush failed"@),
                    reply: false,
                },
            )
            &&& WriterPhase::Sending.next(WriterEventView::Written(None)) == (
                WriterPhase::Selecting,
                WriterActionView::Acknowledge,
            )
            &&& WriterPhase::Sending.next(WriterEventView::Written(Some(description))) == (
                WriterPhase::Stopped,
                WriterActionView::Fail {
                    error: DriverErrorView::Transport("WebSocket send failed: "@ + description),
                    reply: true,
                },
            )
        }),
{
}

/// What the writing task does about each event that it waits for while it closes: it
/// waits for the peer as long as the close is local, gives up on an abort, and
/// otherwise flushes and then settles.
pub proof fn closing_writer_reacts_to_every_event(
    alive: bool,
    signal: ShutdownSignal,
    description: Seq<char>,
)
    ensures
        ({
            let failed = (
                WriterPhase::Stopped,
                WriterActionView::Fail {
                    error: DriverErrorView::Transport("WebSocket close failed: "@ + description),
                    reply: false,
                },
            );
            let sent = WriterPhase::SendingClose.next(
                WriterEventView::CloseSent { error: None, signal },
            );
            let woken = WriterPhase::AwaitingPeer.next(
                WriterEventView::ShutdownChanged { alive: true, signal },
            );
            &&& woken == sent
            &&& signal is LocalClose ==> sent == (
                WriterPhase::AwaitingPeer,
                WriterActionView::AwaitShutdown,
            )
            &&& signal is Abort ==> sent == (WriterPhase::Stopped, WriterActionView::Settle)
            &&& signal is PeerClose || signal is Running ==> sent == (
                WriterPhase::FlushingClose,
                WriterActionView::FlushClose,
            )
            &&& WriterPhase::SendingClose.next(
                WriterEventView::CloseSent { error: Some(description), signal },
            ) == failed
            &&& WriterPhase::AwaitingPeer.next(
                WriterEventView::ShutdownChanged { alive: false, signal },
            ) == (
                WriterPhase::Stopped,
                WriterActionView::Fail {
                    error: DriverErrorView::Transport(
                        "connection driver stopped during the close handshake"@,
                    ),
                    reply: false,
                },
            )
            &&& WriterPhase::FlushingClose.next(WriterEventView::Written(None)) == (
                WriterPhase::Stopped,
                WriterActionView::Settle,
            )
            &&& WriterPhase::FlushingClose.next(WriterEventView::Written(Some(description)))
                == failed
        }),
{
}

/// A task waits for what its phase is about and a stopped one for nothing. What it
/// does not wait for stops it.
pub proof fn writer_waits_for_what_it_should(phase: WriterPhase, event: WriterEventView)
    ensures
        phase.expects(event) <==> {
            ||| phase is Selecting && (event is ShutdownChanged || event is Control
                || event is Outbound)
            ||| (phase is Flushing || phase is Sending || phase is FlushingClose)
                && event is Written
            ||| phase is SendingClose && event is CloseSent
            ||| phase is AwaitingPeer && event is ShutdownChanged
        },
        !phase.expects(event) ==> phase.next(event) == (
            WriterPhase::Stopped,
            WriterActionView::Stop,
        ),
{
}

/// The content of an event or an action keeps everything that it carries.
pub proof fn writer_contents_are_whole(
    signal: ShutdownSignal,
    flag: bool,
    request: Option<WriterControl>,
    text: String,
    frame: CloseFrame,
    error: DriverError,
)
    ensures
        (WriterEvent::ShutdownChanged { alive: flag, signal })@
            == (WriterEventView::ShutdownChanged { alive: flag, signal }),
        WriterEvent::Control(request)@ == WriterEventView::Control(request),
        WriterEvent::Outbound(flag)@ == WriterEventView::Outbound(flag),
        WriterEvent::Written(None)@ == WriterEventView::Written(None),
        WriterEvent::Written(Some(text))@ == WriterEventView::Written(Some(text@)),
        (WriterEvent::CloseSent { error: None, signal })@ == (WriterEventView::CloseSent {
            error: None,
            signal,
        }),
        (WriterEvent::CloseSent { error: Some(text), signal })@ == (WriterEventView::CloseSent {
            error: Some(text@),
            signal,
        }),
        WriterAction::Select@ == WriterActionView::Select,
        WriterAction::Flush@ == WriterActionView::Flush,
        WriterAction::SendCommand@ == WriterActionView::SendCommand,
        WriterAction::Acknowledge@ == WriterActionView::Acknowledge,
        WriterAction::SendClose(frame)@ == WriterActionView::SendClose(frame@),
        WriterAction::AwaitShutdown@ == WriterActionView::AwaitShutdown,
        WriterAction::FlushClose@ == WriterActionView::FlushClose,
        (WriterAction::Fail { error, reply: flag })@ == (WriterActionView::Fail {
            error: error@,
            reply: flag,
        }),
        WriterAction::Settle@ == WriterActionView::Settle,
        WriterAction::Stop@ == WriterActionView::Stop,
{
}

} // verus!
