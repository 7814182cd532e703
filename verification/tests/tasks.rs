use std::sync::atomic::{AtomicBool, Ordering};
use std::sync::Arc;

use fogws::closing::{
    task_finished, task_started, tasks_settled, CloseAction, CloseEvent, ClosePhase,
};
use fogws::error::{CloseInfo, DriverError};
use fogws::inbound::{TransferAction, TransferEvent, TransferPhase};
use fogws::journal::Journal;
use fogws::message::{CloseFrame, InboundMessage, Message};
use fogws::reader::{classify_close, Reader, ReaderAction, ReaderEvent, ReaderPhase};
use fogws::shutdown::ShutdownSignal;
use fogws::state::DriverState;
use fogws::writer::{WriterAction, WriterControl, WriterEvent, WriterPhase};

fn transport(message: &str) -> DriverError {
    DriverError::Transport(message.to_owned())
}

fn local_normal() -> DriverError {
    DriverError::ClosedOk(CloseInfo::local_normal())
}

fn frame(code: u16, reason: &str) -> Option<CloseFrame> {
    Some(CloseFrame { code, reason: reason.to_owned() })
}

fn changed(signal: ShutdownSignal) -> WriterEvent {
    WriterEvent::ShutdownChanged { alive: true, signal }
}

#[test]
fn close_without_status_code_is_clean_but_preserves_missing_code() {
    let outcome = classify_close(None, false);

    assert!(matches!(
        outcome,
        DriverError::ClosedOk(CloseInfo {
            code: None,
            initiated_by_local: false,
            ..
        }),
    ));
}

#[test]
fn only_normal_and_going_away_are_clean_codes() {
    for code in [1000, 1001] {
        assert_eq!(
            classify_close(frame(code, "bye"), true),
            DriverError::ClosedOk(CloseInfo {
                code: Some(code),
                initiated_by_local: true,
                reason: "bye".to_owned(),
            }),
        );
    }
    for code in [0, 999, 1002, 1011, 4000, 65535] {
        assert_eq!(
            classify_close(frame(code, ""), false),
            DriverError::ClosedError(CloseInfo {
                code: Some(code),
                initiated_by_local: false,
                reason: String::new(),
            }),
        );
    }
}

#[test]
fn the_reader_queues_payloads_and_requests_flushes() {
    let mut reader = Reader::new(Arc::new(AtomicBool::new(false)));

    assert_eq!(reader.handle(ReaderEvent::Signal(ShutdownSignal::Running), &mut Journal::new()), ReaderAction::Poll);
    assert_eq!(
        reader.handle(ReaderEvent::Received(Message::Text("hello".to_owned())), &mut Journal::new()),
        ReaderAction::Queue(Message::Text("hello".to_owned())),
    );
    assert_eq!(reader.handle(ReaderEvent::Queued(true), &mut Journal::new()), ReaderAction::CheckShutdown);
    assert_eq!(reader.handle(ReaderEvent::Signal(ShutdownSignal::LocalClose), &mut Journal::new()), ReaderAction::Poll);
    assert_eq!(
        reader.handle(ReaderEvent::Received(Message::Ping(vec![1])), &mut Journal::new()),
        ReaderAction::RequestFlush,
    );
    assert_eq!(reader.handle(ReaderEvent::Signal(ShutdownSignal::Running), &mut Journal::new()), ReaderAction::Poll);
    assert_eq!(
        reader.handle(ReaderEvent::Received(Message::Pong(vec![])), &mut Journal::new()),
        ReaderAction::RequestFlush,
    );
    assert_eq!(reader.handle(ReaderEvent::Signal(ShutdownSignal::Running), &mut Journal::new()), ReaderAction::Poll);
    assert_eq!(
        reader.handle(ReaderEvent::Received(Message::Frame(9)), &mut Journal::new()),
        ReaderAction::CheckShutdown,
    );
    assert_eq!(reader.handle(ReaderEvent::Signal(ShutdownSignal::Running), &mut Journal::new()), ReaderAction::Poll);
    assert_eq!(
        reader.handle(ReaderEvent::Received(Message::Binary(vec![1, 2])), &mut Journal::new()),
        ReaderAction::Queue(Message::Binary(vec![1, 2])),
    );
    assert_eq!(reader.handle(ReaderEvent::Queued(true), &mut Journal::new()), ReaderAction::CheckShutdown);
}

#[test]
fn the_reader_stops_on_abort() {
    let mut reader = Reader::new(Arc::new(AtomicBool::new(false)));
    assert_eq!(reader.handle(ReaderEvent::Signal(ShutdownSignal::Abort), &mut Journal::new()), ReaderAction::Stop);
    assert_eq!(reader.handle(ReaderEvent::Ended, &mut Journal::new()), ReaderAction::Stop);

    let polling = ReaderPhase::Polling;
    let gone = ReaderEvent::ShutdownChanged { alive: false, signal: ShutdownSignal::Running };
    assert_eq!(polling.step(gone, false), (ReaderPhase::Stopped, ReaderAction::Stop));
    let abort = ReaderEvent::ShutdownChanged { alive: true, signal: ShutdownSignal::Abort };
    assert_eq!(polling.step(abort, false), (ReaderPhase::Stopped, ReaderAction::Stop));
    let close = ReaderEvent::ShutdownChanged { alive: true, signal: ShutdownSignal::LocalClose };
    assert_eq!(polling.step(close, true), (ReaderPhase::Checking, ReaderAction::CheckShutdown));
}

#[test]
fn a_close_frame_sets_the_flag_and_says_who_began() {
    for began in [false, true] {
        let closing = Arc::new(AtomicBool::new(began));
        let mut reader = Reader::new(Arc::clone(&closing));
        reader.handle(ReaderEvent::Signal(ShutdownSignal::Running), &mut Journal::new());

        let action = reader.handle(ReaderEvent::Received(Message::Close(frame(1001, "away"))), &mut Journal::new());

        assert_eq!(
            action,
            ReaderAction::FinishPeerClose(DriverError::ClosedOk(CloseInfo {
                code: Some(1001),
                initiated_by_local: began,
                reason: "away".to_owned(),
            })),
        );
        assert!(closing.load(Ordering::Acquire));
        assert_eq!(reader.handle(ReaderEvent::Ended, &mut Journal::new()), ReaderAction::Stop);
    }
}

#[test]
fn the_end_of_the_socket_is_clean_only_while_closing() {
    let polling = ReaderPhase::Polling;
    let ended = || ReaderEvent::Ended;
    let failed = |connection_closed| ReaderEvent::Failed {
        connection_closed,
        description: "boom".to_owned(),
    };

    assert_eq!(
        polling.step(ended(), false).1,
        ReaderAction::Fail(transport("WebSocket transport ended without a close frame")),
    );
    assert_eq!(polling.step(ended(), true).1, ReaderAction::FinishPeerClose(local_normal()));
    assert_eq!(
        ReaderPhase::Queueing.step(ReaderEvent::Queued(false), false).1,
        ReaderAction::Fail(transport("WebSocket transport ended without a close frame")),
    );
    assert_eq!(
        ReaderPhase::Queueing.step(ReaderEvent::Queued(false), true).1,
        ReaderAction::FinishPeerClose(local_normal()),
    );
    assert_eq!(polling.step(failed(true), true).1, ReaderAction::FinishPeerClose(local_normal()));
    for (connection_closed, closing) in [(true, false), (false, true), (false, false)] {
        assert_eq!(
            polling.step(failed(connection_closed), closing).1,
            ReaderAction::Fail(transport("WebSocket receive failed: boom")),
        );
    }
}

#[test]
fn the_writer_serves_until_a_shutdown() {
    let selecting = WriterPhase::Selecting;

    assert_eq!(
        selecting.step(changed(ShutdownSignal::Running)),
        (selecting, WriterAction::Select),
    );
    assert_eq!(
        selecting.step(WriterEvent::Control(Some(WriterControl::Flush))),
        (WriterPhase::Flushing, WriterAction::Flush),
    );
    assert_eq!(
        WriterPhase::Flushing.step(WriterEvent::Written(None)),
        (selecting, WriterAction::Select),
    );
    assert_eq!(
        selecting.step(WriterEvent::Outbound(true)),
        (WriterPhase::Sending, WriterAction::SendCommand),
    );
    assert_eq!(
        WriterPhase::Sending.step(WriterEvent::Written(None)),
        (selecting, WriterAction::Acknowledge),
    );
    assert_eq!(
        selecting.step(WriterEvent::Outbound(false)),
        (WriterPhase::Stopped, WriterAction::Stop),
    );
    assert_eq!(
        selecting.step(changed(ShutdownSignal::Abort)),
        (WriterPhase::Stopped, WriterAction::Stop),
    );
    assert_eq!(
        selecting.step(changed(ShutdownSignal::PeerClose)),
        (WriterPhase::FlushingClose, WriterAction::FlushClose),
    );
    assert_eq!(
        selecting.step(WriterEvent::ShutdownChanged {
            alive: false,
            signal: ShutdownSignal::Running,
        }),
        (WriterPhase::FlushingClose, WriterAction::FlushClose),
    );
}

#[test]
fn the_writer_closes_once_and_waits_for_the_peer() {
    let (phase, action) = WriterPhase::Selecting.step(changed(ShutdownSignal::LocalClose));
    assert_eq!(
        action,
        WriterAction::SendClose(CloseFrame { code: 1000, reason: String::new() }),
    );
    let (phase, action) = phase.step(WriterEvent::CloseSent {
        error: None,
        signal: ShutdownSignal::LocalClose,
    });
    assert_eq!(action, WriterAction::AwaitShutdown);
    let (phase, action) = phase.step(changed(ShutdownSignal::LocalClose));
    assert_eq!(action, WriterAction::AwaitShutdown);
    let (phase, action) = phase.step(changed(ShutdownSignal::PeerClose));
    assert_eq!(action, WriterAction::FlushClose);
    let (phase, action) = phase.step(WriterEvent::Written(None));
    assert_eq!((phase, action), (WriterPhase::Stopped, WriterAction::Settle));
    assert_eq!(
        phase.step(WriterEvent::Outbound(true)),
        (WriterPhase::Stopped, WriterAction::Stop),
    );

    assert_eq!(
        WriterPhase::SendingClose.step(WriterEvent::CloseSent {
            error: None,
            signal: ShutdownSignal::Abort,
        }),
        (WriterPhase::Stopped, WriterAction::Settle),
    );
    assert_eq!(
        WriterPhase::AwaitingPeer.step(changed(ShutdownSignal::Abort)),
        (WriterPhase::Stopped, WriterAction::Settle),
    );
}

#[test]
fn every_writer_failure_is_reported() {
    let problem = || Some("pipe".to_owned());
    let cases = [
        (
            WriterPhase::Selecting.step(WriterEvent::Control(None)),
            "connection reader stopped unexpectedly",
            false,
        ),
        (
            WriterPhase::Flushing.step(WriterEvent::Written(problem())),
            "WebSocket control flush failed",
            false,
        ),
        (
            WriterPhase::Sending.step(WriterEvent::Written(problem())),
            "WebSocket send failed: pipe",
            true,
        ),
        (
            WriterPhase::SendingClose.step(WriterEvent::CloseSent {
                error: problem(),
                signal: ShutdownSignal::LocalClose,
            }),
            "WebSocket close failed: pipe",
            false,
        ),
        (
            WriterPhase::AwaitingPeer.step(WriterEvent::ShutdownChanged {
                alive: false,
                signal: ShutdownSignal::LocalClose,
            }),
            "connection driver stopped during the close handshake",
            false,
        ),
        (
            WriterPhase::FlushingClose.step(WriterEvent::Written(problem())),
            "WebSocket close failed: pipe",
            false,
        ),
    ];
    for ((phase, action), message, reply) in cases {
        assert_eq!(phase, WriterPhase::Stopped);
        assert_eq!(action, WriterAction::Fail { error: transport(message), reply });
    }
}

#[test]
fn an_inbound_message_needs_its_bytes_and_a_place() {
    let text = || Message::Text("häl".to_owned());

    let (phase, action) = TransferPhase::begin(text(), ShutdownSignal::Running);
    assert_eq!(action, TransferAction::Acquire(4));
    let (phase, action) = phase.step(TransferEvent::Acquired(true));
    assert_eq!(action, TransferAction::Deliver(InboundMessage::Text("häl".to_owned())));
    assert_eq!(
        phase.step(TransferEvent::Delivered(true)),
        (TransferPhase::Finished, TransferAction::Done(true)),
    );

    let (phase, _) = TransferPhase::begin(Message::Binary(vec![1, 2, 3]), ShutdownSignal::Running);
    let (phase, action) = phase.step(TransferEvent::Acquired(true));
    assert_eq!(action, TransferAction::Deliver(InboundMessage::Binary(vec![1, 2, 3])));
    assert_eq!(phase.step(TransferEvent::Delivered(false)).1, TransferAction::Done(false));
}

#[test]
fn a_shutdown_ends_an_inbound_transfer() {
    for signal in [ShutdownSignal::Abort, ShutdownSignal::LocalClose, ShutdownSignal::PeerClose] {
        let (phase, action) = TransferPhase::begin(Message::Binary(vec![1]), signal);
        assert_eq!((phase, action), (TransferPhase::Finished, TransferAction::Done(true)));
    }
    for alive in [true, false] {
        let (phase, _) = TransferPhase::begin(Message::Binary(vec![1]), ShutdownSignal::Running);
        assert_eq!(
            phase.step(TransferEvent::ShutdownChanged { alive }).1,
            TransferAction::Done(alive),
        );
        assert_eq!(
            TransferPhase::Delivering.step(TransferEvent::ShutdownChanged { alive }).1,
            TransferAction::Done(alive),
        );
    }
}

#[test]
fn only_payloads_enter_the_inbound_queue() {
    for message in [
        Message::Ping(vec![1]),
        Message::Pong(vec![]),
        Message::Close(frame(1000, "x")),
        Message::Close(None),
        Message::Frame(3),
    ] {
        let (phase, _) = TransferPhase::begin(message, ShutdownSignal::Running);
        assert_eq!(phase.step(TransferEvent::Acquired(true)).1, TransferAction::Done(false));
    }
    let (phase, _) = TransferPhase::begin(Message::Binary(vec![1]), ShutdownSignal::Running);
    assert_eq!(phase.step(TransferEvent::Acquired(false)).1, TransferAction::Done(false));
}

#[test]
fn an_uncountable_message_is_refused() {
    let huge = Message::Frame(u32::MAX as usize + 1);

    assert_eq!(
        TransferPhase::begin(huge, ShutdownSignal::Running),
        (TransferPhase::Finished, TransferAction::Done(false)),
    );
}

#[test]
fn message_sizes_count_bytes() {
    assert_eq!(Message::Text("aäß".to_owned()).len(), 5);
    assert_eq!(Message::Binary(vec![0; 7]).len(), 7);
    assert_eq!(Message::Close(frame(1000, "done")).len(), 4);
    assert_eq!(Message::Close(None).len(), 0);
    assert!(Message::Text(String::new()).is_payload());
    assert!(!Message::Pong(vec![]).is_payload());
}

#[test]
fn closing_waits_for_the_end_and_for_the_tasks() {
    let tasks = |remaining| CloseEvent::Tasks { remaining, alive: true };

    let (phase, action) = ClosePhase::Starting.step(CloseEvent::State(DriverState::Open));
    assert_eq!(action, CloseAction::BeginClose);
    let (phase, action) = phase.step(CloseEvent::State(DriverState::Closing));
    assert_eq!(action, CloseAction::AwaitState);
    let (phase, action) = phase.step(CloseEvent::State(DriverState::PeerClosed(local_normal())));
    assert_eq!(action, CloseAction::AwaitState);
    let (phase, action) = phase.step(CloseEvent::State(DriverState::Closed(local_normal())));
    assert_eq!(action, CloseAction::CheckTasks);
    let (phase, action) = phase.step(tasks(2));
    assert_eq!(action, CloseAction::AwaitTasks);
    let (_, action) = phase.step(tasks(0));
    assert_eq!(action, CloseAction::Return(Ok(())));
}

#[test]
fn closing_an_ended_connection_reports_how_it_ended() {
    for error in [local_normal(), transport("lost")] {
        let expected = match error.clone() {
            DriverError::ClosedOk(_) => Ok(()),
            other => Err(other),
        };
        for _ in 0..2 {
            let closed = CloseEvent::State(DriverState::Closed(error.clone()));
            let (phase, action) = ClosePhase::Starting.step(closed);
            assert_eq!(action, CloseAction::CheckTasks);
            let (_, action) = phase.step(CloseEvent::Tasks { remaining: 0, alive: true });
            assert_eq!(action, CloseAction::Return(expected.clone()));
        }
    }
}

#[test]
fn closing_reports_tasks_that_vanish() {
    let (phase, action) = ClosePhase::AwaitingEnd.step(CloseEvent::StateAbandoned);
    assert_eq!(action, CloseAction::CheckTasks);
    let (_, action) = phase.step(CloseEvent::Tasks { remaining: 0, alive: false });
    assert_eq!(
        action,
        CloseAction::Return(Err(transport(
            "connection driver stopped before publishing a terminal state",
        ))),
    );
    assert_eq!(
        tasks_settled(1, false),
        Some(Err(transport("connection tasks stopped without completion confirmation"))),
    );
    assert_eq!(tasks_settled(1, true), None);
    assert_eq!(tasks_settled(0, false), Some(Ok(())));
}

#[test]
fn tasks_are_counted() {
    let mut remaining = 0;
    task_started(&mut remaining);
    task_started(&mut remaining);
    assert_eq!(remaining, 2);
    task_finished(&mut remaining);
    task_finished(&mut remaining);
    task_finished(&mut remaining);
    assert_eq!(remaining, 0);
    let mut most = usize::MAX;
    task_started(&mut most);
    assert_eq!(most, usize::MAX);
}
