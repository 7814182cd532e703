use fogws::error::{close_result, CloseInfo, DriverError};
use fogws::journal::Journal;
use fogws::lifecycle::{
    peer_close_outcome, publish_close_timeout, publish_local_close, publish_peer_closed,
    publish_task_finished, publish_task_started, publish_terminal, publish_writer_failure, signal_abort, signal_local_close, signal_peer_close,
};
use fogws::shutdown::ShutdownSignal;
use fogws::state::DriverState;
use tokio::sync::watch;

fn clean_close() -> DriverError {
    DriverError::ClosedOk(CloseInfo {
        code: Some(1000),
        initiated_by_local: false,
        reason: "done".to_owned(),
    })
}

fn transport(message: &str) -> DriverError {
    DriverError::Transport(message.to_owned())
}

#[test]
fn abort_shutdown_is_absorbing() {
    let (shutdown, receiver) = watch::channel(ShutdownSignal::Running);

    signal_abort(&shutdown, &mut Journal::new());
    signal_local_close(&shutdown, &mut Journal::new());
    signal_peer_close(&shutdown, &mut Journal::new());

    assert_eq!(*receiver.borrow(), ShutdownSignal::Abort);
}

#[test]
fn peer_close_advances_local_close() {
    let (shutdown, receiver) = watch::channel(ShutdownSignal::Running);

    signal_local_close(&shutdown, &mut Journal::new());
    signal_peer_close(&shutdown, &mut Journal::new());

    assert_eq!(*receiver.borrow(), ShutdownSignal::PeerClose);
}

#[test]
fn close_timeout_preserves_an_observed_peer_outcome() {
    let outcome = DriverError::ClosedOk(CloseInfo {
        code: Some(1000),
        initiated_by_local: false,
        reason: "done".to_owned(),
    });
    let (state, receiver) = watch::channel(DriverState::PeerClosed(outcome.clone()));

    publish_close_timeout(&state, &mut Journal::new());

    assert_eq!(*receiver.borrow(), DriverState::Closed(outcome));
}

#[test]
fn writer_close_error_preserves_an_observed_peer_outcome() {
    let outcome = DriverError::ClosedOk(CloseInfo {
        code: Some(1000),
        initiated_by_local: false,
        reason: "done".to_owned(),
    });
    let (state, receiver) = watch::channel(DriverState::PeerClosed(outcome.clone()));

    let selected = publish_writer_failure(
        &state,
        &DriverError::Transport("close reply failed".to_owned()),
        &mut Journal::new(),
    );

    assert_eq!(*receiver.borrow(), DriverState::Closed(outcome.clone()));
    assert_eq!(selected, outcome);
}

#[test]
fn the_first_terminal_outcome_wins() {
    let (state, receiver) = watch::channel(DriverState::Open);

    assert!(publish_terminal(&state, &transport("first"), &mut Journal::new()));
    assert!(!publish_terminal(&state, &transport("second"), &mut Journal::new()));
    assert!(!publish_peer_closed(&state, &clean_close(), &mut Journal::new()));
    assert!(!publish_close_timeout(&state, &mut Journal::new()));
    assert!(!publish_local_close(&state, &mut Journal::new()));
    assert_eq!(publish_writer_failure(&state, &transport("third"), &mut Journal::new()), transport("first"));

    assert_eq!(*receiver.borrow(), DriverState::Closed(transport("first")));
}

#[test]
fn a_writer_failure_ends_a_running_connection() {
    for before in [DriverState::Open, DriverState::Closing] {
        let (state, receiver) = watch::channel(before);

        let selected = publish_writer_failure(&state, &transport("broken"), &mut Journal::new());

        assert_eq!(selected, transport("broken"));
        assert_eq!(*receiver.borrow(), DriverState::Closed(transport("broken")));
    }
}

#[test]
fn an_unanswered_close_times_out() {
    for before in [DriverState::Open, DriverState::Closing] {
        let (state, receiver) = watch::channel(before);

        assert!(publish_close_timeout(&state, &mut Journal::new()));

        assert_eq!(
            *receiver.borrow(),
            DriverState::Closed(transport("WebSocket close timed out")),
        );
    }
}

#[test]
fn a_local_close_starts_on_an_open_connection_only() {
    let (state, receiver) = watch::channel(DriverState::Open);

    assert!(publish_local_close(&state, &mut Journal::new()));
    assert_eq!(*receiver.borrow(), DriverState::Closing);
    assert!(!publish_local_close(&state, &mut Journal::new()));
    assert!(publish_peer_closed(&state, &clean_close(), &mut Journal::new()));
    assert!(!publish_local_close(&state, &mut Journal::new()));
    assert_eq!(*receiver.borrow(), DriverState::PeerClosed(clean_close()));
}

#[test]
fn the_writer_finds_the_outcome_of_a_peer_close() {
    let (state, _receiver) = watch::channel(DriverState::Open);
    assert_eq!(peer_close_outcome(&state, &mut Journal::new()), None);

    publish_peer_closed(&state, &clean_close(), &mut Journal::new());
    assert_eq!(peer_close_outcome(&state, &mut Journal::new()), Some(clean_close()));

    publish_terminal(&state, &clean_close(), &mut Journal::new());
    assert_eq!(peer_close_outcome(&state, &mut Journal::new()), None);
}

#[test]
fn observers_are_woken_by_changes_only() {
    let (state, mut receiver) = watch::channel(DriverState::Open);
    receiver.borrow_and_update();

    publish_terminal(&state, &transport("first"), &mut Journal::new());
    assert!(receiver.has_changed().unwrap());
    receiver.borrow_and_update();
    publish_terminal(&state, &transport("second"), &mut Journal::new());
    assert!(!receiver.has_changed().unwrap());

    let (shutdown, mut signals) = watch::channel(ShutdownSignal::Running);
    signals.borrow_and_update();
    assert!(signal_local_close(&shutdown, &mut Journal::new()));
    assert!(signals.has_changed().unwrap());
    signals.borrow_and_update();
    assert!(!signal_local_close(&shutdown, &mut Journal::new()));
    assert!(!signals.has_changed().unwrap());
    assert!(signal_abort(&shutdown, &mut Journal::new()));
    assert!(!signal_abort(&shutdown, &mut Journal::new()));
    assert!(!signal_peer_close(&shutdown, &mut Journal::new()));
}

#[test]
fn operations_are_told_where_the_connection_stands() {
    let local = DriverError::ClosedOk(CloseInfo::local_normal());

    assert_eq!(DriverState::Open.ensure_open(), Ok(()));
    assert_eq!(DriverState::Closing.ensure_open(), Err(local.clone()));
    assert_eq!(DriverState::PeerClosed(clean_close()).ensure_open(), Err(clean_close()));
    assert_eq!(DriverState::Closed(transport("x")).ensure_open(), Err(transport("x")));

    assert_eq!(
        DriverState::Open.terminal_error(),
        transport("connection driver stopped unexpectedly"),
    );
    assert_eq!(DriverState::Closing.terminal_error(), local);
    assert_eq!(DriverState::PeerClosed(clean_close()).terminal_error(), clean_close());
    assert_eq!(DriverState::Closed(transport("x")).terminal_error(), transport("x"));

    assert!(DriverState::Closed(transport("x")).is_terminal());
    assert!(!DriverState::PeerClosed(clean_close()).is_terminal());
}

#[test]
fn only_a_clean_end_closes_successfully() {
    assert_eq!(close_result(clean_close()), Ok(()));
    assert_eq!(close_result(transport("x")), Err(transport("x")));
    let abnormal = DriverError::ClosedError(CloseInfo {
        code: Some(1011),
        initiated_by_local: false,
        reason: String::new(),
    });
    assert_eq!(close_result(abnormal.clone()), Err(abnormal));
}

#[test]
fn a_close_is_described() {
    assert_eq!(
        CloseInfo::local_normal().describe(),
        "connection closed by local endpoint with code 1000",
    );
    assert_eq!(
        clean_close().describe(),
        "connection closed by remote endpoint with code 1000: done",
    );
    let unnamed = CloseInfo { code: None, initiated_by_local: false, reason: String::new() };
    assert_eq!(
        DriverError::ClosedOk(unnamed).describe(),
        "connection closed by remote endpoint with code without a status code",
    );
    let odd = CloseInfo { code: Some(65535), initiated_by_local: true, reason: "ä".to_owned() };
    assert_eq!(
        DriverError::ClosedError(odd).describe(),
        "connection closed by local endpoint with code 65535: ä",
    );
    let zero = CloseInfo { code: Some(0), initiated_by_local: true, reason: String::new() };
    assert_eq!(zero.describe(), "connection closed by local endpoint with code 0");
    assert_eq!(transport("plain").describe(), "plain");
}

#[test]
fn tasks_are_counted_where_they_are_watched() {
    let (tasks, mut receiver) = watch::channel(0usize);
    receiver.borrow_and_update();

    publish_task_started(&tasks, &mut Journal::new());
    publish_task_started(&tasks, &mut Journal::new());
    assert!(receiver.has_changed().unwrap());
    assert_eq!(*receiver.borrow_and_update(), 2);
    publish_task_finished(&tasks, &mut Journal::new());
    assert_eq!(*receiver.borrow_and_update(), 1);
    publish_task_finished(&tasks, &mut Journal::new());
    publish_task_finished(&tasks, &mut Journal::new());
    assert!(receiver.has_changed().unwrap());
    assert_eq!(*receiver.borrow(), 0);
}
