use std::sync::atomic::{AtomicBool, Ordering};
use std::sync::Arc;

use fogws::channel::ReserveError;
use fogws::config::{ConnectionConfig, Timeout};
use fogws::driver::{
    begin_peer_close, budget_exhausted, check_outbound_message, claim_result, decide_admission,
    decide_send, expire_peer_close, explain_refusal, finish_reader_failure, finish_writer_failure,
    needs_watchdog, permit_count, settle_writer_close, Channels, ConnectionDriver, InboundEnvelope,
    OutboundCommand, ReaderContext, ReceiveGuard,
};
use fogws::error::{CloseInfo, DriverError};
use fogws::journal::Journal;
use fogws::message::{InboundMessage, Message};
use fogws::shutdown::ShutdownSignal;
use fogws::state::DriverState;
use tokio::runtime::{Builder, Runtime};
use tokio::sync::{mpsc, watch, Semaphore};
use tokio::task::AbortHandle;

const SECOND_RECEIVE: &str = "only one receive operation may be active per connection";

fn transport(message: &str) -> DriverError {
    DriverError::Transport(message.to_owned())
}

fn limit(message: &str) -> DriverError {
    DriverError::ResourceLimit(message.to_owned())
}

fn clean_close() -> DriverError {
    DriverError::ClosedOk(CloseInfo {
        code: Some(1000),
        initiated_by_local: false,
        reason: "done".to_owned(),
    })
}

fn config(max_queue: usize, max_message_size: usize, max_buffered_bytes: usize) -> ConnectionConfig {
    let timeout = Timeout { seconds: 1, nanoseconds: 0 };
    ConnectionConfig::new(max_queue, max_message_size, max_buffered_bytes, Some(timeout)).unwrap()
}

fn task(runtime: &Runtime) -> AbortHandle {
    runtime.spawn(std::future::pending::<()>()).abort_handle()
}

struct Bench {
    driver: ConnectionDriver,
    outbound: Option<mpsc::Receiver<OutboundCommand>>,
    budget: Arc<Semaphore>,
    closing: Arc<AtomicBool>,
    reader: AbortHandle,
    writer: AbortHandle,
    shutdown: watch::Receiver<ShutdownSignal>,
    state: watch::Sender<DriverState>,
    tasks: watch::Receiver<usize>,
    runtime: Runtime,
}

fn bench(config: ConnectionConfig) -> Bench {
    let runtime = Builder::new_current_thread().build().unwrap();
    let channels = Channels::open(&config, &mut Journal::new());
    let reader = task(&runtime);
    let writer = task(&runtime);
    let driver = ConnectionDriver::new(
        config,
        Arc::clone(&channels.closing),
        channels.outbound,
        Arc::clone(&channels.outbound_budget),
        channels.shutdown,
        channels.state.clone(),
        channels.tasks_remaining,
        reader.clone(),
        writer.clone(),
        &mut Journal::new(),
    );
    Bench {
        driver,
        outbound: Some(channels.outbound_receiver),
        budget: channels.outbound_budget,
        closing: channels.closing,
        reader,
        writer,
        shutdown: channels.shutdown_receiver,
        state: channels.state,
        tasks: channels.tasks_remaining_receiver,
        runtime,
    }
}

impl Bench {
    fn settle(&self) {
        self.runtime.block_on(tokio::task::yield_now());
    }
}

fn reader_context(runtime: &Runtime) -> ReaderContext {
    let config = config(1, 10, 10);
    let channels = Channels::open(&config, &mut Journal::new());
    ReaderContext {
        close_timeout: config.close_timeout,
        closing: channels.closing,
        control: channels.control,
        inbound: channels.inbound,
        inbound_budget: channels.inbound_budget,
        shutdown: channels.shutdown,
        shutdown_receiver: channels.shutdown_receiver,
        state: channels.state,
        writer_abort: task(runtime),
    }
}

#[test]
fn channels_have_the_bounds_of_the_limits() {
    let channels = Channels::open(&config(3, 10, 25), &mut Journal::new());

    assert_eq!(channels.inbound.max_capacity(), 3);
    assert_eq!(channels.outbound.max_capacity(), 3);
    assert_eq!(channels.control.max_capacity(), 4);
    assert_eq!(channels.inbound_budget.available_permits(), 25);
    assert_eq!(channels.outbound_budget.available_permits(), 25);
    assert_eq!(*channels.state_receiver.borrow(), DriverState::Open);
    assert_eq!(*channels.shutdown_receiver.borrow(), ShutdownSignal::Running);
    assert_eq!(*channels.tasks_remaining_receiver.borrow(), 0);
    assert!(!channels.closing.load(Ordering::Acquire));
}

#[test]
fn limits_without_a_queue_cannot_be_started() {
    let mut limits = config(1, 10, 12);
    assert!(limits.is_startable());
    limits.max_queue = 0;
    assert!(!limits.is_startable());
    limits.max_queue = Semaphore::MAX_PERMITS + 1;
    assert!(!limits.is_startable());
    limits.max_queue = Semaphore::MAX_PERMITS;
    assert!(limits.is_startable());
    limits.max_buffered_bytes = Semaphore::MAX_PERMITS + 1;
    assert!(!limits.is_startable());
}

#[test]
fn an_admitted_message_reaches_the_writer_with_its_permits() {
    let mut bench = bench(config(2, 10, 12));

    let admission = bench.driver.try_admit_outbound(5, &mut Journal::new()).ok().unwrap();
    assert_eq!(bench.budget.available_permits(), 7);
    let reply = bench.driver.send_admitted(admission, Message::Text("hello".to_owned()), &mut Journal::new());
    let reply = reply.ok().unwrap();

    let command = bench.outbound.as_mut().unwrap().try_recv().ok().unwrap();
    assert_eq!(command.message, Message::Text("hello".to_owned()));
    assert_eq!(command.permit.num_permits(), 5);
    let (message, waiting) = command.take();
    assert_eq!(message, Message::Text("hello".to_owned()));
    assert_eq!(bench.budget.available_permits(), 7);
    waiting.answer(Ok(()), &mut Journal::new());
    assert_eq!(bench.budget.available_permits(), 12);
    let reply = bench.runtime.block_on(reply).ok();
    assert_eq!(bench.driver.send_result(reply, &mut Journal::new()), Ok(()));
}

#[test]
fn an_oversized_message_is_refused() {
    let bench = bench(config(1, 10, 12));

    assert_eq!(
        bench.driver.try_admit_outbound(11, &mut Journal::new()).err(),
        Some(limit("message contains 11 bytes; maximum is 10")),
    );
    assert_eq!(
        bench.driver.validate_outbound_message(11, &mut Journal::new()),
        Err(limit("message contains 11 bytes; maximum is 10")),
    );
    assert_eq!(bench.driver.validate_outbound_message(10, &mut Journal::new()), Ok(()));
    assert_eq!(bench.budget.available_permits(), 12);
}

#[test]
fn an_exhausted_byte_budget_refuses_at_once() {
    let bench = bench(config(4, 10, 12));

    let admission = bench.driver.try_admit_outbound(10, &mut Journal::new()).ok().unwrap();
    assert_eq!(
        bench.driver.try_admit_outbound(3, &mut Journal::new()).err(),
        Some(limit("outbound byte budget is exhausted; retry after an accepted send completes")),
    );
    drop(admission);
    assert!(bench.driver.try_admit_outbound(3, &mut Journal::new()).is_ok());
}

#[test]
fn a_full_queue_refuses_at_once_and_keeps_no_bytes() {
    let bench = bench(config(1, 10, 12));

    let admission = bench.driver.try_admit_outbound(2, &mut Journal::new()).ok().unwrap();
    assert_eq!(
        bench.driver.try_admit_outbound(2, &mut Journal::new()).err(),
        Some(limit("outbound item queue is full; retry after an accepted send completes")),
    );
    assert_eq!(bench.budget.available_permits(), 10);
    drop(admission);
    assert_eq!(bench.budget.available_permits(), 12);
}

#[test]
fn a_gone_writer_is_reported_with_the_outcome() {
    let mut bench = bench(config(1, 10, 12));
    bench.outbound = None;

    assert_eq!(
        bench.driver.try_admit_outbound(1, &mut Journal::new()).err(),
        Some(transport("connection driver stopped unexpectedly")),
    );
    assert_eq!(
        explain_refusal(ReserveError::Closed, &DriverState::Closed(transport("lost"))),
        transport("lost"),
    );
    assert_eq!(
        explain_refusal(ReserveError::Full, &DriverState::Closed(transport("lost"))),
        limit("outbound item queue is full; retry after an accepted send completes"),
    );
}

#[test]
fn a_connection_that_is_not_open_admits_nothing() {
    let bench = bench(config(1, 10, 12));

    bench.state.send_replace(DriverState::PeerClosed(clean_close()));
    assert_eq!(bench.driver.try_admit_outbound(99, &mut Journal::new()).err(), Some(clean_close()));
    assert_eq!(bench.driver.validate_outbound_message(1, &mut Journal::new()), Err(clean_close()));
    assert_eq!(bench.driver.ensure_open(&mut Journal::new()), Err(clean_close()));
    assert_eq!(
        check_outbound_message(&DriverState::Closing, 1, 10),
        Err(DriverError::ClosedOk(CloseInfo::local_normal())),
    );
}

#[test]
fn a_changed_message_is_refused() {
    let bench = bench(config(1, 10, 12));

    let admission = bench.driver.try_admit_outbound(5, &mut Journal::new()).ok().unwrap();
    let reply = bench.driver.send_admitted(admission, Message::Binary(vec![1, 2]), &mut Journal::new());

    assert_eq!(
        reply.err(),
        Some(transport("outbound message changed after capacity admission")),
    );
    assert_eq!(bench.budget.available_permits(), 12);
    assert!(bench.driver.try_admit_outbound(1, &mut Journal::new()).is_ok());
}

#[test]
fn a_send_without_reply_reports_the_outcome() {
    let bench = bench(config(1, 10, 12));

    assert_eq!(
        bench.driver.send_result(Some(Err(transport("broken"))), &mut Journal::new()),
        Err(transport("broken")),
    );
    bench.state.send_replace(DriverState::Closed(clean_close()));
    assert_eq!(bench.driver.send_result(None, &mut Journal::new()), Err(clean_close()));
    assert_eq!(bench.driver.terminal_error(&mut Journal::new()), clean_close());
}

#[test]
fn a_receive_gets_the_message_or_the_outcome() {
    let bench = bench(config(1, 10, 12));
    let pool = Arc::new(Semaphore::new(3));
    let permit = Arc::clone(&pool).try_acquire_many_owned(3).unwrap();
    let envelope = InboundEnvelope { message: InboundMessage::Binary(vec![1, 2, 3]), permit };

    assert_eq!(
        bench.driver.received(Some(envelope), &mut Journal::new()),
        Ok(InboundMessage::Binary(vec![1, 2, 3])),
    );
    assert_eq!(pool.available_permits(), 3);
    bench.state.send_replace(DriverState::PeerClosed(clean_close()));
    assert_eq!(bench.driver.received(None, &mut Journal::new()), Err(clean_close()));
}

#[test]
fn only_one_receive_is_active() {
    let bench = bench(config(1, 10, 12));

    let guard = bench.driver.claim_receive(&mut Journal::new()).ok().unwrap();
    assert_eq!(
        bench.driver.claim_receive(&mut Journal::new()).err(),
        Some(DriverError::Concurrency(SECOND_RECEIVE.to_owned())),
    );
    guard.release(&mut Journal::new());
    assert!(bench.driver.claim_receive(&mut Journal::new()).is_ok());

    let active = Arc::new(AtomicBool::new(true));
    assert!(ReceiveGuard::claim(Arc::clone(&active), &mut Journal::new()).is_err());
    active.store(false, Ordering::Release);
    assert!(ReceiveGuard::claim(Arc::clone(&active), &mut Journal::new()).is_ok());
    assert!(active.load(Ordering::Acquire));

    assert_eq!(claim_result(Ok(false)), Ok(()));
    assert_eq!(
        claim_result(Err(true)),
        Err(DriverError::Concurrency(SECOND_RECEIVE.to_owned())),
    );
}

#[test]
fn the_first_close_starts_the_handshake_and_the_watchdog() {
    let bench = bench(config(1, 10, 12));

    assert!(bench.driver.begin_close(&mut Journal::new()));
    assert_eq!(*bench.state.borrow(), DriverState::Closing);
    assert_eq!(*bench.shutdown.borrow(), ShutdownSignal::LocalClose);
    assert!(bench.closing.load(Ordering::Acquire));
    assert_eq!(*bench.tasks.borrow(), 1);
    assert!(!bench.driver.begin_close(&mut Journal::new()));
    assert_eq!(*bench.tasks.borrow(), 1);
    assert_eq!(*bench.state.borrow(), DriverState::Closing);
    assert_eq!(*bench.shutdown.borrow(), ShutdownSignal::LocalClose);
    assert_eq!(
        bench.driver.try_admit_outbound(1, &mut Journal::new()).err(),
        Some(DriverError::ClosedOk(CloseInfo::local_normal())),
    );
}

#[test]
fn a_close_after_the_peer_closed_starts_nothing() {
    let bench = bench(config(1, 10, 12));
    bench.state.send_replace(DriverState::PeerClosed(clean_close()));

    assert!(!bench.driver.begin_close(&mut Journal::new()));
    assert_eq!(*bench.state.borrow(), DriverState::PeerClosed(clean_close()));
    assert_eq!(*bench.shutdown.borrow(), ShutdownSignal::Running);
}

#[test]
fn an_abandoned_connection_ends_and_stops_its_tasks() {
    let bench = bench(config(1, 10, 12));

    assert!(bench.driver.abort(&mut Journal::new()));
    assert_eq!(
        *bench.state.borrow(),
        DriverState::Closed(transport("connection was abandoned")),
    );
    assert_eq!(*bench.shutdown.borrow(), ShutdownSignal::Abort);
    assert!(bench.closing.load(Ordering::Acquire));
    assert!(!bench.driver.abort(&mut Journal::new()));
    bench.settle();
    assert!(bench.reader.is_finished());
    assert!(bench.writer.is_finished());
}

#[test]
fn an_expired_close_stops_the_tasks() {
    let bench = bench(config(1, 10, 12));
    bench.driver.begin_close(&mut Journal::new());

    assert!(bench.driver.expire_close(&mut Journal::new()));
    assert_eq!(
        *bench.state.borrow(),
        DriverState::Closed(transport("WebSocket close timed out")),
    );
    bench.settle();
    assert!(bench.reader.is_finished());
    assert!(bench.writer.is_finished());
}

#[test]
fn a_peer_close_is_announced_then_settled_by_the_writer() {
    let runtime = Builder::new_current_thread().build().unwrap();
    let context = reader_context(&runtime);

    assert!(begin_peer_close(&context, &clean_close(), &mut Journal::new()));
    assert_eq!(*context.state.borrow(), DriverState::PeerClosed(clean_close()));
    assert_eq!(*context.shutdown_receiver.borrow(), ShutdownSignal::PeerClose);
    assert_eq!(settle_writer_close(&context.state, &mut Journal::new()), Some(clean_close()));
    assert_eq!(*context.state.borrow(), DriverState::Closed(clean_close()));
    assert_eq!(settle_writer_close(&context.state, &mut Journal::new()), None);
    assert!(!expire_peer_close(&context, &transport("late"), &mut Journal::new()));
    assert_eq!(*context.state.borrow(), DriverState::Closed(clean_close()));
}

#[test]
fn a_peer_close_that_stalls_ends_with_the_peer_outcome() {
    let runtime = Builder::new_current_thread().build().unwrap();
    let context = reader_context(&runtime);
    begin_peer_close(&context, &clean_close(), &mut Journal::new());

    assert!(expire_peer_close(&context, &clean_close(), &mut Journal::new()));
    assert_eq!(*context.state.borrow(), DriverState::Closed(clean_close()));
    runtime.block_on(tokio::task::yield_now());
    assert!(context.writer_abort.is_finished());
}

#[test]
fn a_reader_failure_stops_the_writer() {
    let runtime = Builder::new_current_thread().build().unwrap();
    let context = reader_context(&runtime);

    assert!(finish_reader_failure(&context, &transport("WebSocket receive failed: x"), &mut Journal::new()));
    assert_eq!(
        *context.state.borrow(),
        DriverState::Closed(transport("WebSocket receive failed: x")),
    );
    assert_eq!(*context.shutdown_receiver.borrow(), ShutdownSignal::Abort);
    runtime.block_on(tokio::task::yield_now());
    assert!(context.writer_abort.is_finished());
}

#[test]
fn a_writer_failure_reports_the_peer_outcome() {
    let (shutdown, signals) = watch::channel(ShutdownSignal::PeerClose);
    let (state, _receiver) = watch::channel(DriverState::PeerClosed(clean_close()));

    let terminal = finish_writer_failure(&state, &shutdown, &transport("pipe"), &mut Journal::new());

    assert_eq!(terminal, clean_close());
    assert_eq!(*state.borrow(), DriverState::Closed(clean_close()));
    assert_eq!(*signals.borrow(), ShutdownSignal::Abort);
}

#[test]
fn a_message_needs_as_many_permits_as_bytes() {
    assert_eq!(permit_count(&DriverState::Open, 0, 10), Ok(0));
    assert_eq!(permit_count(&DriverState::Open, 10, 10), Ok(10));
    assert_eq!(
        permit_count(&DriverState::Open, 11, 10),
        Err(limit("message contains 11 bytes; maximum is 10")),
    );
    let largest = u32::MAX as usize;
    assert_eq!(permit_count(&DriverState::Open, largest, usize::MAX), Ok(u32::MAX));
    assert_eq!(
        permit_count(&DriverState::Open, largest + 1, usize::MAX),
        Err(limit("message byte count exceeds the supported budget")),
    );
    assert_eq!(
        permit_count(&DriverState::PeerClosed(clean_close()), 1, 10),
        Err(clean_close()),
    );
    assert_eq!(
        budget_exhausted(),
        limit("outbound byte budget is exhausted; retry after an accepted send completes"),
    );
}

#[test]
fn the_decision_on_a_message_follows_from_what_was_found() {
    let open = DriverState::Open;
    let lost = DriverState::Closed(transport("lost"));
    let exhausted =
        limit("outbound byte budget is exhausted; retry after an accepted send completes");
    let full = limit("outbound item queue is full; retry after an accepted send completes");

    assert_eq!(decide_admission(&open, 5, 10, true, Ok(()), &open), Ok(()));
    assert_eq!(
        decide_admission(&open, 11, 10, true, Ok(()), &open),
        Err(limit("message contains 11 bytes; maximum is 10")),
    );
    assert_eq!(
        decide_admission(&open, 5, 10, false, Err(ReserveError::Full), &open),
        Err(exhausted),
    );
    assert_eq!(decide_admission(&open, 5, 10, true, Err(ReserveError::Full), &lost), Err(full));
    assert_eq!(
        decide_admission(&open, 5, 10, true, Err(ReserveError::Closed), &lost),
        Err(transport("lost")),
    );
    assert_eq!(decide_admission(&lost, 5, 10, true, Ok(()), &open), Err(transport("lost")));

    assert!(needs_watchdog(false, true, false));
    assert!(!needs_watchdog(true, true, false));
    assert!(!needs_watchdog(false, false, false));
    assert!(!needs_watchdog(false, true, true));
}

#[test]
fn admissions_share_the_byte_budget() {
    let bench = bench(config(4, 1024, 1024));

    let first = bench.driver.try_admit_outbound(1000, &mut Journal::new()).ok().unwrap();
    assert_eq!(
        bench.driver.try_admit_outbound(25, &mut Journal::new()).err(),
        Some(limit("outbound byte budget is exhausted; retry after an accepted send completes")),
    );
    let second = bench.driver.try_admit_outbound(24, &mut Journal::new()).ok().unwrap();
    drop(first);
    second.discard(&mut Journal::new());
    assert_eq!(bench.budget.available_permits(), 1024);
    assert!(bench.driver.try_admit_outbound(1024, &mut Journal::new()).is_ok());
}

#[test]
fn an_admission_that_is_given_up_frees_its_place() {
    let bench = bench(config(1, 10, 12));

    let admission = bench.driver.try_admit_outbound(2, &mut Journal::new()).ok().unwrap();
    assert!(bench.driver.try_admit_outbound(2, &mut Journal::new()).is_err());
    admission.discard(&mut Journal::new());
    assert!(bench.driver.try_admit_outbound(2, &mut Journal::new()).is_ok());
}

#[test]
fn an_admitted_message_on_an_ended_connection_is_answered_with_the_outcome() {
    let mut bench = bench(config(1, 10, 12));

    let admission = bench.driver.try_admit_outbound(5, &mut Journal::new()).ok().unwrap();
    bench.state.send_replace(DriverState::Closed(clean_close()));
    let result = bench.driver.send_admitted(
        admission,
        Message::Text("hello".to_owned()),
        &mut Journal::new(),
    );

    assert_eq!(result.err(), Some(clean_close()));
    assert_eq!(bench.budget.available_permits(), 12);
    assert!(bench.outbound.as_mut().unwrap().try_recv().is_err());
    assert_eq!(decide_send(5, 5, &DriverState::Closing), Ok(()));
    assert_eq!(decide_send(5, 5, &DriverState::PeerClosed(clean_close())), Ok(()));
    assert_eq!(decide_send(5, 5, &DriverState::Closed(clean_close())), Err(clean_close()));
    assert_eq!(
        decide_send(4, 5, &DriverState::Closed(clean_close())),
        Err(transport("outbound message changed after capacity admission")),
    );
}

#[test]
fn whoever_waits_is_woken_by_every_change() {
    let mut bench = bench(config(1, 10, 12));
    let mut state = bench.state.subscribe();
    state.borrow_and_update();
    bench.shutdown.borrow_and_update();
    bench.tasks.borrow_and_update();

    bench.driver.begin_close(&mut Journal::new());
    assert!(state.has_changed().unwrap());
    assert!(bench.shutdown.has_changed().unwrap());
    assert!(bench.tasks.has_changed().unwrap());
    state.borrow_and_update();
    bench.shutdown.borrow_and_update();
    bench.driver.begin_close(&mut Journal::new());
    assert!(!state.has_changed().unwrap());
    assert!(!bench.shutdown.has_changed().unwrap());
    bench.driver.abort(&mut Journal::new());
    assert!(state.has_changed().unwrap());
    assert!(bench.shutdown.has_changed().unwrap());

    let (shutdown, mut signals) = watch::channel(ShutdownSignal::Running);
    let (shared, mut observer) = watch::channel(DriverState::Open);
    signals.borrow_and_update();
    observer.borrow_and_update();
    finish_writer_failure(&shared, &shutdown, &transport("pipe"), &mut Journal::new());
    assert!(signals.has_changed().unwrap());
    assert!(observer.has_changed().unwrap());
}

#[test]
fn a_failed_send_is_answered_with_the_outcome() {
    let mut bench = bench(config(1, 10, 12));
    let admission = bench.driver.try_admit_outbound(2, &mut Journal::new()).ok().unwrap();
    let reply = bench
        .driver
        .send_admitted(admission, Message::Binary(vec![1, 2]), &mut Journal::new())
        .ok()
        .unwrap();
    let command = bench.outbound.as_mut().unwrap().try_recv().ok().unwrap();
    let (_message, waiting) = command.take();

    waiting.answer(Err(clean_close()), &mut Journal::new());
    bench.state.send_replace(DriverState::Closed(clean_close()));

    let reply = bench.runtime.block_on(reply).ok();
    assert_eq!(bench.driver.send_result(reply, &mut Journal::new()), Err(clean_close()));
    assert_eq!(bench.driver.received(None, &mut Journal::new()), Err(clean_close()));
    assert_eq!(bench.budget.available_permits(), 12);
}
