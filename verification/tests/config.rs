use std::time::Duration;

use fogws::config::{
    ConnectionConfig, Timeout, DEFAULT_CLOSE_TIMEOUT_SECONDS, DEFAULT_MAX_BUFFERED_BYTES,
    DEFAULT_MAX_MESSAGE_SIZE, DEFAULT_MAX_QUEUE, MAX_CONTROL_PAYLOAD_BYTES, MAX_FRAME_HEADER_BYTES,
    MAX_QUEUE_CAPACITY, READ_BUFFER_BYTES, WRITE_BUFFER_BYTES,
};
use fogws::error::DriverError;
use tokio::sync::Semaphore;

fn timeout(seconds: f64) -> Option<Timeout> {
    Duration::try_from_secs_f64(seconds)
        .ok()
        .map(|duration| Timeout {
            seconds: duration.as_secs(),
            nanoseconds: duration.subsec_nanos(),
        })
}

fn limit_error(
    max_queue: usize,
    max_message_size: usize,
    max_buffered_bytes: usize,
    close_timeout: Option<Timeout>,
) -> String {
    match ConnectionConfig::new(max_queue, max_message_size, max_buffered_bytes, close_timeout) {
        Err(DriverError::ResourceLimit(message)) => message,
        other => panic!("expected a resource limit, got {other:?}"),
    }
}

#[test]
fn defaults_are_finite_and_cross_field_safe() {
    let config = ConnectionConfig::default();
    let websocket = config.websocket_config();

    assert_eq!(config.max_queue, DEFAULT_MAX_QUEUE);
    assert_eq!(config.max_buffered_bytes, DEFAULT_MAX_BUFFERED_BYTES);
    assert_eq!(websocket.read_buffer_size, READ_BUFFER_BYTES);
    assert_eq!(websocket.write_buffer_size, WRITE_BUFFER_BYTES);
    assert_eq!(
        websocket.max_write_buffer_size,
        DEFAULT_MAX_BUFFERED_BYTES + MAX_FRAME_HEADER_BYTES,
    );
    assert_eq!(websocket.max_message_size, Some(DEFAULT_MAX_MESSAGE_SIZE));
    assert_eq!(websocket.max_frame_size, Some(DEFAULT_MAX_MESSAGE_SIZE));
}

#[test]
fn rejects_a_byte_budget_smaller_than_one_message() {
    let result = ConnectionConfig::new(
        DEFAULT_MAX_QUEUE,
        2,
        1,
        timeout(DEFAULT_CLOSE_TIMEOUT_SECONDS as f64),
    );

    assert!(matches!(result, Err(DriverError::ResourceLimit(_))));
}

#[test]
fn rejects_queue_capacity_above_tokio_limit() {
    let result = ConnectionConfig::new(
        MAX_QUEUE_CAPACITY + 1,
        1,
        1,
        timeout(DEFAULT_CLOSE_TIMEOUT_SECONDS as f64),
    );

    assert!(matches!(result, Err(DriverError::ResourceLimit(_))));
}

#[test]
fn queue_capacity_is_the_limit_of_a_semaphore() {
    assert_eq!(MAX_QUEUE_CAPACITY, Semaphore::MAX_PERMITS);
}

#[test]
fn documented_defaults_hold() {
    let config = ConnectionConfig::default();

    assert_eq!(config.max_queue, 16);
    assert_eq!(config.max_message_size, 1024 * 1024);
    assert_eq!(config.max_buffered_bytes, 1024 * 1024);
    assert_eq!(config.close_timeout, Timeout { seconds: 10, nanoseconds: 0 });
    let websocket = config.websocket_config();
    assert_eq!(websocket.read_buffer_size, 16 * 1024);
    assert_eq!(websocket.write_buffer_size, 0);
    assert!(!websocket.accept_unmasked_frames);
}

#[test]
fn every_broken_limit_is_reported() {
    let valid = timeout(1.0);

    assert_eq!(limit_error(0, 0, 0, None), "max_queue must be greater than zero");
    assert_eq!(
        limit_error(MAX_QUEUE_CAPACITY + 1, 0, 0, None),
        format!("max_queue must not exceed {}", Semaphore::MAX_PERMITS),
    );
    assert_eq!(limit_error(1, 0, 0, valid), "max_message_size must be greater than zero");
    assert_eq!(
        limit_error(1, 2, 1, valid),
        "max_buffered_bytes must be at least max_message_size",
    );
    assert_eq!(
        limit_error(1, 1, u32::MAX as usize + 1, valid),
        "max_buffered_bytes must not exceed 4294967295",
    );
    for seconds in [0.0, -1.0, f64::NAN, f64::INFINITY] {
        assert_eq!(
            limit_error(1, 1, 1, timeout(seconds)),
            "close_timeout must be a finite number greater than zero",
        );
    }
}

#[test]
fn limits_at_their_bounds_are_accepted() {
    let config =
        ConnectionConfig::new(MAX_QUEUE_CAPACITY, 1, u32::MAX as usize, timeout(0.05)).unwrap();

    assert_eq!(config.max_queue, MAX_QUEUE_CAPACITY);
    assert_eq!(config.max_message_size, 1);
    assert_eq!(config.max_buffered_bytes, u32::MAX as usize);
    assert_eq!(config.close_timeout, Timeout { seconds: 0, nanoseconds: 50_000_000 });
}

#[test]
fn small_write_buffers_hold_a_control_frame() {
    let config = ConnectionConfig::new(1, 7, 100, timeout(1.0)).unwrap();
    let websocket = config.websocket_config();

    assert_eq!(
        websocket.max_write_buffer_size,
        MAX_CONTROL_PAYLOAD_BYTES + MAX_FRAME_HEADER_BYTES,
    );
    assert_eq!(websocket.max_message_size, Some(7));
    assert_eq!(websocket.max_frame_size, Some(7));
}
