//! The limits of one connection.

use tokio_tungstenite::tungstenite::protocol;
use vstd::prelude::*;

use crate::channel::max_permits;
use crate::error::{DriverError, DriverErrorView};
use crate::text::{decimal_text, join};

verus! {

pub const DEFAULT_CLOSE_TIMEOUT_SECONDS: u64 = 10;

pub const DEFAULT_MAX_BUFFERED_BYTES: usize = 1_048_576;

pub const DEFAULT_MAX_MESSAGE_SIZE: usize = 1_048_576;

pub const DEFAULT_MAX_QUEUE: usize = 16;

pub const MAX_CONTROL_PAYLOAD_BYTES: usize = 125;

pub const MAX_FRAME_HEADER_BYTES: usize = 14;

/// The longest queue: as many places as a semaphore has permits.
pub const MAX_QUEUE_CAPACITY: usize = usize::MAX / 8;

pub const READ_BUFFER_BYTES: usize = 16_384;

pub const WRITE_BUFFER_BYTES: usize = 0;

/// A span of time: whole seconds and the nanoseconds beyond them.
#[derive(Clone, Copy, Debug, Eq, PartialEq, Structural)]
pub struct Timeout {
    pub seconds: u64,
    pub nanoseconds: u32,
}

impl Timeout {
    pub open spec fn spec_is_zero(self) -> bool {
        self.seconds == 0 && self.nanoseconds == 0
    }

    /// Whether the span is empty.
    pub fn is_zero(&self) -> (zero: bool)
        ensures
            zero == self.spec_is_zero(),
    {
        self.seconds == 0 && self.nanoseconds == 0
    }
}

/// The limits of one connection.
#[derive(Clone, Copy, Debug)]
pub struct ConnectionConfig {
    pub close_timeout: Timeout,
    pub max_buffered_bytes: usize,
    pub max_message_size: usize,
    pub max_queue: usize,
}

/// The first limit that the given values break, as it is reported. The timeout
/// is absent where it is no representable span of time.
pub open spec fn broken_limit(
    max_queue: usize,
    max_message_size: usize,
    max_buffered_bytes: usize,
    close_timeout: Option<Timeout>,
) -> Option<Seq<char>> {
    if max_queue == 0 {
        Some("max_queue must be greater than zero"@)
    } else if max_queue > MAX_QUEUE_CAPACITY {
        Some("max_queue must not exceed "@ + crate::text::decimal(MAX_QUEUE_CAPACITY as nat))
    } else if max_message_size == 0 {
        Some("max_message_size must be greater than zero"@)
    } else if max_buffered_bytes < max_message_size {
        Some("max_buffered_bytes must be at least max_message_size"@)
    } else if max_buffered_bytes > u32::MAX {
        Some("max_buffered_bytes must not exceed "@ + crate::text::decimal(u32::MAX as nat))
    } else if close_timeout is None || close_timeout->0.spec_is_zero() {
        Some("close_timeout must be a finite number greater than zero"@)
    } else {
        None
    }
}

impl ConnectionConfig {
    /// Whether every limit is finite and the limits fit each other.
    pub open spec fn valid(self) -> bool {
        &&& 0 < self.max_queue <= MAX_QUEUE_CAPACITY
        &&& 0 < self.max_message_size <= self.max_buffered_bytes <= u32::MAX
        &&& !self.close_timeout.spec_is_zero()
    }

    /// Checks the limits of a connection.
    pub fn new(
        max_queue: usize,
        max_message_size: usize,
        max_buffered_bytes: usize,
        close_timeout: Option<Timeout>,
    ) -> (result: Result<Self, DriverError>)
        ensures
            match result {
                Ok(config) => {
                    &&& broken_limit(
                        max_queue,
                        max_message_size,
                        max_buffered_bytes,
                        close_timeout,
                    ) is None
                    &&& config.valid()
                    &&& config.max_queue == max_queue
                    &&& config.max_message_size == max_message_size
                    &&& config.max_buffered_bytes == max_buffered_bytes
                    &&& close_timeout == Some(config.close_timeout)
                },
                Err(error) => {
                    &&& broken_limit(
                        max_queue,
                        max_message_size,
                        max_buffered_bytes,
                        close_timeout,
                    ) matches Some(message)
                    &&& error@ == DriverErrorView::ResourceLimit(message)
                },
            },
    {
        if max_queue == 0 {
            return Err(
                DriverError::ResourceLimit("max_queue must be greater than zero".to_owned()),
            );
        }
        let capacity: usize = max_permits();
        if max_queue > capacity {
            let limit = decimal_text(capacity);
            return Err(
                DriverError::ResourceLimit(join("max_queue must not exceed ", limit.as_str())),
            );
        }
        if max_message_size == 0 {
            return Err(
                DriverError::ResourceLimit("max_message_size must be greater than zero".to_owned()),
            );
        }
        if max_buffered_bytes < max_message_size {
            return Err(
                DriverError::ResourceLimit(
                    "max_buffered_bytes must be at least max_message_size".to_owned(),
                ),
            );
        }
        if max_buffered_bytes > u32::MAX as usize {
            let limit = decimal_text(u32::MAX as usize);
            return Err(
                DriverError::ResourceLimit(
                    join("max_buffered_bytes must not exceed ", limit.as_str()),
                ),
            );
        }
        match close_timeout {
            Some(close_timeout) if !close_timeout.is_zero() => Ok(
                ConnectionConfig { close_timeout, max_buffered_bytes, max_message_size, max_queue },
            ),
            _ => Err(
                DriverError::ResourceLimit(
                    "close_timeout must be a finite number greater than zero".to_owned(),
                ),
            ),
        }
    }

    /// The limits as tungstenite takes them: a message fits in one frame, and the
    /// write buffer holds the payload budget, or the largest control payload, and
    /// one frame header.
    pub fn websocket_config(self) -> (websocket: WebSocketConfig)
        requires
            self.max_buffered_bytes + MAX_FRAME_HEADER_BYTES <= usize::MAX,
        ensures
            websocket == self.spec_websocket_config(),
    {
        let payload: usize = if self.max_buffered_bytes > MAX_CONTROL_PAYLOAD_BYTES {
            self.max_buffered_bytes
        } else {
            MAX_CONTROL_PAYLOAD_BYTES
        };
        configure_websocket(
            READ_BUFFER_BYTES,
            WRITE_BUFFER_BYTES,
            payload + MAX_FRAME_HEADER_BYTES,
            Some(self.max_message_size),
            Some(self.max_message_size),
        )
    }

    /// What [`ConnectionConfig::websocket_config`] gives.
    pub open spec fn spec_websocket_config(self) -> WebSocketConfig {
        let payload = if self.max_buffered_bytes > MAX_CONTROL_PAYLOAD_BYTES {
            self.max_buffered_bytes
        } else {
            MAX_CONTROL_PAYLOAD_BYTES
        };
        WebSocketConfig {
            read_buffer_size: READ_BUFFER_BYTES,
            write_buffer_size: WRITE_BUFFER_BYTES,
            max_write_buffer_size: (payload + MAX_FRAME_HEADER_BYTES) as usize,
            max_message_size: Some(self.max_message_size),
            max_frame_size: Some(self.max_message_size),
            accept_unmasked_frames: false,
        }
    }

    /// The limits of a connection that asks for no others.
    pub open spec fn spec_default() -> ConnectionConfig {
        ConnectionConfig {
            close_timeout: Timeout { seconds: DEFAULT_CLOSE_TIMEOUT_SECONDS, nanoseconds: 0 },
            max_buffered_bytes: DEFAULT_MAX_BUFFERED_BYTES,
            max_message_size: DEFAULT_MAX_MESSAGE_SIZE,
            max_queue: DEFAULT_MAX_QUEUE,
        }
    }
}

impl Default for ConnectionConfig {
    fn default() -> (config: Self)
        ensures
            config == ConnectionConfig::spec_default(),
    {
        ConnectionConfig {
            close_timeout: Timeout { seconds: DEFAULT_CLOSE_TIMEOUT_SECONDS, nanoseconds: 0 },
            max_buffered_bytes: DEFAULT_MAX_BUFFERED_BYTES,
            max_message_size: DEFAULT_MAX_MESSAGE_SIZE,
            max_queue: DEFAULT_MAX_QUEUE,
        }
    }
}

/// The settings of tungstenite's `WebSocketConfig`.
#[derive(Clone, Copy, Debug, Eq, PartialEq, Structural)]
pub struct WebSocketConfig {
    pub read_buffer_size: usize,
    pub write_buffer_size: usize,
    pub max_write_buffer_size: usize,
    pub max_message_size: Option<usize>,
    pub max_frame_size: Option<usize>,
    pub accept_unmasked_frames: bool,
}

/// tungstenite's `WebSocketConfig::default` and its setters: every setting is as
/// given, and unmasked frames, which have no setting here, are not accepted.
#[verifier::external_body]
fn configure_websocket(
    read_buffer_size: usize,
    write_buffer_size: usize,
    max_write_buffer_size: usize,
    max_message_size: Option<usize>,
    max_frame_size: Option<usize>,
) -> (websocket: WebSocketConfig)
    ensures
        websocket == (WebSocketConfig {
            read_buffer_size,
            write_buffer_size,
            max_write_buffer_size,
            max_message_size,
            max_frame_size,
            accept_unmasked_frames: false,
        }),
{
    let config = protocol::WebSocketConfig::default()
        .read_buffer_size(read_buffer_size)
        .write_buffer_size(write_buffer_size)
        .max_write_buffer_size(max_write_buffer_size)
        .max_message_size(max_message_size)
        .max_frame_size(max_frame_size);
    WebSocketConfig {
        read_buffer_size: config.read_buffer_size,
        write_buffer_size: config.write_buffer_size,
        max_write_buffer_size: config.max_write_buffer_size,
        max_message_size: config.max_message_size,
        max_frame_size: config.max_frame_size,
        accept_unmasked_frames: config.accept_unmasked_frames,
    }
}

/// The defaults keep every rule for limits.
pub proof fn defaults_are_valid()
    ensures
        ConnectionConfig::spec_default().valid(),
        broken_limit(
            DEFAULT_MAX_QUEUE,
            DEFAULT_MAX_MESSAGE_SIZE,
            DEFAULT_MAX_BUFFERED_BYTES,
            Some(ConnectionConfig::spec_default().close_timeout),
        ) is None,
{
}

/// The write buffer of valid limits is one that tungstenite accepts, and it holds
/// the largest message, or the largest control payload, with a frame header.
pub proof fn write_buffer_holds_any_frame(config: ConnectionConfig)
    requires
        config.valid(),
        config.max_buffered_bytes + MAX_FRAME_HEADER_BYTES <= usize::MAX,
    ensures
        ({
            let websocket = config.spec_websocket_config();
            &&& websocket.max_write_buffer_size > websocket.write_buffer_size
            &&& websocket.max_write_buffer_size >= config.max_message_size + MAX_FRAME_HEADER_BYTES
            &&& websocket.max_write_buffer_size >= MAX_CONTROL_PAYLOAD_BYTES
                + MAX_FRAME_HEADER_BYTES
        }),
{
}

/// Limits are accepted exactly when the limits they make are valid.
pub proof fn accepted_limits_are_the_valid_ones(config: ConnectionConfig)
    ensures
        broken_limit(
            config.max_queue,
            config.max_message_size,
            config.max_buffered_bytes,
            Some(config.close_timeout),
        ) is None <==> config.valid(),
{
}

/// Limits are accepted exactly when each is finite, none is zero, and a message fits
/// in the budget of bytes; the first that is not so is the one reported.
pub proof fn limits_are_accepted_exactly(
    max_queue: usize,
    max_message_size: usize,
    max_buffered_bytes: usize,
    close_timeout: Option<Timeout>,
)
    ensures
        ({
            let broken = broken_limit(
                max_queue,
                max_message_size,
                max_buffered_bytes,
                close_timeout,
            );
            let queue_fits = 1 <= max_queue <= usize::MAX / 8;
            let bytes_fit = 1 <= max_message_size <= max_buffered_bytes <= 0xffff_ffff;
            let waits = close_timeout matches Some(span) && (span.seconds >= 1 || span.nanoseconds
                >= 1);
            &&& broken is None <==> queue_fits && bytes_fit && waits
            &&& max_queue == 0 ==> broken == Some("max_queue must be greater than zero"@)
            &&& max_queue > usize::MAX / 8 ==> broken == Some(
                "max_queue must not exceed "@ + crate::text::decimal((usize::MAX / 8) as nat),
            )
            &&& queue_fits && max_message_size == 0 ==> broken == Some(
                "max_message_size must be greater than zero"@,
            )
            &&& queue_fits && max_message_size > 0 && max_buffered_bytes < max_message_size
                ==> broken == Some("max_buffered_bytes must be at least max_message_size"@)
            &&& queue_fits && 0 < max_message_size <= max_buffered_bytes && max_buffered_bytes
                > 0xffff_ffff ==> broken == Some(
                "max_buffered_bytes must not exceed "@ + crate::text::decimal(0xffff_ffff),
            )
            &&& queue_fits && bytes_fit && !waits ==> broken == Some(
                "close_timeout must be a finite number greater than zero"@,
            )
        }),
{
}

/// Valid limits are those that are accepted.
pub proof fn valid_limits_are_finite_and_fit(config: ConnectionConfig)
    ensures
        config.valid() <==> {
            &&& 1 <= config.max_queue <= usize::MAX / 8
            &&& 1 <= config.max_message_size <= config.max_buffered_bytes <= 0xffff_ffff
            &&& config.close_timeout.seconds >= 1 || config.close_timeout.nanoseconds >= 1
        },
{
}

/// A span of time is empty exactly when it has neither seconds nor nanoseconds.
pub proof fn empty_spans_have_no_time(span: Timeout)
    ensures
        span.spec_is_zero() <==> span.seconds + span.nanoseconds == 0,
{
}

/// The socket takes exactly the messages, and the frames, within the limit of the
/// connection, buffers what the connection may buffer and one header beyond it, and
/// writes without delay.
pub proof fn socket_has_the_limits_of_the_connection(config: ConnectionConfig, size: usize)
    ensures
        ({
            let websocket = config.spec_websocket_config();
            &&& websocket.max_message_size is Some
            &&& size <= websocket.max_message_size->0 <==> size <= config.max_message_size
            &&& websocket.max_frame_size == websocket.max_message_size
            &&& websocket.max_message_size->0 == config.max_message_size
            &&& 125 <= config.max_buffered_bytes <= usize::MAX - 14
                ==> websocket.max_write_buffer_size - config.max_buffered_bytes == 14
            &&& config.max_buffered_bytes < 125 ==> websocket.max_write_buffer_size == 139
            &&& websocket.write_buffer_size == 0
            &&& websocket.read_buffer_size == 16_384
            &&& !websocket.accept_unmasked_frames
        }),
{
}

/// The defaults are a queue of sixteen messages, one mebibyte for a message and for
/// what is buffered, and ten seconds for a close.
pub proof fn defaults_are_the_documented_ones()
    ensures
        ({
            let config = ConnectionConfig::spec_default();
            &&& config.max_queue == 16
            &&& config.max_message_size == 1024 * 1024
            &&& config.max_buffered_bytes == 1024 * 1024
            &&& config.close_timeout.seconds == 10
            &&& config.close_timeout.nanoseconds == 0
        }),
        DEFAULT_MAX_QUEUE == 16,
        DEFAULT_MAX_MESSAGE_SIZE == 1024 * 1024,
        DEFAULT_MAX_BUFFERED_BYTES == 1024 * 1024,
        DEFAULT_CLOSE_TIMEOUT_SECONDS == 10,
        MAX_QUEUE_CAPACITY == usize::MAX / 8,
        MAX_CONTROL_PAYLOAD_BYTES == 125,
        MAX_FRAME_HEADER_BYTES == 14,
        READ_BUFFER_BYTES == 16 * 1024,
        WRITE_BUFFER_BYTES == 0,
{
}

} // verus!
