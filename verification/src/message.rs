//! The messages that travel over a connection.

use vstd::prelude::*;

verus! {

/// The status and reason of a close frame.
#[derive(Debug, Eq, PartialEq)]
pub struct CloseFrame {
    pub code: u16,
    pub reason: String,
}

/// The content of a [`CloseFrame`].
#[verifier::ext_equal]
pub struct CloseFrameView {
    pub code: u16,
    pub reason: Seq<char>,
}

impl View for CloseFrame {
    type V = CloseFrameView;

    open spec fn view(&self) -> CloseFrameView {
        CloseFrameView { code: self.code, reason: self.reason@ }
    }
}

/// One WebSocket message.
#[derive(Debug, Eq, PartialEq)]
pub enum Message {
    Text(String),
    Binary(Vec<u8>),
    Ping(Vec<u8>),
    Pong(Vec<u8>),
    /// A close, with its frame's content unless the frame was empty.
    Close(Option<CloseFrame>),
    /// A raw frame of this many encoded bytes.
    Frame(usize),
}

/// The content of a [`Message`].
#[verifier::ext_equal]
pub enum MessageView {
    Text(Seq<char>),
    Binary(Seq<u8>),
    Ping(Seq<u8>),
    Pong(Seq<u8>),
    Close(Option<CloseFrameView>),
    Frame(usize),
}

/// The content of a close frame that may be empty.
pub open spec fn close_view(frame: Option<CloseFrame>) -> Option<CloseFrameView> {
    match frame {
        Some(frame) => Some(frame@),
        None => None,
    }
}

impl View for Message {
    type V = MessageView;

    open spec fn view(&self) -> MessageView {
        match *self {
            Message::Text(payload) => MessageView::Text(payload@),
            Message::Binary(payload) => MessageView::Binary(payload@),
            Message::Ping(payload) => MessageView::Ping(payload@),
            Message::Pong(payload) => MessageView::Pong(payload@),
            Message::Close(frame) => MessageView::Close(close_view(frame)),
            Message::Frame(size) => MessageView::Frame(size),
        }
    }
}

impl MessageView {
    /// The number of payload bytes: a text counts in UTF-8, a close by its
    /// reason.
    pub open spec fn size(self) -> nat {
        match self {
            MessageView::Text(payload) => vstd::utf8::encode_utf8(payload).len(),
            MessageView::Binary(payload) => payload.len(),
            MessageView::Ping(payload) => payload.len(),
            MessageView::Pong(payload) => payload.len(),
            MessageView::Close(Some(frame)) => vstd::utf8::encode_utf8(frame.reason).len(),
            MessageView::Close(None) => 0,
            MessageView::Frame(size) => size as nat,
        }
    }

    /// Whether the message is for the application.
    pub open spec fn is_payload(self) -> bool {
        self is Text || self is Binary
    }
}

impl Message {
    /// The number of payload bytes.
    pub fn len(&self) -> (size: usize)
        ensures
            size == self@.size(),
    {
        match self {
            Message::Text(payload) => payload.as_str().as_bytes().len(),
            Message::Binary(payload) => payload.len(),
            Message::Ping(payload) => payload.len(),
            Message::Pong(payload) => payload.len(),
            Message::Close(Some(frame)) => frame.reason.as_str().as_bytes().len(),
            Message::Close(None) => 0,
            Message::Frame(size) => *size,
        }
    }

    /// Whether the message is for the application.
    pub fn is_payload(&self) -> (payload: bool)
        ensures
            payload == self@.is_payload(),
    {
        matches!(self, Message::Text(_)) || matches!(self, Message::Binary(_))
    }
}

/// A message as the application receives it.
#[derive(Debug, Eq, PartialEq)]
pub enum InboundMessage {
    Binary(Vec<u8>),
    Text(String),
}

impl View for InboundMessage {
    type V = MessageView;

    open spec fn view(&self) -> MessageView {
        match *self {
            InboundMessage::Binary(payload) => MessageView::Binary(payload@),
            InboundMessage::Text(payload) => MessageView::Text(payload@),
        }
    }
}

impl InboundMessage {
    /// Takes a message for the application, and refuses every other one.
    pub fn from_message(message: Message) -> (inbound: Option<InboundMessage>)
        ensures
            match inbound {
                Some(inbound) => message@.is_payload() && inbound@ == message@,
                None => !message@.is_payload(),
            },
    {
        match message {
            Message::Text(payload) => Some(InboundMessage::Text(payload)),
            Message::Binary(payload) => Some(InboundMessage::Binary(payload)),
            _ => None,
        }
    }
}

/// The size of a message is the number of its payload bytes: of a text those of its
/// UTF-8 form, of a close those of its reason.
pub proof fn size_is_the_number_of_bytes(
    text: Seq<char>,
    bytes: Seq<u8>,
    frame: CloseFrameView,
    encoded: usize,
)
    ensures
        MessageView::Text(text).size() == vstd::utf8::encode_utf8(text).len(),
        MessageView::Binary(bytes).size() == bytes.len(),
        MessageView::Ping(bytes).size() == bytes.len(),
        MessageView::Pong(bytes).size() == bytes.len(),
        MessageView::Close(Some(frame)).size() == vstd::utf8::encode_utf8(frame.reason).len(),
        MessageView::Close(None).size() == 0,
        MessageView::Frame(encoded).size() == encoded,
{
}

/// A message with one byte more has a size of one more, and two binary messages of
/// one size have equally many bytes.
pub proof fn size_grows_with_every_byte(bytes: Seq<u8>, other: Seq<u8>, byte: u8)
    ensures
        MessageView::Binary(bytes.push(byte)).size() == MessageView::Binary(bytes).size() + 1,
        MessageView::Binary(bytes + other).size() == MessageView::Binary(bytes).size()
            + MessageView::Binary(other).size(),
        MessageView::Binary(bytes).size() == MessageView::Binary(other).size() <==> bytes.len()
            == other.len(),
{
}

/// Exactly texts and binary messages are for the application.
pub proof fn exactly_data_is_for_the_application(
    text: Seq<char>,
    bytes: Seq<u8>,
    frame: Option<CloseFrameView>,
    encoded: usize,
)
    ensures
        MessageView::Text(text).is_payload(),
        MessageView::Binary(bytes).is_payload(),
        !MessageView::Ping(bytes).is_payload(),
        !MessageView::Pong(bytes).is_payload(),
        !MessageView::Close(frame).is_payload(),
        !MessageView::Frame(encoded).is_payload(),
{
}

/// The content of a message keeps its kind and everything that it carries.
pub proof fn message_contents_are_whole(
    text: String,
    bytes: Vec<u8>,
    frame: CloseFrame,
    encoded: usize,
)
    ensures
        frame@.code == frame.code,
        frame@.reason == frame.reason@,
        close_view(None) == None::<CloseFrameView>,
        close_view(Some(frame)) == Some(frame@),
        Message::Text(text)@ == MessageView::Text(text@),
        Message::Binary(bytes)@ == MessageView::Binary(bytes@),
        Message::Ping(bytes)@ == MessageView::Ping(bytes@),
        Message::Pong(bytes)@ == MessageView::Pong(bytes@),
        Message::Close(Some(frame))@ == MessageView::Close(Some(frame@)),
        Message::Close(None)@ == MessageView::Close(None),
        Message::Frame(encoded)@ == MessageView::Frame(encoded),
        InboundMessage::Text(text)@ == MessageView::Text(text@),
        InboundMessage::Binary(bytes)@ == MessageView::Binary(bytes@),
{
}

} // verus!
