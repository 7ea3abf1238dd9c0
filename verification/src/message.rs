//! WebSocket messages as plain values.
use vstd::prelude::*;

use crate::error::{Error, ErrorView};

verus! {

/// The close code and reason of a close message.
#[derive(Debug, PartialEq, Eq)]
pub struct CloseFrame {
    /// Status code, such as `1000` for a normal closure.
    pub code: u16,
    /// Reason as text.
    pub reason: String,
}

/// A frame that is neither assembled into a message nor interpreted.
#[derive(Debug, PartialEq, Eq)]
pub struct RawFrame {
    /// Whether this is the last frame of a fragmented message.
    pub is_final: bool,
    /// First bit reserved for protocol extensions.
    pub rsv1: bool,
    /// Second bit reserved for protocol extensions.
    pub rsv2: bool,
    /// Third bit reserved for protocol extensions.
    pub rsv3: bool,
    /// Opcode as on the wire, where it has four bits.
    pub opcode: u8,
    /// Mask, if any.
    pub mask: Option<[u8; 4]>,
    /// Payload.
    pub payload: Vec<u8>,
}

/// A WebSocket message.
#[derive(Debug, PartialEq, Eq)]
pub enum Message {
    /// A text message.
    Text(String),
    /// A binary message.
    Binary(Vec<u8>),
    /// A ping with its payload.
    Ping(Vec<u8>),
    /// A pong with its payload.
    Pong(Vec<u8>),
    /// A close message, with its close frame if it has one.
    Close(Option<CloseFrame>),
    /// A raw frame. It never comes up while reading messages.
    Frame(RawFrame),
}

/// What a [`RawFrame`] holds.
pub struct RawFrameView {
    pub is_final: bool,
    pub rsv1: bool,
    pub rsv2: bool,
    pub rsv3: bool,
    pub opcode: u8,
    pub mask: Option<[u8; 4]>,
    pub payload: Seq<u8>,
}

/// What a [`Message`] holds.
pub enum MessageView {
    Text(Seq<char>),
    Binary(Seq<u8>),
    Ping(Seq<u8>),
    Pong(Seq<u8>),
    Close(Option<(u16, Seq<char>)>),
    Frame(RawFrameView),
}

impl View for CloseFrame {
    type V = (u16, Seq<char>);

    open spec fn view(&self) -> (u16, Seq<char>) {
        (self.code, self.reason@)
    }
}

impl View for RawFrame {
    type V = RawFrameView;

    open spec fn view(&self) -> RawFrameView {
        RawFrameView {
            is_final: self.is_final,
            rsv1: self.rsv1,
            rsv2: self.rsv2,
            rsv3: self.rsv3,
            opcode: self.opcode,
            mask: self.mask,
            payload: self.payload@,
        }
    }
}

impl View for Message {
    type V = MessageView;

    open spec fn view(&self) -> MessageView {
        match self {
            Message::Text(text) => MessageView::Text(text@),
            Message::Binary(bytes) => MessageView::Binary(bytes@),
            Message::Ping(bytes) => MessageView::Ping(bytes@),
            Message::Pong(bytes) => MessageView::Pong(bytes@),
            Message::Close(None) => MessageView::Close(None),
            Message::Close(Some(frame)) => MessageView::Close(Some(frame@)),
            Message::Frame(frame) => MessageView::Frame(frame@),
        }
    }
}

impl MessageView {
    /// Whether this is a text or a binary message: what a consumer gets to see.
    pub open spec fn is_data(self) -> bool {
        self is Text || self is Binary
    }
}

/// A message or an error, by what each holds.
pub open spec fn framed(result: Result<Message, Error>) -> Result<MessageView, ErrorView> {
    match result {
        Ok(message) => Ok(message@),
        Err(e) => Err(e@),
    }
}

/// Copies bytes.
pub(crate) fn copy_bytes(bytes: &Vec<u8>) -> (copy: Vec<u8>)
    ensures
        copy@ == bytes@,
{
    let copy = bytes.clone();
    assert(copy@ =~= bytes@);
    copy
}

impl Clone for CloseFrame {
    fn clone(&self) -> (copy: Self)
        ensures
            copy@ == self@,
    {
        CloseFrame { code: self.code, reason: self.reason.clone() }
    }
}

impl Clone for RawFrame {
    fn clone(&self) -> (copy: Self)
        ensures
            copy@ == self@,
    {
        RawFrame {
            is_final: self.is_final,
            rsv1: self.rsv1,
            rsv2: self.rsv2,
            rsv3: self.rsv3,
            opcode: self.opcode,
            mask: self.mask,
            payload: copy_bytes(&self.payload),
        }
    }
}

impl Clone for Message {
    fn clone(&self) -> (copy: Self)
        ensures
            copy@ == self@,
    {
        match self {
            Message::Text(text) => Message::Text(text.clone()),
            Message::Binary(bytes) => Message::Binary(copy_bytes(bytes)),
            Message::Ping(bytes) => Message::Ping(copy_bytes(bytes)),
            Message::Pong(bytes) => Message::Pong(copy_bytes(bytes)),
            Message::Close(None) => Message::Close(None),
            Message::Close(Some(frame)) => Message::Close(Some(frame.clone())),
            Message::Frame(frame) => Message::Frame(frame.clone()),
        }
    }
}

impl Message {
    /// A text message that holds `text`.
    pub fn text(text: &str) -> (message: Message)
        ensures
            message@ == MessageView::Text(text@),
    {
        Message::Text(text.to_owned())
    }

    /// A binary message that holds `bytes`.
    pub fn binary(bytes: Vec<u8>) -> (message: Message)
        ensures
            message@ == MessageView::Binary(bytes@),
    {
        Message::Binary(bytes)
    }
}

} // verus!
