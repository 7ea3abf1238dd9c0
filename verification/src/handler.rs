//! What a connection handler can do during the handshake: after the WebSocket upgrade, before
//! the socket loop starts.
use vstd::prelude::*;

use tokio_tungstenite::tungstenite::Error as WsError;

use crate::codec::Codec;
use crate::error::Error;
use crate::message::{Message, MessageView};
use crate::socket_loop::sink_result;

verus! {

/// The handshake phase of a connection.
///
/// Its methods that send give the message to hand to the sink, and [`HandshakeContext::sent`]
/// says what to make of the sink's answer. Its methods that receive are given what was read and
/// say what to make of it, or `None` where the message is to be skipped and the next one read.
///
/// The typed [`HandshakeContext::send`] and [`HandshakeContext::recv`] use the connection's
/// codec. The others serve protocols whose handshake does not fit it.
pub struct HandshakeContext<'a, C: Codec> {
    codec: &'a C,
}

/// Handler of a connection without any lifecycle hooks.
#[derive(Debug, Clone, Copy)]
pub struct NoopHandler;

impl<'a, C: Codec> View for HandshakeContext<'a, C> {
    type V = C;

    closed spec fn view(&self) -> C {
        *self.codec
    }
}

/// What reading comes to during the handshake: pings and pongs are skipped, other messages are
/// handed out as they are, and a failure or the end of the connection is an error.
pub open spec fn handshake_frame(read: Option<Result<Message, WsError>>) -> Option<
    Result<Message, Error>,
> {
    match read {
        Some(Ok(Message::Ping(_))) | Some(Ok(Message::Pong(_))) => None,
        Some(Ok(message)) => Some(Ok(message)),
        Some(Err(e)) => Some(Err(Error::WebsocketError(e))),
        None => Some(Err(Error::WebsocketClosed)),
    }
}

/// What reading message after message comes to, if it comes to an end.
pub open spec fn handshake_reads(reads: Seq<Option<Result<Message, WsError>>>) -> Option<
    Result<Message, Error>,
>
    decreases reads.len(),
{
    if reads.len() == 0 {
        None
    } else {
        match handshake_frame(reads[0]) {
            Some(result) => Some(result),
            None => handshake_reads(reads.drop_first()),
        }
    }
}

impl<'a, C: Codec> HandshakeContext<'a, C> {
    /// Makes the context of a connection that uses a codec.
    pub fn new(codec: &'a C) -> (context: Self)
        ensures
            context@ == *codec,
    {
        HandshakeContext { codec }
    }

    /// Encodes a value with the connection's codec, to be sent.
    pub fn send(&self, value: &C::Tx) -> (result: Result<Message, Error>)
        ensures
            call_ensures(C::encode, (&self@, value), result),
    {
        self.codec.encode(value)
    }

    /// A text message to be sent.
    pub fn send_text(&self, text: &str) -> (message: Message)
        ensures
            message@ == MessageView::Text(text@),
    {
        Message::text(text)
    }

    /// A binary message to be sent.
    pub fn send_binary(&self, bytes: Vec<u8>) -> (message: Message)
        ensures
            message@ == MessageView::Binary(bytes@),
    {
        Message::binary(bytes)
    }

    /// The result of sending a message, given what the sink answered.
    pub fn sent(&self, answer: Result<(), WsError>) -> (result: Result<(), Error>)
        ensures
            result == sink_result(answer),
    {
        match answer {
            Ok(()) => Ok(()),
            Err(e) => Err(Error::from(e)),
        }
    }

    /// The next message that is neither a ping nor a pong, as it is.
    pub fn recv_raw(&self, read: Option<Result<Message, WsError>>) -> (result: Option<
        Result<Message, Error>,
    >)
        ensures
            result == handshake_frame(read),
    {
        match read {
            Some(Ok(message)) => match message {
                Message::Ping(_) | Message::Pong(_) => None,
                other => Some(Ok(other)),
            },
            Some(Err(e)) => Some(Err(Error::WebsocketError(e))),
            None => Some(Err(Error::WebsocketClosed)),
        }
    }

    /// The next message that is neither a ping nor a pong, decoded with the connection's codec.
    /// A close message is no message to decode, whatever the codec: the connection is closed.
    pub fn recv(&self, read: Option<Result<Message, WsError>>) -> (result: Option<
        Result<C::Rx, Error>,
    >)
        ensures
            match handshake_frame(read) {
                None => result is None,
                Some(Err(e)) => result == Some(Err::<C::Rx, Error>(e)),
                Some(Ok(message)) => if message is Close {
                    result == Some(Err::<C::Rx, Error>(Error::WebsocketClosed))
                } else {
                    &&& result is Some
                    &&& call_ensures(C::decode, (&self@, &message), result->0)
                },
            },
    {
        match self.recv_raw(read) {
            None => None,
            Some(Err(e)) => Some(Err(e)),
            Some(Ok(Message::Close(_))) => Some(Err(Error::WebsocketClosed)),
            Some(Ok(message)) => Some(self.codec.decode(&message)),
        }
    }

    /// The text of the next message that is neither a ping nor a pong. Any message but a text
    /// message is an error.
    pub fn recv_text(&self, read: Option<Result<Message, WsError>>) -> (result: Option<
        Result<String, Error>,
    >)
        ensures
            result == (match handshake_frame(read) {
                None => None,
                Some(Err(e)) => Some(Err(e)),
                Some(Ok(Message::Text(text))) => Some(Ok(text)),
                Some(Ok(other)) => Some(Err(Error::UnexpectedMessageType(Box::new(other)))),
            }),
    {
        match self.recv_raw(read) {
            None => None,
            Some(Err(e)) => Some(Err(e)),
            Some(Ok(Message::Text(text))) => Some(Ok(text)),
            Some(Ok(other)) => Some(Err(Error::UnexpectedMessageType(Box::new(other)))),
        }
    }
}

/// Receiving during the handshake gives the first message that is neither a ping nor a pong, and
/// an error where the connection fails or ends before one comes.
pub proof fn handshake_skips_pings_and_pongs(
    reads: Seq<Option<Result<Message, WsError>>>,
    n: int,
)
    requires
        0 <= n < reads.len(),
        forall|i: int|
            0 <= i < n ==> (#[trigger] reads[i] matches Some(Ok(message)) && (message is Ping
                || message is Pong)),
        !(reads[n] matches Some(Ok(message)) && (message is Ping || message is Pong)),
    ensures
        handshake_reads(reads) == Some(
            match reads[n] {
                Some(Ok(message)) => Ok(message),
                Some(Err(e)) => Err(Error::WebsocketError(e)),
                None => Err(Error::WebsocketClosed),
            },
        ),
    decreases n,
{
    if n > 0 {
        assert(reads[0] matches Some(Ok(message)) && (message is Ping || message is Pong));
        let rest = reads.drop_first();
        assert forall|i: int| 0 <= i < n - 1 implies (#[trigger] rest[i] matches Some(
            Ok(message),
        ) && (message is Ping || message is Pong)) by {
            assert(rest[i] == reads[i + 1]);
        }
        handshake_skips_pings_and_pongs(rest, n - 1);
    }
}

} // verus!
