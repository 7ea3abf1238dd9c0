//! Errors of the library.
use vstd::prelude::*;

use crate::message::{Message, MessageView};
use rmp_serde::decode::Error as MsgPackDecodeError;
use rmp_serde::encode::Error as MsgPackEncodeError;
use serde_json::Error as JsonError;
use tokio_tungstenite::tungstenite::Error as WsError;
use url::ParseError as UrlError;

verus! {

/// Why a codec could not encode or decode a value.
#[derive(Debug)]
pub enum CodecError {
    /// `serde_json` refused the value or the payload.
    Json(JsonError),
    /// `rmp_serde` refused the value.
    MsgPackEncode(MsgPackEncodeError),
    /// `rmp_serde` refused the payload.
    MsgPackDecode(MsgPackDecodeError),
    /// A codec of the user's own failed.
    Other(String),
}

/// Error type of the library: every way in which a connection can fail.
#[derive(Debug)]
#[non_exhaustive]
pub enum Error {
    /// The URL could not be parsed.
    UrlParse {
        /// The text that is no URL.
        url: String,
        /// What the URL parser found.
        source: UrlError,
    },
    /// Error of the Tungstenite library on the websocket connection.
    WebsocketError(WsError),
    /// The websocket connection is closed.
    WebsocketClosed,
    /// A message arrived whose type is not handled.
    UnexpectedMessageType(Box<Message>),
    /// A codec failed to encode or decode a value.
    Codec(CodecError),
    /// A JSON error that is not tied to a codec.
    SerializationError(JsonError),
    /// The handle was dropped without closing the connection.
    SocketeerDroppedWithoutClosing,
}

/// What an [`Error`] holds.
pub enum ErrorView {
    UrlParse { url: Seq<char>, source: UrlError },
    WebsocketError(WsError),
    WebsocketClosed,
    UnexpectedMessageType(MessageView),
    Codec(CodecError),
    SerializationError(JsonError),
    SocketeerDroppedWithoutClosing,
}

impl View for Error {
    type V = ErrorView;

    open spec fn view(&self) -> ErrorView {
        match *self {
            Error::UrlParse { url, source } => ErrorView::UrlParse { url: url@, source },
            Error::WebsocketError(e) => ErrorView::WebsocketError(e),
            Error::WebsocketClosed => ErrorView::WebsocketClosed,
            Error::UnexpectedMessageType(message) => ErrorView::UnexpectedMessageType(
                (*message)@,
            ),
            Error::Codec(e) => ErrorView::Codec(e),
            Error::SerializationError(e) => ErrorView::SerializationError(e),
            Error::SocketeerDroppedWithoutClosing => ErrorView::SocketeerDroppedWithoutClosing,
        }
    }
}

/// A value or an error, the error by what it holds.
pub open spec fn outcome<T>(result: Result<T, Error>) -> Result<T, ErrorView> {
    match result {
        Ok(value) => Ok(value),
        Err(e) => Err(e@),
    }
}

impl From<WsError> for Error {
    fn from(source: WsError) -> (error: Error) {
        Error::WebsocketError(source)
    }
}

impl vstd::std_specs::convert::FromSpecImpl<WsError> for Error {
    open spec fn obeys_from_spec() -> bool {
        true
    }

    open spec fn from_spec(source: WsError) -> Error {
        Error::WebsocketError(source)
    }
}

impl From<JsonError> for Error {
    fn from(source: JsonError) -> (error: Error) {
        Error::SerializationError(source)
    }
}

impl vstd::std_specs::convert::FromSpecImpl<JsonError> for Error {
    open spec fn obeys_from_spec() -> bool {
        true
    }

    open spec fn from_spec(source: JsonError) -> Error {
        Error::SerializationError(source)
    }
}

} // verus!
