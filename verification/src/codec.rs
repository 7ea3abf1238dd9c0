//! Codecs: how outgoing values become messages and incoming messages become values.
//!
//! A [`Codec`] owns the `Tx` and `Rx` types of a connection and decides how each maps to a
//! [`Message`]. The two sides may differ, as in protocols that send prefixed text and receive
//! JSON.
//!
//! - [`JsonCodec`] sends text and accepts JSON in text or binary messages.
//! - [`MsgPackCodec`] sends and accepts binary messages.
//! - [`RawCodec`] passes messages through unchanged.
//!
//! Other codecs implement [`Codec`] themselves.
use vstd::prelude::*;
use vstd::utf8::encode_utf8;

use std::fmt::{Debug, Formatter};
use std::marker::PhantomData;
use std::sync::Mutex;

use crate::error::{outcome, CodecError, Error, ErrorView};
use crate::message::{framed, Message, MessageView};

use rmp_serde::decode::Error as MsgPackDecodeError;
use rmp_serde::encode::Error as MsgPackEncodeError;
use serde_json::Error as JsonError;

verus! {

/// Encodes outgoing values into messages and decodes incoming messages into values.
pub trait Codec: Send + Sync + 'static {
    /// The type of the values that are sent.
    type Tx;

    /// The type of the values that are received.
    type Rx;

    /// Encodes a value into a message.
    fn encode(&self, value: &Self::Tx) -> Result<Message, Error>;

    /// Decodes a message into a value.
    fn decode(&self, frame: &Message) -> Result<Self::Rx, Error>;
}

/// A value that can be written as JSON text, with `serde_json::to_string` or by other means.
pub trait ToJson {
    /// Writes the value as JSON text.
    fn to_json(&self) -> Result<String, JsonError>;
}

/// A value that can be read from JSON, with `serde_json` or by other means.
pub trait FromJson: Sized {
    /// Reads the value from text, as `serde_json::from_str` does.
    fn from_json(text: &str) -> Result<Self, JsonError>;

    /// Reads the value from bytes, as `serde_json::from_slice` does.
    fn from_json_bytes(bytes: &[u8]) -> Result<Self, JsonError>;
}

/// A value that can be written as `MessagePack`, with `rmp_serde::to_vec_named` or by other
/// means.
pub trait ToMsgPack {
    /// Writes the value as `MessagePack`.
    fn to_msgpack(&self) -> Result<Vec<u8>, MsgPackEncodeError>;
}

/// A value that can be read from `MessagePack`, with `rmp_serde` or by other means.
pub trait FromMsgPack: Sized {
    /// Reads the value from bytes, as `rmp_serde::from_slice` does.
    fn from_msgpack(bytes: &[u8]) -> Result<Self, MsgPackDecodeError>;
}

/// JSON codec.
///
/// Encodes values as [`Message::Text`]. Decodes text messages and, for servers that ship JSON
/// in binary messages, [`Message::Binary`] too. It holds no values, so several threads can share
/// it even where they could not share a value.
#[verifier::reject_recursive_types(Rx)]
#[verifier::reject_recursive_types(Tx)]
pub struct JsonCodec<Rx, Tx>(PhantomData<Mutex<(Rx, Tx)>>);

/// `MessagePack` codec.
///
/// Encodes values as [`Message::Binary`] and decodes only binary messages. It holds no values, so
/// several threads can share it even where they could not share a value.
#[verifier::reject_recursive_types(Rx)]
#[verifier::reject_recursive_types(Tx)]
pub struct MsgPackCodec<Rx, Tx>(PhantomData<Mutex<(Rx, Tx)>>);

/// Identity codec: `Tx` and `Rx` are both [`Message`].
#[derive(Debug, Clone, Copy)]
pub struct RawCodec;

/// A codec carries no data.
impl<Rx, Tx> View for JsonCodec<Rx, Tx> {
    type V = ();

    open spec fn view(&self) -> () {
        ()
    }
}

/// A codec carries no data.
impl<Rx, Tx> View for MsgPackCodec<Rx, Tx> {
    type V = ();

    open spec fn view(&self) -> () {
        ()
    }
}

/// The message, or the error, that JSON encoding leads to when the text comes out as `written`.
pub open spec fn json_encoded(written: Result<String, JsonError>) -> Result<
    MessageView,
    ErrorView,
> {
    match written {
        Ok(text) => Ok(MessageView::Text(text@)),
        Err(e) => Err(ErrorView::Codec(CodecError::Json(e))),
    }
}

/// The value, or the error, that JSON decoding leads to when the payload reads as `read`.
pub open spec fn json_decoded<Rx>(read: Result<Rx, JsonError>) -> Result<Rx, ErrorView> {
    match read {
        Ok(value) => Ok(value),
        Err(e) => Err(ErrorView::Codec(CodecError::Json(e))),
    }
}

/// The message, or the error, that `MessagePack` encoding leads to when the bytes come out as
/// `written`.
pub open spec fn msgpack_encoded(written: Result<Vec<u8>, MsgPackEncodeError>) -> Result<
    MessageView,
    ErrorView,
> {
    match written {
        Ok(bytes) => Ok(MessageView::Binary(bytes@)),
        Err(e) => Err(ErrorView::Codec(CodecError::MsgPackEncode(e))),
    }
}

/// The value, or the error, that `MessagePack` decoding leads to when the payload reads as
/// `read`.
pub open spec fn msgpack_decoded<Rx>(read: Result<Rx, MsgPackDecodeError>) -> Result<
    Rx,
    ErrorView,
> {
    match read {
        Ok(value) => Ok(value),
        Err(e) => Err(ErrorView::Codec(CodecError::MsgPackDecode(e))),
    }
}

impl<Rx, Tx> JsonCodec<Rx, Tx> {
    /// Makes a JSON codec.
    #[must_use]
    pub fn new() -> (codec: Self)
        ensures
            codec@ == (),
    {
        JsonCodec(PhantomData)
    }

    /// What the codec is shown as.
    pub fn label(&self) -> (text: &'static str)
        ensures
            text@ == "JsonCodec"@,
    {
        "JsonCodec"
    }

    /// Frames JSON text as a message, or reports why there is none.
    pub fn encoded(written: Result<String, JsonError>) -> (result: Result<Message, Error>)
        ensures
            framed(result) == json_encoded(written),
    {
        match written {
            Ok(text) => Ok(Message::Text(text)),
            Err(e) => Err(Error::Codec(CodecError::Json(e))),
        }
    }

    /// Hands out a value that was read from JSON, or reports why there is none.
    pub fn decoded(read: Result<Rx, JsonError>) -> (result: Result<Rx, Error>)
        ensures
            outcome(result) == json_decoded(read),
    {
        match read {
            Ok(value) => Ok(value),
            Err(e) => Err(Error::Codec(CodecError::Json(e))),
        }
    }
}

impl<Rx, Tx> Default for JsonCodec<Rx, Tx> {
    fn default() -> (codec: Self)
        ensures
            codec@ == (),
    {
        Self::new()
    }
}

impl<Rx, Tx> Debug for JsonCodec<Rx, Tx> {
    fn fmt(&self, f: &mut Formatter<'_>) -> std::fmt::Result {
        f.write_str(self.label())
    }
}

impl<Rx, Tx> Clone for JsonCodec<Rx, Tx> {
    fn clone(&self) -> (copy: Self)
        ensures
            copy == *self,
    {
        *self
    }
}

impl<Rx, Tx> Copy for JsonCodec<Rx, Tx> {

}

impl<Rx, Tx> Codec for JsonCodec<Rx, Tx> where
    Rx: FromJson + Send + 'static,
    Tx: ToJson + Send + 'static,
 {
    type Tx = Tx;

    type Rx = Rx;

    fn encode(&self, value: &Tx) -> (result: Result<Message, Error>)
        ensures
            exists|written: Result<String, JsonError>| #[trigger]
                call_ensures(Tx::to_json, (value,), written) && framed(result) == json_encoded(
                    written,
                ),
    {
        Self::encoded(value.to_json())
    }

    fn decode(&self, frame: &Message) -> (result: Result<Rx, Error>)
        ensures
            match frame@ {
                MessageView::Text(text) => exists|s: &str, read: Result<Rx, JsonError>|
                    s@ == text && #[trigger] call_ensures(Rx::from_json, (s,), read) && outcome(
                        result,
                    ) == json_decoded(read),
                MessageView::Binary(bytes) => exists|s: &[u8], read: Result<Rx, JsonError>|
                    s@ == bytes && #[trigger] call_ensures(Rx::from_json_bytes, (s,), read)
                        && outcome(result) == json_decoded(read),
                other => outcome(result) == Err::<Rx, ErrorView>(
                    ErrorView::UnexpectedMessageType(other),
                ),
            },
    {
        match frame {
            Message::Text(text) => Self::decoded(Rx::from_json(text.as_str())),
            Message::Binary(bytes) => Self::decoded(Rx::from_json_bytes(bytes.as_slice())),
            other => Err(Error::UnexpectedMessageType(Box::new(other.clone()))),
        }
    }
}

impl<Rx, Tx> MsgPackCodec<Rx, Tx> {
    /// Makes a `MessagePack` codec.
    #[must_use]
    pub fn new() -> (codec: Self)
        ensures
            codec@ == (),
    {
        MsgPackCodec(PhantomData)
    }

    /// What the codec is shown as.
    pub fn label(&self) -> (text: &'static str)
        ensures
            text@ == "MsgPackCodec"@,
    {
        "MsgPackCodec"
    }

    /// Frames `MessagePack` bytes as a message, or reports why there is none.
    pub fn encoded(written: Result<Vec<u8>, MsgPackEncodeError>) -> (result: Result<
        Message,
        Error,
    >)
        ensures
            framed(result) == msgpack_encoded(written),
    {
        match written {
            Ok(bytes) => Ok(Message::Binary(bytes)),
            Err(e) => Err(Error::Codec(CodecError::MsgPackEncode(e))),
        }
    }

    /// Hands out a value that was read from `MessagePack`, or reports why there is none.
    pub fn decoded(read: Result<Rx, MsgPackDecodeError>) -> (result: Result<Rx, Error>)
        ensures
            outcome(result) == msgpack_decoded(read),
    {
        match read {
            Ok(value) => Ok(value),
            Err(e) => Err(Error::Codec(CodecError::MsgPackDecode(e))),
        }
    }
}

impl<Rx, Tx> Default for MsgPackCodec<Rx, Tx> {
    fn default() -> (codec: Self)
        ensures
            codec@ == (),
    {
        Self::new()
    }
}

impl<Rx, Tx> Debug for MsgPackCodec<Rx, Tx> {
    fn fmt(&self, f: &mut Formatter<'_>) -> std::fmt::Result {
        f.write_str(self.label())
    }
}

impl<Rx, Tx> Clone for MsgPackCodec<Rx, Tx> {
    fn clone(&self) -> (copy: Self)
        ensures
            copy == *self,
    {
        *self
    }
}

impl<Rx, Tx> Copy for MsgPackCodec<Rx, Tx> {

}

impl<Rx, Tx> Codec for MsgPackCodec<Rx, Tx> where
    Rx: FromMsgPack + Send + 'static,
    Tx: ToMsgPack + Send + 'static,
 {
    type Tx = Tx;

    type Rx = Rx;

    fn encode(&self, value: &Tx) -> (result: Result<Message, Error>)
        ensures
            exists|written: Result<Vec<u8>, MsgPackEncodeError>| #[trigger]
                call_ensures(Tx::to_msgpack, (value,), written) && framed(result)
                    == msgpack_encoded(written),
    {
        Self::encoded(value.to_msgpack())
    }

    fn decode(&self, frame: &Message) -> (result: Result<Rx, Error>)
        ensures
            match frame@ {
                MessageView::Binary(bytes) => exists|
                    s: &[u8],
                    read: Result<Rx, MsgPackDecodeError>,
                |
                    s@ == bytes && #[trigger] call_ensures(Rx::from_msgpack, (s,), read)
                        && outcome(result) == msgpack_decoded(read),
                other => outcome(result) == Err::<Rx, ErrorView>(
                    ErrorView::UnexpectedMessageType(other),
                ),
            },
    {
        match frame {
            Message::Binary(bytes) => Self::decoded(Rx::from_msgpack(bytes.as_slice())),
            other => Err(Error::UnexpectedMessageType(Box::new(other.clone()))),
        }
    }
}

impl RawCodec {
    /// Makes an identity codec.
    #[must_use]
    pub fn new() -> (codec: Self)
        ensures
            codec == RawCodec,
    {
        RawCodec
    }
}

impl Default for RawCodec {
    fn default() -> (codec: Self)
        ensures
            codec == RawCodec,
    {
        RawCodec
    }
}

impl Codec for RawCodec {
    type Tx = Message;

    type Rx = Message;

    fn encode(&self, value: &Message) -> (result: Result<Message, Error>)
        ensures
            framed(result) == Ok::<MessageView, ErrorView>(value@),
    {
        Ok(value.clone())
    }

    fn decode(&self, frame: &Message) -> (result: Result<Message, Error>)
        ensures
            framed(result) == Ok::<MessageView, ErrorView>(frame@),
    {
        Ok(frame.clone())
    }
}

/// Whatever [`RawCodec`] makes of a message when it encodes it, it makes the same message of
/// that when it decodes it: ping, pong and close messages come through unchanged too.
pub proof fn raw_codec_round_trips(
    codec: RawCodec,
    message: Message,
    encoded: Result<Message, Error>,
    decoded: Result<Message, Error>,
)
    requires
        call_ensures(<RawCodec as Codec>::encode, (&codec, &message), encoded),
        encoded is Ok ==> call_ensures(
            <RawCodec as Codec>::decode,
            (&codec, &encoded->Ok_0),
            decoded,
        ),
    ensures
        encoded is Ok,
        framed(decoded) == Ok::<MessageView, ErrorView>(message@),
{
}

/// [`JsonCodec`] sends text messages only and accepts text and binary messages only; whatever else
/// it is handed to decode is handed back in the error.
pub proof fn json_codec_frames<Rx: FromJson + Send + 'static, Tx: ToJson + Send + 'static>(
    codec: JsonCodec<Rx, Tx>,
    value: Tx,
    encoded: Result<Message, Error>,
    frame: Message,
    decoded: Result<Rx, Error>,
)
    requires
        call_ensures(<JsonCodec<Rx, Tx> as Codec>::encode, (&codec, &value), encoded),
        call_ensures(<JsonCodec<Rx, Tx> as Codec>::decode, (&codec, &frame), decoded),
    ensures
        encoded matches Ok(message) ==> message@ is Text,
        !frame@.is_data() ==> outcome(decoded) == Err::<Rx, ErrorView>(
            ErrorView::UnexpectedMessageType(frame@),
        ),
        decoded matches Err(e) ==> e@ is UnexpectedMessageType || e@ is Codec,
{
}

/// [`MsgPackCodec`] sends binary messages only and accepts binary messages only; whatever else it
/// is handed to decode is handed back in the error.
pub proof fn msgpack_codec_frames<
    Rx: FromMsgPack + Send + 'static,
    Tx: ToMsgPack + Send + 'static,
>(
    codec: MsgPackCodec<Rx, Tx>,
    value: Tx,
    encoded: Result<Message, Error>,
    frame: Message,
    decoded: Result<Rx, Error>,
)
    requires
        call_ensures(<MsgPackCodec<Rx, Tx> as Codec>::encode, (&codec, &value), encoded),
        call_ensures(<MsgPackCodec<Rx, Tx> as Codec>::decode, (&codec, &frame), decoded),
    ensures
        encoded matches Ok(message) ==> message@ is Binary,
        !(frame@ is Binary) ==> outcome(decoded) == Err::<Rx, ErrorView>(
            ErrorView::UnexpectedMessageType(frame@),
        ),
        decoded matches Err(e) ==> e@ is UnexpectedMessageType || e@ is Codec,
{
}

/// Whether JSON text that a value is written as reads as the value again.
pub open spec fn reads_back_json<T: ToJson + FromJson>(value: T) -> bool {
    forall|text: String, s: &str, read: Result<T, JsonError>|
        #![trigger call_ensures(T::to_json, (&value,), Ok(text)), call_ensures(
            T::from_json,
            (s,),
            read,
        )]
        call_ensures(T::to_json, (&value,), Ok(text)) && s@ == text@ && call_ensures(
            T::from_json,
            (s,),
            read,
        ) ==> read == Ok::<T, JsonError>(value)
}

/// A value that reads back from its JSON comes back from [`JsonCodec`] when the message that it was
/// encoded into is decoded.
pub proof fn json_codec_round_trips<T: ToJson + FromJson + Send + 'static>(
    codec: JsonCodec<T, T>,
    value: T,
    frame: Message,
    decoded: Result<T, Error>,
)
    requires
        reads_back_json(value),
        call_ensures(<JsonCodec<T, T> as Codec>::encode, (&codec, &value), Ok(frame)),
        call_ensures(<JsonCodec<T, T> as Codec>::decode, (&codec, &frame), decoded),
    ensures
        decoded == Ok::<T, Error>(value),
{
}

/// Whether the `MessagePack` that a value is written as reads as the value again.
pub open spec fn reads_back_msgpack<T: ToMsgPack + FromMsgPack>(value: T) -> bool {
    forall|bytes: Vec<u8>, s: &[u8], read: Result<T, MsgPackDecodeError>|
        #![trigger call_ensures(T::to_msgpack, (&value,), Ok(bytes)), call_ensures(
            T::from_msgpack,
            (s,),
            read,
        )]
        call_ensures(T::to_msgpack, (&value,), Ok(bytes)) && s@ == bytes@ && call_ensures(
            T::from_msgpack,
            (s,),
            read,
        ) ==> read == Ok::<T, MsgPackDecodeError>(value)
}

/// A value that reads back from its `MessagePack` comes back from [`MsgPackCodec`] when the message
/// that it was encoded into is decoded.
pub proof fn msgpack_codec_round_trips<T: ToMsgPack + FromMsgPack + Send + 'static>(
    codec: MsgPackCodec<T, T>,
    value: T,
    frame: Message,
    decoded: Result<T, Error>,
)
    requires
        reads_back_msgpack(value),
        call_ensures(<MsgPackCodec<T, T> as Codec>::encode, (&codec, &value), Ok(frame)),
        call_ensures(<MsgPackCodec<T, T> as Codec>::decode, (&codec, &frame), decoded),
    ensures
        decoded == Ok::<T, Error>(value),
{
}

/// Whether a text and its UTF-8 bytes read alike as JSON: as the same value, or as none. With
/// `serde_json` every text does.
pub open spec fn reads_text_and_bytes_alike<T: FromJson>(text: Seq<char>) -> bool {
    forall|s: &str, b: &[u8], from_text: Result<T, JsonError>, from_bytes: Result<T, JsonError>|
        #![trigger call_ensures(T::from_json, (s,), from_text), call_ensures(
            T::from_json_bytes,
            (b,),
            from_bytes,
        )]
        s@ == text && b@ == encode_utf8(text) && call_ensures(
            T::from_json,
            (s,),
            from_text,
        ) && call_ensures(
            T::from_json_bytes,
            (b,),
            from_bytes,
        ) ==> match (from_text, from_bytes) {
            (Ok(one), Ok(other)) => one == other,
            (Err(_), Err(_)) => true,
            _ => false,
        }
}

/// Of a text that reads like its UTF-8 bytes, [`JsonCodec`] makes the same whether it comes in a
/// text message or, as UTF-8, in a binary message: the same value, or a codec error.
pub proof fn json_codec_decodes_text_and_bytes_alike<
    Rx: FromJson + Send + 'static,
    Tx: ToJson + Send + 'static,
>(
    codec: JsonCodec<Rx, Tx>,
    text: Message,
    binary: Message,
    from_text: Result<Rx, Error>,
    from_binary: Result<Rx, Error>,
)
    requires
        text@ is Text,
        reads_text_and_bytes_alike::<Rx>(text@->Text_0),
        binary@ == MessageView::Binary(encode_utf8(text@->Text_0)),
        call_ensures(<JsonCodec<Rx, Tx> as Codec>::decode, (&codec, &text), from_text),
        call_ensures(<JsonCodec<Rx, Tx> as Codec>::decode, (&codec, &binary), from_binary),
    ensures
        match (from_text, from_binary) {
            (Ok(one), Ok(other)) => one == other,
            (Err(one), Err(other)) => one@ is Codec && other@ is Codec,
            _ => false,
        },
{
}

/// JSON codecs carry no state: those made by `new`, `default` and `clone` are one and the same, so
/// they encode and decode alike.
pub proof fn json_codecs_are_interchangeable<
    Rx: FromJson + Send + 'static,
    Tx: ToJson + Send + 'static,
>(one: JsonCodec<Rx, Tx>, other: JsonCodec<Rx, Tx>)
    ensures
        one == other,
        forall|value: Tx, result: Result<Message, Error>|
            call_ensures(<JsonCodec<Rx, Tx> as Codec>::encode, (&one, &value), result)
                <==> #[trigger] call_ensures(
                <JsonCodec<Rx, Tx> as Codec>::encode,
                (&other, &value),
                result,
            ),
        forall|frame: Message, result: Result<Rx, Error>|
            call_ensures(<JsonCodec<Rx, Tx> as Codec>::decode, (&one, &frame), result)
                <==> #[trigger] call_ensures(
                <JsonCodec<Rx, Tx> as Codec>::decode,
                (&other, &frame),
                result,
            ),
{
}

/// `MessagePack` codecs carry no state: those made by `new`, `default` and `clone` are one and the
/// same, so they encode and decode alike.
pub proof fn msgpack_codecs_are_interchangeable<
    Rx: FromMsgPack + Send + 'static,
    Tx: ToMsgPack + Send + 'static,
>(one: MsgPackCodec<Rx, Tx>, other: MsgPackCodec<Rx, Tx>)
    ensures
        one == other,
        forall|value: Tx, result: Result<Message, Error>|
            call_ensures(<MsgPackCodec<Rx, Tx> as Codec>::encode, (&one, &value), result)
                <==> #[trigger] call_ensures(
                <MsgPackCodec<Rx, Tx> as Codec>::encode,
                (&other, &value),
                result,
            ),
        forall|frame: Message, result: Result<Rx, Error>|
            call_ensures(<MsgPackCodec<Rx, Tx> as Codec>::decode, (&one, &frame), result)
                <==> #[trigger] call_ensures(
                <MsgPackCodec<Rx, Tx> as Codec>::decode,
                (&other, &frame),
                result,
            ),
{
}

} // verus!
