//! What encoding and decoding come to, call by call.
use vstd::prelude::*;

use rmp_serde::decode::Error as MsgPackDecodeError;
use rmp_serde::encode::Error as MsgPackEncodeError;
use serde_json::Error as JsonError;

use crate::codec::{
    Codec, FromJson, FromMsgPack, JsonCodec, MsgPackCodec, RawCodec, ToJson, ToMsgPack,
};
use crate::error::{CodecError, Error};
use crate::message::{Message, MessageView};

verus! {

/// Whether encoding as JSON came to what it should: the very text in a text message, or the very
/// error.
pub open spec fn came_of_json_text(
    written: Result<String, JsonError>,
    result: Result<Message, Error>,
) -> bool {
    match written {
        Ok(text) => result matches Ok(message) && message@ == MessageView::Text(text@),
        Err(e) => result matches Err(reported) && reported == Error::Codec(CodecError::Json(e)),
    }
}

/// Whether decoding from JSON came to what it should: the very value, or the very error.
pub open spec fn came_of_json_value<T>(
    read: Result<T, JsonError>,
    result: Result<T, Error>,
) -> bool {
    match read {
        Ok(value) => result == Ok::<T, Error>(value),
        Err(e) => result == Err::<T, Error>(Error::Codec(CodecError::Json(e))),
    }
}

/// Whether encoding as `MessagePack` came to what it should: the very bytes in a binary message, or
/// the very error.
pub open spec fn came_of_msgpack_bytes(
    written: Result<Vec<u8>, MsgPackEncodeError>,
    result: Result<Message, Error>,
) -> bool {
    match written {
        Ok(bytes) => result matches Ok(message) && message@ == MessageView::Binary(bytes@),
        Err(e) => result matches Err(reported) && reported == Error::Codec(
            CodecError::MsgPackEncode(e),
        ),
    }
}

/// Whether decoding from `MessagePack` came to what it should: the very value, or the very error.
pub open spec fn came_of_msgpack_value<T>(
    read: Result<T, MsgPackDecodeError>,
    result: Result<T, Error>,
) -> bool {
    match read {
        Ok(value) => result == Ok::<T, Error>(value),
        Err(e) => result == Err::<T, Error>(Error::Codec(CodecError::MsgPackDecode(e))),
    }
}

/// A JSON codec frames whatever text a value is written as and hands out whatever value is read.
pub proof fn json_framing<Rx, Tx>(
    written: Result<String, JsonError>,
    read: Result<Rx, JsonError>,
    encoded: Result<Message, Error>,
    decoded: Result<Rx, Error>,
)
    requires
        call_ensures(JsonCodec::<Rx, Tx>::encoded, (written,), encoded),
        call_ensures(JsonCodec::<Rx, Tx>::decoded, (read,), decoded),
    ensures
        came_of_json_text(written, encoded),
        came_of_json_value(read, decoded),
{
}

/// A JSON codec encodes every value as the text that it is written as.
pub proof fn json_encodes_what_is_written<
    Rx: FromJson + Send + 'static,
    Tx: ToJson + Send + 'static,
>(codec: JsonCodec<Rx, Tx>, value: Tx, encoded: Result<Message, Error>)
    requires
        call_ensures(<JsonCodec<Rx, Tx> as Codec>::encode, (&codec, &value), encoded),
    ensures
        exists|written: Result<String, JsonError>| #[trigger]
            call_ensures(Tx::to_json, (&value,), written) && came_of_json_text(written, encoded),
{
}

/// A JSON codec decodes every text message as its text reads and every binary message as its bytes
/// read, and hands every other message back.
pub proof fn json_decodes_what_is_read<
    Rx: FromJson + Send + 'static,
    Tx: ToJson + Send + 'static,
>(codec: JsonCodec<Rx, Tx>, frame: Message, decoded: Result<Rx, Error>)
    requires
        call_ensures(<JsonCodec<Rx, Tx> as Codec>::decode, (&codec, &frame), decoded),
    ensures
        match frame {
            Message::Text(text) => exists|s: &str, read: Result<Rx, JsonError>|
                s@ == text@ && #[trigger] call_ensures(Rx::from_json, (s,), read)
                    && came_of_json_value(read, decoded),
            Message::Binary(bytes) => exists|s: &[u8], read: Result<Rx, JsonError>|
                s@ == bytes@ && #[trigger] call_ensures(Rx::from_json_bytes, (s,), read)
                    && came_of_json_value(read, decoded),
            _ => decoded matches Err(Error::UnexpectedMessageType(refused)) && (*refused)@
                == frame@,
        },
{
}

/// A `MessagePack` codec frames whatever bytes a value is written as and hands out whatever value is
/// read.
pub proof fn msgpack_framing<Rx, Tx>(
    written: Result<Vec<u8>, MsgPackEncodeError>,
    read: Result<Rx, MsgPackDecodeError>,
    encoded: Result<Message, Error>,
    decoded: Result<Rx, Error>,
)
    requires
        call_ensures(MsgPackCodec::<Rx, Tx>::encoded, (written,), encoded),
        call_ensures(MsgPackCodec::<Rx, Tx>::decoded, (read,), decoded),
    ensures
        came_of_msgpack_bytes(written, encoded),
        came_of_msgpack_value(read, decoded),
{
}

/// A `MessagePack` codec encodes every value as the bytes that it is written as.
pub proof fn msgpack_encodes_what_is_written<
    Rx: FromMsgPack + Send + 'static,
    Tx: ToMsgPack + Send + 'static,
>(codec: MsgPackCodec<Rx, Tx>, value: Tx, encoded: Result<Message, Error>)
    requires
        call_ensures(<MsgPackCodec<Rx, Tx> as Codec>::encode, (&codec, &value), encoded),
    ensures
        exists|written: Result<Vec<u8>, MsgPackEncodeError>| #[trigger]
            call_ensures(Tx::to_msgpack, (&value,), written) && came_of_msgpack_bytes(
                written,
                encoded,
            ),
{
}

/// A `MessagePack` codec decodes every binary message as its bytes read and hands every other
/// message back.
pub proof fn msgpack_decodes_what_is_read<
    Rx: FromMsgPack + Send + 'static,
    Tx: ToMsgPack + Send + 'static,
>(codec: MsgPackCodec<Rx, Tx>, frame: Message, decoded: Result<Rx, Error>)
    requires
        call_ensures(<MsgPackCodec<Rx, Tx> as Codec>::decode, (&codec, &frame), decoded),
    ensures
        match frame {
            Message::Binary(bytes) => exists|s: &[u8], read: Result<Rx, MsgPackDecodeError>|
                s@ == bytes@ && #[trigger] call_ensures(Rx::from_msgpack, (s,), read)
                    && came_of_msgpack_value(read, decoded),
            _ => decoded matches Err(Error::UnexpectedMessageType(refused)) && (*refused)@
                == frame@,
        },
{
}

/// The identity codec never fails and changes no message, of whatever type.
pub proof fn raw_codec_changes_nothing(
    codec: RawCodec,
    message: Message,
    encoded: Result<Message, Error>,
    decoded: Result<Message, Error>,
)
    requires
        call_ensures(<RawCodec as Codec>::encode, (&codec, &message), encoded),
        call_ensures(<RawCodec as Codec>::decode, (&codec, &message), decoded),
    ensures
        encoded matches Ok(m) && m@ == message@,
        decoded matches Ok(m) && m@ == message@,
{
}

/// Messages are made of just the text or the bytes given, and a clone is a message of the same type
/// that holds the same.
pub proof fn messages_hold_what_they_are_made_of(
    text: &str,
    bytes: Vec<u8>,
    message: Message,
    text_message: Message,
    binary_message: Message,
    copy: Message,
)
    requires
        call_ensures(Message::text, (text,), text_message),
        call_ensures(Message::binary, (bytes,), binary_message),
        call_ensures(<Message as Clone>::clone, (&message,), copy),
    ensures
        text_message matches Message::Text(t) && t@ == text@,
        binary_message matches Message::Binary(b) && b@ == bytes@,
        match (message, copy) {
            (Message::Text(a), Message::Text(b)) => b@ == a@,
            (Message::Binary(a), Message::Binary(b)) => b@ == a@,
            (Message::Ping(a), Message::Ping(b)) => b@ == a@,
            (Message::Pong(a), Message::Pong(b)) => b@ == a@,
            (Message::Close(None), Message::Close(None)) => true,
            (Message::Close(Some(a)), Message::Close(Some(b))) => b.code == a.code && b.reason@
                == a.reason@,
            (Message::Frame(a), Message::Frame(b)) => {
                &&& b.is_final == a.is_final
                &&& b.rsv1 == a.rsv1
                &&& b.rsv2 == a.rsv2
                &&& b.rsv3 == a.rsv3
                &&& b.opcode == a.opcode
                &&& b.mask == a.mask
                &&& b.payload@ == a.payload@
            },
            _ => false,
        },
{
}

} // verus!
