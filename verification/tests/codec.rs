use serde::de::Error as _;
use socketeer::{
    CloseFrame, Codec, CodecError, Error, FromJson, FromMsgPack, JsonCodec, Message, MsgPackCodec,
    RawCodec, RawFrame, ToJson, ToMsgPack,
};

#[derive(Debug, PartialEq)]
struct TestMsg {
    id: u32,
    name: String,
}

fn sample() -> TestMsg {
    TestMsg {
        id: 42,
        name: "hello".into(),
    }
}

fn to_value(message: &TestMsg) -> serde_json::Value {
    let mut object = serde_json::Map::new();
    object.insert("id".to_string(), serde_json::Value::from(message.id));
    object.insert(
        "name".to_string(),
        serde_json::Value::from(message.name.clone()),
    );
    serde_json::Value::Object(object)
}

fn from_value(value: &serde_json::Value) -> Option<TestMsg> {
    Some(TestMsg {
        id: u32::try_from(value.get("id")?.as_u64()?).ok()?,
        name: value.get("name")?.as_str()?.to_string(),
    })
}

impl ToJson for TestMsg {
    fn to_json(&self) -> Result<String, serde_json::Error> {
        serde_json::to_string(&to_value(self))
    }
}

impl FromJson for TestMsg {
    fn from_json(text: &str) -> Result<Self, serde_json::Error> {
        from_value(&serde_json::from_str(text)?).ok_or_else(|| serde_json::Error::custom("no TestMsg"))
    }

    fn from_json_bytes(bytes: &[u8]) -> Result<Self, serde_json::Error> {
        from_value(&serde_json::from_slice(bytes)?)
            .ok_or_else(|| serde_json::Error::custom("no TestMsg"))
    }
}

impl ToMsgPack for TestMsg {
    fn to_msgpack(&self) -> Result<Vec<u8>, rmp_serde::encode::Error> {
        rmp_serde::to_vec_named(&to_value(self))
    }
}

impl FromMsgPack for TestMsg {
    fn from_msgpack(bytes: &[u8]) -> Result<Self, rmp_serde::decode::Error> {
        from_value(&rmp_serde::from_slice(bytes)?)
            .ok_or_else(|| rmp_serde::decode::Error::custom("no TestMsg"))
    }
}

/// A value that no encoding takes.
struct Unencodable;

impl ToJson for Unencodable {
    fn to_json(&self) -> Result<String, serde_json::Error> {
        Err(serde_json::Error::custom("unencodable"))
    }
}

impl ToMsgPack for Unencodable {
    fn to_msgpack(&self) -> Result<Vec<u8>, rmp_serde::encode::Error> {
        Err(rmp_serde::encode::Error::Syntax("unencodable".to_string()))
    }
}

#[test]
fn json_codec_encodes_to_text() {
    let codec: JsonCodec<TestMsg, TestMsg> = JsonCodec::new();
    let frame = codec.encode(&sample()).unwrap();
    let Message::Text(text) = frame else {
        panic!("expected Text frame, got {frame:?}");
    };
    assert!(text.contains("\"id\":42"));
    assert!(text.contains("\"name\":\"hello\""));
}

#[test]
fn json_codec_round_trips_text() {
    let codec: JsonCodec<TestMsg, TestMsg> = JsonCodec::new();
    let frame = codec.encode(&sample()).unwrap();
    assert_eq!(codec.decode(&frame).unwrap(), sample());
}

#[test]
fn json_codec_decodes_binary_for_back_compat() {
    let codec: JsonCodec<TestMsg, TestMsg> = JsonCodec::new();
    let bytes = serde_json::to_vec(&to_value(&sample())).unwrap();
    let decoded = codec.decode(&Message::Binary(bytes)).unwrap();
    assert_eq!(decoded, sample());
}

#[test]
fn json_codec_rejects_ping_frame() {
    let codec: JsonCodec<TestMsg, TestMsg> = JsonCodec::new();
    let result = codec.decode(&Message::Ping(Vec::new()));
    assert!(matches!(
        result.unwrap_err(),
        Error::UnexpectedMessageType(_)
    ));
}

#[test]
fn json_codec_surfaces_decode_failure_as_codec_error() {
    let codec: JsonCodec<TestMsg, TestMsg> = JsonCodec::new();
    let result = codec.decode(&Message::Text("not json".into()));
    assert!(matches!(result.unwrap_err(), Error::Codec(_)));
}

#[test]
fn json_codec_decodes_text_and_its_bytes_alike() {
    let codec: JsonCodec<TestMsg, TestMsg> = JsonCodec::new();
    let text = "{\"id\":7,\"name\":\"gr\u{fc}n\"}";
    let from_text = codec.decode(&Message::text(text)).unwrap();
    let from_bytes = codec
        .decode(&Message::binary(text.as_bytes().to_vec()))
        .unwrap();
    assert_eq!(from_text, from_bytes);
    for bad in ["", "{\"id\":7}"] {
        assert!(matches!(
            codec.decode(&Message::text(bad)),
            Err(Error::Codec(CodecError::Json(_)))
        ));
        assert!(matches!(
            codec.decode(&Message::binary(bad.as_bytes().to_vec())),
            Err(Error::Codec(CodecError::Json(_)))
        ));
    }
}

#[allow(clippy::clone_on_copy)]
#[test]
fn codecs_are_interchangeable() {
    let json: JsonCodec<TestMsg, TestMsg> = JsonCodec::new();
    for other in [JsonCodec::default(), json.clone()] {
        let frame = json.encode(&sample()).unwrap();
        assert_eq!(other.encode(&sample()).unwrap(), frame);
        assert_eq!(other.decode(&frame).unwrap(), json.decode(&frame).unwrap());
    }
    let msgpack: MsgPackCodec<TestMsg, TestMsg> = MsgPackCodec::new();
    for other in [MsgPackCodec::default(), msgpack.clone()] {
        let frame = msgpack.encode(&sample()).unwrap();
        assert_eq!(other.encode(&sample()).unwrap(), frame);
        assert_eq!(
            other.decode(&frame).unwrap(),
            msgpack.decode(&frame).unwrap()
        );
    }
}

#[test]
fn json_codec_surfaces_encode_failure_as_codec_error() {
    let codec: JsonCodec<TestMsg, Unencodable> = JsonCodec::new();
    assert!(matches!(
        codec.encode(&Unencodable).unwrap_err(),
        Error::Codec(CodecError::Json(_))
    ));
}

#[test]
fn json_codec_hands_back_what_it_does_not_accept() {
    let codec: JsonCodec<TestMsg, TestMsg> = JsonCodec::new();
    let close = Message::Close(Some(CloseFrame {
        code: 1001,
        reason: "bye".to_string(),
    }));
    let Error::UnexpectedMessageType(refused) = codec.decode(&close).unwrap_err() else {
        panic!("expected the message back");
    };
    assert_eq!(*refused, close);
}

#[test]
fn msgpack_codec_encodes_to_binary() {
    let codec: MsgPackCodec<TestMsg, TestMsg> = MsgPackCodec::new();
    let frame = codec.encode(&sample()).unwrap();
    assert!(matches!(frame, Message::Binary(_)));
}

#[test]
fn msgpack_codec_round_trips_binary() {
    let codec: MsgPackCodec<TestMsg, TestMsg> = MsgPackCodec::new();
    let frame = codec.encode(&sample()).unwrap();
    assert_eq!(codec.decode(&frame).unwrap(), sample());
}

#[test]
fn msgpack_codec_rejects_text_frame() {
    let codec: MsgPackCodec<TestMsg, TestMsg> = MsgPackCodec::new();
    let result = codec.decode(&Message::Text("not msgpack".into()));
    assert!(matches!(
        result.unwrap_err(),
        Error::UnexpectedMessageType(_)
    ));
}

#[test]
fn msgpack_codec_surfaces_decode_failure_as_codec_error() {
    let codec: MsgPackCodec<TestMsg, TestMsg> = MsgPackCodec::new();
    let result = codec.decode(&Message::Binary(b"not msgpack".to_vec()));
    assert!(matches!(result.unwrap_err(), Error::Codec(_)));
}

#[test]
fn msgpack_codec_surfaces_encode_failure_as_codec_error() {
    let codec: MsgPackCodec<TestMsg, Unencodable> = MsgPackCodec::new();
    assert!(matches!(
        codec.encode(&Unencodable).unwrap_err(),
        Error::Codec(CodecError::MsgPackEncode(_))
    ));
}

#[test]
fn raw_codec_round_trips_text() {
    let codec = RawCodec::new();
    let frame = Message::Text("raw text".into());
    assert_eq!(codec.encode(&frame).unwrap(), frame);
    assert_eq!(codec.decode(&frame).unwrap(), frame);
}

#[test]
fn raw_codec_round_trips_binary() {
    let codec = RawCodec::new();
    let frame = Message::Binary(b"raw bytes".to_vec());
    assert_eq!(codec.encode(&frame).unwrap(), frame);
    assert_eq!(codec.decode(&frame).unwrap(), frame);
}

#[test]
fn raw_codec_passes_protocol_frames_through() {
    let codec = RawCodec::new();
    let frame = Message::Ping(b"ping".to_vec());
    assert_eq!(codec.decode(&frame).unwrap(), frame);
}

#[test]
fn raw_codec_round_trips_every_kind_of_message() {
    let codec = RawCodec;
    let frames = vec![
        Message::Text(String::new()),
        Message::Binary(vec![0, 255]),
        Message::Ping(vec![1]),
        Message::Pong(vec![2]),
        Message::Close(None),
        Message::Close(Some(CloseFrame {
            code: 1000,
            reason: "done".to_string(),
        })),
        Message::Frame(RawFrame {
            is_final: true,
            rsv1: false,
            rsv2: true,
            rsv3: false,
            opcode: 2,
            mask: Some([1, 2, 3, 4]),
            payload: vec![5, 6],
        }),
    ];
    for frame in frames {
        let encoded = codec.encode(&frame).unwrap();
        assert_eq!(codec.decode(&encoded).unwrap(), frame);
    }
}

#[allow(clippy::clone_on_copy)]
#[test]
fn json_codec_debug_default_clone() {
    let codec: JsonCodec<TestMsg, TestMsg> = JsonCodec::default();
    let _cloned = codec.clone();
    assert_eq!(format!("{codec:?}"), "JsonCodec");
    assert_eq!(codec.label(), "JsonCodec");
}

#[allow(clippy::clone_on_copy)]
#[test]
fn msgpack_codec_debug_default_clone() {
    let codec: MsgPackCodec<TestMsg, TestMsg> = MsgPackCodec::default();
    let _cloned = codec.clone();
    assert_eq!(format!("{codec:?}"), "MsgPackCodec");
    assert_eq!(codec.label(), "MsgPackCodec");
}

#[allow(clippy::clone_on_copy)]
#[test]
fn raw_codec_debug_clone() {
    let codec = RawCodec::new();
    let _cloned = codec.clone();
    assert_eq!(format!("{codec:?}"), "RawCodec");
}
