//! A WebSocket client that keeps the protocol alive by itself.
//!
//! A connection has a socket loop, which owns the WebSocket stream, answers pings, sends
//! keepalives and holds back when its consumer is behind, and a handle, [`Socketeer`], which
//! sends and receives values through a [`Codec`]. This crate holds all that they decide, as state
//! machines and functions on plain values. Whoever drives them does the waiting and the I/O.
pub mod client;
pub mod client_laws;
pub mod codec;
pub mod codec_laws;
pub mod config;
pub mod config_laws;
pub mod error;
pub mod handle;
pub mod handler;
pub mod headers;
pub mod loop_laws;
pub mod message;
pub mod mock_server;
pub mod outside;
pub mod server_laws;
pub mod server_step_laws;
pub mod socket_loop;
pub mod split;
pub mod step_laws;

pub use bytes::Bytes;
pub use client::{
    Dialing, Greeting, Reconnecting, Retired, Setup, Socketeer, Starting, TerminalError,
    DEFAULT_CHANNEL_SIZE,
};
pub use codec::{Codec, FromJson, FromMsgPack, JsonCodec, MsgPackCodec, RawCodec, ToJson, ToMsgPack};
pub use config::{ConnectOptions, ConnectOptionsBuilder};
pub use error::{CodecError, Error};
pub use handler::{HandshakeContext, NoopHandler};
pub use message::{CloseFrame, Message, RawFrame};
pub use mock_server::{
    auth_echo_server, backpressure_probe_server, echo_server, msgpack_echo_server,
    EchoControlMessage,
};
pub use socket_loop::WebSocketStreamType;
pub use split::{ReuniteError, SocketeerRx, SocketeerTx};
pub use tokio_tungstenite::tungstenite;
pub use tokio_tungstenite::tungstenite::http;
