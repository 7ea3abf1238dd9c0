//! Whole connections, with client and server driven in turns over queues in place of a network.

use std::collections::{HashSet, VecDeque};
use std::sync::{Arc, Mutex};
use std::time::Duration;

use serde::de::Error as _;
use socketeer::handle::{close_confirmed, confirmed, queued, record_terminal_error, Confirmation, Polled};
use socketeer::mock_server::{
    AuthEchoServer, AuthMessage, EchoServer, ProbeServer, ServerAction, ServerEvent,
};
use socketeer::socket_loop::{Capacity, LoopAction, LoopEvent, SocketLoop, TxChannelPayload};
use socketeer::tungstenite::error::ProtocolError;
use socketeer::tungstenite::Error as WsError;
use socketeer::{
    auth_echo_server, backpressure_probe_server, echo_server, msgpack_echo_server, CloseFrame,
    Codec, ConnectOptions, EchoControlMessage, Error, FromJson, FromMsgPack, HandshakeContext,
    JsonCodec, Message, MsgPackCodec, NoopHandler, RawCodec, Socketeer, ToJson, ToMsgPack,
};
use tokio::sync::{mpsc, oneshot};

const URL: &str = "ws://127.0.0.1:9001";

/// A control message as it travels.
#[derive(Clone, Debug, PartialEq)]
struct Echo(EchoControlMessage);

type EchoJson = JsonCodec<Echo, Echo>;
type EchoMsgPack = MsgPackCodec<Echo, Echo>;

fn echo(text: &str) -> Echo {
    Echo(EchoControlMessage::Message(text.to_string()))
}

fn to_value(control: &EchoControlMessage) -> serde_json::Value {
    let unit = |name: &str| serde_json::Value::from(name);
    match control {
        EchoControlMessage::Message(text) => {
            let mut object = serde_json::Map::new();
            object.insert("Message".to_string(), serde_json::Value::from(text.clone()));
            serde_json::Value::Object(object)
        }
        EchoControlMessage::SendPing => unit("SendPing"),
        EchoControlMessage::Close => unit("Close"),
        EchoControlMessage::Abort => unit("Abort"),
    }
}

fn from_value(value: &serde_json::Value) -> Option<Echo> {
    let control = match value.as_str() {
        Some("SendPing") => EchoControlMessage::SendPing,
        Some("Close") => EchoControlMessage::Close,
        Some("Abort") => EchoControlMessage::Abort,
        _ => EchoControlMessage::Message(value.get("Message")?.as_str()?.to_string()),
    };
    Some(Echo(control))
}

impl ToJson for Echo {
    fn to_json(&self) -> Result<String, serde_json::Error> {
        serde_json::to_string(&to_value(&self.0))
    }
}

impl FromJson for Echo {
    fn from_json(text: &str) -> Result<Self, serde_json::Error> {
        from_value(&serde_json::from_str(text)?).ok_or_else(|| serde_json::Error::custom("no control"))
    }

    fn from_json_bytes(bytes: &[u8]) -> Result<Self, serde_json::Error> {
        from_value(&serde_json::from_slice(bytes)?)
            .ok_or_else(|| serde_json::Error::custom("no control"))
    }
}

impl ToMsgPack for Echo {
    fn to_msgpack(&self) -> Result<Vec<u8>, rmp_serde::encode::Error> {
        rmp_serde::to_vec_named(&to_value(&self.0))
    }
}

impl FromMsgPack for Echo {
    fn from_msgpack(bytes: &[u8]) -> Result<Self, rmp_serde::decode::Error> {
        from_value(&rmp_serde::from_slice(bytes)?)
            .ok_or_else(|| rmp_serde::decode::Error::custom("no control"))
    }
}

type Action = ServerAction<Message, String>;

enum Machine {
    Echo(EchoServer),
    Auth(AuthEchoServer),
    Probe(ProbeServer),
}

/// A server and the two directions of its connection.
struct Server {
    machine: Option<Machine>,
    action: Option<Action>,
    to_server: VecDeque<Message>,
    to_client: VecDeque<Message>,
    time_is_up: bool,
    client_gone: bool,
    closed: bool,
    finished: Option<bool>,
}

impl Server {
    fn new(machine: Machine, action: Action) -> Self {
        Server {
            machine: Some(machine),
            action: Some(action),
            to_server: VecDeque::new(),
            to_client: VecDeque::new(),
            time_is_up: false,
            client_gone: false,
            closed: false,
            finished: None,
        }
    }

    fn echo() -> Self {
        let (server, action) = echo_server();
        Self::new(Machine::Echo(server), action)
    }

    fn msgpack() -> Self {
        let (server, action) = msgpack_echo_server();
        Self::new(Machine::Echo(server), action)
    }

    fn auth() -> Self {
        let (server, action) = auth_echo_server();
        Self::new(Machine::Auth(server), action)
    }

    fn probe() -> Self {
        let (server, action) = backpressure_probe_server();
        Self::new(Machine::Probe(server), action)
    }

    fn step(&mut self, event: ServerEvent<Message>) {
        let (machine, action) = match self.machine.take().unwrap() {
            Machine::Echo(server) => {
                let Ok((server, action)) = server.step(event) else {
                    panic!("event not expected");
                };
                (Machine::Echo(server), action)
            }
            Machine::Auth(server) => {
                let Ok((server, action)) = server.step(event) else {
                    panic!("event not expected");
                };
                (Machine::Auth(server), action)
            }
            Machine::Probe(server) => {
                let Ok((server, action)) = server.step(event) else {
                    panic!("event not expected");
                };
                (Machine::Probe(server), action)
            }
        };
        self.machine = Some(machine);
        self.action = Some(action);
    }

    fn send(&mut self, message: Message) {
        self.closed = self.closed || matches!(message, Message::Close(_));
        self.to_client.push_back(message);
        self.step(ServerEvent::Sent(Ok(())));
    }

    /// A close is answered with a close, once, whatever the server does with it.
    fn reply_close(&mut self) {
        if !self.closed {
            self.closed = true;
            self.to_client.push_back(Message::Close(None));
        }
    }

    /// Runs until the server has stopped or has nothing to receive.
    fn run(&mut self) {
        while let Some(action) = self.action.take() {
            match action {
                ServerAction::Receive | ServerAction::ReceiveWithin(_) => {
                    if let Some(message) = self.to_server.pop_front() {
                        if matches!(message, Message::Close(_)) {
                            self.reply_close();
                            self.client_gone = true;
                        }
                        self.step(ServerEvent::Received(Some(Ok(message))));
                    } else if self.client_gone {
                        self.step(ServerEvent::Received(None));
                    } else if self.time_is_up && matches!(action, ServerAction::ReceiveWithin(_)) {
                        self.step(ServerEvent::TimedOut);
                    } else {
                        self.action = Some(action);
                        return;
                    }
                }
                ServerAction::Decode(Message::Text(text)) => {
                    let control = Echo::from_json(&text).unwrap();
                    self.step(ServerEvent::Decoded(control.0));
                }
                ServerAction::Decode(Message::Binary(bytes)) => {
                    let control = Echo::from_msgpack(&bytes).unwrap();
                    self.step(ServerEvent::Decoded(control.0));
                }
                ServerAction::DecodeAuth(Message::Text(text)) => {
                    let auth = serde_json::from_str::<serde_json::Value>(&text)
                        .ok()
                        .and_then(|value| {
                            Some(AuthMessage {
                                action: value.get("action")?.as_str()?.to_string(),
                                token: value.get("token")?.as_str()?.to_string(),
                            })
                        });
                    self.step(ServerEvent::AuthDecoded(auth));
                }
                ServerAction::Decode(other) | ServerAction::DecodeAuth(other) => {
                    panic!("nothing to decode in {other:?}")
                }
                ServerAction::Send(message) => self.send(message),
                ServerAction::SendControl(text) => {
                    let text = Echo(EchoControlMessage::Message(text)).to_json().unwrap();
                    self.send(Message::Text(text));
                }
                ServerAction::CloseSink => {
                    self.reply_close();
                    self.step(ServerEvent::SinkClosed(Ok(())));
                }
                ServerAction::Finish(result) => self.finished = Some(result.unwrap()),
                ServerAction::Panic(e) => panic!("{e}"),
            }
        }
    }

    /// What the client reads next, if there is anything to read.
    fn read(&mut self) -> Option<Option<Result<Message, WsError>>> {
        if let Some(message) = self.to_client.pop_front() {
            Some(Some(Ok(message)))
        } else if self.finished.is_none() {
            None
        } else if self.closed {
            Some(None)
        } else {
            Some(Some(Err(WsError::Protocol(
                ProtocolError::ResetWithoutClosingHandshake,
            ))))
        }
    }
}

/// A running socket loop with its ends of the channels and its connection.
struct Task {
    socket_loop: Option<SocketLoop>,
    action: Option<LoopAction<Message>>,
    outgoing: Option<mpsc::Receiver<TxChannelPayload<Message>>>,
    incoming: Option<mpsc::Sender<Message>>,
    slot: Arc<Mutex<Option<Error>>>,
    server: Server,
    ticks: usize,
    keepalives: usize,
    sink_broken: bool,
}

impl Task {
    fn step(&mut self, event: LoopEvent<Message>) {
        let Ok((socket_loop, action)) = self.socket_loop.take().unwrap().step(event) else {
            panic!("event not expected");
        };
        self.socket_loop = Some(socket_loop);
        self.action = Some(action);
    }

    fn sink(&mut self) -> Result<(), WsError> {
        if self.sink_broken {
            Err(WsError::ConnectionClosed)
        } else {
            Ok(())
        }
    }

    fn capacity(&self) -> Capacity {
        match self.incoming.as_ref().unwrap().try_reserve() {
            Ok(_permit) => Capacity::Available,
            Err(mpsc::error::TrySendError::Full(())) => Capacity::Full,
            Err(mpsc::error::TrySendError::Closed(())) => Capacity::Closed,
        }
    }

    /// What happens next while the loop waits, if anything does.
    fn await_event(&mut self, incoming: bool, capacity: bool, keepalive: bool) -> Option<LoopEvent<Message>> {
        match self.outgoing.as_mut().unwrap().try_recv() {
            Ok(payload) => return Some(LoopEvent::Outgoing(Some(payload))),
            Err(mpsc::error::TryRecvError::Disconnected) => return Some(LoopEvent::Outgoing(None)),
            Err(mpsc::error::TryRecvError::Empty) => {}
        }
        if incoming {
            if let Some(read) = self.server.read() {
                return Some(LoopEvent::Incoming(read));
            }
        }
        if capacity {
            let capacity = self.capacity();
            if capacity != Capacity::Full {
                return Some(LoopEvent::Room(capacity));
            }
        }
        if keepalive && self.ticks > 0 {
            self.ticks -= 1;
            self.keepalives += 1;
            return Some(LoopEvent::KeepaliveDue);
        }
        None
    }

    /// Lets client and server run until neither has anything to do.
    fn run(&mut self) {
        self.server.run();
        while let Some(action) = self.action.take() {
            match action {
                LoopAction::Wait {
                    incoming,
                    capacity,
                    keepalive,
                } => match self.await_event(incoming, capacity, keepalive.is_some()) {
                    Some(event) => self.step(event),
                    None => {
                        self.action = Some(LoopAction::Wait {
                            incoming,
                            capacity,
                            keepalive,
                        });
                        return;
                    }
                },
                LoopAction::Send(message) => {
                    let sent = self.sink();
                    if sent.is_ok() {
                        self.server.to_server.push_back(message);
                    }
                    self.server.run();
                    self.step(LoopEvent::FrameSent(sent));
                }
                LoopAction::CloseSink => {
                    let closed = self.sink();
                    self.server.client_gone = true;
                    self.server.run();
                    self.step(LoopEvent::SinkClosed(closed));
                }
                LoopAction::Answer(response_tx, result) => {
                    let taken = response_tx.send(result).is_ok();
                    self.step(LoopEvent::Answered(taken));
                }
                LoopAction::AskRoom => {
                    let capacity = self.capacity();
                    self.step(LoopEvent::Room(capacity));
                }
                LoopAction::Deliver(frame) => {
                    self.incoming.as_ref().unwrap().try_send(frame).unwrap();
                    self.step(LoopEvent::Handed);
                }
                LoopAction::Finish(cause) => {
                    record_terminal_error(&mut self.slot.lock().unwrap(), cause);
                    self.outgoing = None;
                    self.incoming = None;
                    self.server.client_gone = true;
                    self.server.run();
                }
            }
        }
    }

    fn has_ended(&self) -> bool {
        self.incoming.is_none()
    }

    fn confirm(
        &mut self,
        sender: &mpsc::Sender<TxChannelPayload<Message>>,
        payload: TxChannelPayload<Message>,
        mut response: oneshot::Receiver<Result<(), Error>>,
    ) -> Confirmation {
        if sender.try_send(payload).is_err() {
            return Confirmation::NotQueued;
        }
        self.run();
        match response.try_recv() {
            Ok(result) => Confirmation::Answered(result),
            Err(oneshot::error::TryRecvError::Closed) => Confirmation::Unanswered,
            Err(oneshot::error::TryRecvError::Empty) => panic!("waits forever"),
        }
    }
}

/// The handshake of a test: what a handler does when it is connected.
type Handshake<C, H> = fn(&mut H, &HandshakeContext<'_, C>, &mut Server) -> Result<(), Error>;

fn no_handshake<C: Codec, H>(
    _: &mut H,
    _: &HandshakeContext<'_, C>,
    _: &mut Server,
) -> Result<(), Error> {
    Ok(())
}

fn handshake_send<C: Codec>(
    context: &HandshakeContext<'_, C>,
    server: &mut Server,
    message: Message,
) -> Result<(), Error> {
    server.to_server.push_back(message);
    server.run();
    context.sent(Ok(()))
}

fn recv_text<C: Codec>(
    context: &HandshakeContext<'_, C>,
    server: &mut Server,
) -> Result<String, Error> {
    loop {
        let read = server.read().expect("nothing to read");
        if let Some(result) = context.recv_text(read) {
            return result;
        }
    }
}

fn recv_raw<C: Codec>(
    context: &HandshakeContext<'_, C>,
    server: &mut Server,
) -> Result<Message, Error> {
    loop {
        let read = server.read().expect("nothing to read");
        if let Some(result) = context.recv_raw(read) {
            return result;
        }
    }
}

fn recv<C: Codec>(
    context: &HandshakeContext<'_, C>,
    server: &mut Server,
) -> Result<C::Rx, Error> {
    loop {
        let read = server.read().expect("nothing to read");
        if let Some(result) = context.recv(read) {
            return result;
        }
    }
}

fn start<C: Codec, H, const N: usize>(
    dialing: socketeer::Dialing<C, H, N>,
    mut server: Server,
    handshake: Handshake<C, H>,
) -> Result<(Socketeer<C, H, N>, Task), Error> {
    let mut greeting = dialing.upgraded(Ok(()))?;
    server.run();
    let context = HandshakeContext::new(greeting.setup.codec());
    let greeted = handshake(&mut greeting.handler, &context, &mut server);
    let (socket_loop, action, starting) = greeting.greeted(greeted)?;
    let (tx_tx, tx_rx) = mpsc::channel(N);
    let (rx_tx, rx_rx) = mpsc::channel(N);
    let slot = Arc::new(Mutex::new(None));
    let runtime = tokio::runtime::Builder::new_current_thread().build().unwrap();
    let socket_handle = runtime.spawn(async {});
    let task = Task {
        socket_loop: Some(socket_loop),
        action: Some(action),
        outgoing: Some(tx_rx),
        incoming: Some(rx_tx),
        slot: Arc::clone(&slot),
        server,
        ticks: 0,
        keepalives: 0,
        sink_broken: false,
    };
    Ok((starting.started(rx_rx, tx_tx, socket_handle, slot), task))
}

fn connect<C: Codec + Default, const N: usize>(
    server: Server,
    options: ConnectOptions,
) -> (Socketeer<C, NoopHandler, N>, Task) {
    let (_request, dialing) = Socketeer::connect_with(URL, options).unwrap();
    start(dialing, server, no_handshake).unwrap()
}

fn connect_json(server: Server) -> (Socketeer<EchoJson, NoopHandler, 256>, Task) {
    let (_request, dialing) = Socketeer::connect(URL).unwrap();
    start(dialing, server, no_handshake).unwrap()
}

fn connect_handler<C: Codec, H>(
    server: Server,
    codec: C,
    handler: H,
    handshake: Handshake<C, H>,
) -> Result<(Socketeer<C, H, 256>, Task), Error> {
    let (_request, dialing) =
        Socketeer::connect_with_codec(URL, ConnectOptions::default(), codec, handler).unwrap();
    start(dialing, server, handshake)
}

fn send<C: Codec, H, const N: usize>(
    socketeer: &Socketeer<C, H, N>,
    task: &mut Task,
    message: C::Tx,
) -> Result<(), Error> {
    let (response_tx, response) = oneshot::channel();
    let payload = socketeer.send(message, response_tx)?;
    let confirmation = task.confirm(socketeer.sender(), payload, response);
    confirmed(confirmation, &mut socketeer.terminal_error().lock().unwrap())
}

fn send_raw<C: Codec, H, const N: usize>(
    socketeer: &Socketeer<C, H, N>,
    task: &mut Task,
    message: Message,
) -> Result<(), Error> {
    let (response_tx, response) = oneshot::channel();
    let payload = socketeer.send_raw(message, response_tx);
    let confirmation = task.confirm(socketeer.sender(), payload, response);
    confirmed(confirmation, &mut socketeer.terminal_error().lock().unwrap())
}

/// Takes the next message out of the channel.
fn take<C: Codec, H, const N: usize>(
    socketeer: &mut Socketeer<C, H, N>,
    task: &mut Task,
) -> Option<Message> {
    task.run();
    let message = match socketeer.receiver().try_recv() {
        Ok(message) => Some(message),
        Err(mpsc::error::TryRecvError::Disconnected) => None,
        Err(mpsc::error::TryRecvError::Empty) => panic!("waits forever"),
    };
    task.run();
    message
}

fn next_message<C: Codec, H, const N: usize>(
    socketeer: &mut Socketeer<C, H, N>,
    task: &mut Task,
) -> Result<C::Rx, Error> {
    let message = take(socketeer, task);
    let slot = Arc::clone(socketeer.terminal_error());
    let mut slot = slot.lock().unwrap();
    socketeer.next_message(message, &mut slot)
}

fn next_raw_message<C: Codec, H, const N: usize>(
    socketeer: &mut Socketeer<C, H, N>,
    task: &mut Task,
) -> Result<Message, Error> {
    let message = take(socketeer, task);
    let slot = Arc::clone(socketeer.terminal_error());
    let mut slot = slot.lock().unwrap();
    socketeer.next_raw_message(message, &mut slot)
}

fn close<H, C: Codec, const N: usize>(
    socketeer: Socketeer<C, H, N>,
    task: &mut Task,
) -> Result<(), Error> {
    let (response_tx, response) = oneshot::channel();
    let payload = socketeer::handle::send_close(response_tx);
    let close_sent = close_confirmed(task.confirm(socketeer.sender(), payload, response));
    task.run();
    assert!(task.has_ended());
    let (retired, _setup, _handler) = socketeer.retire();
    let mut slot = retired.terminal_error.lock().unwrap();
    Socketeer::<C, H, N>::close_connection(close_sent, &mut slot)
}

#[test]
fn test_connection() {
    let (_socketeer, mut task) = connect_json(Server::echo());
    task.run();
    assert!(!task.has_ended());
}

#[test]
fn test_bad_url() {
    let error = Socketeer::<EchoJson, NoopHandler, 256>::connect("Not a URL");
    let Err(Error::UrlParse { url, source }) = error else {
        panic!("expected a parse error");
    };
    assert_eq!(url, "Not a URL");
    assert_eq!(source, url::ParseError::RelativeUrlWithoutBase);
}

#[test]
fn connecting_asks_for_the_url_as_it_is_written_out() {
    let (request, dialing) =
        Socketeer::<EchoJson, NoopHandler, 256>::connect("WS://EXAMPLE.com").unwrap();
    assert_eq!(dialing.setup.url().as_str(), "ws://example.com/");
    assert_eq!(request.uri().to_string(), "ws://example.com/");
    assert_eq!(request.headers().get("host").unwrap(), "example.com");
}

#[test]
fn dialing_goes_by_what_the_text_was_parsed_as() {
    let options = ConnectOptions::default();
    let parsed = url::Url::parse("ws://example.com/there");
    let (request, dialing) =
        Socketeer::<RawCodec, NoopHandler, 256>::dial("text", parsed, options, RawCodec, NoopHandler)
            .unwrap();
    assert_eq!(request.uri().path(), "/there");
    assert_eq!(dialing.setup.url().as_str(), "ws://example.com/there");
    let result = Socketeer::<RawCodec, NoopHandler, 256>::dial(
        "text",
        Err(url::ParseError::EmptyHost),
        ConnectOptions::default(),
        RawCodec,
        NoopHandler,
    );
    assert!(matches!(
        result.err().unwrap(),
        Error::UrlParse { url, source: url::ParseError::EmptyHost } if url == "text"
    ));
}

#[test]
fn url_that_cannot_be_asked_for_is_a_websocket_error() {
    let result = Socketeer::<EchoJson, NoopHandler, 256>::connect("file:///etc/hosts");
    assert!(matches!(result.err().unwrap(), Error::WebsocketError(_)));
}

#[test]
fn failed_upgrade_is_a_websocket_error() {
    let (_request, dialing) = Socketeer::<EchoJson, NoopHandler, 256>::connect(URL).unwrap();
    let error = dialing.upgraded(Err(WsError::ConnectionClosed)).err().unwrap();
    assert!(matches!(
        error,
        Error::WebsocketError(WsError::ConnectionClosed)
    ));
}

#[test]
fn failed_handshake_is_reported_as_it_is() {
    let result = connect_handler(Server::echo(), RawCodec, NoopHandler, |_, _, _| {
        Err(Error::SocketeerDroppedWithoutClosing)
    });
    assert!(matches!(
        result.err().unwrap(),
        Error::SocketeerDroppedWithoutClosing
    ));
}

#[test]
fn test_send_receive() {
    let (mut socketeer, mut task) = connect_json(Server::echo());
    let message = echo("Hello");
    send(&socketeer, &mut task, message.clone()).unwrap();
    let received_message = next_message(&mut socketeer, &mut task).unwrap();
    assert_eq!(message, received_message);
}

#[test]
fn test_ping_request() {
    let (mut socketeer, mut task) = connect_json(Server::echo());
    send(&socketeer, &mut task, Echo(EchoControlMessage::SendPing)).unwrap();
    let message = echo("Hello");
    send(&socketeer, &mut task, message.clone()).unwrap();
    let received_message = next_message(&mut socketeer, &mut task).unwrap();
    assert_eq!(received_message, message);
    task.ticks = 1;
    task.run();
    assert_eq!(task.keepalives, 1);
    close(socketeer, &mut task).unwrap();
}

#[test]
fn test_reconnection() {
    let (mut socketeer, mut task) = connect_json(Server::echo());
    let message = echo("Hello");
    send(&socketeer, &mut task, message.clone()).unwrap();
    assert_eq!(next_message(&mut socketeer, &mut task).unwrap(), message);

    let (retired, reconnecting) = socketeer.reconnect();
    let (response_tx, response) = oneshot::channel();
    let payload = socketeer::handle::send_close(response_tx);
    let close_sent = close_confirmed(task.confirm(&retired.sender, payload, response));
    assert!(close_sent.is_ok());
    let (request, dialing) = reconnecting.redial(close_sent).unwrap();
    assert_eq!(request.uri().to_string(), "ws://127.0.0.1:9001/");
    let (mut socketeer, mut task) = start(dialing, Server::echo(), no_handshake).unwrap();

    let message = echo("Hello");
    send(&socketeer, &mut task, message.clone()).unwrap();
    assert_eq!(next_message(&mut socketeer, &mut task).unwrap(), message);
    close(socketeer, &mut task).unwrap();
}

#[test]
fn reconnecting_goes_on_when_the_connection_is_closed_already() {
    let (mut socketeer, mut task) = connect_json(Server::echo());
    send(&socketeer, &mut task, Echo(EchoControlMessage::Close)).unwrap();
    assert!(next_message(&mut socketeer, &mut task).is_err());
    let (retired, reconnecting) = socketeer.reconnect();
    let (response_tx, response) = oneshot::channel();
    let payload = socketeer::handle::send_close(response_tx);
    let close_sent = close_confirmed(task.confirm(&retired.sender, payload, response));
    assert!(matches!(close_sent, Err(Error::WebsocketClosed)));
    assert!(reconnecting.redial(close_sent).is_ok());
}

#[test]
fn test_closed_socket() {
    let (mut socketeer, mut task) = connect_json(Server::echo());
    let close_request = Echo(EchoControlMessage::Close);
    send(&socketeer, &mut task, close_request.clone()).unwrap();
    let response = next_message(&mut socketeer, &mut task);
    assert!(matches!(response.unwrap_err(), Error::WebsocketClosed));
    let error = send(&socketeer, &mut task, close_request).unwrap_err();
    assert!(matches!(error, Error::WebsocketClosed));
    assert_eq!(task.server.finished, Some(true));
}

#[test]
fn test_abrupt_close_surfaces_websocket_error() {
    let (mut socketeer, mut task) = connect_json(Server::echo());
    send(&socketeer, &mut task, Echo(EchoControlMessage::Abort)).unwrap();
    let err = next_message(&mut socketeer, &mut task).unwrap_err();
    assert!(
        matches!(err, Error::WebsocketError(_)),
        "expected the underlying WebsocketError, got {err:?}"
    );
    let err = next_message(&mut socketeer, &mut task).unwrap_err();
    assert!(matches!(err, Error::WebsocketClosed));
}

#[test]
fn test_close_request() {
    let (socketeer, mut task) = connect_json(Server::echo());
    close(socketeer, &mut task).unwrap();
    assert_eq!(task.server.finished, Some(false));
}

#[test]
fn closing_reports_the_cause_that_the_loop_recorded() {
    let (socketeer, mut task) = connect_json(Server::echo());
    task.sink_broken = true;
    let error = close(socketeer, &mut task).unwrap_err();
    assert!(matches!(error, Error::WebsocketClosed));
}

#[test]
fn failed_send_is_reported_with_the_error_of_the_sink() {
    let (mut socketeer, mut task) = connect_json(Server::echo());
    task.sink_broken = true;
    let error = send(&socketeer, &mut task, echo("lost")).unwrap_err();
    assert!(matches!(
        error,
        Error::WebsocketError(WsError::ConnectionClosed)
    ));
    let error = next_message(&mut socketeer, &mut task).unwrap_err();
    assert!(matches!(error, Error::WebsocketClosed));
}

#[test]
fn send_that_is_queued_behind_the_end_of_the_loop_fails() {
    let (socketeer, mut task) = connect_json(Server::echo());
    let (first_tx, _first) = oneshot::channel();
    let (late_tx, late) = oneshot::channel();
    let first = socketeer.send_raw(Message::text("first"), first_tx);
    task.sink_broken = true;
    assert!(socketeer.sender().try_send(first).is_ok());
    let payload = socketeer.send(echo("late"), late_tx).unwrap();
    let confirmation = task.confirm(socketeer.sender(), payload, late);
    assert!(matches!(confirmation, Confirmation::Unanswered));
    let result = confirmed(confirmation, &mut socketeer.terminal_error().lock().unwrap());
    assert!(matches!(result.unwrap_err(), Error::WebsocketClosed));
}

#[test]
fn test_connect_with_default_options() {
    let (mut socketeer, mut task) =
        connect::<EchoJson, 256>(Server::echo(), ConnectOptions::default());
    let message = echo("Hello");
    send(&socketeer, &mut task, message.clone()).unwrap();
    assert_eq!(next_message(&mut socketeer, &mut task).unwrap(), message);
}

#[test]
fn test_raw_codec_message_roundtrip() {
    let (mut socketeer, mut task) =
        connect::<RawCodec, 256>(Server::echo(), ConnectOptions::default());
    let raw_text = r#"{"Message":"raw hello"}"#;
    send(&socketeer, &mut task, Message::Text(raw_text.into())).unwrap();
    let received = next_message(&mut socketeer, &mut task).unwrap();
    assert_eq!(received, Message::Text(raw_text.into()));
}

#[test]
fn test_disabled_keepalive() {
    let options = ConnectOptions::builder().keepalive_interval(None).build();
    let (mut socketeer, mut task) = connect::<EchoJson, 256>(Server::echo(), options);
    task.ticks = 3;
    let message = echo("Hello");
    send(&socketeer, &mut task, message.clone()).unwrap();
    assert_eq!(next_message(&mut socketeer, &mut task).unwrap(), message);
    assert_eq!(task.keepalives, 0);
}

/// Counts the calls of its hooks.
#[derive(Clone, Default)]
struct CountingHandler {
    connected_count: Arc<Mutex<u32>>,
    disconnected_count: Arc<Mutex<u32>>,
}

fn authenticate(
    handler: &mut CountingHandler,
    context: &HandshakeContext<'_, EchoJson>,
    server: &mut Server,
) -> Result<(), Error> {
    let auth = context.send_text(r#"{"action":"auth","token":"test-token"}"#);
    handshake_send(context, server, auth)?;
    assert_eq!(recv_text(context, server)?, r#"{"status":"authenticated"}"#);
    *handler.connected_count.lock().unwrap() += 1;
    Ok(())
}

#[test]
fn test_handler_on_connected() {
    let handler = CountingHandler::default();
    let (mut socketeer, mut task) =
        connect_handler(Server::auth(), EchoJson::new(), handler.clone(), authenticate).unwrap();
    assert_eq!(*handler.connected_count.lock().unwrap(), 1);
    let message = echo("after auth");
    send(&socketeer, &mut task, message.clone()).unwrap();
    assert_eq!(next_message(&mut socketeer, &mut task).unwrap(), message);
}

#[test]
fn test_handler_reconnect() {
    let handler = CountingHandler::default();
    let (mut socketeer, mut task) =
        connect_handler(Server::auth(), EchoJson::new(), handler.clone(), authenticate).unwrap();
    assert_eq!(*handler.connected_count.lock().unwrap(), 1);
    assert_eq!(*handler.disconnected_count.lock().unwrap(), 0);
    let message = echo("before reconnect");
    send(&socketeer, &mut task, message.clone()).unwrap();
    assert_eq!(next_message(&mut socketeer, &mut task).unwrap(), message);

    let (retired, reconnecting) = socketeer.reconnect();
    *reconnecting.handler.disconnected_count.lock().unwrap() += 1;
    let (response_tx, response) = oneshot::channel();
    let payload = socketeer::handle::send_close(response_tx);
    let close_sent = close_confirmed(task.confirm(&retired.sender, payload, response));
    let (_request, dialing) = reconnecting.redial(close_sent).unwrap();
    let (mut socketeer, mut task) = start(dialing, Server::auth(), authenticate).unwrap();
    assert_eq!(*handler.connected_count.lock().unwrap(), 2);
    assert_eq!(*handler.disconnected_count.lock().unwrap(), 1);

    let message = echo("after reconnect");
    send(&socketeer, &mut task, message.clone()).unwrap();
    assert_eq!(next_message(&mut socketeer, &mut task).unwrap(), message);
    close(socketeer, &mut task).unwrap();
}

#[test]
fn test_msgpack_send_receive() {
    let (mut socketeer, mut task) =
        connect::<EchoMsgPack, 256>(Server::msgpack(), ConnectOptions::default());
    let message = echo("msgpack hello");
    send(&socketeer, &mut task, message.clone()).unwrap();
    assert_eq!(next_message(&mut socketeer, &mut task).unwrap(), message);
    close(socketeer, &mut task).unwrap();
}

#[test]
fn test_handler_uses_codec_driven_send_recv() {
    let (mut socketeer, mut task) =
        connect_handler(Server::echo(), EchoJson::new(), NoopHandler, |_, context, server| {
            let message = context.send(&echo("handshake"))?;
            handshake_send(context, server, message)?;
            assert_eq!(recv(context, server)?, echo("handshake"));
            Ok(())
        })
        .unwrap();
    let message = echo("after handshake");
    send(&socketeer, &mut task, message.clone()).unwrap();
    assert_eq!(next_message(&mut socketeer, &mut task).unwrap(), message);
    close(socketeer, &mut task).unwrap();
}

#[test]
fn test_handshake_recv_close_with_raw_codec() {
    connect_handler(Server::echo(), RawCodec::new(), NoopHandler, |_, context, server| {
        let message = context.send(&Message::Text(r#""Close""#.into()))?;
        handshake_send(context, server, message)?;
        let err = recv(context, server).unwrap_err();
        assert!(matches!(err, Error::WebsocketClosed));
        Ok(())
    })
    .unwrap();
}

#[test]
fn test_extra_headers_used() {
    let options = ConnectOptions::builder()
        .header("X-Test-Header", "socketeer".parse().unwrap())
        .build();
    let (request, dialing) =
        Socketeer::<EchoJson, NoopHandler, 256>::connect_with(URL, options).unwrap();
    assert_eq!(request.headers().get("x-test-header").unwrap(), "socketeer");
    let (mut socketeer, mut task) = start(dialing, Server::echo(), no_handshake).unwrap();
    let message = echo("hi");
    send(&socketeer, &mut task, message.clone()).unwrap();
    assert_eq!(next_message(&mut socketeer, &mut task).unwrap(), message);
    close(socketeer, &mut task).unwrap();
}

#[test]
fn test_auth_handler_bad_token() {
    let (_socketeer, task) =
        connect_handler(Server::auth(), EchoJson::new(), NoopHandler, |_, context, server| {
            let auth = context.send_text(r#"{"action":"auth","token":"WRONG"}"#);
            handshake_send(context, server, auth)?;
            assert!(recv_text(context, server)?.contains("error"));
            Ok(())
        })
        .unwrap();
    assert_eq!(task.server.finished, Some(true));
}

#[test]
fn test_msgpack_send_ping() {
    let (mut socketeer, mut task) =
        connect::<EchoMsgPack, 256>(Server::msgpack(), ConnectOptions::default());
    send(&socketeer, &mut task, Echo(EchoControlMessage::SendPing)).unwrap();
    let message = echo("after ping");
    send(&socketeer, &mut task, message.clone()).unwrap();
    assert_eq!(next_message(&mut socketeer, &mut task).unwrap(), message);
    close(socketeer, &mut task).unwrap();
}

#[test]
fn test_msgpack_close_request() {
    let (mut socketeer, mut task) =
        connect::<EchoMsgPack, 256>(Server::msgpack(), ConnectOptions::default());
    send(&socketeer, &mut task, Echo(EchoControlMessage::Close)).unwrap();
    let result = next_message(&mut socketeer, &mut task);
    assert!(matches!(result.unwrap_err(), Error::WebsocketClosed));
}

#[test]
fn test_socketeer_debug_format() {
    let (socketeer, _task) = connect_json(Server::echo());
    let formatted = format!("{socketeer:?}");
    assert!(formatted.starts_with("Socketeer"));
    assert_eq!(socketeer.label(), "Socketeer");
    assert!(formatted.contains("url"));
    let (tx, rx) = socketeer.split();
    assert_eq!(format!("{tx:?}"), "SocketeerTx { .. }");
    assert_eq!((tx.label(), rx.label()), ("SocketeerTx", "SocketeerRx"));
    let url = format!("{:?}", url::Url::parse(URL).unwrap());
    assert_eq!(formatted, format!("Socketeer {{ url: {url}, .. }}"));
    assert_eq!(format!("{rx:?}"), format!("SocketeerRx {{ url: {url}, .. }}"));
}

#[test]
fn test_send_raw_next_raw_message() {
    let (mut socketeer, mut task) = connect_json(Server::echo());
    let raw_text = r#"{"Message":"raw recv"}"#;
    send_raw(&socketeer, &mut task, Message::Text(raw_text.into())).unwrap();
    let frame = next_raw_message(&mut socketeer, &mut task).unwrap();
    assert_eq!(frame, Message::Text(raw_text.into()));
    close(socketeer, &mut task).unwrap();
}

#[test]
fn test_handshake_send_binary_recv_raw() {
    let (socketeer, mut task) =
        connect_handler(Server::msgpack(), EchoMsgPack::new(), NoopHandler, |_, context, server| {
            let message = context.send_binary(echo("binary").to_msgpack().unwrap());
            handshake_send(context, server, message)?;
            assert!(matches!(recv_raw(context, server)?, Message::Binary(_)));
            Ok(())
        })
        .unwrap();
    close(socketeer, &mut task).unwrap();
}

#[test]
fn test_handshake_recv_text_rejects_binary() {
    let (socketeer, mut task) =
        connect_handler(Server::msgpack(), EchoMsgPack::new(), NoopHandler, |_, context, server| {
            let message = context.send_binary(echo("hi").to_msgpack().unwrap());
            handshake_send(context, server, message)?;
            let err = recv_text(context, server).unwrap_err();
            assert!(matches!(err, Error::UnexpectedMessageType(_)));
            Ok(())
        })
        .unwrap();
    close(socketeer, &mut task).unwrap();
}

/// The two halves of a handle with their loop.
struct Halves {
    tx: socketeer::SocketeerTx<EchoJson>,
    rx: socketeer::SocketeerRx<EchoJson, NoopHandler, 256>,
    task: Task,
}

impl Halves {
    fn new(server: Server) -> Self {
        let (socketeer, task) = connect_json(server);
        let (tx, rx) = socketeer.split();
        Halves { tx, rx, task }
    }

    fn send_from(
        task: &mut Task,
        tx: &socketeer::SocketeerTx<EchoJson>,
        message: Echo,
    ) -> Result<(), Error> {
        let (response_tx, response) = oneshot::channel();
        let payload = tx.send(message, response_tx)?;
        let confirmation = task.confirm(tx.sender(), payload, response);
        confirmed(confirmation, &mut tx.terminal_error().lock().unwrap())
    }

    fn send(&mut self, message: Echo) -> Result<(), Error> {
        Self::send_from(&mut self.task, &self.tx, message)
    }

    fn send_unconfirmed(&mut self, message: Echo) -> Result<(), Error> {
        let payload = self.tx.send_unconfirmed(message)?;
        let is_queued = self.tx.sender().try_send(payload).is_ok();
        queued(is_queued, &mut self.tx.terminal_error().lock().unwrap())
    }

    fn close(&mut self) -> Result<(), Error> {
        let (response_tx, response) = oneshot::channel();
        let payload = self.tx.close(response_tx);
        close_confirmed(self.task.confirm(self.tx.sender(), payload, response))
    }

    fn take(&mut self) -> Option<Message> {
        self.task.run();
        match self.rx.receiver().try_recv() {
            Ok(message) => Some(message),
            Err(mpsc::error::TryRecvError::Disconnected) => None,
            Err(mpsc::error::TryRecvError::Empty) => panic!("waits forever"),
        }
    }

    fn next_message(&mut self) -> Result<Echo, Error> {
        let message = self.take();
        let slot = Arc::clone(self.rx.terminal_error());
        let mut slot = slot.lock().unwrap();
        self.rx.next_message(message, &mut slot)
    }

    fn next_raw_message(&mut self) -> Result<Message, Error> {
        let message = self.take();
        let slot = Arc::clone(self.rx.terminal_error());
        let mut slot = slot.lock().unwrap();
        self.rx.next_raw_message(message, &mut slot)
    }

    /// What the stream yields.
    fn next(&mut self) -> Option<Result<Echo, Error>> {
        let message = self.take();
        let slot = Arc::clone(self.rx.terminal_error());
        let mut slot = slot.lock().unwrap();
        match self.rx.poll_next(Polled::Ready(message), &mut slot) {
            Polled::Ready(item) => item,
            Polled::Pending => panic!("a ready channel is not pending"),
        }
    }
}

#[test]
fn test_split_round_trip() {
    let mut halves = Halves::new(Server::echo());
    let message = echo("split hello");
    halves.send(message.clone()).unwrap();
    assert_eq!(halves.next_message().unwrap(), message);
    halves.close().unwrap();
}

#[test]
fn test_split_concurrent_sends_from_clones() {
    let mut halves = Halves::new(Server::echo());
    let tx1 = halves.tx.clone();
    let tx2 = halves.tx.clone();
    let (one_tx, mut one_result) = oneshot::channel();
    let (two_tx, mut two_result) = oneshot::channel();
    let one = tx1.send(echo("concurrent-a"), one_tx).unwrap();
    let two = tx2.send(echo("concurrent-b"), two_tx).unwrap();
    assert!(tx1.sender().try_send(one).is_ok());
    assert!(tx2.sender().try_send(two).is_ok());
    halves.task.run();
    one_result.try_recv().unwrap().unwrap();
    two_result.try_recv().unwrap().unwrap();

    let received: HashSet<String> = [
        halves.next_message().unwrap(),
        halves.next_message().unwrap(),
    ]
    .into_iter()
    .map(|m| match m.0 {
        EchoControlMessage::Message(s) => s,
        other => panic!("unexpected echo: {other:?}"),
    })
    .collect();
    let expected: HashSet<String> = ["concurrent-a".to_string(), "concurrent-b".to_string()]
        .into_iter()
        .collect();
    assert_eq!(received, expected);
    halves.close().unwrap();
}

#[test]
fn test_tx_close_ends_receive() {
    let mut halves = Halves::new(Server::echo());
    halves.close().unwrap();
    assert!(matches!(
        halves.next_message().unwrap_err(),
        Error::WebsocketClosed
    ));
}

#[test]
fn test_send_unconfirmed_delivers() {
    let mut halves = Halves::new(Server::echo());
    let message = echo("unconfirmed");
    halves.send_unconfirmed(message.clone()).unwrap();
    assert_eq!(halves.next_message().unwrap(), message);
    let confirmed = echo("after");
    halves.send(confirmed.clone()).unwrap();
    assert_eq!(halves.next_message().unwrap(), confirmed);
    halves.close().unwrap();
}

#[test]
fn unconfirmed_send_learns_why_the_connection_ended() {
    let mut halves = Halves::new(Server::echo());
    halves.send(Echo(EchoControlMessage::Abort)).unwrap();
    halves.task.run();
    let error = halves.send_unconfirmed(echo("late")).unwrap_err();
    assert!(matches!(error, Error::WebsocketError(_)));
    let error = halves.send_unconfirmed(echo("later")).unwrap_err();
    assert!(matches!(error, Error::WebsocketClosed));
}

#[test]
fn raw_messages_pass_the_halves_unchanged() {
    let mut halves = Halves::new(Server::echo());
    let raw = Message::text(r#"{"Message":"raw"}"#);
    let payload = halves.tx.send_raw_unconfirmed(raw.clone());
    assert!(payload.response_tx.is_none());
    assert!(halves.tx.sender().try_send(payload).is_ok());
    assert_eq!(halves.next_raw_message().unwrap(), raw);
    let (response_tx, response) = oneshot::channel();
    let payload = halves.tx.send_raw(raw.clone(), response_tx);
    let confirmation = halves.task.confirm(halves.tx.sender(), payload, response);
    assert!(matches!(confirmation, Confirmation::Answered(Ok(()))));
    assert_eq!(halves.next_raw_message().unwrap(), raw);
}

#[test]
fn test_rx_stream_round_trip() {
    let mut halves = Halves::new(Server::echo());
    let message = echo("stream hello");
    halves.send(message.clone()).unwrap();
    assert_eq!(halves.next().unwrap().unwrap(), message);
    halves.close().unwrap();
}

#[test]
fn test_rx_stream_abrupt_close_yields_error_then_ends() {
    let mut halves = Halves::new(Server::echo());
    halves.send(Echo(EchoControlMessage::Abort)).unwrap();
    let err = halves.next().unwrap().unwrap_err();
    assert!(
        matches!(err, Error::WebsocketError(_)),
        "expected WebsocketError, got {err:?}"
    );
    assert!(halves.next().is_none(), "stream must end after the error");
}

#[test]
fn test_rx_stream_graceful_close_ends_cleanly() {
    let mut halves = Halves::new(Server::echo());
    halves.close().unwrap();
    assert!(halves.next().is_none());
}

#[test]
fn test_reunite_then_reconnect() {
    let Halves { tx, rx, mut task } = Halves::new(Server::echo());
    let socketeer = rx.reunite(tx).expect("matching halves reunite");
    let (retired, reconnecting) = socketeer.reconnect();
    let (response_tx, response) = oneshot::channel();
    let payload = socketeer::handle::send_close(response_tx);
    let close_sent = close_confirmed(task.confirm(&retired.sender, payload, response));
    let (_request, dialing) = reconnecting.redial(close_sent).unwrap();
    let (mut socketeer, mut task) = start(dialing, Server::echo(), no_handshake).unwrap();
    let message = echo("after reunite");
    send(&socketeer, &mut task, message.clone()).unwrap();
    assert_eq!(next_message(&mut socketeer, &mut task).unwrap(), message);
    close(socketeer, &mut task).unwrap();
}

#[test]
fn test_reunite_mismatch_returns_halves() {
    let a = Halves::new(Server::echo());
    let b = Halves::new(Server::echo());
    let (tx_a, rx_a, mut task_a) = (a.tx, a.rx, a.task);
    let (tx_b, rx_b, mut task_b) = (b.tx, b.rx, b.task);
    let err = rx_a
        .reunite(tx_b)
        .expect_err("mismatched halves must not reunite");
    assert!(!err.to_string().is_empty());
    assert_eq!(
        err.to_string(),
        "tried to reunite a SocketeerTx and SocketeerRx from different connections"
    );
    assert_eq!(err.to_string(), err.message());
    assert_eq!(format!("{err:?}"), "ReuniteError { .. }");
    assert_eq!(err.label(), "ReuniteError");
    let _: &dyn std::error::Error = &err;
    let socketeer::ReuniteError { tx: tx_b, rx: rx_a } = err;
    let sock_a = rx_a.reunite(tx_a).expect("correct halves reunite");
    let sock_b = rx_b.reunite(tx_b).expect("correct halves reunite");
    close(sock_a, &mut task_a).unwrap();
    close(sock_b, &mut task_b).unwrap();
}

#[test]
fn clone_of_the_send_half_reunites_too() {
    let Halves { tx, rx, mut task } = Halves::new(Server::echo());
    let socketeer = rx.reunite(tx.clone()).expect("a clone is of the same connection");
    close(socketeer, &mut task).unwrap();
}

#[test]
fn test_socketeer_as_stream() {
    let (mut socketeer, mut task) = connect_json(Server::echo());
    let message = echo("direct stream");
    send(&socketeer, &mut task, message.clone()).unwrap();
    let received = take(&mut socketeer, &mut task);
    let slot = Arc::clone(socketeer.terminal_error());
    let mut slot = slot.lock().unwrap();
    assert!(matches!(
        socketeer.poll_next(Polled::Pending, &mut slot),
        Polled::Pending
    ));
    let Polled::Ready(Some(Ok(item))) = socketeer.poll_next(Polled::Ready(received), &mut slot)
    else {
        panic!("expected an item");
    };
    assert_eq!(item, message);
}

fn drain_burst<const N: usize>(
    socketeer: &mut Socketeer<EchoJson, NoopHandler, N>,
    task: &mut Task,
) {
    let mut received = Vec::new();
    for _ in 0..5 {
        match next_message(socketeer, task).unwrap().0 {
            EchoControlMessage::Message(s) => received.push(s),
            other => panic!("unexpected frame: {other:?}"),
        }
    }
    assert_eq!(
        received,
        vec!["burst-0", "burst-1", "burst-2", "burst-3", "burst-4"]
    );
}

fn fast_keepalives() -> ConnectOptions {
    ConnectOptions::builder()
        .keepalive_interval(Some(Duration::from_millis(100)))
        .build()
}

#[test]
fn test_backpressure_probe_server_delivers_burst_and_marker() {
    let (mut socketeer, mut task) = connect::<EchoJson, 16>(Server::probe(), fast_keepalives());
    task.run();
    drain_burst(&mut socketeer, &mut task);
    task.ticks = 1;
    let marker = next_message(&mut socketeer, &mut task).unwrap();
    assert_eq!(marker, echo("alive"));
    close(socketeer, &mut task).unwrap();
    assert_eq!(task.server.finished, Some(true));
}

#[test]
fn test_binary_custom_keepalive() {
    let keepalive = Message::Binary(b"keepalive".to_vec());
    let options = ConnectOptions::builder()
        .keepalive_interval(Some(Duration::from_millis(100)))
        .custom_keepalive_message(Some(keepalive))
        .build();
    let (mut socketeer, mut task) = connect::<EchoJson, 256>(Server::echo(), options);
    task.ticks = 3;
    task.run();
    assert_eq!(task.keepalives, 3);
    let message = echo("post-keepalive");
    send(&socketeer, &mut task, message.clone()).unwrap();
    assert_eq!(next_message(&mut socketeer, &mut task).unwrap(), message);
    close(socketeer, &mut task).unwrap();
}

#[test]
fn test_backpressure_keeps_protocol_alive() {
    let (mut socketeer, mut task) = connect::<EchoJson, 2>(Server::probe(), fast_keepalives());
    task.run();
    // The buffer is full and the consumer reads nothing.
    task.ticks = 1;
    task.run();
    task.server.time_is_up = true;
    task.run();
    assert_eq!(task.keepalives, 1);
    drain_burst(&mut socketeer, &mut task);
    let marker = next_message(&mut socketeer, &mut task).unwrap();
    assert_eq!(marker, echo("alive"));
    close(socketeer, &mut task).unwrap();
}

#[test]
fn probe_server_withholds_its_marker_without_a_ping_in_time() {
    let (mut socketeer, mut task) = connect::<EchoJson, 16>(Server::probe(), fast_keepalives());
    task.run();
    task.server.time_is_up = true;
    task.run();
    task.ticks = 1;
    drain_burst(&mut socketeer, &mut task);
    assert_eq!(task.keepalives, 1);
    assert!(matches!(
        socketeer.receiver().try_recv(),
        Err(mpsc::error::TryRecvError::Empty)
    ));
    close(socketeer, &mut task).unwrap();
}

#[test]
fn test_backpressure_without_keepalive_preserves_frames() {
    let options = ConnectOptions::builder().keepalive_interval(None).build();
    let (mut socketeer, mut task) = connect::<EchoJson, 2>(Server::probe(), options);
    task.ticks = 5;
    task.run();
    assert_eq!(task.keepalives, 0);
    drain_burst(&mut socketeer, &mut task);
    close(socketeer, &mut task).unwrap();
}

#[test]
fn test_backpressure_allows_outgoing_sends() {
    let (mut socketeer, mut task) = connect::<EchoJson, 2>(Server::probe(), fast_keepalives());
    task.run();
    send(&socketeer, &mut task, echo("while-backpressured")).unwrap();
    drain_burst(&mut socketeer, &mut task);
    close(socketeer, &mut task).unwrap();
}

#[test]
fn graceful_close_loses_nothing() {
    let (mut socketeer, mut task) =
        connect::<EchoJson, 1>(Server::echo(), ConnectOptions::default());
    for text in ["one", "two", "three"] {
        let payload = socketeer::handle::send_unconfirmed(
            echo(text).to_json().map(Message::Text).unwrap(),
        );
        assert!(socketeer.sender().try_send(payload).is_ok());
        task.run();
    }
    send(&socketeer, &mut task, Echo(EchoControlMessage::Close)).unwrap();
    for text in ["one", "two", "three"] {
        assert_eq!(next_message(&mut socketeer, &mut task).unwrap(), echo(text));
    }
    assert!(matches!(
        next_message(&mut socketeer, &mut task).unwrap_err(),
        Error::WebsocketClosed
    ));
}

#[test]
fn dropping_the_handle_ends_the_loop() {
    let (socketeer, mut task) = connect_json(Server::echo());
    drop(socketeer);
    task.run();
    assert!(task.has_ended());
    assert!(matches!(
        task.slot.lock().unwrap().take(),
        Some(Error::SocketeerDroppedWithoutClosing)
    ));
}

#[test]
fn sender_that_does_not_wait_for_its_answer_counts_as_dropped() {
    let (socketeer, mut task) = connect_json(Server::echo());
    let (response_tx, response) = oneshot::channel();
    drop(response);
    let payload = socketeer.send(echo("nobody waits"), response_tx).unwrap();
    assert!(socketeer.sender().try_send(payload).is_ok());
    task.run();
    assert!(task.has_ended());
    assert!(matches!(
        task.slot.lock().unwrap().take(),
        Some(Error::SocketeerDroppedWithoutClosing)
    ));
}

#[test]
fn closing_sends_a_normal_closure_with_its_reason() {
    let (response_tx, _response) = oneshot::channel();
    let payload = socketeer::handle::send_close(response_tx);
    assert_eq!(
        payload.message,
        Message::Close(Some(CloseFrame {
            code: 1000,
            reason: "Closing Connection".to_string(),
        }))
    );
    assert!(payload.response_tx.is_some());
}
