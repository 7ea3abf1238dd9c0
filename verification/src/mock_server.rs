//! Servers for tests of clients, as state machines.
//!
//! Each server decides what to do with what a client sends; whoever drives it receives, sends
//! and closes as its [`ServerAction`]s ask and reports what came of it as [`ServerEvent`]s. They
//! are meant for tests: a server gives up at once on what a well-behaved client would not do.
use vstd::prelude::*;

use std::time::Duration;

use tokio_tungstenite::tungstenite::Error as WsError;

use crate::message::{CloseFrame, Message, MessageView};
use crate::outside::duration_nanos;

verus! {

/// What a client can ask of an echo server.
#[derive(Debug, PartialEq, PartialOrd)]
pub enum EchoControlMessage {
    /// A message which the server echoes.
    Message(String),
    /// The server is to send a ping.
    SendPing,
    /// The server is to close the connection.
    Close,
    /// The server is to drop the connection without a close handshake. To the client that is a
    /// failed connection, not a graceful close.
    Abort,
}

impl Clone for EchoControlMessage {
    fn clone(&self) -> (copy: Self)
        ensures
            match (*self, copy) {
                (EchoControlMessage::Message(text), EchoControlMessage::Message(same)) => same@
                    == text@,
                (EchoControlMessage::Message(_), _) | (_, EchoControlMessage::Message(_)) => false,
                (control, same) => control == same,
            },
    {
        match self {
            EchoControlMessage::Message(text) => EchoControlMessage::Message(text.clone()),
            EchoControlMessage::SendPing => EchoControlMessage::SendPing,
            EchoControlMessage::Close => EchoControlMessage::Close,
            EchoControlMessage::Abort => EchoControlMessage::Abort,
        }
    }
}

/// What a client sends to authenticate itself.
#[derive(Debug, PartialEq, Eq)]
pub struct AuthMessage {
    pub action: String,
    pub token: String,
}

/// Which messages carry control messages, and how.
#[derive(Debug, Clone, Copy, PartialEq, Eq)]
pub enum Framing {
    /// Text messages, as JSON.
    Json,
    /// Binary messages, as `MessagePack`.
    MsgPack,
}

/// What happened.
pub enum ServerEvent<M> {
    /// The client sent a message, the connection failed, or it ended.
    Received(Option<Result<M, WsError>>),
    /// The time for receiving is up.
    TimedOut,
    /// The message that was to be decoded holds a control message.
    Decoded(EchoControlMessage),
    /// The message that was to be decoded holds an authentication, or something else.
    AuthDecoded(Option<AuthMessage>),
    /// The sink took a message or failed.
    Sent(Result<(), WsError>),
    /// The sink closed or failed.
    SinkClosed(Result<(), WsError>),
}

/// What to do next.
pub enum ServerAction<M, T> {
    /// Receive a message.
    Receive,
    /// Receive a message, unless so much time has passed since the first such request.
    ReceiveWithin(Duration),
    /// Decode a message as a control message. A message that holds none is a reason to panic.
    Decode(M),
    /// Decode a message as an authentication, if it is one.
    DecodeAuth(M),
    /// Hand a message to the sink.
    Send(M),
    /// Hand the control message [`EchoControlMessage::Message`] with this text to the sink, as
    /// JSON in a text message.
    SendControl(T),
    /// Close the sink.
    CloseSink,
    /// Stop, dropping the connection; the result says whether the server is to serve no other.
    Finish(Result<bool, WsError>),
    /// Panic: an auxiliary send or the closing of the sink failed.
    Panic(WsError),
}

/// What an echo server waits for.
pub enum EchoPhase<M> {
    /// The next message.
    Reading,
    /// What a message that it received holds.
    Decoding(M),
    /// The sink, to take a message. If it is a close message, the server is then shutting down.
    Sending { closes: bool },
    /// The sink, to take a pong.
    Ponging,
    /// The sink, to close.
    Closing,
    /// Nothing: it has stopped.
    Done,
}

/// A server that echoes messages, answers pings, and sends pings or closes on request.
pub struct EchoServer {
    framing: Framing,
    shutting_down: bool,
    phase: EchoPhase<Message>,
}

/// What an [`EchoServer`] holds.
pub struct EchoView {
    pub framing: Framing,
    pub shutting_down: bool,
    pub phase: EchoPhase<MessageView>,
}

impl View for ServerEvent<Message> {
    type V = ServerEvent<MessageView>;

    open spec fn view(&self) -> ServerEvent<MessageView> {
        match *self {
            ServerEvent::Received(Some(Ok(message))) => ServerEvent::Received(Some(Ok(message@))),
            ServerEvent::Received(Some(Err(e))) => ServerEvent::Received(Some(Err(e))),
            ServerEvent::Received(None) => ServerEvent::Received(None),
            ServerEvent::TimedOut => ServerEvent::TimedOut,
            ServerEvent::Decoded(control) => ServerEvent::Decoded(control),
            ServerEvent::AuthDecoded(auth) => ServerEvent::AuthDecoded(auth),
            ServerEvent::Sent(result) => ServerEvent::Sent(result),
            ServerEvent::SinkClosed(result) => ServerEvent::SinkClosed(result),
        }
    }
}

impl View for ServerAction<Message, String> {
    type V = ServerAction<MessageView, Seq<char>>;

    open spec fn view(&self) -> ServerAction<MessageView, Seq<char>> {
        match *self {
            ServerAction::Receive => ServerAction::Receive,
            ServerAction::ReceiveWithin(limit) => ServerAction::ReceiveWithin(limit),
            ServerAction::Decode(message) => ServerAction::Decode(message@),
            ServerAction::DecodeAuth(message) => ServerAction::DecodeAuth(message@),
            ServerAction::Send(message) => ServerAction::Send(message@),
            ServerAction::SendControl(text) => ServerAction::SendControl(text@),
            ServerAction::CloseSink => ServerAction::CloseSink,
            ServerAction::Finish(result) => ServerAction::Finish(result),
            ServerAction::Panic(e) => ServerAction::Panic(e),
        }
    }
}

impl View for EchoPhase<Message> {
    type V = EchoPhase<MessageView>;

    open spec fn view(&self) -> EchoPhase<MessageView> {
        match *self {
            EchoPhase::Reading => EchoPhase::Reading,
            EchoPhase::Decoding(message) => EchoPhase::Decoding(message@),
            EchoPhase::Sending { closes } => EchoPhase::Sending { closes },
            EchoPhase::Ponging => EchoPhase::Ponging,
            EchoPhase::Closing => EchoPhase::Closing,
            EchoPhase::Done => EchoPhase::Done,
        }
    }
}

impl View for EchoServer {
    type V = EchoView;

    closed spec fn view(&self) -> EchoView {
        EchoView {
            framing: self.framing,
            shutting_down: self.shutting_down,
            phase: self.phase@,
        }
    }
}

/// What a server's step leads to.
pub type EchoStep = (EchoServer, ServerAction<Message, String>);

/// What a server's step leads to, by what it holds.
pub type EchoStepView = (EchoView, ServerAction<MessageView, Seq<char>>);

/// The close message that an echo server sends.
pub open spec fn server_close() -> MessageView {
    MessageView::Close(Some((1000, Seq::empty())))
}

impl Framing {
    /// Whether a message carries a control message.
    pub open spec fn carries(self, message: MessageView) -> bool {
        match self {
            Framing::Json => message is Text,
            Framing::MsgPack => message is Binary,
        }
    }
}

impl EchoView {
    /// A server that was just started.
    pub open spec fn fresh(framing: Framing) -> EchoView {
        EchoView { framing, shutting_down: false, phase: EchoPhase::Reading }
    }

    /// The server goes back to reading.
    pub open spec fn reads(self) -> EchoStepView {
        (EchoView { phase: EchoPhase::Reading, ..self }, ServerAction::Receive)
    }

    /// The server stops.
    pub open spec fn stops(self, result: Result<bool, WsError>) -> EchoStepView {
        (EchoView { phase: EchoPhase::Done, ..self }, ServerAction::Finish(result))
    }

    /// The server gives up.
    pub open spec fn gives_up(self, e: WsError) -> EchoStepView {
        (EchoView { phase: EchoPhase::Done, ..self }, ServerAction::Panic(e))
    }

    /// The server sends a message.
    pub open spec fn sends(self, message: MessageView, closes: bool) -> EchoStepView {
        (EchoView { phase: EchoPhase::Sending { closes }, ..self }, ServerAction::Send(message))
    }

    /// The client sent a message.
    pub open spec fn on_message(self, message: MessageView) -> EchoStepView {
        if self.framing.carries(message) {
            (
                EchoView { phase: EchoPhase::Decoding(message), ..self },
                ServerAction::Decode(message),
            )
        } else {
            match message {
                MessageView::Ping(_) => (
                    EchoView { phase: EchoPhase::Ponging, ..self },
                    ServerAction::Send(MessageView::Pong(Seq::empty())),
                ),
                MessageView::Close(_) => if self.shutting_down {
                    self.stops(Ok(true))
                } else {
                    (EchoView { phase: EchoPhase::Closing, ..self }, ServerAction::CloseSink)
                },
                _ => self.reads(),
            }
        }
    }

    /// The client asked for something in a message.
    pub open spec fn on_control(
        self,
        message: MessageView,
        control: EchoControlMessage,
    ) -> EchoStepView {
        match control {
            EchoControlMessage::Message(_) => self.sends(message, false),
            EchoControlMessage::SendPing => self.sends(MessageView::Ping(Seq::empty()), false),
            EchoControlMessage::Close => self.sends(server_close(), true),
            EchoControlMessage::Abort => self.stops(Ok(true)),
        }
    }

    /// What an event leads to, or nothing where the server does not wait for it.
    pub open spec fn next(self, event: ServerEvent<MessageView>) -> Option<EchoStepView> {
        match (self.phase, event) {
            (EchoPhase::Reading, ServerEvent::Received(Some(Ok(message)))) => Some(
                self.on_message(message),
            ),
            (EchoPhase::Reading, ServerEvent::Received(Some(Err(e)))) => Some(
                self.stops(Err(e)),
            ),
            (EchoPhase::Reading, ServerEvent::Received(None)) => Some(
                self.stops(Ok(self.shutting_down)),
            ),
            (EchoPhase::Decoding(message), ServerEvent::Decoded(control)) => Some(
                self.on_control(message, control),
            ),
            (EchoPhase::Sending { closes }, ServerEvent::Sent(Ok(()))) => Some(
                EchoView { shutting_down: self.shutting_down || closes, ..self }.reads(),
            ),
            (EchoPhase::Sending { .. }, ServerEvent::Sent(Err(e))) => Some(self.stops(Err(e))),
            (EchoPhase::Ponging, ServerEvent::Sent(Ok(()))) => Some(self.reads()),
            (EchoPhase::Ponging, ServerEvent::Sent(Err(e))) => Some(self.gives_up(e)),
            (EchoPhase::Closing, ServerEvent::SinkClosed(Ok(()))) => Some(
                self.stops(Ok(self.shutting_down)),
            ),
            (EchoPhase::Closing, ServerEvent::SinkClosed(Err(e))) => Some(self.gives_up(e)),
            _ => None,
        }
    }
}

/// A step by what it holds.
pub open spec fn echo_stepped(step: EchoStep) -> EchoStepView {
    (step.0@, step.1@)
}

/// Starts an echo server for control messages as JSON in text messages. It also answers pings
/// and closes the connection upon request.
pub fn echo_server() -> (step: EchoStep)
    ensures
        echo_stepped(step) == (
            EchoView::fresh(Framing::Json),
            ServerAction::<MessageView, Seq<char>>::Receive,
        ),
{
    EchoServer::fresh(Framing::Json)
}

/// Starts an echo server for control messages as `MessagePack` in binary messages.
pub fn msgpack_echo_server() -> (step: EchoStep)
    ensures
        echo_stepped(step) == (
            EchoView::fresh(Framing::MsgPack),
            ServerAction::<MessageView, Seq<char>>::Receive,
        ),
{
    EchoServer::fresh(Framing::MsgPack)
}

impl EchoServer {
    fn fresh(framing: Framing) -> (step: EchoStep)
        ensures
            echo_stepped(step) == EchoView::fresh(framing).reads(),
    {
        (
            EchoServer { framing, shutting_down: false, phase: EchoPhase::Reading },
            ServerAction::Receive,
        )
    }

    fn read(self) -> (step: EchoStep)
        ensures
            echo_stepped(step) == self@.reads(),
    {
        (EchoServer { phase: EchoPhase::Reading, ..self }, ServerAction::Receive)
    }

    fn stop(self, result: Result<bool, WsError>) -> (step: EchoStep)
        ensures
            echo_stepped(step) == self@.stops(result),
    {
        (EchoServer { phase: EchoPhase::Done, ..self }, ServerAction::Finish(result))
    }

    fn give_up(self, e: WsError) -> (step: EchoStep)
        ensures
            echo_stepped(step) == self@.gives_up(e),
    {
        (EchoServer { phase: EchoPhase::Done, ..self }, ServerAction::Panic(e))
    }

    fn send(self, message: Message, closes: bool) -> (step: EchoStep)
        ensures
            echo_stepped(step) == self@.sends(message@, closes),
    {
        (EchoServer { phase: EchoPhase::Sending { closes }, ..self }, ServerAction::Send(message))
    }

    fn decode(self, message: Message) -> (step: EchoStep)
        requires
            self@.framing.carries(message@),
        ensures
            echo_stepped(step) == self@.on_message(message@),
    {
        let copy = message.clone();
        (
            EchoServer { phase: EchoPhase::Decoding(copy), ..self },
            ServerAction::Decode(message),
        )
    }

    fn receive(self, message: Message) -> (step: EchoStep)
        ensures
            echo_stepped(step) == self@.on_message(message@),
    {
        match (self.framing, message) {
            (Framing::Json, Message::Text(text)) => self.decode(Message::Text(text)),
            (Framing::MsgPack, Message::Binary(bytes)) => self.decode(Message::Binary(bytes)),
            (_, Message::Ping(_)) => {
                let payload: Vec<u8> = Vec::new();
                (
                    EchoServer { phase: EchoPhase::Ponging, ..self },
                    ServerAction::Send(Message::Pong(payload)),
                )
            },
            (_, Message::Close(_)) => if self.shutting_down {
                self.stop(Ok(true))
            } else {
                (EchoServer { phase: EchoPhase::Closing, ..self }, ServerAction::CloseSink)
            },
            _ => self.read(),
        }
    }

    fn obey(self, message: Message, control: EchoControlMessage) -> (step: EchoStep)
        ensures
            echo_stepped(step) == self@.on_control(message@, control),
    {
        match control {
            EchoControlMessage::Message(_) => self.send(message, false),
            EchoControlMessage::SendPing => self.send(Message::Ping(Vec::new()), false),
            EchoControlMessage::Close => {
                let reason = String::new();
                assert(reason@ =~= Seq::<char>::empty());
                self.send(Message::Close(Some(CloseFrame { code: 1000, reason })), true)
            },
            EchoControlMessage::Abort => self.stop(Ok(true)),
        }
    }

    /// Takes the next step. An event that the server does not wait for is handed back, with the
    /// server as it was.
    pub fn step(self, event: ServerEvent<Message>) -> (result: Result<
        EchoStep,
        (EchoServer, ServerEvent<Message>),
    >)
        ensures
            match (result, self@.next(event@)) {
                (Ok(step), Some(next)) => echo_stepped(step) == next,
                (Err((unchanged, refused)), None) => unchanged@ == self@ && refused@ == event@,
                _ => false,
            },
    {
        let EchoServer { framing, shutting_down, phase } = self;
        let this = EchoServer { framing, shutting_down, phase: EchoPhase::Done };
        match (phase, event) {
            (EchoPhase::Reading, ServerEvent::Received(Some(Ok(message)))) => Ok(
                this.receive(message),
            ),
            (EchoPhase::Reading, ServerEvent::Received(Some(Err(e)))) => Ok(this.stop(Err(e))),
            (EchoPhase::Reading, ServerEvent::Received(None)) => Ok(this.stop(Ok(shutting_down))),
            (EchoPhase::Decoding(message), ServerEvent::Decoded(control)) => Ok(
                this.obey(message, control),
            ),
            (EchoPhase::Sending { closes }, ServerEvent::Sent(Ok(()))) => Ok(
                EchoServer { shutting_down: shutting_down || closes, ..this }.read(),
            ),
            (EchoPhase::Sending { .. }, ServerEvent::Sent(Err(e))) => Ok(this.stop(Err(e))),
            (EchoPhase::Ponging, ServerEvent::Sent(Ok(()))) => Ok(this.read()),
            (EchoPhase::Ponging, ServerEvent::Sent(Err(e))) => Ok(this.give_up(e)),
            (EchoPhase::Closing, ServerEvent::SinkClosed(Ok(()))) => Ok(
                this.stop(Ok(shutting_down)),
            ),
            (EchoPhase::Closing, ServerEvent::SinkClosed(Err(e))) => Ok(this.give_up(e)),
            (phase, event) => Err((EchoServer { phase, ..this }, event)),
        }
    }
}

/// What a server that asks for authentication waits for.
#[derive(Debug, Clone, Copy, PartialEq, Eq)]
pub enum AuthPhase {
    /// The client, to authenticate itself.
    Waiting,
    /// What the first message holds.
    Checking,
    /// The sink, to take the good news.
    Accepting,
    /// The sink, to take the bad news.
    Rejecting,
    /// What its echo server waits for.
    Echoing,
    /// Nothing: it has stopped.
    Done,
}

/// A server that echoes only for a client that authenticates itself.
pub struct AuthEchoServer {
    phase: AuthPhase,
    echo: EchoServer,
}

/// What an [`AuthEchoServer`] holds.
pub struct AuthView {
    pub phase: AuthPhase,
    pub echo: EchoView,
}

/// What a server's step leads to.
pub type AuthStep = (AuthEchoServer, ServerAction<Message, String>);

/// What a server's step leads to, by what it holds.
pub type AuthStepView = (AuthView, ServerAction<MessageView, Seq<char>>);

impl View for AuthEchoServer {
    type V = AuthView;

    closed spec fn view(&self) -> AuthView {
        AuthView { phase: self.phase, echo: self.echo@ }
    }
}

/// Whether an authentication is the expected one.
pub open spec fn accepts(auth: Option<AuthMessage>) -> bool {
    match auth {
        Some(auth) => auth.action@ == "auth"@ && auth.token@ == "test-token"@,
        None => false,
    }
}

/// What a client that authenticated itself is told.
pub open spec fn accepted_reply() -> MessageView {
    MessageView::Text("{\"status\":\"authenticated\"}"@)
}

/// What a client that did not authenticate itself is told.
pub open spec fn rejected_reply() -> MessageView {
    MessageView::Text("{\"status\":\"error\"}"@)
}

impl AuthView {
    /// The server goes on waiting for an authentication.
    pub open spec fn waits(self) -> AuthStepView {
        (AuthView { phase: AuthPhase::Waiting, ..self }, ServerAction::Receive)
    }

    /// The server stops.
    pub open spec fn stops(self, result: Result<bool, WsError>) -> AuthStepView {
        (AuthView { phase: AuthPhase::Done, ..self }, ServerAction::Finish(result))
    }

    /// The server welcomes the client or turns it away.
    pub open spec fn replies(self, accepted: bool) -> AuthStepView {
        if accepted {
            (
                AuthView { phase: AuthPhase::Accepting, ..self },
                ServerAction::Send(accepted_reply()),
            )
        } else {
            (
                AuthView { phase: AuthPhase::Rejecting, ..self },
                ServerAction::Send(rejected_reply()),
            )
        }
    }

    /// What an event leads to, or nothing where the server does not wait for it. The first data
    /// message decides: unless it is the expected authentication, the client is turned away.
    pub open spec fn next(self, event: ServerEvent<MessageView>) -> Option<AuthStepView> {
        match (self.phase, event) {
            (AuthPhase::Waiting, ServerEvent::Received(Some(Ok(message)))) => match message {
                MessageView::Text(_) => Some(
                    (
                        AuthView { phase: AuthPhase::Checking, ..self },
                        ServerAction::DecodeAuth(message),
                    ),
                ),
                MessageView::Binary(_) => Some(self.replies(false)),
                _ => Some(self.waits()),
            },
            (AuthPhase::Waiting, ServerEvent::Received(Some(Err(e)))) => Some(
                self.stops(Err(e)),
            ),
            (AuthPhase::Waiting, ServerEvent::Received(None)) => Some(self.stops(Ok(false))),
            (AuthPhase::Checking, ServerEvent::AuthDecoded(auth)) => Some(
                self.replies(accepts(auth)),
            ),
            (AuthPhase::Accepting, ServerEvent::Sent(Ok(()))) => {
                let (echo, action) = self.echo.reads();
                Some((AuthView { phase: AuthPhase::Echoing, echo }, action))
            },
            (AuthPhase::Accepting, ServerEvent::Sent(Err(e))) => Some(self.stops(Err(e))),
            (AuthPhase::Rejecting, ServerEvent::Sent(Ok(()))) => Some(self.stops(Ok(true))),
            (AuthPhase::Rejecting, ServerEvent::Sent(Err(e))) => Some(self.stops(Err(e))),
            (AuthPhase::Echoing, event) => match self.echo.next(event) {
                Some((echo, action)) => Some((AuthView { echo, ..self }, action)),
                None => None,
            },
            _ => None,
        }
    }
}

/// A step by what it holds.
pub open spec fn auth_stepped(step: AuthStep) -> AuthStepView {
    (step.0@, step.1@)
}

/// Starts a server that expects `{"action":"auth","token":"test-token"}` as the first message
/// and then behaves like [`echo_server`].
pub fn auth_echo_server() -> (step: AuthStep)
    ensures
        auth_stepped(step) == (
            AuthView { phase: AuthPhase::Waiting, echo: EchoView::fresh(Framing::Json) },
            ServerAction::<MessageView, Seq<char>>::Receive,
        ),
{
    let (echo, action) = echo_server();
    (AuthEchoServer { phase: AuthPhase::Waiting, echo }, action)
}

impl AuthEchoServer {
    fn wait(self) -> (step: AuthStep)
        ensures
            auth_stepped(step) == self@.waits(),
    {
        (AuthEchoServer { phase: AuthPhase::Waiting, ..self }, ServerAction::Receive)
    }

    fn stop(self, result: Result<bool, WsError>) -> (step: AuthStep)
        ensures
            auth_stepped(step) == self@.stops(result),
    {
        (AuthEchoServer { phase: AuthPhase::Done, ..self }, ServerAction::Finish(result))
    }

    fn reply(self, accepted: bool) -> (step: AuthStep)
        ensures
            auth_stepped(step) == self@.replies(accepted),
    {
        if accepted {
            (
                AuthEchoServer { phase: AuthPhase::Accepting, ..self },
                ServerAction::Send(Message::text("{\"status\":\"authenticated\"}")),
            )
        } else {
            (
                AuthEchoServer { phase: AuthPhase::Rejecting, ..self },
                ServerAction::Send(Message::text("{\"status\":\"error\"}")),
            )
        }
    }

    fn is_accepted(auth: &Option<AuthMessage>) -> (accepted: bool)
        ensures
            accepted == accepts(*auth),
    {
        match auth {
            Some(auth) => auth.action == "auth".to_owned() && auth.token
                == "test-token".to_owned(),
            None => false,
        }
    }

    /// Takes the next step. An event that the server does not wait for is handed back, with the
    /// server as it was.
    pub fn step(self, event: ServerEvent<Message>) -> (result: Result<
        AuthStep,
        (AuthEchoServer, ServerEvent<Message>),
    >)
        ensures
            match (result, self@.next(event@)) {
                (Ok(step), Some(next)) => auth_stepped(step) == next,
                (Err((unchanged, refused)), None) => unchanged@ == self@ && refused@ == event@,
                _ => false,
            },
    {
        match (self.phase, event) {
            (AuthPhase::Waiting, ServerEvent::Received(Some(Ok(message)))) => match message {
                Message::Text(text) => Ok(
                    (
                        AuthEchoServer { phase: AuthPhase::Checking, ..self },
                        ServerAction::DecodeAuth(Message::Text(text)),
                    ),
                ),
                Message::Binary(_) => Ok(self.reply(false)),
                _ => Ok(self.wait()),
            },
            (AuthPhase::Waiting, ServerEvent::Received(Some(Err(e)))) => Ok(self.stop(Err(e))),
            (AuthPhase::Waiting, ServerEvent::Received(None)) => Ok(self.stop(Ok(false))),
            (AuthPhase::Checking, ServerEvent::AuthDecoded(auth)) => Ok(
                self.reply(Self::is_accepted(&auth)),
            ),
            (AuthPhase::Accepting, ServerEvent::Sent(Ok(()))) => {
                let (echo, action) = self.echo.read();
                Ok((AuthEchoServer { phase: AuthPhase::Echoing, echo }, action))
            },
            (AuthPhase::Accepting, ServerEvent::Sent(Err(e))) => Ok(self.stop(Err(e))),
            (AuthPhase::Rejecting, ServerEvent::Sent(Ok(()))) => Ok(self.stop(Ok(true))),
            (AuthPhase::Rejecting, ServerEvent::Sent(Err(e))) => Ok(self.stop(Err(e))),
            (AuthPhase::Echoing, event) => match self.echo.step(event) {
                Ok((echo, action)) => Ok(
                    (AuthEchoServer { phase: AuthPhase::Echoing, echo }, action),
                ),
                Err((echo, event)) => Err(
                    (AuthEchoServer { phase: AuthPhase::Echoing, echo }, event),
                ),
            },
            (_, event) => Err((self, event)),
        }
    }
}

/// How many messages a probe server sends at first.
pub const BURST: u32 = 5;

/// What a probe server waits for.
#[derive(Debug, Clone, Copy, PartialEq, Eq)]
pub enum ProbePhase {
    /// The sink, to take a message of the burst.
    Bursting(u32),
    /// A ping.
    Probing,
    /// The sink, to take the marker.
    Marking,
    /// The next message.
    Draining,
    /// The sink, to take a pong.
    Ponging,
    /// The sink, to close.
    Closing,
    /// Nothing: it has stopped.
    Done,
}

/// A server that sends a burst, and a marker if a ping arrives in time: a client whose loop
/// stalls while its receive buffer is full cannot send that ping.
pub struct ProbeServer {
    phase: ProbePhase,
    limit: Duration,
}

/// What a server's step leads to.
pub type ProbeStep = (ProbeServer, ServerAction<Message, String>);

/// What a server's step leads to, by what it holds.
pub type ProbeStepView = (ProbeView, ServerAction<MessageView, Seq<char>>);

/// What a [`ProbeServer`] holds.
pub struct ProbeView {
    pub phase: ProbePhase,
    pub limit: Duration,
}

impl View for ProbeServer {
    type V = ProbeView;

    closed spec fn view(&self) -> ProbeView {
        ProbeView { phase: self.phase, limit: self.limit }
    }
}

/// The text of a message of the burst.
pub open spec fn burst_text(i: u32) -> Seq<char> {
    "burst-"@.push((48 + i) as char)
}

impl ProbeView {
    /// The server in another phase.
    pub open spec fn at(self, phase: ProbePhase) -> ProbeView {
        ProbeView { phase, ..self }
    }

    /// The server sends a message of the burst.
    pub open spec fn bursts(self, i: u32) -> ProbeStepView {
        (self.at(ProbePhase::Bursting(i)), ServerAction::SendControl(burst_text(i)))
    }

    /// The server waits for a ping.
    pub open spec fn probes(self) -> ProbeStepView {
        (self.at(ProbePhase::Probing), ServerAction::ReceiveWithin(self.limit))
    }

    /// The server receives until the client closes.
    pub open spec fn drains(self) -> ProbeStepView {
        (self.at(ProbePhase::Draining), ServerAction::Receive)
    }

    /// The server stops.
    pub open spec fn stops(self, result: Result<bool, WsError>) -> ProbeStepView {
        (self.at(ProbePhase::Done), ServerAction::Finish(result))
    }

    /// What an event leads to, or nothing where the server does not wait for it.
    pub open spec fn next(self, event: ServerEvent<MessageView>) -> Option<ProbeStepView> {
        match (self.phase, event) {
            (ProbePhase::Bursting(i), ServerEvent::Sent(Ok(()))) => if i + 1 < BURST {
                Some(self.bursts((i + 1) as u32))
            } else {
                Some(self.probes())
            },
            (ProbePhase::Probing, ServerEvent::Received(Some(Ok(message)))) => match message {
                MessageView::Ping(_) => Some(
                    (self.at(ProbePhase::Marking), ServerAction::SendControl("alive"@)),
                ),
                _ => Some(self.probes()),
            },
            (ProbePhase::Probing, ServerEvent::Received(_)) => Some(self.drains()),
            (ProbePhase::Probing, ServerEvent::TimedOut) => Some(self.drains()),
            (ProbePhase::Marking, ServerEvent::Sent(Ok(()))) => Some(self.drains()),
            (ProbePhase::Draining, ServerEvent::Received(Some(Ok(message)))) => match message {
                MessageView::Ping(_) => Some(
                    (
                        self.at(ProbePhase::Ponging),
                        ServerAction::Send(MessageView::Pong(Seq::empty())),
                    ),
                ),
                MessageView::Close(_) => Some(
                    (self.at(ProbePhase::Closing), ServerAction::CloseSink),
                ),
                _ => Some(self.drains()),
            },
            (ProbePhase::Draining, ServerEvent::Received(_)) => Some(self.stops(Ok(true))),
            (ProbePhase::Ponging, ServerEvent::Sent(Ok(()))) => Some(self.drains()),
            (
                ProbePhase::Bursting(_) | ProbePhase::Marking | ProbePhase::Ponging,
                ServerEvent::Sent(Err(e)),
            ) => Some(self.stops(Err(e))),
            (ProbePhase::Closing, ServerEvent::SinkClosed(Ok(()))) => Some(self.stops(Ok(true))),
            (ProbePhase::Closing, ServerEvent::SinkClosed(Err(e))) => Some(self.stops(Err(e))),
            _ => None,
        }
    }
}

/// A step by what it holds.
pub open spec fn probe_stepped(step: ProbeStep) -> ProbeStepView {
    (step.0@, step.1@)
}

/// Starts a probe server, which sends five messages (`burst-0` to `burst-4`), waits up to half a
/// second for a ping, sends `alive` only if one arrives, and then answers pings until the client
/// closes.
pub fn backpressure_probe_server() -> (step: ProbeStep)
    ensures
        duration_nanos(step.0@.limit) == 500_000_000,
        probe_stepped(step) == step.0@.bursts(0),
{
    let limit = Duration::from_millis(500);
    ProbeServer { phase: ProbePhase::Done, limit }.burst(0)
}

impl ProbeServer {
    fn burst(self, i: u32) -> (step: ProbeStep)
        requires
            i < BURST,
        ensures
            probe_stepped(step) == self@.bursts(i),
    {
        proof {
            reveal_strlit("burst-");
            reveal_strlit("burst-0");
            reveal_strlit("burst-1");
            reveal_strlit("burst-2");
            reveal_strlit("burst-3");
            reveal_strlit("burst-4");
        }
        let text = match i {
            0 => "burst-0",
            1 => "burst-1",
            2 => "burst-2",
            3 => "burst-3",
            _ => "burst-4",
        };
        assert(text@ =~= burst_text(i));
        (
            ProbeServer { phase: ProbePhase::Bursting(i), ..self },
            ServerAction::SendControl(text.to_owned()),
        )
    }

    fn probe(self) -> (step: ProbeStep)
        ensures
            probe_stepped(step) == self@.probes(),
    {
        let limit = self.limit;
        (ProbeServer { phase: ProbePhase::Probing, ..self }, ServerAction::ReceiveWithin(limit))
    }

    fn drain(self) -> (step: ProbeStep)
        ensures
            probe_stepped(step) == self@.drains(),
    {
        (ProbeServer { phase: ProbePhase::Draining, ..self }, ServerAction::Receive)
    }

    fn stop(self, result: Result<bool, WsError>) -> (step: ProbeStep)
        ensures
            probe_stepped(step) == self@.stops(result),
    {
        (ProbeServer { phase: ProbePhase::Done, ..self }, ServerAction::Finish(result))
    }

    /// Takes the next step. An event that the server does not wait for is handed back, with the
    /// server as it was.
    pub fn step(self, event: ServerEvent<Message>) -> (result: Result<
        ProbeStep,
        (ProbeServer, ServerEvent<Message>),
    >)
        ensures
            match (result, self@.next(event@)) {
                (Ok(step), Some(next)) => probe_stepped(step) == next,
                (Err((unchanged, refused)), None) => unchanged@ == self@ && refused@ == event@,
                _ => false,
            },
    {
        match (self.phase, event) {
            (ProbePhase::Bursting(i), ServerEvent::Sent(Ok(()))) => if i < BURST - 1 {
                Ok(self.burst(i + 1))
            } else {
                Ok(self.probe())
            },
            (ProbePhase::Probing, ServerEvent::Received(Some(Ok(message)))) => match message {
                Message::Ping(_) => Ok(
                    (
                        ProbeServer { phase: ProbePhase::Marking, ..self },
                        ServerAction::SendControl("alive".to_owned()),
                    ),
                ),
                _ => Ok(self.probe()),
            },
            (ProbePhase::Probing, ServerEvent::Received(_)) => Ok(self.drain()),
            (ProbePhase::Probing, ServerEvent::TimedOut) => Ok(self.drain()),
            (ProbePhase::Marking, ServerEvent::Sent(Ok(()))) => Ok(self.drain()),
            (ProbePhase::Draining, ServerEvent::Received(Some(Ok(message)))) => match message {
                Message::Ping(_) => {
                    let payload: Vec<u8> = Vec::new();
                    Ok(
                        (
                            ProbeServer { phase: ProbePhase::Ponging, ..self },
                            ServerAction::Send(Message::Pong(payload)),
                        ),
                    )
                },
                Message::Close(_) => Ok(
                    (
                        ProbeServer { phase: ProbePhase::Closing, ..self },
                        ServerAction::CloseSink,
                    ),
                ),
                _ => Ok(self.drain()),
            },
            (ProbePhase::Draining, ServerEvent::Received(_)) => Ok(self.stop(Ok(true))),
            (ProbePhase::Ponging, ServerEvent::Sent(Ok(()))) => Ok(self.drain()),
            (
                ProbePhase::Bursting(_) | ProbePhase::Marking | ProbePhase::Ponging,
                ServerEvent::Sent(Err(e)),
            ) => Ok(self.stop(Err(e))),
            (ProbePhase::Closing, ServerEvent::SinkClosed(Ok(()))) => Ok(self.stop(Ok(true))),
            (ProbePhase::Closing, ServerEvent::SinkClosed(Err(e))) => Ok(self.stop(Err(e))),
            (_, event) => Err((self, event)),
        }
    }
}

} // verus!
