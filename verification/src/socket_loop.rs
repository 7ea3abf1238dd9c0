//! The loop that owns a WebSocket connection, as a state machine.
//!
//! [`SocketLoop`] decides; whoever drives it does the waiting, sending and receiving that its
//! [`LoopAction`]s ask for and reports what came of it as [`LoopEvent`]s. Protocol messages
//! (ping, pong, close) are dealt with here and never reach the consumer.
use vstd::prelude::*;

use std::time::Duration;

use tokio::net::TcpStream;
use tokio::sync::oneshot;
use tokio_tungstenite::tungstenite::Error as WsError;
use tokio_tungstenite::{MaybeTlsStream, WebSocketStream};

use crate::error::Error;
use crate::message::{Message, MessageView};

verus! {

/// The stream of a WebSocket connection, which the loop and the test servers are driven with.
pub type WebSocketStreamType = WebSocketStream<MaybeTlsStream<TcpStream>>;

/// Where the result of a confirmed send goes.
pub type ResponseSender = oneshot::Sender<Result<(), Error>>;

/// A message to send, with the place where the result of sending it is reported, or `None` for
/// a send that nobody waits for.
pub struct TxChannelPayload<M> {
    pub message: M,
    pub response_tx: Option<ResponseSender>,
}

/// Whether the loop goes on, and how it ended if it does not.
pub enum LoopState {
    /// The loop goes on.
    Running,
    /// The loop ended with an error.
    Error(Error),
    /// The loop ended with a graceful close.
    Closed,
}

/// Whether the receive channel takes another message.
#[derive(Debug, Clone, Copy, PartialEq, Eq)]
pub enum Capacity {
    /// It has room.
    Available,
    /// It is full.
    Full,
    /// The consumer is gone.
    Closed,
}

/// What the loop waits for.
pub enum Phase<M> {
    /// The next outgoing message, the next incoming message, or the keepalive time.
    Idle,
    /// The sink, to take an outgoing message.
    Sending { response_tx: Option<ResponseSender>, held: Option<M> },
    /// The sender of an outgoing message, to be told whether sending it failed.
    Answering { failed: bool, held: Option<M> },
    /// The sink, to take a pong.
    Ponging,
    /// The sink, to close.
    Closing,
    /// The sink, to take a keepalive.
    KeepingAlive { held: Option<M> },
    /// The receive channel, to say whether it has room for a frame.
    Offering { frame: M },
    /// The receive channel, to take a frame that it has room for.
    Handing,
    /// Room in the receive channel for a frame, the next outgoing message, or the keepalive
    /// time. Incoming messages are not read meanwhile.
    Holding { frame: M },
    /// Nothing: the loop has ended.
    Done,
}

/// What happened.
pub enum LoopEvent<M> {
    /// The handle sent a message, or is gone.
    Outgoing(Option<TxChannelPayload<M>>),
    /// The peer sent a message, the connection failed, or it ended.
    Incoming(Option<Result<M, WsError>>),
    /// Nothing else happened for the keepalive interval.
    KeepaliveDue,
    /// The sink took a message or failed.
    FrameSent(Result<(), WsError>),
    /// The sink closed or failed.
    SinkClosed(Result<(), WsError>),
    /// The result of a send was reported; whether anybody was left to take it.
    Answered(bool),
    /// The receive channel said whether it has room.
    Room(Capacity),
    /// The receive channel took the frame that it had room for.
    Handed,
}

/// What to do next.
pub enum LoopAction<M> {
    /// Wait for an outgoing message; for an incoming one if `incoming`; for room in the receive
    /// channel if `capacity`; and for the keepalive interval, if there is one, to pass.
    Wait { incoming: bool, capacity: bool, keepalive: Option<Duration> },
    /// Hand a message to the sink.
    Send(M),
    /// Close the sink.
    CloseSink,
    /// Report the result of a send.
    Answer(ResponseSender, Result<(), Error>),
    /// Ask the receive channel whether it has room for one more message.
    AskRoom,
    /// Hand a frame to the receive channel, which has room for it.
    Deliver(M),
    /// Record the error, if there is one, as the cause of the end, and stop.
    Finish(Option<Error>),
}

/// What an incoming message leads to.
pub enum Incoming {
    /// A pong is to be sent.
    Pong(Message),
    /// The sink is to be closed.
    CloseSink,
    /// A frame is to be delivered to the consumer.
    Data(Message),
    /// The loop goes on or ends.
    State(LoopState),
}

/// The loop between its steps.
pub struct SocketLoop {
    phase: Phase<Message>,
    keepalive_interval: Option<Duration>,
    keepalive_message: Option<Message>,
}

/// What a [`SocketLoop`] holds.
pub struct LoopView {
    pub phase: Phase<MessageView>,
    pub keepalive_interval: Option<Duration>,
    pub keepalive_message: Option<MessageView>,
}

/// An optional message, by what it holds.
pub open spec fn held_view(held: Option<Message>) -> Option<MessageView> {
    match held {
        Some(frame) => Some(frame@),
        None => None,
    }
}

impl View for TxChannelPayload<Message> {
    type V = TxChannelPayload<MessageView>;

    open spec fn view(&self) -> TxChannelPayload<MessageView> {
        TxChannelPayload { message: self.message@, response_tx: self.response_tx }
    }
}

impl View for Phase<Message> {
    type V = Phase<MessageView>;

    open spec fn view(&self) -> Phase<MessageView> {
        match *self {
            Phase::Idle => Phase::Idle,
            Phase::Sending { response_tx, held } => Phase::Sending {
                response_tx,
                held: held_view(held),
            },
            Phase::Answering { failed, held } => Phase::Answering {
                failed,
                held: held_view(held),
            },
            Phase::Ponging => Phase::Ponging,
            Phase::Closing => Phase::Closing,
            Phase::KeepingAlive { held } => Phase::KeepingAlive { held: held_view(held) },
            Phase::Offering { frame } => Phase::Offering { frame: frame@ },
            Phase::Handing => Phase::Handing,
            Phase::Holding { frame } => Phase::Holding { frame: frame@ },
            Phase::Done => Phase::Done,
        }
    }
}

impl View for LoopEvent<Message> {
    type V = LoopEvent<MessageView>;

    open spec fn view(&self) -> LoopEvent<MessageView> {
        match *self {
            LoopEvent::Outgoing(Some(payload)) => LoopEvent::Outgoing(Some(payload@)),
            LoopEvent::Outgoing(None) => LoopEvent::Outgoing(None),
            LoopEvent::Incoming(Some(Ok(message))) => LoopEvent::Incoming(Some(Ok(message@))),
            LoopEvent::Incoming(Some(Err(e))) => LoopEvent::Incoming(Some(Err(e))),
            LoopEvent::Incoming(None) => LoopEvent::Incoming(None),
            LoopEvent::KeepaliveDue => LoopEvent::KeepaliveDue,
            LoopEvent::FrameSent(result) => LoopEvent::FrameSent(result),
            LoopEvent::SinkClosed(result) => LoopEvent::SinkClosed(result),
            LoopEvent::Answered(taken) => LoopEvent::Answered(taken),
            LoopEvent::Room(capacity) => LoopEvent::Room(capacity),
            LoopEvent::Handed => LoopEvent::Handed,
        }
    }
}

impl View for LoopAction<Message> {
    type V = LoopAction<MessageView>;

    open spec fn view(&self) -> LoopAction<MessageView> {
        match *self {
            LoopAction::Wait { incoming, capacity, keepalive } => LoopAction::Wait {
                incoming,
                capacity,
                keepalive,
            },
            LoopAction::Send(message) => LoopAction::Send(message@),
            LoopAction::CloseSink => LoopAction::CloseSink,
            LoopAction::Answer(response_tx, result) => LoopAction::Answer(response_tx, result),
            LoopAction::AskRoom => LoopAction::AskRoom,
            LoopAction::Deliver(frame) => LoopAction::Deliver(frame@),
            LoopAction::Finish(cause) => LoopAction::Finish(cause),
        }
    }
}

impl View for SocketLoop {
    type V = LoopView;

    closed spec fn view(&self) -> LoopView {
        LoopView {
            phase: self.phase@,
            keepalive_interval: self.keepalive_interval,
            keepalive_message: held_view(self.keepalive_message),
        }
    }
}

/// The payload of the pong that answers a ping.
pub open spec fn pong_payload() -> Seq<u8> {
    seq![0x70u8, 0x6fu8, 0x6eu8, 0x67u8]
}

/// The keepalive: the custom message if there is one, else a ping without payload.
pub open spec fn keepalive_frame(custom: Option<MessageView>) -> MessageView {
    match custom {
        Some(message) => message,
        None => MessageView::Ping(Seq::empty()),
    }
}

/// A result of the sink, with its error as the library's.
pub open spec fn sink_result(result: Result<(), WsError>) -> Result<(), Error> {
    match result {
        Ok(()) => Ok(()),
        Err(e) => Err(Error::WebsocketError(e)),
    }
}

impl LoopView {
    /// The frame that is read but not delivered yet, if there is one.
    pub open spec fn held(self) -> Option<MessageView> {
        match self.phase {
            Phase::Sending { held, .. } => held,
            Phase::Answering { held, .. } => held,
            Phase::KeepingAlive { held } => held,
            Phase::Offering { frame } => Some(frame),
            Phase::Holding { frame } => Some(frame),
            _ => None,
        }
    }

    /// The same loop in another phase.
    pub open spec fn at(self, phase: Phase<MessageView>) -> LoopView {
        LoopView { phase, ..self }
    }

    /// The loop goes back to waiting, with the frame that it holds if it holds one.
    pub open spec fn waits(self, held: Option<MessageView>) -> (LoopView, LoopAction<MessageView>) {
        match held {
            None => (
                self.at(Phase::Idle),
                LoopAction::Wait {
                    incoming: true,
                    capacity: false,
                    keepalive: self.keepalive_interval,
                },
            ),
            Some(frame) => (
                self.at(Phase::Holding { frame }),
                LoopAction::Wait {
                    incoming: false,
                    capacity: true,
                    keepalive: self.keepalive_interval,
                },
            ),
        }
    }

    /// The loop ends.
    pub open spec fn ends(self, cause: Option<Error>) -> (LoopView, LoopAction<MessageView>) {
        (self.at(Phase::Done), LoopAction::Finish(cause))
    }

    /// The handle sent a message or is gone.
    pub open spec fn on_outgoing(
        self,
        payload: Option<TxChannelPayload<MessageView>>,
        held: Option<MessageView>,
    ) -> (LoopView, LoopAction<MessageView>) {
        match payload {
            Some(payload) => (
                self.at(Phase::Sending { response_tx: payload.response_tx, held }),
                LoopAction::Send(payload.message),
            ),
            None => self.ends(Some(Error::SocketeerDroppedWithoutClosing)),
        }
    }

    /// The sink took an outgoing message or failed.
    pub open spec fn on_sent(
        self,
        result: Result<(), WsError>,
        response_tx: Option<ResponseSender>,
        held: Option<MessageView>,
    ) -> (LoopView, LoopAction<MessageView>) {
        match response_tx {
            Some(response_tx) => (
                self.at(Phase::Answering { failed: result is Err, held }),
                LoopAction::Answer(response_tx, sink_result(result)),
            ),
            None => self.on_settled(result is Err, held),
        }
    }

    /// An outgoing message is dealt with.
    pub open spec fn on_settled(self, failed: bool, held: Option<MessageView>) -> (
        LoopView,
        LoopAction<MessageView>,
    ) {
        if failed {
            self.ends(Some(Error::WebsocketClosed))
        } else {
            self.waits(held)
        }
    }

    /// The peer sent a message, the connection failed or it ended.
    pub open spec fn on_incoming(self, message: Option<Result<MessageView, WsError>>) -> (
        LoopView,
        LoopAction<MessageView>,
    ) {
        match message {
            Some(Ok(MessageView::Ping(_))) => (
                self.at(Phase::Ponging),
                LoopAction::Send(MessageView::Pong(pong_payload())),
            ),
            Some(Ok(MessageView::Close(_))) => (self.at(Phase::Closing), LoopAction::CloseSink),
            Some(Ok(frame)) => if frame.is_data() {
                (self.at(Phase::Offering { frame }), LoopAction::AskRoom)
            } else {
                self.waits(None)
            },
            Some(Err(e)) => self.ends(Some(Error::WebsocketError(e))),
            None => self.ends(Some(Error::WebsocketClosed)),
        }
    }

    /// The sink took a pong or a keepalive, or failed.
    pub open spec fn on_protocol_sent(
        self,
        result: Result<(), WsError>,
        held: Option<MessageView>,
    ) -> (LoopView, LoopAction<MessageView>) {
        match result {
            Ok(()) => self.waits(held),
            Err(e) => self.ends(Some(Error::WebsocketError(e))),
        }
    }

    /// The keepalive time has come.
    pub open spec fn on_keepalive(self, held: Option<MessageView>) -> (
        LoopView,
        LoopAction<MessageView>,
    ) {
        (
            self.at(Phase::KeepingAlive { held }),
            LoopAction::Send(keepalive_frame(self.keepalive_message)),
        )
    }

    /// The receive channel said whether it has room for a frame.
    pub open spec fn on_room(self, capacity: Capacity, frame: MessageView) -> (
        LoopView,
        LoopAction<MessageView>,
    ) {
        match capacity {
            Capacity::Available => (self.at(Phase::Handing), LoopAction::Deliver(frame)),
            Capacity::Full => self.waits(Some(frame)),
            Capacity::Closed => self.ends(Some(Error::SocketeerDroppedWithoutClosing)),
        }
    }

    /// What an event leads to, or nothing where the loop does not wait for it.
    pub open spec fn next(self, event: LoopEvent<MessageView>) -> Option<
        (LoopView, LoopAction<MessageView>),
    > {
        match (self.phase, event) {
            (Phase::Idle, LoopEvent::Outgoing(payload)) => Some(self.on_outgoing(payload, None)),
            (Phase::Idle, LoopEvent::Incoming(message)) => Some(self.on_incoming(message)),
            (Phase::Idle, LoopEvent::KeepaliveDue) => if self.keepalive_interval is Some {
                Some(self.on_keepalive(None))
            } else {
                None
            },
            (Phase::Sending { response_tx, held }, LoopEvent::FrameSent(result)) => Some(
                self.on_sent(result, response_tx, held),
            ),
            (Phase::Answering { failed, held }, LoopEvent::Answered(taken)) => if taken {
                Some(self.on_settled(failed, held))
            } else {
                Some(self.ends(Some(Error::SocketeerDroppedWithoutClosing)))
            },
            (Phase::Ponging, LoopEvent::FrameSent(result)) => Some(
                self.on_protocol_sent(result, None),
            ),
            (Phase::Closing, LoopEvent::SinkClosed(result)) => match result {
                Ok(()) => Some(self.ends(None)),
                Err(e) => Some(self.ends(Some(Error::WebsocketError(e)))),
            },
            (Phase::KeepingAlive { held }, LoopEvent::FrameSent(result)) => Some(
                self.on_protocol_sent(result, held),
            ),
            (Phase::Offering { frame }, LoopEvent::Room(capacity)) => Some(
                self.on_room(capacity, frame),
            ),
            (Phase::Handing, LoopEvent::Handed) => Some(self.waits(None)),
            (Phase::Holding { frame }, LoopEvent::Room(capacity)) => if capacity is Full {
                None
            } else {
                Some(self.on_room(capacity, frame))
            },
            (Phase::Holding { frame }, LoopEvent::Outgoing(payload)) => Some(
                self.on_outgoing(payload, Some(frame)),
            ),
            (Phase::Holding { frame }, LoopEvent::KeepaliveDue) => if self.keepalive_interval is Some {
                Some(self.on_keepalive(Some(frame)))
            } else {
                None
            },
            _ => None,
        }
    }
}

/// The state that a loop is in after an action.
pub open spec fn stepped(step: (SocketLoop, LoopAction<Message>)) -> (
    LoopView,
    LoopAction<MessageView>,
) {
    (step.0@, step.1@)
}

/// What an incoming message leads to, by what it holds.
pub open spec fn incoming_view(incoming: Incoming) -> Option<MessageView> {
    match incoming {
        Incoming::Pong(message) => Some(message@),
        Incoming::Data(message) => Some(message@),
        _ => None,
    }
}

/// Decides what an incoming message leads to: a ping is answered, a close closes the sink, data
/// is delivered, and a failure or the end of the connection ends the loop.
pub fn handle_incoming(message: Option<Result<Message, WsError>>) -> (incoming: Incoming)
    ensures
        match message {
            Some(Ok(m)) => match m@ {
                MessageView::Ping(_) => incoming is Pong && incoming_view(incoming) == Some(
                    MessageView::Pong(pong_payload()),
                ),
                MessageView::Close(_) => incoming is CloseSink,
                MessageView::Pong(_) | MessageView::Frame(_) => incoming == Incoming::State(
                    LoopState::Running,
                ),
                frame => incoming is Data && incoming_view(incoming) == Some(frame),
            },
            Some(Err(e)) => incoming == Incoming::State(
                LoopState::Error(Error::WebsocketError(e)),
            ),
            None => incoming == Incoming::State(LoopState::Error(Error::WebsocketClosed)),
        },
{
    match message {
        Some(Ok(message)) => match message {
            Message::Ping(_) => {
                let payload: Vec<u8> = vec![0x70, 0x6f, 0x6e, 0x67];
                assert(payload@ =~= pong_payload());
                Incoming::Pong(Message::Pong(payload))
            },
            Message::Close(_) => Incoming::CloseSink,
            Message::Text(_) | Message::Binary(_) => Incoming::Data(message),
            _ => Incoming::State(LoopState::Running),
        },
        Some(Err(e)) => Incoming::State(LoopState::Error(Error::WebsocketError(e))),
        None => Incoming::State(LoopState::Error(Error::WebsocketClosed)),
    }
}

/// The keepalive to send: a copy of the custom message if there is one, else a ping.
pub fn send_keepalive(custom_message: Option<&Message>) -> (message: Message)
    ensures
        message@ == keepalive_frame(
            match custom_message {
                Some(custom) => Some(custom@),
                None => None,
            },
        ),
{
    if let Some(custom) = custom_message {
        custom.clone()
    } else {
        Message::Ping(Vec::new())
    }
}

impl SocketLoop {
    /// Starts a loop with its keepalive settings; the first thing it does is to wait.
    pub fn start(keepalive_interval: Option<Duration>, keepalive_message: Option<Message>) -> (step:
        (SocketLoop, LoopAction<Message>))
        ensures
            step.0@.keepalive_interval == keepalive_interval,
            step.0@.keepalive_message == held_view(keepalive_message),
            stepped(step) == step.0@.waits(None),
    {
        SocketLoop { phase: Phase::Idle, keepalive_interval, keepalive_message }.wait(None)
    }

    fn wait(self, held: Option<Message>) -> (step: (SocketLoop, LoopAction<Message>))
        ensures
            stepped(step) == self@.waits(held_view(held)),
    {
        let keepalive = self.keepalive_interval;
        match held {
            None => (
                SocketLoop { phase: Phase::Idle, ..self },
                LoopAction::Wait { incoming: true, capacity: false, keepalive },
            ),
            Some(frame) => (
                SocketLoop { phase: Phase::Holding { frame }, ..self },
                LoopAction::Wait { incoming: false, capacity: true, keepalive },
            ),
        }
    }

    fn go_on(self, state: LoopState, held: Option<Message>) -> (step: (
        SocketLoop,
        LoopAction<Message>,
    ))
        ensures
            stepped(step) == match state {
                LoopState::Running => self@.waits(held_view(held)),
                LoopState::Error(e) => self@.ends(Some(e)),
                LoopState::Closed => self@.ends(None),
            },
    {
        match state {
            LoopState::Running => self.wait(held),
            LoopState::Error(e) => (
                SocketLoop { phase: Phase::Done, ..self },
                LoopAction::Finish(Some(e)),
            ),
            LoopState::Closed => (
                SocketLoop { phase: Phase::Done, ..self },
                LoopAction::Finish(None),
            ),
        }
    }

    fn send_socket_message(
        self,
        message: Option<TxChannelPayload<Message>>,
        held: Option<Message>,
    ) -> (step: (SocketLoop, LoopAction<Message>))
        ensures
            stepped(step) == self@.on_outgoing(
                match message {
                    Some(payload) => Some(payload@),
                    None => None,
                },
                held_view(held),
            ),
    {
        if let Some(payload) = message {
            (
                SocketLoop {
                    phase: Phase::Sending { response_tx: payload.response_tx, held },
                    ..self
                },
                LoopAction::Send(payload.message),
            )
        } else {
            self.go_on(LoopState::Error(Error::SocketeerDroppedWithoutClosing), held)
        }
    }

    fn message_sent(
        self,
        result: Result<(), WsError>,
        response_tx: Option<ResponseSender>,
        held: Option<Message>,
    ) -> (step: (SocketLoop, LoopAction<Message>))
        ensures
            stepped(step) == self@.on_sent(result, response_tx, held_view(held)),
    {
        let send_result = match result {
            Ok(()) => Ok(()),
            Err(e) => Err(Error::from(e)),
        };
        let failed = send_result.is_err();
        if let Some(response_tx) = response_tx {
            (
                SocketLoop { phase: Phase::Answering { failed, held }, ..self },
                LoopAction::Answer(response_tx, send_result),
            )
        } else {
            self.message_settled(failed, held)
        }
    }

    fn message_settled(self, failed: bool, held: Option<Message>) -> (step: (
        SocketLoop,
        LoopAction<Message>,
    ))
        ensures
            stepped(step) == self@.on_settled(failed, held_view(held)),
    {
        if failed {
            self.go_on(LoopState::Error(Error::WebsocketClosed), held)
        } else {
            self.go_on(LoopState::Running, held)
        }
    }

    fn receive(self, message: Option<Result<Message, WsError>>) -> (step: (
        SocketLoop,
        LoopAction<Message>,
    ))
        ensures
            stepped(step) == self@.on_incoming(
                match message {
                    Some(Ok(m)) => Some(Ok(m@)),
                    Some(Err(e)) => Some(Err(e)),
                    None => None,
                },
            ),
    {
        match handle_incoming(message) {
            Incoming::Pong(pong) => (
                SocketLoop { phase: Phase::Ponging, ..self },
                LoopAction::Send(pong),
            ),
            Incoming::CloseSink => (
                SocketLoop { phase: Phase::Closing, ..self },
                LoopAction::CloseSink,
            ),
            Incoming::Data(frame) => (
                SocketLoop { phase: Phase::Offering { frame }, ..self },
                LoopAction::AskRoom,
            ),
            Incoming::State(state) => self.go_on(state, None),
        }
    }

    fn keep_alive(self, held: Option<Message>) -> (step: (SocketLoop, LoopAction<Message>))
        ensures
            stepped(step) == self@.on_keepalive(held_view(held)),
    {
        let message = send_keepalive(self.keepalive_message.as_ref());
        (SocketLoop { phase: Phase::KeepingAlive { held }, ..self }, LoopAction::Send(message))
    }

    fn protocol_sent(self, result: Result<(), WsError>, held: Option<Message>) -> (step: (
        SocketLoop,
        LoopAction<Message>,
    ))
        ensures
            stepped(step) == self@.on_protocol_sent(result, held_view(held)),
    {
        match result {
            Ok(()) => self.go_on(LoopState::Running, held),
            Err(e) => self.go_on(LoopState::Error(Error::from(e)), held),
        }
    }

    /// Delivers a frame if the receive channel has room, and holds on to it if it has not.
    fn deliver_with_backpressure(self, frame: Message, capacity: Capacity) -> (step: (
        SocketLoop,
        LoopAction<Message>,
    ))
        ensures
            stepped(step) == self@.on_room(capacity, frame@),
    {
        match capacity {
            Capacity::Available => (
                SocketLoop { phase: Phase::Handing, ..self },
                LoopAction::Deliver(frame),
            ),
            Capacity::Full => self.wait(Some(frame)),
            Capacity::Closed => self.go_on(
                LoopState::Error(Error::SocketeerDroppedWithoutClosing),
                None,
            ),
        }
    }

    /// Takes the next step. An event that the loop does not wait for is handed back, with the
    /// loop as it was.
    pub fn step(self, event: LoopEvent<Message>) -> (result: Result<
        (SocketLoop, LoopAction<Message>),
        (SocketLoop, LoopEvent<Message>),
    >)
        ensures
            match (result, self@.next(event@)) {
                (Ok(step), Some(next)) => stepped(step) == next,
                (Err((unchanged, refused)), None) => unchanged@ == self@ && refused@ == event@,
                _ => false,
            },
    {
        let SocketLoop { phase, keepalive_interval, keepalive_message } = self;
        let keepalives = keepalive_interval.is_some();
        let this = SocketLoop { phase: Phase::Done, keepalive_interval, keepalive_message };
        match (phase, event) {
            (Phase::Idle, LoopEvent::Outgoing(payload)) => Ok(
                this.send_socket_message(payload, None),
            ),
            (Phase::Idle, LoopEvent::Incoming(message)) => Ok(this.receive(message)),
            (Phase::Idle, LoopEvent::KeepaliveDue) if keepalives => Ok(this.keep_alive(None)),
            (Phase::Sending { response_tx, held }, LoopEvent::FrameSent(result)) => Ok(
                this.message_sent(result, response_tx, held),
            ),
            (Phase::Answering { failed, held }, LoopEvent::Answered(taken)) => if taken {
                Ok(this.message_settled(failed, held))
            } else {
                Ok(this.go_on(LoopState::Error(Error::SocketeerDroppedWithoutClosing), held))
            },
            (Phase::Ponging, LoopEvent::FrameSent(result)) => Ok(this.protocol_sent(result, None)),
            (Phase::Closing, LoopEvent::SinkClosed(result)) => match result {
                Ok(()) => Ok(this.go_on(LoopState::Closed, None)),
                Err(e) => Ok(this.go_on(LoopState::Error(Error::from(e)), None)),
            },
            (Phase::KeepingAlive { held }, LoopEvent::FrameSent(result)) => Ok(
                this.protocol_sent(result, held),
            ),
            (Phase::Offering { frame }, LoopEvent::Room(capacity)) => Ok(
                this.deliver_with_backpressure(frame, capacity),
            ),
            (Phase::Handing, LoopEvent::Handed) => Ok(this.wait(None)),
            (Phase::Holding { frame }, LoopEvent::Room(Capacity::Available)) => Ok(
                this.deliver_with_backpressure(frame, Capacity::Available),
            ),
            (Phase::Holding { frame }, LoopEvent::Room(Capacity::Closed)) => Ok(
                this.deliver_with_backpressure(frame, Capacity::Closed),
            ),
            (Phase::Holding { frame }, LoopEvent::Outgoing(payload)) => Ok(
                this.send_socket_message(payload, Some(frame)),
            ),
            (Phase::Holding { frame }, LoopEvent::KeepaliveDue) if keepalives => Ok(
                this.keep_alive(Some(frame)),
            ),
            (phase, event) => Err((SocketLoop { phase, ..this }, event)),
        }
    }
}

} // verus!