//! The client: setting up a connection and the handle to a connection that is set up.
//!
//! Setting up goes step by step. [`Socketeer::connect_with_codec`] gives the upgrade request to
//! make; [`Dialing`] waits for the upgrade, [`Greeting`] for the connection handler, and
//! [`Starting`] for the channels and the task of the socket loop.
use vstd::prelude::*;

use std::fmt::{Debug, Formatter};
use std::sync::{Arc, Mutex};

use tokio::sync::mpsc;
use tokio::task::JoinHandle;
use tokio_tungstenite::tungstenite::http;
use tokio_tungstenite::tungstenite::Error as WsError;
use url::Url;

use crate::codec::Codec;
use crate::config::{builds, ConnectOptions, ConnectOptionsView};
use crate::error::{Error, ErrorView};
use crate::handle::{cause_of, poll_recv_raw, received, recv_raw, send_confirmed, take_terminal_error_opt, Polled};
use crate::handler::NoopHandler;
use crate::message::Message;
use crate::outside::{
    debug_struct, debug_url, finish_debug, parse_url, parsed_url, url_str, url_text,
};
use crate::socket_loop::{
    stepped, LoopAction, ResponseSender, SocketLoop, TxChannelPayload,
};
use crate::split::{queues, SocketeerRx, SocketeerRxView, SocketeerTx, SocketeerTxView};

verus! {

/// Capacity of the channels between a handle and its loop where none is chosen. A larger one
/// absorbs longer delays of the consumer before backpressure sets in.
pub const DEFAULT_CHANNEL_SIZE: usize = 256;

/// Shared slot where a loop records the error that ended it.
pub type TerminalError = Arc<Mutex<Option<Error>>>;

/// What a connection is made with: its URL, options and codec.
pub struct Setup<C> {
    url: Url,
    options: ConnectOptions,
    codec: C,
}

/// A connection whose upgrade request is under way.
pub struct Dialing<C, Handler, const CHANNEL_SIZE: usize> {
    pub setup: Setup<C>,
    pub handler: Handler,
}

/// A connection that is upgraded. It is the handler's turn to shake hands.
pub struct Greeting<C, Handler, const CHANNEL_SIZE: usize> {
    pub setup: Setup<C>,
    pub handler: Handler,
}

/// A connection after the handshake. Its loop is to be started.
pub struct Starting<C, Handler, const CHANNEL_SIZE: usize> {
    pub setup: Setup<C>,
    pub handler: Handler,
}

/// What is left of a connection that is being made anew.
pub struct Retired {
    pub receiver: mpsc::Receiver<Message>,
    pub sender: mpsc::Sender<TxChannelPayload<Message>>,
    pub socket_handle: JoinHandle<()>,
    pub terminal_error: TerminalError,
}

/// A connection that is being made anew.
pub struct Reconnecting<C, Handler, const CHANNEL_SIZE: usize> {
    pub setup: Setup<C>,
    pub handler: Handler,
}

/// A WebSocket client: the handle to a connection whose loop runs in a task of its own.
///
/// `C` is the codec of the connection, `Handler` its lifecycle hooks, and `CHANNEL_SIZE` the
/// capacity of the channels between the handle and the loop.
pub struct Socketeer<C: Codec, Handler, const CHANNEL_SIZE: usize> {
    setup: Setup<C>,
    handler: Handler,
    receiver: mpsc::Receiver<Message>,
    sender: mpsc::Sender<TxChannelPayload<Message>>,
    socket_handle: JoinHandle<()>,
    terminal_error: TerminalError,
}

/// What a [`Setup`] holds.
pub struct SetupView<C> {
    pub url: Seq<char>,
    pub options: ConnectOptionsView,
    pub codec: C,
}

/// What a [`Socketeer`] holds.
pub struct SocketeerView<C, Handler> {
    pub setup: SetupView<C>,
    pub handler: Handler,
    pub receiver: mpsc::Receiver<Message>,
    pub sender: mpsc::Sender<TxChannelPayload<Message>>,
    pub socket_handle: JoinHandle<()>,
    pub terminal_error: TerminalError,
}

impl<C> View for Setup<C> {
    type V = SetupView<C>;

    closed spec fn view(&self) -> SetupView<C> {
        SetupView { url: url_text(self.url), options: self.options@, codec: self.codec }
    }
}

impl<C> Setup<C> {
    /// The URL of the connection.
    pub fn url(&self) -> (url: &Url)
        ensures
            url_text(*url) == self@.url,
    {
        &self.url
    }

    /// The options of the connection.
    pub fn options(&self) -> (options: &ConnectOptions)
        ensures
            options@ == self@.options,
    {
        &self.options
    }

    /// The codec of the connection.
    pub fn codec(&self) -> (codec: &C)
        ensures
            *codec == self@.codec,
    {
        &self.codec
    }
}

impl<C: Codec, Handler, const CHANNEL_SIZE: usize> View for Socketeer<C, Handler, CHANNEL_SIZE> {
    type V = SocketeerView<C, Handler>;

    closed spec fn view(&self) -> SocketeerView<C, Handler> {
        SocketeerView {
            setup: self.setup@,
            handler: self.handler,
            receiver: self.receiver,
            sender: self.sender,
            socket_handle: self.socket_handle,
            terminal_error: self.terminal_error,
        }
    }
}

impl<C, Handler> SocketeerView<C, Handler> {
    /// The receive half of a split.
    pub open spec fn rx(self) -> SocketeerRxView<C, Handler> {
        SocketeerRxView {
            setup: self.setup,
            handler: self.handler,
            receiver: self.receiver,
            socket_handle: self.socket_handle,
            terminal_error: self.terminal_error,
        }
    }

    /// The send half of a split, with its copy of the codec.
    pub open spec fn tx(self, codec: C) -> SocketeerTxView<C> {
        SocketeerTxView { sender: self.sender, codec, terminal_error: self.terminal_error }
    }
}

/// What connecting comes to before anything is sent, given what the text was parsed as: an error
/// where it is no URL or no upgrade request can be made for it, else the request and what is to be
/// made of it.
pub open spec fn dials_parsed<C, Handler, const CHANNEL_SIZE: usize>(
    text: Seq<char>,
    parsed: Result<Seq<char>, url::ParseError>,
    options: ConnectOptionsView,
    codec: C,
    handler: Handler,
    result: Result<(http::Request<()>, Dialing<C, Handler, CHANNEL_SIZE>), Error>,
) -> bool {
    match parsed {
        Err(source) => result matches Err(e) && e@ == (ErrorView::UrlParse { url: text, source }),
        Ok(url) => match result {
            Ok((request, dialing)) => {
                &&& builds(url, options, Ok(request))
                &&& dialing.setup@ == (SetupView { url, options, codec })
                &&& dialing.handler == handler
            },
            Err(e) => builds(url, options, Err(e)),
        },
    }
}

/// What connecting to a URL comes to before anything is sent.
pub open spec fn dials<C, Handler, const CHANNEL_SIZE: usize>(
    text: Seq<char>,
    options: ConnectOptionsView,
    codec: C,
    handler: Handler,
    result: Result<(http::Request<()>, Dialing<C, Handler, CHANNEL_SIZE>), Error>,
) -> bool {
    dials_parsed(text, parsed_url(text), options, codec, handler, result)
}

impl<C: Codec, Handler, const CHANNEL_SIZE: usize> Debug for Socketeer<C, Handler, CHANNEL_SIZE> {
    fn fmt(&self, f: &mut Formatter<'_>) -> std::fmt::Result {
        let mut formatting = debug_struct(f, self.label());
        debug_url(&mut formatting, "url", self.setup.url());
        finish_debug(&mut formatting)
    }
}

impl<C: Codec + Default, const CHANNEL_SIZE: usize> Socketeer<C, NoopHandler, CHANNEL_SIZE> {
    /// Connects to a URL with the default options.
    pub fn connect(url: &str) -> (result: Result<
        (http::Request<()>, Dialing<C, NoopHandler, CHANNEL_SIZE>),
        Error,
    >)
        ensures
            exists|options: ConnectOptionsView, codec: C|
                {
                    &&& options.is_default()
                    &&& call_ensures(C::default, (), codec)
                    &&& #[trigger] dials(url@, options, codec, NoopHandler, result)
                },
    {
        let options = ConnectOptions::default();
        Self::connect_with(url, options)
    }

    /// Connects to a URL with the given options.
    pub fn connect_with(url: &str, options: ConnectOptions) -> (result: Result<
        (http::Request<()>, Dialing<C, NoopHandler, CHANNEL_SIZE>),
        Error,
    >)
        ensures
            exists|codec: C|
                {
                    &&& call_ensures(C::default, (), codec)
                    &&& #[trigger] dials(url@, options@, codec, NoopHandler, result)
                },
    {
        let codec = C::default();
        Self::connect_with_codec(url, options, codec, NoopHandler)
    }
}

impl<C: Codec, Handler, const CHANNEL_SIZE: usize> Socketeer<C, Handler, CHANNEL_SIZE> {
    /// Connects to a URL with the given options, codec and handler.
    pub fn connect_with_codec(
        url: &str,
        options: ConnectOptions,
        codec: C,
        handler: Handler,
    ) -> (result: Result<(http::Request<()>, Dialing<C, Handler, CHANNEL_SIZE>), Error>)
        ensures
            dials(url@, options@, codec, handler, result),
    {
        let parsed = parse_url(url);
        Self::dial(url, parsed, options, codec, handler)
    }

    /// Connects to a URL, given what its text was parsed as.
    pub fn dial(
        text: &str,
        parsed: Result<Url, url::ParseError>,
        options: ConnectOptions,
        codec: C,
        handler: Handler,
    ) -> (result: Result<(http::Request<()>, Dialing<C, Handler, CHANNEL_SIZE>), Error>)
        ensures
            dials_parsed(
                text@,
                match parsed {
                    Ok(url) => Ok(url_text(url)),
                    Err(e) => Err(e),
                },
                options@,
                codec,
                handler,
                result,
            ),
    {
        let url = match parsed {
            Ok(url) => url,
            Err(source) => return Err(Error::UrlParse { url: text.to_owned(), source }),
        };
        let request = match options.build_request(url_str(&url)) {
            Ok(request) => request,
            Err(e) => return Err(e),
        };
        Ok((request, Dialing { setup: Setup { url, options, codec }, handler }))
    }

    /// Puts a handle together from its parts.
    pub(crate) fn from_parts(
        setup: Setup<C>,
        handler: Handler,
        receiver: mpsc::Receiver<Message>,
        sender: mpsc::Sender<TxChannelPayload<Message>>,
        socket_handle: JoinHandle<()>,
        terminal_error: TerminalError,
    ) -> (socketeer: Self)
        ensures
            socketeer@ == (SocketeerView {
                setup: setup@,
                handler,
                receiver,
                sender,
                socket_handle,
                terminal_error,
            }),
    {
        Socketeer { setup, handler, receiver, sender, socket_handle, terminal_error }
    }

    /// What the handle is shown as, with its URL.
    pub fn label(&self) -> (text: &'static str)
        ensures
            text@ == "Socketeer"@,
    {
        "Socketeer"
    }

    /// The URL of the connection.
    pub fn url(&self) -> (url: &Url)
        ensures
            url_text(*url) == self@.setup.url,
    {
        self.setup.url()
    }

    /// The channel that the loop delivers to.
    pub fn receiver(&mut self) -> (receiver: &mut mpsc::Receiver<Message>)
        ensures
            *receiver == old(self)@.receiver,
            final(self)@ == (SocketeerView { receiver: *final(receiver), ..old(self)@ }),
    {
        &mut self.receiver
    }

    /// The channel that the loop sends from.
    pub fn sender(&self) -> (sender: &mpsc::Sender<TxChannelPayload<Message>>)
        ensures
            *sender == self@.sender,
    {
        &self.sender
    }

    /// Where the loop records the error that ends it.
    pub fn terminal_error(&self) -> (slot: &TerminalError)
        ensures
            *slot == self@.terminal_error,
    {
        &self.terminal_error
    }

    /// The next message, decoded with the connection's codec, given what the receive channel
    /// held.
    pub fn next_message(&self, message: Option<Message>, slot: &mut Option<Error>) -> (result:
        Result<C::Rx, Error>)
        ensures
            match message {
                Some(message) => {
                    &&& call_ensures(C::decode, (&self@.setup.codec, &message), result)
                    &&& *final(slot) == *old(slot)
                },
                None => {
                    &&& result == Err::<C::Rx, Error>(cause_of(*old(slot)))
                    &&& *final(slot) is None
                },
            },
    {
        match recv_raw(message, slot) {
            Ok(message) => self.setup.codec().decode(&message),
            Err(e) => Err(e),
        }
    }

    /// What to queue to send a value, encoded with the connection's codec. The result of sending
    /// it is awaited at the other end of `response_tx`.
    pub fn send(&self, message: C::Tx, response_tx: ResponseSender) -> (result: Result<
        TxChannelPayload<Message>,
        Error,
    >)
        ensures
            queues(self@.setup.codec, message, Some(response_tx), result),
    {
        match self.setup.codec().encode(&message) {
            Ok(encoded) => Ok(self.send_raw(encoded, response_tx)),
            Err(e) => Err(e),
        }
    }

    /// The next message as it is, given what the receive channel held.
    pub fn next_raw_message(&self, message: Option<Message>, slot: &mut Option<Error>) -> (result:
        Result<Message, Error>)
        ensures
            (result, *final(slot)) == received(message, *old(slot)),
    {
        recv_raw(message, slot)
    }

    /// What to queue to send a message as it is. The result of sending it is awaited at the other
    /// end of `response_tx`.
    pub fn send_raw(&self, message: Message, response_tx: ResponseSender) -> (payload:
        TxChannelPayload<Message>)
        ensures
            payload == (TxChannelPayload { message, response_tx: Some(response_tx) }),
    {
        send_confirmed(message, response_tx)
    }

    /// What the stream of decoded messages yields, given what polling the receive channel came
    /// to.
    pub fn poll_next(&self, polled: Polled<Option<Message>>, slot: &mut Option<Error>) -> (result:
        Polled<Option<Result<C::Rx, Error>>>)
        ensures
            match polled {
                Polled::Ready(Some(message)) => {
                    &&& result matches Polled::Ready(Some(item))
                    &&& call_ensures(C::decode, (&self@.setup.codec, &message), item)
                    &&& *final(slot) == *old(slot)
                },
                Polled::Ready(None) => {
                    &&& *final(slot) is None
                    &&& match *old(slot) {
                        Some(cause) => result == Polled::Ready(Some(Err::<C::Rx, Error>(cause))),
                        None => result == Polled::<Option<Result<C::Rx, Error>>>::Ready(None),
                    }
                },
                Polled::Pending => {
                    &&& result == Polled::<Option<Result<C::Rx, Error>>>::Pending
                    &&& *final(slot) == *old(slot)
                },
            },
    {
        match poll_recv_raw(polled, slot) {
            Polled::Ready(Some(Ok(message))) => Polled::Ready(
                Some(self.setup.codec().decode(&message)),
            ),
            Polled::Ready(Some(Err(e))) => Polled::Ready(Some(Err(e))),
            Polled::Ready(None) => Polled::Ready(None),
            Polled::Pending => Polled::Pending,
        }
    }

    /// Parts a handle into its side of the channels and what the connection was made with.
    pub fn retire(self) -> (parts: (Retired, Setup<C>, Handler))
        ensures
            parts.1@ == self@.setup,
            parts.2 == self@.handler,
            parts.0.receiver == self@.receiver,
            parts.0.sender == self@.sender,
            parts.0.socket_handle == self@.socket_handle,
            parts.0.terminal_error == self@.terminal_error,
    {
        let Socketeer { setup, handler, receiver, sender, socket_handle, terminal_error } = self;
        (Retired { receiver, sender, socket_handle, terminal_error }, setup, handler)
    }

    /// Starts to make the connection anew. The handler is to be told that the connection is lost,
    /// and a close is to be sent on what is left of it.
    pub fn reconnect(self) -> (parts: (Retired, Reconnecting<C, Handler, CHANNEL_SIZE>))
        ensures
            parts.1.setup@ == self@.setup,
            parts.1.handler == self@.handler,
            parts.0.receiver == self@.receiver,
            parts.0.sender == self@.sender,
            parts.0.socket_handle == self@.socket_handle,
            parts.0.terminal_error == self@.terminal_error,
    {
        let (retired, setup, handler) = self.retire();
        (retired, Reconnecting { setup, handler })
    }

    /// The result of closing a connection, given what sending the close came to and, now that the
    /// loop has ended, the cause that it recorded. The cause takes precedence.
    pub fn close_connection(close_sent: Result<(), Error>, slot: &mut Option<Error>) -> (result:
        Result<(), Error>)
        ensures
            *final(slot) is None,
            result == (match *old(slot) {
                Some(cause) => Err(cause),
                None => close_sent,
            }),
    {
        match take_terminal_error_opt(slot) {
            Some(error) => Err(error),
            None => close_sent,
        }
    }
}

impl<C: Codec + Clone, Handler, const CHANNEL_SIZE: usize> Socketeer<C, Handler, CHANNEL_SIZE> {
    /// Splits a handle into an owned send half, which can be cloned, and an owned receive half.
    /// The codec is cloned for the send half. [`SocketeerRx::reunite`] puts them together again.
    #[must_use]
    pub fn split(self) -> (halves: (SocketeerTx<C>, SocketeerRx<C, Handler, CHANNEL_SIZE>))
        ensures
            cloned(self@.setup.codec, halves.0@.codec),
            halves.0@ == self@.tx(halves.0@.codec),
            halves.1@ == self@.rx(),
    {
        let Socketeer { setup, handler, receiver, sender, socket_handle, terminal_error } = self;
        let tx = SocketeerTx::from_parts(
            sender,
            setup.codec().clone(),
            Arc::clone(&terminal_error),
        );
        let rx = SocketeerRx::from_parts(
            setup,
            handler,
            receiver,
            socket_handle,
            terminal_error,
        );
        (tx, rx)
    }
}

impl<C, Handler, const CHANNEL_SIZE: usize> Dialing<C, Handler, CHANNEL_SIZE> {
    /// Goes on after the upgrade, or reports why it failed.
    pub fn upgraded(self, upgrade: Result<(), WsError>) -> (result: Result<
        Greeting<C, Handler, CHANNEL_SIZE>,
        Error,
    >)
        ensures
            match (upgrade, result) {
                (Ok(_), Ok(greeting)) => greeting.setup == self.setup && greeting.handler
                    == self.handler,
                (Err(e), Err(reported)) => reported == Error::WebsocketError(e),
                _ => false,
            },
    {
        match upgrade {
            Ok(_) => Ok(Greeting { setup: self.setup, handler: self.handler }),
            Err(e) => Err(Error::from(e)),
        }
    }
}

impl<C, Handler, const CHANNEL_SIZE: usize> Greeting<C, Handler, CHANNEL_SIZE> {
    /// Goes on after the handshake, with the loop to run, or reports why the handshake failed.
    pub fn greeted(self, handshake: Result<(), Error>) -> (result: Result<
        (SocketLoop, LoopAction<Message>, Starting<C, Handler, CHANNEL_SIZE>),
        Error,
    >)
        ensures
            match (handshake, result) {
                (Ok(_), Ok((socket_loop, action, starting))) => {
                    &&& socket_loop@.keepalive_interval
                        == self.setup@.options.keepalive_interval
                    &&& socket_loop@.keepalive_message
                        == self.setup@.options.custom_keepalive_message
                    &&& stepped((socket_loop, action)) == socket_loop@.waits(None)
                    &&& starting.setup == self.setup
                    &&& starting.handler == self.handler
                },
                (Err(e), Err(reported)) => reported == e,
                _ => false,
            },
    {
        match handshake {
            Ok(_) => {
                let keepalive_interval = self.setup.options().keepalive_interval();
                let keepalive_message = match self.setup.options().custom_keepalive_message() {
                    Some(message) => Some(message.clone()),
                    None => None,
                };
                let (socket_loop, action) = SocketLoop::start(
                    keepalive_interval,
                    keepalive_message,
                );
                Ok((socket_loop, action, Starting { setup: self.setup, handler: self.handler }))
            },
            Err(e) => Err(e),
        }
    }
}

impl<C: Codec, Handler, const CHANNEL_SIZE: usize> Starting<C, Handler, CHANNEL_SIZE> {
    /// The handle to the connection, whose loop runs in a task of its own.
    pub fn started(
        self,
        receiver: mpsc::Receiver<Message>,
        sender: mpsc::Sender<TxChannelPayload<Message>>,
        socket_handle: JoinHandle<()>,
        terminal_error: TerminalError,
    ) -> (socketeer: Socketeer<C, Handler, CHANNEL_SIZE>)
        ensures
            socketeer@ == (SocketeerView {
                setup: self.setup@,
                handler: self.handler,
                receiver,
                sender,
                socket_handle,
                terminal_error,
            }),
    {
        Socketeer::from_parts(
            self.setup,
            self.handler,
            receiver,
            sender,
            socket_handle,
            terminal_error,
        )
    }
}

impl<C: Codec, Handler, const CHANNEL_SIZE: usize> Reconnecting<C, Handler, CHANNEL_SIZE> {
    /// Connects once more, with the URL, options, codec and handler that the connection had,
    /// whether or not the close could be sent: the connection may have been closed already.
    pub fn redial(self, _close_sent: Result<(), Error>) -> (result: Result<
        (http::Request<()>, Dialing<C, Handler, CHANNEL_SIZE>),
        Error,
    >)
        ensures
            dials(
                self.setup@.url,
                self.setup@.options,
                self.setup@.codec,
                self.handler,
                result,
            ),
    {
        let Reconnecting { setup, handler } = self;
        let Setup { url, options, codec } = setup;
        Socketeer::connect_with_codec(url_str(&url), options, codec, handler)
    }
}

/// What a connection is made anew with: its URL as it was written out, and the options, codec and
/// handler that it was first made with. The request is an upgrade request for that URL with the
/// extra headers of those options.
pub proof fn reconnecting_asks_for_the_same<C, Handler, const CHANNEL_SIZE: usize>(
    text: Seq<char>,
    options: ConnectOptionsView,
    codec: C,
    handler: Handler,
    request: http::Request<()>,
    dialing: Dialing<C, Handler, CHANNEL_SIZE>,
    again: Result<(http::Request<()>, Dialing<C, Handler, CHANNEL_SIZE>), Error>,
)
    requires
        dials(text, options, codec, handler, Ok((request, dialing))),
        dials(
            dialing.setup@.url,
            dialing.setup@.options,
            dialing.setup@.codec,
            dialing.handler,
            again,
        ),
    ensures
        parsed_url(text) == Ok::<Seq<char>, url::ParseError>(dialing.setup@.url),
        again matches Ok((request, redialing)) ==> {
            &&& builds(redialing.setup@.url, options, Ok(request))
            &&& parsed_url(dialing.setup@.url) == Ok::<Seq<char>, url::ParseError>(
                redialing.setup@.url,
            )
            &&& redialing.setup@.options == options
            &&& redialing.setup@.codec == codec
            &&& redialing.handler == handler
        },
{
}

} // verus!
