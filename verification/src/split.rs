//! Owned halves of a handle, for sending and receiving concurrently.
//!
//! [`Socketeer::split`] divides a handle into a [`SocketeerTx`], which can be cloned, and a
//! [`SocketeerRx`], which can move into separate tasks. [`SocketeerRx::reunite`] puts them
//! together again.
use vstd::prelude::*;

use std::fmt::{Debug, Display, Formatter};
use std::sync::Arc;

use tokio::sync::mpsc;
use tokio::task::JoinHandle;
use url::Url;

use crate::client::{Setup, SetupView, Socketeer, SocketeerView, TerminalError};
use crate::codec::Codec;
use crate::error::Error;
use crate::handle::{
    cause_of, closing_message, poll_recv_raw, received, recv_raw, send_close, send_confirmed,
    send_unconfirmed, Polled,
};
use crate::message::Message;
use crate::outside::{
    debug_struct, debug_url, finish_debug, same_mutex, same_sender, url_text,
};
use crate::socket_loop::{ResponseSender, TxChannelPayload};

verus! {

/// The send half of a [`Socketeer`]. Clone it to send from several tasks.
pub struct SocketeerTx<C: Codec> {
    sender: mpsc::Sender<TxChannelPayload<Message>>,
    codec: C,
    terminal_error: TerminalError,
}

/// The receive half of a [`Socketeer`].
pub struct SocketeerRx<C: Codec, Handler, const CHANNEL_SIZE: usize> {
    setup: Setup<C>,
    handler: Handler,
    receiver: mpsc::Receiver<Message>,
    socket_handle: JoinHandle<()>,
    terminal_error: TerminalError,
}

/// Two halves that do not belong together, handed back by [`SocketeerRx::reunite`].
pub struct ReuniteError<C: Codec, Handler, const CHANNEL_SIZE: usize> {
    /// The send half.
    pub tx: SocketeerTx<C>,
    /// The receive half.
    pub rx: SocketeerRx<C, Handler, CHANNEL_SIZE>,
}

/// What a [`SocketeerTx`] holds.
pub struct SocketeerTxView<C> {
    pub sender: mpsc::Sender<TxChannelPayload<Message>>,
    pub codec: C,
    pub terminal_error: TerminalError,
}

/// What a [`SocketeerRx`] holds.
pub struct SocketeerRxView<C, Handler> {
    pub setup: SetupView<C>,
    pub handler: Handler,
    pub receiver: mpsc::Receiver<Message>,
    pub socket_handle: JoinHandle<()>,
    pub terminal_error: TerminalError,
}

impl<C: Codec> View for SocketeerTx<C> {
    type V = SocketeerTxView<C>;

    closed spec fn view(&self) -> SocketeerTxView<C> {
        SocketeerTxView {
            sender: self.sender,
            codec: self.codec,
            terminal_error: self.terminal_error,
        }
    }
}

impl<C: Codec, Handler, const CHANNEL_SIZE: usize> View for SocketeerRx<C, Handler, CHANNEL_SIZE> {
    type V = SocketeerRxView<C, Handler>;

    closed spec fn view(&self) -> SocketeerRxView<C, Handler> {
        SocketeerRxView {
            setup: self.setup@,
            handler: self.handler,
            receiver: self.receiver,
            socket_handle: self.socket_handle,
            terminal_error: self.terminal_error,
        }
    }
}

impl<C, Handler> SocketeerRxView<C, Handler> {
    /// The handle that a receive half makes together with a send half, or nothing where they are
    /// not of one connection.
    pub open spec fn reunited(self, tx: SocketeerTxView<C>) -> Option<SocketeerView<C, Handler>> {
        if self.terminal_error == tx.terminal_error {
            Some(
                SocketeerView {
                    setup: self.setup,
                    handler: self.handler,
                    receiver: self.receiver,
                    sender: tx.sender,
                    socket_handle: self.socket_handle,
                    terminal_error: self.terminal_error,
                },
            )
        } else {
            None
        }
    }
}

/// Whether what is to be queued for a value is what a codec makes of it.
pub open spec fn queues<C: Codec>(
    codec: C,
    value: C::Tx,
    response_tx: Option<ResponseSender>,
    result: Result<TxChannelPayload<Message>, Error>,
) -> bool {
    exists|encoded: Result<Message, Error>|
        {
            &&& #[trigger] call_ensures(C::encode, (&codec, &value), encoded)
            &&& match encoded {
                Ok(message) => result == Ok::<TxChannelPayload<Message>, Error>(
                    TxChannelPayload { message, response_tx },
                ),
                Err(e) => result == Err::<TxChannelPayload<Message>, Error>(e),
            }
        }
}

impl<C: Codec + Clone> Clone for SocketeerTx<C> {
    fn clone(&self) -> (copy: Self)
        ensures
            cloned(self@.codec, copy@.codec),
            copy@ == (SocketeerTxView { codec: copy@.codec, ..self@ }),
    {
        SocketeerTx {
            sender: same_sender(&self.sender),
            codec: self.codec.clone(),
            terminal_error: Arc::clone(&self.terminal_error),
        }
    }
}

impl<C: Codec> Debug for SocketeerTx<C> {
    fn fmt(&self, f: &mut Formatter<'_>) -> std::fmt::Result {
        let mut formatting = debug_struct(f, self.label());
        finish_debug(&mut formatting)
    }
}

impl<C: Codec> SocketeerTx<C> {
    /// Puts a send half together from its parts.
    pub(crate) fn from_parts(
        sender: mpsc::Sender<TxChannelPayload<Message>>,
        codec: C,
        terminal_error: TerminalError,
    ) -> (tx: Self)
        ensures
            tx@ == (SocketeerTxView { sender, codec, terminal_error }),
    {
        SocketeerTx { sender, codec, terminal_error }
    }

    /// What the send half is shown as.
    pub fn label(&self) -> (text: &'static str)
        ensures
            text@ == "SocketeerTx"@,
    {
        "SocketeerTx"
    }

    /// The channel that the loop sends from.
    pub fn sender(&self) -> (sender: &mpsc::Sender<TxChannelPayload<Message>>)
        ensures
            *sender == self@.sender,
    {
        &self.sender
    }

    /// Where the loop records the error that ends it.
    pub fn terminal_error(&self) -> (slot: &TerminalError)
        ensures
            *slot == self@.terminal_error,
    {
        &self.terminal_error
    }

    /// What to queue to send a value, encoded with the connection's codec. The result of sending
    /// it is awaited at the other end of `response_tx`.
    pub fn send(&self, message: C::Tx, response_tx: ResponseSender) -> (result: Result<
        TxChannelPayload<Message>,
        Error,
    >)
        ensures
            queues(self@.codec, message, Some(response_tx), result),
    {
        match self.codec.encode(&message) {
            Ok(encoded) => Ok(self.send_raw(encoded, response_tx)),
            Err(e) => Err(e),
        }
    }

    /// What to queue to send a message as it is. The result of sending it is awaited at the other
    /// end of `response_tx`.
    pub fn send_raw(&self, message: Message, response_tx: ResponseSender) -> (payload:
        TxChannelPayload<Message>)
        ensures
            payload == (TxChannelPayload { message, response_tx: Some(response_tx) }),
    {
        send_confirmed(message, response_tx)
    }

    /// What to queue to send a value, encoded with the connection's codec, without waiting for
    /// the result.
    pub fn send_unconfirmed(&self, message: C::Tx) -> (result: Result<
        TxChannelPayload<Message>,
        Error,
    >)
        ensures
            queues(self@.codec, message, None, result),
    {
        match self.codec.encode(&message) {
            Ok(encoded) => Ok(self.send_raw_unconfirmed(encoded)),
            Err(e) => Err(e),
        }
    }

    /// What to queue to send a message as it is, without waiting for the result.
    pub fn send_raw_unconfirmed(&self, message: Message) -> (payload: TxChannelPayload<Message>)
        ensures
            payload == (TxChannelPayload { message, response_tx: None }),
    {
        send_unconfirmed(message)
    }

    /// What to queue to close the connection gracefully. The receive half sees its stream end
    /// when the connection is closed.
    pub fn close(&self, response_tx: ResponseSender) -> (payload: TxChannelPayload<Message>)
        ensures
            payload@ == (TxChannelPayload {
                message: closing_message(),
                response_tx: Some(response_tx),
            }),
    {
        send_close(response_tx)
    }
}

impl<C: Codec, Handler, const CHANNEL_SIZE: usize> Debug for SocketeerRx<C, Handler, CHANNEL_SIZE> {
    fn fmt(&self, f: &mut Formatter<'_>) -> std::fmt::Result {
        let mut formatting = debug_struct(f, self.label());
        debug_url(&mut formatting, "url", self.setup.url());
        finish_debug(&mut formatting)
    }
}

impl<C: Codec, Handler, const CHANNEL_SIZE: usize> SocketeerRx<C, Handler, CHANNEL_SIZE> {
    /// Puts a receive half together from its parts.
    pub(crate) fn from_parts(
        setup: Setup<C>,
        handler: Handler,
        receiver: mpsc::Receiver<Message>,
        socket_handle: JoinHandle<()>,
        terminal_error: TerminalError,
    ) -> (rx: Self)
        ensures
            rx@ == (SocketeerRxView {
                setup: setup@,
                handler,
                receiver,
                socket_handle,
                terminal_error,
            }),
    {
        SocketeerRx { setup, handler, receiver, socket_handle, terminal_error }
    }

    /// What the receive half is shown as, with its URL.
    pub fn label(&self) -> (text: &'static str)
        ensures
            text@ == "SocketeerRx"@,
    {
        "SocketeerRx"
    }

    /// The URL of the connection.
    pub fn url(&self) -> (url: &Url)
        ensures
            url_text(*url) == self@.setup.url,
    {
        self.setup.url()
    }

    /// The channel that the loop delivers to.
    pub fn receiver(&mut self) -> (receiver: &mut mpsc::Receiver<Message>)
        ensures
            *receiver == old(self)@.receiver,
            final(self)@ == (SocketeerRxView { receiver: *final(receiver), ..old(self)@ }),
    {
        &mut self.receiver
    }

    /// Where the loop records the error that ends it.
    pub fn terminal_error(&self) -> (slot: &TerminalError)
        ensures
            *slot == self@.terminal_error,
    {
        &self.terminal_error
    }

    /// The next message, decoded with the connection's codec, given what the receive channel
    /// held.
    pub fn next_message(&self, message: Option<Message>, slot: &mut Option<Error>) -> (result:
        Result<C::Rx, Error>)
        ensures
            match message {
                Some(message) => {
                    &&& call_ensures(C::decode, (&self@.setup.codec, &message), result)
                    &&& *final(slot) == *old(slot)
                },
                None => {
                    &&& result == Err::<C::Rx, Error>(cause_of(*old(slot)))
                    &&& *final(slot) is None
                },
            },
    {
        match recv_raw(message, slot) {
            Ok(message) => self.setup.codec().decode(&message),
            Err(e) => Err(e),
        }
    }

    /// The next message as it is, given what the receive channel held.
    pub fn next_raw_message(&self, message: Option<Message>, slot: &mut Option<Error>) -> (result:
        Result<Message, Error>)
        ensures
            (result, *final(slot)) == received(message, *old(slot)),
    {
        recv_raw(message, slot)
    }

    /// What the stream of decoded messages yields, given what polling the receive channel came
    /// to.
    pub fn poll_next(&self, polled: Polled<Option<Message>>, slot: &mut Option<Error>) -> (result:
        Polled<Option<Result<C::Rx, Error>>>)
        ensures
            match polled {
                Polled::Ready(Some(message)) => {
                    &&& result matches Polled::Ready(Some(item))
                    &&& call_ensures(C::decode, (&self@.setup.codec, &message), item)
                    &&& *final(slot) == *old(slot)
                },
                Polled::Ready(None) => {
                    &&& *final(slot) is None
                    &&& match *old(slot) {
                        Some(cause) => result == Polled::Ready(Some(Err::<C::Rx, Error>(cause))),
                        None => result == Polled::<Option<Result<C::Rx, Error>>>::Ready(None),
                    }
                },
                Polled::Pending => {
                    &&& result == Polled::<Option<Result<C::Rx, Error>>>::Pending
                    &&& *final(slot) == *old(slot)
                },
            },
    {
        match poll_recv_raw(polled, slot) {
            Polled::Ready(Some(Ok(message))) => Polled::Ready(
                Some(self.setup.codec().decode(&message)),
            ),
            Polled::Ready(Some(Err(e))) => Polled::Ready(Some(Err(e))),
            Polled::Ready(None) => Polled::Ready(None),
            Polled::Pending => Polled::Pending,
        }
    }

    /// Puts the two halves of a handle together again. A send half of another connection is
    /// handed back, with the receive half.
    pub fn reunite(self, tx: SocketeerTx<C>) -> (result: Result<
        Socketeer<C, Handler, CHANNEL_SIZE>,
        ReuniteError<C, Handler, CHANNEL_SIZE>,
    >)
        ensures
            match (result, self@.reunited(tx@)) {
                (Ok(socketeer), Some(whole)) => socketeer@ == whole,
                (Err(halves), None) => halves.tx == tx && halves.rx == self,
                _ => false,
            },
    {
        if same_mutex(&self.terminal_error, &tx.terminal_error) {
            Ok(
                Socketeer::from_parts(
                    self.setup,
                    self.handler,
                    self.receiver,
                    tx.sender,
                    self.socket_handle,
                    self.terminal_error,
                ),
            )
        } else {
            Err(ReuniteError { tx, rx: self })
        }
    }
}

impl<C: Codec, Handler, const CHANNEL_SIZE: usize> ReuniteError<C, Handler, CHANNEL_SIZE> {
    /// What the error is shown as for debugging.
    pub fn label(&self) -> (text: &'static str)
        ensures
            text@ == "ReuniteError"@,
    {
        "ReuniteError"
    }

    /// What the error says.
    pub fn message(&self) -> (text: &'static str)
        ensures
            text@ == "tried to reunite a SocketeerTx and SocketeerRx from different connections"@,
    {
        "tried to reunite a SocketeerTx and SocketeerRx from different connections"
    }
}

impl<C: Codec, Handler, const CHANNEL_SIZE: usize> Debug for ReuniteError<
    C,
    Handler,
    CHANNEL_SIZE,
> {
    fn fmt(&self, f: &mut Formatter<'_>) -> std::fmt::Result {
        let mut formatting = debug_struct(f, self.label());
        finish_debug(&mut formatting)
    }
}

impl<C: Codec, Handler, const CHANNEL_SIZE: usize> Display for ReuniteError<
    C,
    Handler,
    CHANNEL_SIZE,
> {
    fn fmt(&self, f: &mut Formatter<'_>) -> std::fmt::Result {
        f.write_str(self.message())
    }
}

impl<C: Codec, Handler, const CHANNEL_SIZE: usize> std::error::Error for ReuniteError<
    C,
    Handler,
    CHANNEL_SIZE,
> {

}

/// Splitting a handle and putting its halves together again gives the same handle back, whichever
/// clone of the send half is used.
pub proof fn reunite_undoes_split<C, Handler>(
    whole: SocketeerView<C, Handler>,
    codec: C,
    clone_codec: C,
)
    ensures
        whole.rx().reunited(whole.tx(codec)) == Some(whole),
        whole.rx().reunited(
            SocketeerTxView { codec: clone_codec, ..whole.tx(codec) },
        ) == Some(whole),
{
}

/// Halves of connections with different loops do not make a handle.
pub proof fn halves_of_two_connections_do_not_reunite<C, Handler>(
    one: SocketeerView<C, Handler>,
    other: SocketeerView<C, Handler>,
    codec: C,
)
    requires
        one.terminal_error != other.terminal_error,
    ensures
        one.rx().reunited(other.tx(codec)) is None,
{
}

} // verus!
