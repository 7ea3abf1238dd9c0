//! What the calls on a client come to, call by call.
use vstd::prelude::*;

use tokio::sync::mpsc;
use tokio::task::JoinHandle;
use tokio_tungstenite::tungstenite::http;
use tokio_tungstenite::tungstenite::Error as WsError;
use url::Url;

use crate::client::{
    Dialing, Greeting, Reconnecting, Retired, Setup, Socketeer, Starting, TerminalError,
};
use crate::codec::Codec;
use crate::config::{ConnectOptions, ConnectOptionsView};
use crate::config_laws::asks_for_upgrade;
use crate::error::Error;
use crate::handle::{
    close_confirmed, confirmed, poll_recv_raw, queued, record_terminal_error, recv_raw,
    send_close, send_confirmed, send_unconfirmed, take_terminal_error, take_terminal_error_opt,
    Confirmation, Polled,
};
use crate::handler::{HandshakeContext, NoopHandler};
use crate::headers::upgrade_target;
use crate::message::{Message, MessageView};
use crate::outside::{parsed_url, url_text};
use crate::socket_loop::{LoopAction, ResponseSender, SocketLoop, TxChannelPayload};
use crate::split::{ReuniteError, SocketeerRx, SocketeerTx};

verus! {

/// Whether connecting came to what it should, given what the text was parsed as: text that is no
/// URL is handed back with the reason; a URL that no upgrade request can be made for is refused
/// with the error of `tungstenite`; and for every other URL there is a request that carries all the
/// extra headers, and a connection that has that URL, the options, the codec and the handler.
pub open spec fn connects<C, Handler, const CHANNEL_SIZE: usize>(
    text: Seq<char>,
    parsed: Result<Seq<char>, url::ParseError>,
    options: ConnectOptionsView,
    codec: C,
    handler: Handler,
    result: Result<(http::Request<()>, Dialing<C, Handler, CHANNEL_SIZE>), Error>,
) -> bool {
    match parsed {
        Err(reason) => result matches Err(Error::UrlParse { url, source }) && url@ == text
            && source == reason,
        Ok(url) => match upgrade_target(url) {
            Err(reason) => result matches Err(Error::WebsocketError(source)) && source == reason,
            Ok((uri, host)) => match result {
                Ok((request, dialing)) => {
                    &&& asks_for_upgrade(request, uri, host, options.extra_headers)
                    &&& dialing.setup@.url == url
                    &&& dialing.setup@.options == options
                    &&& dialing.setup@.codec == codec
                    &&& dialing.handler == handler
                },
                Err(e) => e is WebsocketError && options.extra_headers.dom().len() + 5 >= 6554,
            },
        },
    }
}

/// Connecting with options, a codec and a handler connects with just these, to just that URL.
pub proof fn connecting_uses_what_it_is_given<C: Codec, Handler, const CHANNEL_SIZE: usize>(
    url: &str,
    options: ConnectOptions,
    codec: C,
    handler: Handler,
    result: Result<(http::Request<()>, Dialing<C, Handler, CHANNEL_SIZE>), Error>,
)
    requires
        call_ensures(
            Socketeer::<C, Handler, CHANNEL_SIZE>::connect_with_codec,
            (url, options, codec, handler),
            result,
        ),
    ensures
        connects(url@, parsed_url(url@), options@, codec, handler, result),
{
}

/// Dialling goes by what the text was parsed as.
pub proof fn dialling_goes_by_the_parsed_url<C: Codec, Handler, const CHANNEL_SIZE: usize>(
    text: &str,
    parsed: Result<Url, url::ParseError>,
    options: ConnectOptions,
    codec: C,
    handler: Handler,
    result: Result<(http::Request<()>, Dialing<C, Handler, CHANNEL_SIZE>), Error>,
)
    requires
        call_ensures(
            Socketeer::<C, Handler, CHANNEL_SIZE>::dial,
            (text, parsed, options, codec, handler),
            result,
        ),
    ensures
        parsed matches Ok(url) ==> connects(
            text@,
            Ok(url_text(url)),
            options@,
            codec,
            handler,
            result,
        ),
        parsed matches Err(e) ==> connects(text@, Err(e), options@, codec, handler, result),
{
}

/// Connecting with options alone uses a default codec, and connecting with a URL alone uses options
/// without extra headers too.
pub proof fn connecting_with_defaults<C: Codec + Default, const CHANNEL_SIZE: usize>(
    url: &str,
    options: ConnectOptions,
    with_options: Result<(http::Request<()>, Dialing<C, NoopHandler, CHANNEL_SIZE>), Error>,
    with_nothing: Result<(http::Request<()>, Dialing<C, NoopHandler, CHANNEL_SIZE>), Error>,
)
    requires
        call_ensures(
            Socketeer::<C, NoopHandler, CHANNEL_SIZE>::connect_with,
            (url, options),
            with_options,
        ),
        call_ensures(Socketeer::<C, NoopHandler, CHANNEL_SIZE>::connect, (url,), with_nothing),
    ensures
        exists|codec: C| #[trigger]
            call_ensures(C::default, (), codec) && connects(
                url@,
                parsed_url(url@),
                options@,
                codec,
                NoopHandler,
                with_options,
            ),
        exists|codec: C, defaults: ConnectOptionsView| #[trigger]
            call_ensures(C::default, (), codec) && #[trigger] connects(
                url@,
                parsed_url(url@),
                defaults,
                codec,
                NoopHandler,
                with_nothing,
            ) && defaults.extra_headers.dom() == Set::<Seq<char>>::empty()
                && defaults.keepalive_interval is Some && crate::outside::duration_nanos(
                defaults.keepalive_interval->0,
            ) == 2_000_000_000 && defaults.custom_keepalive_message is None,
{
    let codec = choose|codec: C|
        call_ensures(C::default, (), codec) && crate::client::dials(
            url@,
            options@,
            codec,
            NoopHandler,
            with_options,
        );
    assert(connects(url@, parsed_url(url@), options@, codec, NoopHandler, with_options));
    let (defaults, codec) = choose|defaults: ConnectOptionsView, codec: C|
        defaults.is_default() && call_ensures(C::default, (), codec) && #[trigger]
            crate::client::dials(url@, defaults, codec, NoopHandler, with_nothing);
    assert(connects(url@, parsed_url(url@), defaults, codec, NoopHandler, with_nothing));
    assert(defaults.extra_headers.dom() =~= Set::<Seq<char>>::empty());
}

/// Making a connection anew uses its URL, options, codec and handler, whatever became of the close.
pub proof fn reconnecting_uses_what_the_connection_had<
    C: Codec,
    Handler,
    const CHANNEL_SIZE: usize,
>(
    socketeer: Socketeer<C, Handler, CHANNEL_SIZE>,
    retired: Retired,
    reconnecting: Reconnecting<C, Handler, CHANNEL_SIZE>,
    close_sent: Result<(), Error>,
    result: Result<(http::Request<()>, Dialing<C, Handler, CHANNEL_SIZE>), Error>,
)
    requires
        call_ensures(
            Socketeer::<C, Handler, CHANNEL_SIZE>::reconnect,
            (socketeer,),
            (retired, reconnecting),
        ),
        call_ensures(
            Reconnecting::<C, Handler, CHANNEL_SIZE>::redial,
            (reconnecting, close_sent),
            result,
        ),
    ensures
        connects(
            socketeer@.setup.url,
            parsed_url(socketeer@.setup.url),
            socketeer@.setup.options,
            socketeer@.setup.codec,
            socketeer@.handler,
            result,
        ),
        reconnecting.handler == socketeer@.handler,
        retired.sender == socketeer@.sender,
        retired.receiver == socketeer@.receiver,
        retired.socket_handle == socketeer@.socket_handle,
        retired.terminal_error == socketeer@.terminal_error,
{
}

/// A connection that was upgraded and greeted gets a loop with the keepalive settings of its
/// options, and a handle that has everything that the connection was made with.
pub proof fn setting_up_keeps_everything<C: Codec, Handler, const CHANNEL_SIZE: usize>(
    dialing: Dialing<C, Handler, CHANNEL_SIZE>,
    greeting: Greeting<C, Handler, CHANNEL_SIZE>,
    socket_loop: SocketLoop,
    action: LoopAction<Message>,
    starting: Starting<C, Handler, CHANNEL_SIZE>,
    receiver: mpsc::Receiver<Message>,
    sender: mpsc::Sender<TxChannelPayload<Message>>,
    socket_handle: JoinHandle<()>,
    terminal_error: TerminalError,
    socketeer: Socketeer<C, Handler, CHANNEL_SIZE>,
)
    requires
        call_ensures(
            Dialing::<C, Handler, CHANNEL_SIZE>::upgraded,
            (dialing, Ok(())),
            Ok(greeting),
        ),
        call_ensures(
            Greeting::<C, Handler, CHANNEL_SIZE>::greeted,
            (greeting, Ok(())),
            Ok((socket_loop, action, starting)),
        ),
        call_ensures(
            Starting::<C, Handler, CHANNEL_SIZE>::started,
            (starting, receiver, sender, socket_handle, terminal_error),
            socketeer,
        ),
    ensures
        socket_loop@.phase is Idle,
        socket_loop@.keepalive_interval == dialing.setup@.options.keepalive_interval,
        socket_loop@.keepalive_message == dialing.setup@.options.custom_keepalive_message,
        action == (LoopAction::<Message>::Wait {
            incoming: true,
            capacity: false,
            keepalive: dialing.setup@.options.keepalive_interval,
        }),
        socketeer@.setup == dialing.setup@,
        socketeer@.handler == dialing.handler,
        socketeer@.receiver == receiver,
        socketeer@.sender == sender,
        socketeer@.socket_handle == socket_handle,
        socketeer@.terminal_error == terminal_error,
{
}

/// Setting up goes on exactly when the upgrade and the handshake went well, and otherwise reports
/// just what went wrong.
pub proof fn setting_up_fails_with_its_steps<C, Handler, const CHANNEL_SIZE: usize>(
    dialing: Dialing<C, Handler, CHANNEL_SIZE>,
    upgrade: Result<(), WsError>,
    upgraded: Result<Greeting<C, Handler, CHANNEL_SIZE>, Error>,
    greeting: Greeting<C, Handler, CHANNEL_SIZE>,
    handshake: Result<(), Error>,
    greeted: Result<(SocketLoop, LoopAction<Message>, Starting<C, Handler, CHANNEL_SIZE>), Error>,
)
    requires
        call_ensures(
            Dialing::<C, Handler, CHANNEL_SIZE>::upgraded,
            (dialing, upgrade),
            upgraded,
        ),
        call_ensures(
            Greeting::<C, Handler, CHANNEL_SIZE>::greeted,
            (greeting, handshake),
            greeted,
        ),
    ensures
        upgrade is Ok <==> upgraded is Ok,
        upgrade matches Err(e) ==> (upgraded matches Err(reported) && reported
            == Error::WebsocketError(e)),
        handshake is Ok <==> greeted is Ok,
        handshake matches Err(e) ==> (greeted matches Err(reported) && reported == e),
{
}

/// Whether what is to be queued for a value is what came of encoding it: exactly the encoded
/// message, of whatever type, with exactly the given place for the result; or the error of the
/// codec.
pub open spec fn queues_encoded(
    encoded: Result<Message, Error>,
    response_tx: Option<ResponseSender>,
    result: Result<TxChannelPayload<Message>, Error>,
) -> bool {
    match encoded {
        Ok(message) => result matches Ok(payload) && payload.message == message
            && payload.response_tx == response_tx,
        Err(e) => result matches Err(reported) && reported == e,
    }
}

/// Sending a value, from a handle or from a send half, confirmed or not, queues what the codec
/// encodes it as, and fails only where the codec does.
pub proof fn sends_queue_what_the_codec_encodes<C: Codec, Handler, const CHANNEL_SIZE: usize>(
    socketeer: Socketeer<C, Handler, CHANNEL_SIZE>,
    tx: SocketeerTx<C>,
    value: C::Tx,
    response_tx: ResponseSender,
    by_handle: Result<TxChannelPayload<Message>, Error>,
    by_half: Result<TxChannelPayload<Message>, Error>,
    unconfirmed: Result<TxChannelPayload<Message>, Error>,
)
    requires
        call_ensures(
            Socketeer::<C, Handler, CHANNEL_SIZE>::send,
            (&socketeer, value, response_tx),
            by_handle,
        ),
        call_ensures(SocketeerTx::<C>::send, (&tx, value, response_tx), by_half),
        call_ensures(SocketeerTx::<C>::send_unconfirmed, (&tx, value), unconfirmed),
    ensures
        exists|encoded: Result<Message, Error>| #[trigger]
            call_ensures(C::encode, (&socketeer@.setup.codec, &value), encoded) && queues_encoded(
                encoded,
                Some(response_tx),
                by_handle,
            ),
        exists|encoded: Result<Message, Error>| #[trigger]
            call_ensures(C::encode, (&tx@.codec, &value), encoded) && queues_encoded(
                encoded,
                Some(response_tx),
                by_half,
            ),
        exists|encoded: Result<Message, Error>| #[trigger]
            call_ensures(C::encode, (&tx@.codec, &value), encoded) && queues_encoded(
                encoded,
                None,
                unconfirmed,
            ),
{
}

/// With a codec that makes one message of a value, sending the value queues that message, from
/// wherever it is sent; only the place for the result differs.
pub proof fn sends_agree<C: Codec, Handler, const CHANNEL_SIZE: usize>(
    socketeer: Socketeer<C, Handler, CHANNEL_SIZE>,
    tx: SocketeerTx<C>,
    value: C::Tx,
    message: Message,
    response_tx: ResponseSender,
    by_handle: Result<TxChannelPayload<Message>, Error>,
    by_half: Result<TxChannelPayload<Message>, Error>,
    unconfirmed: Result<TxChannelPayload<Message>, Error>,
)
    requires
        socketeer@.setup.codec == tx@.codec,
        forall|encoded: Result<Message, Error>| #[trigger]
            call_ensures(C::encode, (&tx@.codec, &value), encoded) ==> encoded == Ok::<
                Message,
                Error,
            >(message),
        call_ensures(
            Socketeer::<C, Handler, CHANNEL_SIZE>::send,
            (&socketeer, value, response_tx),
            by_handle,
        ),
        call_ensures(SocketeerTx::<C>::send, (&tx, value, response_tx), by_half),
        call_ensures(SocketeerTx::<C>::send_unconfirmed, (&tx, value), unconfirmed),
    ensures
        by_handle matches Ok(payload) && payload.message == message && payload.response_tx == Some(
            response_tx,
        ),
        by_half == by_handle,
        unconfirmed matches Ok(payload) && payload.message == message && payload.response_tx
            is None,
{
}

/// A raw message is queued as it is, whatever its type.
pub proof fn raw_sends_queue_the_message<C: Codec, Handler, const CHANNEL_SIZE: usize>(
    socketeer: Socketeer<C, Handler, CHANNEL_SIZE>,
    tx: SocketeerTx<C>,
    message: Message,
    response_tx: ResponseSender,
    by_handle: TxChannelPayload<Message>,
    by_half: TxChannelPayload<Message>,
    unconfirmed: TxChannelPayload<Message>,
    confirmed_payload: TxChannelPayload<Message>,
    unconfirmed_payload: TxChannelPayload<Message>,
)
    requires
        call_ensures(
            Socketeer::<C, Handler, CHANNEL_SIZE>::send_raw,
            (&socketeer, message, response_tx),
            by_handle,
        ),
        call_ensures(SocketeerTx::<C>::send_raw, (&tx, message, response_tx), by_half),
        call_ensures(SocketeerTx::<C>::send_raw_unconfirmed, (&tx, message), unconfirmed),
        call_ensures(send_confirmed, (message, response_tx), confirmed_payload),
        call_ensures(send_unconfirmed, (message,), unconfirmed_payload),
    ensures
        by_handle.message == message && by_handle.response_tx == Some(response_tx),
        by_half.message == message && by_half.response_tx == Some(response_tx),
        confirmed_payload.message == message && confirmed_payload.response_tx == Some(response_tx),
        unconfirmed.message == message && unconfirmed.response_tx is None,
        unconfirmed_payload.message == message && unconfirmed_payload.response_tx is None,
{
}

/// A close is a normal closure with its reason, and its result is awaited.
pub proof fn closes_are_normal_closures<C: Codec>(
    tx: SocketeerTx<C>,
    response_tx: ResponseSender,
    payload: TxChannelPayload<Message>,
    by_half: TxChannelPayload<Message>,
)
    requires
        call_ensures(send_close, (response_tx,), payload),
        call_ensures(SocketeerTx::<C>::close, (&tx, response_tx), by_half),
    ensures
        payload.message@ == MessageView::Close(Some((1000u16, "Closing Connection"@))),
        payload.response_tx == Some(response_tx),
        by_half.message@ == MessageView::Close(Some((1000u16, "Closing Connection"@))),
        by_half.response_tx == Some(response_tx),
{
}

/// A message that was received is handed out unchanged, whatever its type and whatever is recorded,
/// and nothing recorded is lost by it. A closed channel is reported with the recorded cause, which
/// is then gone, and without one as a closure.
pub proof fn receiving_hands_out_messages(
    message: Option<Message>,
    slot: &mut Option<Error>,
    result: Result<Message, Error>,
)
    requires
        call_ensures(recv_raw, (message, slot), result),
    ensures
        match (message, *old(slot)) {
            (Some(m), recorded) => result == Ok::<Message, Error>(m) && *final(slot) == recorded,
            (None, Some(cause)) => result == Err::<Message, Error>(cause) && *final(slot) is None,
            (None, None) => result == Err::<Message, Error>(Error::WebsocketClosed) && *final(slot)
                is None,
        },
{
}

/// Polling hands out messages in the same way, says nothing while nothing came, and reports a
/// closed channel with the recorded cause, once, and then as the end.
pub proof fn polling_hands_out_messages(
    polled: Polled<Option<Message>>,
    slot: &mut Option<Error>,
    result: Polled<Option<Result<Message, Error>>>,
)
    requires
        call_ensures(poll_recv_raw, (polled, slot), result),
    ensures
        match (polled, *old(slot)) {
            (Polled::Pending, recorded) => result is Pending && *final(slot) == recorded,
            (Polled::Ready(Some(m)), recorded) => result == Polled::Ready(
                Some(Ok::<Message, Error>(m)),
            ) && *final(slot) == recorded,
            (Polled::Ready(None), Some(cause)) => result == Polled::Ready(
                Some(Err::<Message, Error>(cause)),
            ) && *final(slot) is None,
            (Polled::Ready(None), None) => (result matches Polled::Ready(item) && item is None)
                && *final(slot) is None,
        },
{
}

/// A handle and a receive half hand out the next message decoded, of whatever type it is: just what
/// the codec makes of it. Raw messages come as they are.
pub proof fn handles_decode_what_was_received<C: Codec, Handler, const CHANNEL_SIZE: usize>(
    socketeer: Socketeer<C, Handler, CHANNEL_SIZE>,
    message: Option<Message>,
    slot: &mut Option<Error>,
    decoded: Result<C::Rx, Error>,
)
    requires
        call_ensures(
            Socketeer::<C, Handler, CHANNEL_SIZE>::next_message,
            (&socketeer, message, slot),
            decoded,
        ),
    ensures
        match (message, *old(slot)) {
            (Some(m), recorded) => call_ensures(
                C::decode,
                (&socketeer@.setup.codec, &m),
                decoded,
            ) && *final(slot) == recorded,
            (None, Some(cause)) => decoded == Err::<C::Rx, Error>(cause) && *final(slot) is None,
            (None, None) => decoded == Err::<C::Rx, Error>(Error::WebsocketClosed) && *final(slot)
                is None,
        },
{
}

/// The receive half does as the handle does.
pub proof fn receive_halves_decode_what_was_received<
    C: Codec,
    Handler,
    const CHANNEL_SIZE: usize,
>(
    rx: SocketeerRx<C, Handler, CHANNEL_SIZE>,
    message: Option<Message>,
    slot: &mut Option<Error>,
    decoded: Result<C::Rx, Error>,
)
    requires
        call_ensures(
            SocketeerRx::<C, Handler, CHANNEL_SIZE>::next_message,
            (&rx, message, slot),
            decoded,
        ),
    ensures
        match (message, *old(slot)) {
            (Some(m), recorded) => call_ensures(C::decode, (&rx@.setup.codec, &m), decoded)
                && *final(slot) == recorded,
            (None, Some(cause)) => decoded == Err::<C::Rx, Error>(cause) && *final(slot) is None,
            (None, None) => decoded == Err::<C::Rx, Error>(Error::WebsocketClosed) && *final(slot)
                is None,
        },
{
}

/// Raw messages come from a handle and from a receive half as they are, whatever their type.
pub proof fn raw_messages_come_as_they_are<C: Codec, Handler, const CHANNEL_SIZE: usize>(
    socketeer: Socketeer<C, Handler, CHANNEL_SIZE>,
    rx: SocketeerRx<C, Handler, CHANNEL_SIZE>,
    message: Option<Message>,
    slot: &mut Option<Error>,
    result: Result<Message, Error>,
)
    requires
        call_ensures(
            Socketeer::<C, Handler, CHANNEL_SIZE>::next_raw_message,
            (&socketeer, message, slot),
            result,
        ) || call_ensures(
            SocketeerRx::<C, Handler, CHANNEL_SIZE>::next_raw_message,
            (&rx, message, slot),
            result,
        ),
    ensures
        match (message, *old(slot)) {
            (Some(m), recorded) => result == Ok::<Message, Error>(m) && *final(slot) == recorded,
            (None, Some(cause)) => result == Err::<Message, Error>(cause) && *final(slot) is None,
            (None, None) => result == Err::<Message, Error>(Error::WebsocketClosed) && *final(slot)
                is None,
        },
{
}

/// Whether polling a stream of values came to what it should.
pub open spec fn polls<C: Codec>(
    codec: C,
    polled: Polled<Option<Message>>,
    before: Option<Error>,
    after: Option<Error>,
    result: Polled<Option<Result<C::Rx, Error>>>,
) -> bool {
    match (polled, before) {
        (Polled::Pending, recorded) => result is Pending && after == recorded,
        (Polled::Ready(Some(m)), recorded) => {
            &&& result matches Polled::Ready(Some(item))
            &&& call_ensures(C::decode, (&codec, &m), item)
            &&& after == recorded
        },
        (Polled::Ready(None), Some(cause)) => result == Polled::Ready(
            Some(Err::<C::Rx, Error>(cause)),
        ) && after is None,
        (Polled::Ready(None), None) => (result matches Polled::Ready(item) && item is None)
            && after is None,
    }
}

/// The stream of a handle yields every message decoded, then the recorded cause, then its end.
pub proof fn handles_stream_what_was_received<C: Codec, Handler, const CHANNEL_SIZE: usize>(
    socketeer: Socketeer<C, Handler, CHANNEL_SIZE>,
    polled: Polled<Option<Message>>,
    slot: &mut Option<Error>,
    result: Polled<Option<Result<C::Rx, Error>>>,
)
    requires
        call_ensures(
            Socketeer::<C, Handler, CHANNEL_SIZE>::poll_next,
            (&socketeer, polled, slot),
            result,
        ),
    ensures
        polls(socketeer@.setup.codec, polled, *old(slot), *final(slot), result),
{
}

/// The stream of a receive half does as the stream of a handle does.
pub proof fn receive_halves_stream_what_was_received<
    C: Codec,
    Handler,
    const CHANNEL_SIZE: usize,
>(
    rx: SocketeerRx<C, Handler, CHANNEL_SIZE>,
    polled: Polled<Option<Message>>,
    slot: &mut Option<Error>,
    result: Polled<Option<Result<C::Rx, Error>>>,
)
    requires
        call_ensures(
            SocketeerRx::<C, Handler, CHANNEL_SIZE>::poll_next,
            (&rx, polled, slot),
            result,
        ),
    ensures
        polls(rx@.setup.codec, polled, *old(slot), *final(slot), result),
{
}

/// A confirmed send comes to just what the loop reported, and where it reported nothing to the
/// recorded cause, or to a closure.
pub proof fn confirmed_sends_come_to_the_report(
    confirmation: Confirmation,
    slot: &mut Option<Error>,
    result: Result<(), Error>,
)
    requires
        call_ensures(confirmed, (confirmation, slot), result),
    ensures
        match (confirmation, *old(slot)) {
            (Confirmation::Answered(reported), recorded) => result == reported && *final(slot)
                == recorded,
            (_, Some(cause)) => result == Err::<(), Error>(cause) && *final(slot) is None,
            (_, None) => result == Err::<(), Error>(Error::WebsocketClosed) && *final(slot) is None,
        },
{
}

/// A send that nobody waits for succeeds exactly when it was queued.
pub proof fn unconfirmed_sends_succeed_when_queued(
    is_queued: bool,
    slot: &mut Option<Error>,
    result: Result<(), Error>,
)
    requires
        call_ensures(queued, (is_queued, slot), result),
    ensures
        is_queued <==> result is Ok,
        is_queued ==> *final(slot) == *old(slot),
        !is_queued ==> *final(slot) is None && match *old(slot) {
            Some(cause) => result == Err::<(), Error>(cause),
            None => result == Err::<(), Error>(Error::WebsocketClosed),
        },
{
}

/// A close comes to just what the loop reported, and where it reported nothing the connection was
/// closed already.
pub proof fn closes_come_to_the_report(confirmation: Confirmation, result: Result<(), Error>)
    requires
        call_ensures(close_confirmed, (confirmation,), result),
    ensures
        match confirmation {
            Confirmation::Answered(reported) => result == reported,
            _ => result == Err::<(), Error>(Error::WebsocketClosed),
        },
{
}

/// Closing a connection comes to the cause that the loop recorded, whatever became of the close,
/// and without a cause to what became of the close.
pub proof fn closing_prefers_the_recorded_cause<C: Codec, Handler, const CHANNEL_SIZE: usize>(
    close_sent: Result<(), Error>,
    slot: &mut Option<Error>,
    result: Result<(), Error>,
)
    requires
        call_ensures(
            Socketeer::<C, Handler, CHANNEL_SIZE>::close_connection,
            (close_sent, slot),
            result,
        ),
    ensures
        *old(slot) matches Some(cause) ==> result == Err::<(), Error>(cause),
        *old(slot) is None ==> result == close_sent,
        *final(slot) is None,
{
}

/// The end of a loop with a cause records the cause, and a graceful end records nothing.
pub proof fn causes_are_recorded(slot: &mut Option<Error>, cause: Option<Error>)
    requires
        call_ensures(record_terminal_error, (slot, cause), ()),
    ensures
        cause is Some ==> *final(slot) == cause,
        cause is None ==> *final(slot) == *old(slot),
{
}

/// Taking what was recorded leaves nothing.
pub proof fn causes_are_taken(slot: &mut Option<Error>, taken: Option<Error>)
    requires
        call_ensures(take_terminal_error_opt, (slot,), taken),
    ensures
        taken == *old(slot),
        *final(slot) is None,
{
}

/// Taking an error takes what was recorded, or else reports a closure.
pub proof fn errors_are_taken(slot: &mut Option<Error>, error: Error)
    requires
        call_ensures(take_terminal_error, (slot,), error),
    ensures
        *old(slot) matches Some(cause) ==> error == cause,
        *old(slot) is None ==> error == Error::WebsocketClosed,
        *final(slot) is None,
{
}

/// Splitting a handle, cloning its send half and putting either with the receive half gives the
/// handle back.
pub proof fn splitting_is_undone<C: Codec + Clone, Handler, const CHANNEL_SIZE: usize>(
    socketeer: Socketeer<C, Handler, CHANNEL_SIZE>,
    tx: SocketeerTx<C>,
    rx: SocketeerRx<C, Handler, CHANNEL_SIZE>,
    copy: SocketeerTx<C>,
    by_half: Result<
        Socketeer<C, Handler, CHANNEL_SIZE>,
        ReuniteError<C, Handler, CHANNEL_SIZE>,
    >,
    by_copy: Result<
        Socketeer<C, Handler, CHANNEL_SIZE>,
        ReuniteError<C, Handler, CHANNEL_SIZE>,
    >,
)
    requires
        call_ensures(Socketeer::<C, Handler, CHANNEL_SIZE>::split, (socketeer,), (tx, rx)),
        call_ensures(<SocketeerTx<C> as Clone>::clone, (&tx,), copy),
        call_ensures(SocketeerRx::<C, Handler, CHANNEL_SIZE>::reunite, (rx, tx), by_half),
        call_ensures(SocketeerRx::<C, Handler, CHANNEL_SIZE>::reunite, (rx, copy), by_copy),
    ensures
        by_half matches Ok(whole) && whole@ == socketeer@,
        by_copy matches Ok(whole) && whole@ == socketeer@,
        tx@.sender == socketeer@.sender,
        copy@.sender == socketeer@.sender,
        tx@.terminal_error == socketeer@.terminal_error,
        copy@.terminal_error == socketeer@.terminal_error,
        cloned(socketeer@.setup.codec, tx@.codec),
        cloned(tx@.codec, copy@.codec),
        rx@.setup == socketeer@.setup,
        rx@.handler == socketeer@.handler,
        rx@.receiver == socketeer@.receiver,
        rx@.socket_handle == socketeer@.socket_handle,
        rx@.terminal_error == socketeer@.terminal_error,
{
}

/// Halves make a handle exactly when they share one place for the cause of the loop's end. The
/// handle has what the halves had, and halves that make none come back as they were.
pub proof fn halves_reunite_when_they_belong_together<
    C: Codec,
    Handler,
    const CHANNEL_SIZE: usize,
>(
    rx: SocketeerRx<C, Handler, CHANNEL_SIZE>,
    tx: SocketeerTx<C>,
    result: Result<
        Socketeer<C, Handler, CHANNEL_SIZE>,
        ReuniteError<C, Handler, CHANNEL_SIZE>,
    >,
)
    requires
        call_ensures(SocketeerRx::<C, Handler, CHANNEL_SIZE>::reunite, (rx, tx), result),
    ensures
        result is Ok <==> rx@.terminal_error == tx@.terminal_error,
        match result {
            Ok(whole) => {
                &&& whole@.setup == rx@.setup
                &&& whole@.handler == rx@.handler
                &&& whole@.receiver == rx@.receiver
                &&& whole@.socket_handle == rx@.socket_handle
                &&& whole@.terminal_error == rx@.terminal_error
                &&& whole@.sender == tx@.sender
            },
            Err(halves) => halves.tx == tx && halves.rx == rx,
        },
{
}

/// During the handshake pings and pongs are skipped, and nothing else is: every other message is
/// handed out as it is, of whatever type, and a connection that fails or ends is an error.
pub proof fn handshake_hands_out_messages<C: Codec>(
    context: HandshakeContext<'_, C>,
    read: Option<Result<Message, WsError>>,
    raw: Option<Result<Message, Error>>,
    text: Option<Result<String, Error>>,
    value: Option<Result<C::Rx, Error>>,
)
    requires
        call_ensures(HandshakeContext::<'_, C>::recv_raw, (&context, read), raw),
        call_ensures(HandshakeContext::<'_, C>::recv_text, (&context, read), text),
        call_ensures(HandshakeContext::<'_, C>::recv, (&context, read), value),
    ensures
        match read {
            Some(Ok(message)) => if message is Ping || message is Pong {
                raw is None && text is None && value is None
            } else {
                &&& raw == Some(Ok::<Message, Error>(message))
                &&& match message {
                    Message::Text(t) => text == Some(Ok::<String, Error>(t)),
                    other => text == Some(
                        Err::<String, Error>(Error::UnexpectedMessageType(Box::new(other))),
                    ),
                }
                &&& if message is Close {
                    value == Some(Err::<C::Rx, Error>(Error::WebsocketClosed))
                } else {
                    value is Some && call_ensures(C::decode, (&context@, &message), value->0)
                }
            },
            Some(Err(e)) => {
                &&& raw == Some(Err::<Message, Error>(Error::WebsocketError(e)))
                &&& text == Some(Err::<String, Error>(Error::WebsocketError(e)))
                &&& value == Some(Err::<C::Rx, Error>(Error::WebsocketError(e)))
            },
            None => {
                &&& raw == Some(Err::<Message, Error>(Error::WebsocketClosed))
                &&& text == Some(Err::<String, Error>(Error::WebsocketClosed))
                &&& value == Some(Err::<C::Rx, Error>(Error::WebsocketClosed))
            },
        },
{
}

/// During the handshake a value is sent as its codec encodes it, text and bytes as they are, and the
/// answer of the sink is reported.
pub proof fn handshake_sends_what_it_is_given<'a, C: Codec>(
    codec: &'a C,
    context: HandshakeContext<'a, C>,
    value: &C::Tx,
    text: &str,
    bytes: Vec<u8>,
    answer: Result<(), WsError>,
    encoded: Result<Message, Error>,
    text_message: Message,
    binary_message: Message,
    reported: Result<(), Error>,
)
    requires
        call_ensures(HandshakeContext::<'a, C>::new, (codec,), context),
        call_ensures(HandshakeContext::<'a, C>::send, (&context, value), encoded),
        call_ensures(HandshakeContext::<'a, C>::send_text, (&context, text), text_message),
        call_ensures(HandshakeContext::<'a, C>::send_binary, (&context, bytes), binary_message),
        call_ensures(HandshakeContext::<'a, C>::sent, (&context, answer), reported),
    ensures
        call_ensures(C::encode, (codec, value), encoded),
        text_message matches Message::Text(t) && t@ == text@,
        binary_message matches Message::Binary(b) && b@ == bytes@,
        answer is Ok <==> reported is Ok,
        answer matches Err(e) ==> reported == Err::<(), Error>(Error::WebsocketError(e)),
{
}

/// Errors of `tungstenite` and of JSON keep what they say when they become errors of the library.
pub proof fn errors_keep_their_source(
    ws: WsError,
    json: serde_json::Error,
    from_ws: Error,
    from_json: Error,
)
    requires
        call_ensures(<Error as From<WsError>>::from, (ws,), from_ws),
        call_ensures(<Error as From<serde_json::Error>>::from, (json,), from_json),
    ensures
        from_ws == Error::WebsocketError(ws),
        from_json == Error::SerializationError(json),
{
}

/// A handle and its halves show what they have.
pub proof fn handles_show_what_they_have<C: Codec, Handler, const CHANNEL_SIZE: usize>(
    socketeer: Socketeer<C, Handler, CHANNEL_SIZE>,
    tx: SocketeerTx<C>,
    rx: SocketeerRx<C, Handler, CHANNEL_SIZE>,
    url: &Url,
    sender: &mpsc::Sender<TxChannelPayload<Message>>,
    slot: &TerminalError,
    tx_sender: &mpsc::Sender<TxChannelPayload<Message>>,
    tx_slot: &TerminalError,
    rx_url: &Url,
    rx_slot: &TerminalError,
)
    requires
        call_ensures(Socketeer::<C, Handler, CHANNEL_SIZE>::url, (&socketeer,), url),
        call_ensures(Socketeer::<C, Handler, CHANNEL_SIZE>::sender, (&socketeer,), sender),
        call_ensures(Socketeer::<C, Handler, CHANNEL_SIZE>::terminal_error, (&socketeer,), slot),
        call_ensures(SocketeerTx::<C>::sender, (&tx,), tx_sender),
        call_ensures(SocketeerTx::<C>::terminal_error, (&tx,), tx_slot),
        call_ensures(SocketeerRx::<C, Handler, CHANNEL_SIZE>::url, (&rx,), rx_url),
        call_ensures(SocketeerRx::<C, Handler, CHANNEL_SIZE>::terminal_error, (&rx,), rx_slot),
    ensures
        url_text(*url) == socketeer@.setup.url,
        *sender == socketeer@.sender,
        *slot == socketeer@.terminal_error,
        *tx_sender == tx@.sender,
        *tx_slot == tx@.terminal_error,
        url_text(*rx_url) == rx@.setup.url,
        *rx_slot == rx@.terminal_error,
{
}

/// What a handle is parted into is what it had.
pub proof fn retiring_loses_nothing<C: Codec, Handler, const CHANNEL_SIZE: usize>(
    socketeer: Socketeer<C, Handler, CHANNEL_SIZE>,
    retired: Retired,
    setup: Setup<C>,
    handler: Handler,
    options: &ConnectOptions,
    codec: &C,
    url: &Url,
)
    requires
        call_ensures(
            Socketeer::<C, Handler, CHANNEL_SIZE>::retire,
            (socketeer,),
            (retired, setup, handler),
        ),
        call_ensures(Setup::<C>::options, (&setup,), options),
        call_ensures(Setup::<C>::codec, (&setup,), codec),
        call_ensures(Setup::<C>::url, (&setup,), url),
    ensures
        retired.receiver == socketeer@.receiver,
        retired.sender == socketeer@.sender,
        retired.socket_handle == socketeer@.socket_handle,
        retired.terminal_error == socketeer@.terminal_error,
        handler == socketeer@.handler,
        options@ == socketeer@.setup.options,
        *codec == socketeer@.setup.codec,
        url_text(*url) == socketeer@.setup.url,
{
}

} // verus!
