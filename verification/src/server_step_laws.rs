//! What a single step of a test server comes to, event by event.
use vstd::prelude::*;

use tokio_tungstenite::tungstenite::Error as WsError;

use crate::message::{Message, MessageView};
use crate::mock_server::{
    auth_echo_server, backpressure_probe_server, echo_server, msgpack_echo_server, AuthEchoServer,
    AuthMessage, AuthPhase, EchoControlMessage, EchoPhase, EchoServer, Framing, ProbePhase,
    ProbeServer, ServerAction, ServerEvent,
};
use crate::outside::duration_nanos;

verus! {

/// What a server does next.
pub type Action = ServerAction<Message, String>;

/// What a step of an echo server gives.
pub type EchoResult = Result<(EchoServer, Action), (EchoServer, ServerEvent<Message>)>;

/// What a step of a server that asks for authentication gives.
pub type AuthResult = Result<(AuthEchoServer, Action), (AuthEchoServer, ServerEvent<Message>)>;

/// What a step of a probe server gives.
pub type ProbeResult = Result<(ProbeServer, Action), (ProbeServer, ServerEvent<Message>)>;

/// Whether an echo server reads on after a step, as it was but perhaps shutting down.
pub open spec fn reads_on(before: EchoServer, shutting_down: bool, result: EchoResult) -> bool {
    match result {
        Ok((after, action)) => {
            &&& action is Receive
            &&& after@.phase is Reading
            &&& after@.framing == before@.framing
            &&& after@.shutting_down == shutting_down
        },
        Err(_) => false,
    }
}

/// Whether an echo server stopped with a step, and with what result.
pub open spec fn stopped(result: EchoResult, outcome: Result<bool, WsError>) -> bool {
    match result {
        Ok((after, action)) => after@.phase is Done && action == ServerAction::<
            Message,
            String,
        >::Finish(outcome),
        Err(_) => false,
    }
}

/// Echo servers start by receiving; one reads JSON and one reads `MessagePack`, and neither is
/// shutting down.
pub proof fn echo_servers_start(
    json: (EchoServer, Action),
    msgpack: (EchoServer, Action),
)
    requires
        call_ensures(echo_server, (), json),
        call_ensures(msgpack_echo_server, (), msgpack),
    ensures
        json.1 is Receive && msgpack.1 is Receive,
        json.0@.framing is Json && msgpack.0@.framing is MsgPack,
        json.0@.phase is Reading && msgpack.0@.phase is Reading,
        !json.0@.shutting_down && !msgpack.0@.shutting_down,
{
}

/// A JSON echo server decodes every text message and a `MessagePack` echo server every binary
/// message, and each no other message.
pub proof fn echo_step_decodes(before: EchoServer, message: Message, result: EchoResult)
    requires
        before@.phase is Reading,
        call_ensures(EchoServer::step, (before, ServerEvent::Received(Some(Ok(message)))), result),
    ensures
        (result matches Ok((_, action)) && action is Decode) <==> match before@.framing {
            Framing::Json => message is Text,
            Framing::MsgPack => message is Binary,
        },
        result matches Ok((after, ServerAction::Decode(m))) ==> m@ == message@ && after@.phase
            == EchoPhase::Decoding(message@) && after@.framing == before@.framing
            && after@.shutting_down == before@.shutting_down,
{
}

/// Every message that a client wants echoed comes back unchanged, whatever it says, and the server
/// reads on as before.
pub proof fn echo_step_echoes(
    before: EchoServer,
    message: Message,
    text: String,
    decoding: EchoResult,
    sending: EchoResult,
    result: EchoResult,
)
    requires
        before@.phase is Reading,
        before@.framing is Json && message is Text || before@.framing is MsgPack && message
            is Binary,
        call_ensures(
            EchoServer::step,
            (before, ServerEvent::Received(Some(Ok(message)))),
            decoding,
        ),
        decoding matches Ok((s, _)) ==> call_ensures(
            EchoServer::step,
            (s, ServerEvent::Decoded(EchoControlMessage::Message(text))),
            sending,
        ),
        sending matches Ok((s, _)) ==> call_ensures(
            EchoServer::step,
            (s, ServerEvent::Sent(Ok(()))),
            result,
        ),
    ensures
        sending matches Ok((_, ServerAction::Send(m))) && m@ == message@,
        reads_on(before, before@.shutting_down, result),
{
}

/// On request the server sends an empty ping and reads on, or sends a normal closure without a
/// reason and is then shutting down, or stops at once for good.
pub proof fn echo_step_obeys(
    before: EchoServer,
    control: EchoControlMessage,
    asked: EchoResult,
    result: EchoResult,
)
    requires
        before@.phase is Decoding,
        call_ensures(EchoServer::step, (before, ServerEvent::Decoded(control)), asked),
        control !is Abort ==> (asked matches Ok((s, _)) ==> call_ensures(
            EchoServer::step,
            (s, ServerEvent::Sent(Ok(()))),
            result,
        )),
    ensures
        match control {
            EchoControlMessage::Message(_) => {
                &&& asked matches Ok((_, ServerAction::Send(m)))
                &&& before@.phase == EchoPhase::Decoding(m@)
                &&& reads_on(before, before@.shutting_down, result)
            },
            EchoControlMessage::SendPing => {
                &&& asked matches Ok((_, ServerAction::Send(m)))
                &&& m@ == MessageView::Ping(Seq::empty())
                &&& reads_on(before, before@.shutting_down, result)
            },
            EchoControlMessage::Close => {
                &&& asked matches Ok((_, ServerAction::Send(m)))
                &&& m@ == MessageView::Close(Some((1000u16, Seq::empty())))
                &&& reads_on(before, true, result)
            },
            EchoControlMessage::Abort => stopped(asked, Ok(true)),
        },
{
}

/// A message that cannot be sent on request stops the server with the error of the sink.
pub proof fn echo_step_reports_failed_sends(before: EchoServer, e: WsError, result: EchoResult)
    requires
        before@.phase is Sending,
        call_ensures(EchoServer::step, (before, ServerEvent::Sent(Err(e))), result),
    ensures
        stopped(result, Err(e)),
{
}

/// Every ping, whatever its payload, is answered with an empty pong. The server reads on when it is
/// sent and panics when it is not.
pub proof fn echo_step_answers_pings(
    before: EchoServer,
    payload: Vec<u8>,
    answer: Result<(), WsError>,
    ponging: EchoResult,
    result: EchoResult,
)
    requires
        before@.phase is Reading,
        call_ensures(
            EchoServer::step,
            (before, ServerEvent::Received(Some(Ok(Message::Ping(payload))))),
            ponging,
        ),
        ponging matches Ok((s, _)) ==> call_ensures(
            EchoServer::step,
            (s, ServerEvent::Sent(answer)),
            result,
        ),
    ensures
        ponging matches Ok((_, ServerAction::Send(m))) && m@ == MessageView::Pong(Seq::empty()),
        answer is Ok ==> reads_on(before, before@.shutting_down, result),
        answer matches Err(e) ==> (result matches Ok((after, action)) && after@.phase is Done
            && action == ServerAction::<Message, String>::Panic(e)),
{
}

/// Every close of a client, whatever its code and reason, ends the connection: at once and for good
/// where the server was shutting down, and otherwise after the sink closed, ready for the next
/// connection. A sink that fails to close is a reason to panic.
pub proof fn echo_step_completes_close(
    before: EchoServer,
    message: Message,
    answer: Result<(), WsError>,
    closing: EchoResult,
    result: EchoResult,
)
    requires
        before@.phase is Reading,
        message is Close,
        call_ensures(EchoServer::step, (before, ServerEvent::Received(Some(Ok(message)))), closing),
        !before@.shutting_down ==> (closing matches Ok((s, _)) ==> call_ensures(
            EchoServer::step,
            (s, ServerEvent::SinkClosed(answer)),
            result,
        )),
    ensures
        before@.shutting_down ==> stopped(closing, Ok(true)),
        !before@.shutting_down ==> {
            &&& closing matches Ok((_, action)) && action is CloseSink
            &&& answer is Ok ==> stopped(result, Ok(false))
            &&& answer matches Err(e) ==> (result matches Ok((after, action)) && after@.phase
                is Done && action == ServerAction::<Message, String>::Panic(e))
        },
{
}

/// Data of the other kind, pongs and raw frames are passed over; a connection that failed is
/// reported, and one that ended is ready for the next unless the server was shutting down.
pub proof fn echo_step_passes_over_the_rest(
    before: EchoServer,
    message: Message,
    e: WsError,
    skipped: EchoResult,
    failed: EchoResult,
    over: EchoResult,
)
    requires
        before@.phase is Reading,
        message is Pong || message is Frame || before@.framing is Json && message is Binary
            || before@.framing is MsgPack && message is Text,
        call_ensures(EchoServer::step, (before, ServerEvent::Received(Some(Ok(message)))), skipped),
        call_ensures(EchoServer::step, (before, ServerEvent::Received(Some(Err(e)))), failed),
        call_ensures(EchoServer::step, (before, ServerEvent::Received(None)), over),
    ensures
        reads_on(before, before@.shutting_down, skipped),
        stopped(failed, Err(e)),
        stopped(over, Ok(before@.shutting_down)),
{
}

/// A server hands back, as it was, with the event, what it does not wait for.
pub proof fn echo_step_hands_back(
    before: EchoServer,
    event: ServerEvent<Message>,
    unchanged: EchoServer,
    refused: ServerEvent<Message>,
)
    requires
        call_ensures(EchoServer::step, (before, event), Err((unchanged, refused))),
    ensures
        unchanged@ == before@,
        refused@ == event@,
{
}

/// A server that asks for authentication starts by receiving, with a fresh JSON echo server.
pub proof fn auth_server_starts(start: (AuthEchoServer, Action))
    requires
        call_ensures(auth_echo_server, (), start),
    ensures
        start.1 is Receive,
        start.0@.phase is Waiting,
        start.0@.echo.framing is Json,
        start.0@.echo.phase is Reading,
        !start.0@.echo.shutting_down,
{
}

/// Every first text message is checked; unless it says `auth` and `test-token` the client is told
/// that it failed and the server stops, and if it does the client is told so and the server echoes.
pub proof fn auth_step_checks_the_first_text(
    before: AuthEchoServer,
    text: String,
    auth: Option<AuthMessage>,
    answer: Result<(), WsError>,
    checking: AuthResult,
    replying: AuthResult,
    result: AuthResult,
)
    requires
        before@.phase is Waiting,
        call_ensures(
            AuthEchoServer::step,
            (before, ServerEvent::Received(Some(Ok(Message::Text(text))))),
            checking,
        ),
        checking matches Ok((s, _)) ==> call_ensures(
            AuthEchoServer::step,
            (s, ServerEvent::AuthDecoded(auth)),
            replying,
        ),
        replying matches Ok((s, _)) ==> call_ensures(
            AuthEchoServer::step,
            (s, ServerEvent::Sent(answer)),
            result,
        ),
    ensures
        checking matches Ok((_, ServerAction::DecodeAuth(m))) && m@ == MessageView::Text(text@),
        replying matches Ok((_, ServerAction::Send(_))),
        answer matches Err(e) ==> (result matches Ok((after, action)) && after@.phase is Done
            && action == ServerAction::<Message, String>::Finish(Err(e))),
        if (auth matches Some(a) && a.action@ == "auth"@ && a.token@ == "test-token"@) {
            &&& replying matches Ok((_, ServerAction::Send(m))) && m@ == MessageView::Text(
                "{\"status\":\"authenticated\"}"@,
            )
            &&& answer is Ok ==> (result matches Ok((after, action)) && after@.phase is Echoing
                && action is Receive && after@.echo.phase is Reading && after@.echo.framing
                == before@.echo.framing && after@.echo.shutting_down == before@.echo.shutting_down)
        } else {
            &&& replying matches Ok((_, ServerAction::Send(m))) && m@ == MessageView::Text(
                "{\"status\":\"error\"}"@,
            )
            &&& answer is Ok ==> (result matches Ok((after, action)) && after@.phase is Done
                && action == ServerAction::<Message, String>::Finish(Ok(true)))
        },
{
}

/// A first message that is binary is no authentication; pings, pongs, closes and raw frames are no
/// message to authenticate with, and the server goes on waiting; a connection that fails is
/// reported, and one that ends is no reason not to serve another.
pub proof fn auth_step_before_the_first_text(
    before: AuthEchoServer,
    message: Message,
    e: WsError,
    received: AuthResult,
    failed: AuthResult,
    over: AuthResult,
)
    requires
        before@.phase is Waiting,
        message !is Text,
        call_ensures(
            AuthEchoServer::step,
            (before, ServerEvent::Received(Some(Ok(message)))),
            received,
        ),
        call_ensures(AuthEchoServer::step, (before, ServerEvent::Received(Some(Err(e)))), failed),
        call_ensures(AuthEchoServer::step, (before, ServerEvent::Received(None)), over),
    ensures
        message is Binary ==> (received matches Ok((after, ServerAction::Send(m))) && after@.phase
            is Rejecting && m@ == MessageView::Text("{\"status\":\"error\"}"@)),
        message !is Binary ==> (received matches Ok((after, action)) && after@ == before@ && action
            is Receive),
        failed matches Ok((after, action)) && after@.phase is Done && action == ServerAction::<
            Message,
            String,
        >::Finish(Err(e)),
        over matches Ok((after, action)) && after@.phase is Done && action == ServerAction::<
            Message,
            String,
        >::Finish(Ok(false)),
{
}

/// After the authentication every step is a step of an echo server.
pub proof fn auth_step_echoes(
    before: AuthEchoServer,
    echo: EchoServer,
    event: ServerEvent<Message>,
    by_auth: AuthResult,
    by_echo: EchoResult,
)
    requires
        before@.phase is Echoing,
        before@.echo == echo@,
        call_ensures(AuthEchoServer::step, (before, event), by_auth),
        call_ensures(EchoServer::step, (echo, event), by_echo),
    ensures
        match (by_auth, by_echo) {
            (Ok((after, action)), Ok((echo_after, echo_action))) => {
                &&& after@.phase is Echoing
                &&& after@.echo == echo_after@
                &&& action@ == echo_action@
            },
            (Err((unchanged, refused)), Err(_)) => unchanged@ == before@ && refused@ == event@,
            _ => false,
        },
{
}

/// A probe server starts with the first message of its burst and waits up to half a second for a
/// ping later on.
pub proof fn probe_server_starts(start: (ProbeServer, Action))
    requires
        call_ensures(backpressure_probe_server, (), start),
    ensures
        start.1 matches ServerAction::SendControl(text) && text@ == "burst-0"@,
        start.0@.phase == ProbePhase::Bursting(0),
        duration_nanos(start.0@.limit) == 500_000_000,
{
    reveal_strlit("burst-");
    reveal_strlit("burst-0");
    assert("burst-"@.push('0') =~= "burst-0"@);
}

/// The messages of the burst follow one another as they are sent, and when the fifth is sent the
/// server waits for a ping.
pub proof fn probe_step_bursts(before: ProbeServer, i: u32, result: ProbeResult)
    requires
        before@.phase == ProbePhase::Bursting(i),
        i < 5,
        call_ensures(ProbeServer::step, (before, ServerEvent::Sent(Ok(()))), result),
    ensures
        result matches Ok((after, action)) && after@.limit == before@.limit && match i {
            0 => after@.phase == ProbePhase::Bursting(1) && (action matches ServerAction::SendControl(
                text,
            ) && text@ == "burst-1"@),
            1 => after@.phase == ProbePhase::Bursting(2) && (action matches ServerAction::SendControl(
                text,
            ) && text@ == "burst-2"@),
            2 => after@.phase == ProbePhase::Bursting(3) && (action matches ServerAction::SendControl(
                text,
            ) && text@ == "burst-3"@),
            3 => after@.phase == ProbePhase::Bursting(4) && (action matches ServerAction::SendControl(
                text,
            ) && text@ == "burst-4"@),
            _ => after@.phase is Probing && action == ServerAction::<
                Message,
                String,
            >::ReceiveWithin(before@.limit),
        },
{
    reveal_strlit("burst-");
    reveal_strlit("burst-1");
    reveal_strlit("burst-2");
    reveal_strlit("burst-3");
    reveal_strlit("burst-4");
    assert("burst-"@.push('1') =~= "burst-1"@);
    assert("burst-"@.push('2') =~= "burst-2"@);
    assert("burst-"@.push('3') =~= "burst-3"@);
    assert("burst-"@.push('4') =~= "burst-4"@);
}

/// While it waits for a ping, every ping brings the marker, any other message is passed over, and
/// the end of the time or of the connection ends the waiting without a marker.
pub proof fn probe_step_waits_for_a_ping(
    before: ProbeServer,
    event: ServerEvent<Message>,
    result: ProbeResult,
)
    requires
        before@.phase is Probing,
        event is Received || event is TimedOut,
        call_ensures(ProbeServer::step, (before, event), result),
    ensures
        result matches Ok((after, action)) && after@.limit == before@.limit && match event {
            ServerEvent::Received(Some(Ok(Message::Ping(_)))) => after@.phase is Marking && (
            action matches ServerAction::SendControl(text) && text@ == "alive"@),
            ServerEvent::Received(Some(Ok(_))) => after@.phase is Probing && action
                == ServerAction::<Message, String>::ReceiveWithin(before@.limit),
            _ => after@.phase is Draining && action is Receive,
        },
{
}

/// Then it answers every ping with an empty pong, closes when the client does, passes over the
/// rest, and is done when the connection fails or ends.
pub proof fn probe_step_drains(
    before: ProbeServer,
    read: Option<Result<Message, WsError>>,
    result: ProbeResult,
)
    requires
        before@.phase is Draining,
        call_ensures(ProbeServer::step, (before, ServerEvent::Received(read)), result),
    ensures
        result matches Ok((after, action)) && match read {
            Some(Ok(Message::Ping(_))) => after@.phase is Ponging && (action matches ServerAction::Send(
                m,
            ) && m@ == MessageView::Pong(Seq::empty())),
            Some(Ok(Message::Close(_))) => after@.phase is Closing && action is CloseSink,
            Some(Ok(_)) => after@.phase is Draining && action is Receive,
            _ => after@.phase is Done && action == ServerAction::<Message, String>::Finish(
                Ok(true),
            ),
        },
{
}

/// Whatever it sends, a probe server drains after the marker and after a pong, and stops with the
/// error of the sink where it cannot send or close; a sink that closed ends it for good.
pub proof fn probe_step_after_sending(
    before: ProbeServer,
    closing: ProbeServer,
    answer: Result<(), WsError>,
    sent: ProbeResult,
    closed: ProbeResult,
)
    requires
        before@.phase is Marking || before@.phase is Ponging || before@.phase is Bursting && answer
            is Err,
        closing@.phase is Closing,
        call_ensures(ProbeServer::step, (before, ServerEvent::Sent(answer)), sent),
        call_ensures(ProbeServer::step, (closing, ServerEvent::SinkClosed(answer)), closed),
    ensures
        sent matches Ok((after, action)) && match answer {
            Ok(_) => after@.phase is Draining && action is Receive,
            Err(e) => after@.phase is Done && action == ServerAction::<Message, String>::Finish(
                Err(e),
            ),
        },
        closed matches Ok((after, action)) && after@.phase is Done && action == ServerAction::<
            Message,
            String,
        >::Finish(
            match answer {
                Ok(_) => Ok(true),
                Err(e) => Err(e),
            },
        ),
{
}

} // verus!
