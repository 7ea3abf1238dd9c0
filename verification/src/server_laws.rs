//! What holds of every run of the test servers.
use vstd::prelude::*;

use crate::message::MessageView;
use crate::mock_server::{
    accepted_reply, accepts, burst_text, rejected_reply, server_close, AuthPhase, AuthView,
    EchoControlMessage, EchoPhase, EchoView, Framing, ProbePhase, ProbeView, ServerAction,
    ServerEvent, BURST,
};

verus! {

/// What a server does, one action for each event.
pub type Actions = Seq<ServerAction<MessageView, Seq<char>>>;

/// Where an echo server gets to and what it does, or nothing where it does not wait for one of
/// the events.
pub open spec fn echo_run(start: EchoView, events: Seq<ServerEvent<MessageView>>) -> Option<
    (EchoView, Actions),
>
    decreases events.len(),
{
    if events.len() == 0 {
        Some((start, Seq::empty()))
    } else {
        match echo_run(start, events.drop_last()) {
            Some((state, actions)) => match state.next(events.last()) {
                Some((state, action)) => Some((state, actions.push(action))),
                None => None,
            },
            None => None,
        }
    }
}

/// Where a server that asks for authentication gets to and what it does, or nothing where it
/// does not wait for one of the events.
pub open spec fn auth_run(start: AuthView, events: Seq<ServerEvent<MessageView>>) -> Option<
    (AuthView, Actions),
>
    decreases events.len(),
{
    if events.len() == 0 {
        Some((start, Seq::empty()))
    } else {
        match auth_run(start, events.drop_last()) {
            Some((state, actions)) => match state.next(events.last()) {
                Some((state, action)) => Some((state, actions.push(action))),
                None => None,
            },
            None => None,
        }
    }
}

/// Where a probe server gets to and what it does, or nothing where it does not wait for one of
/// the events.
pub open spec fn probe_run(start: ProbeView, events: Seq<ServerEvent<MessageView>>) -> Option<
    (ProbeView, Actions),
>
    decreases events.len(),
{
    if events.len() == 0 {
        Some((start, Seq::empty()))
    } else {
        match probe_run(start, events.drop_last()) {
            Some((state, actions)) => match state.next(events.last()) {
                Some((state, action)) => Some((state, actions.push(action))),
                None => None,
            },
            None => None,
        }
    }
}

/// What an echo server did before its last event.
proof fn lemma_last_echo_step(
    start: EchoView,
    events: Seq<ServerEvent<MessageView>>,
    state: EchoView,
    actions: Actions,
) -> (before: (EchoView, Actions))
    requires
        events.len() > 0,
        echo_run(start, events) == Some((state, actions)),
    ensures
        echo_run(start, events.drop_last()) == Some(before),
        before.0.next(events.last()) == Some((state, actions.last())),
        actions.len() > 0,
        actions.drop_last() == before.1,
        actions == before.1.push(actions.last()),
{
    let before = echo_run(start, events.drop_last())->0;
    assert(actions.drop_last() =~= before.1);
    before
}

/// A message that is being decoded is the one that was received last.
proof fn lemma_decoding_what_was_received(
    start: EchoView,
    events: Seq<ServerEvent<MessageView>>,
    state: EchoView,
    actions: Actions,
)
    requires
        start.phase is Reading,
        echo_run(start, events) == Some((state, actions)),
    ensures
        actions.len() == events.len(),
        state.framing == start.framing,
        state.phase matches EchoPhase::Decoding(message) ==> {
            &&& events.len() > 0
            &&& events.last() == ServerEvent::Received(Some(Ok(message)))
            &&& state.framing.carries(message)
        },
    decreases events.len(),
{
    if events.len() > 0 {
        let before = lemma_last_echo_step(start, events, state, actions);
        lemma_decoding_what_was_received(start, events.drop_last(), before.0, before.1);
    }
}

/// Whether an event is a client's message to be echoed.
pub open spec fn asks_for_echo(event: ServerEvent<MessageView>) -> bool {
    event matches ServerEvent::Decoded(EchoControlMessage::Message(_))
}

/// Whether an action sends data.
pub open spec fn sends_data(action: ServerAction<MessageView, Seq<char>>) -> bool {
    action matches ServerAction::Send(message) && message.is_data()
}

/// An echo server echoes, at once and unchanged, every message that it is asked to echo, and
/// sends no other data.
pub proof fn echoes_at_once(
    framing: Framing,
    events: Seq<ServerEvent<MessageView>>,
    state: EchoView,
    actions: Actions,
)
    requires
        echo_run(EchoView::fresh(framing), events) == Some((state, actions)),
    ensures
        actions.len() == events.len(),
        forall|i: int|
            0 <= i < events.len() && asks_for_echo(#[trigger] events[i]) ==> {
                &&& i > 0
                &&& events[i - 1] matches ServerEvent::Received(Some(Ok(message)))
                &&& actions[i] == ServerAction::<MessageView, Seq<char>>::Send(message)
            },
        forall|i: int|
            0 <= i < actions.len() && sends_data(#[trigger] actions[i]) ==> asks_for_echo(
                events[i],
            ),
    decreases events.len(),
{
    let start = EchoView::fresh(framing);
    lemma_decoding_what_was_received(start, events, state, actions);
    if events.len() > 0 {
        let before = lemma_last_echo_step(start, events, state, actions);
        let earlier = events.drop_last();
        echoes_at_once(framing, earlier, before.0, before.1);
        lemma_decoding_what_was_received(start, earlier, before.0, before.1);
        assert forall|i: int|
            0 <= i < events.len() && asks_for_echo(#[trigger] events[i]) implies {
            &&& i > 0
            &&& events[i - 1] matches ServerEvent::Received(Some(Ok(message)))
            &&& actions[i] == ServerAction::<MessageView, Seq<char>>::Send(message)
        } by {
            if i < earlier.len() {
                assert(asks_for_echo(earlier[i]));
            }
        }
        assert forall|i: int| 0 <= i < actions.len() && sends_data(#[trigger] actions[i]) implies
            asks_for_echo(events[i]) by {
            if i < earlier.len() {
                assert(sends_data(before.1[i]));
            }
        }
    }
}

/// Whether a client asked for a close, and the server sent it, at some event.
pub open spec fn closed_at(events: Seq<ServerEvent<MessageView>>, i: int) -> bool {
    &&& 0 <= i < events.len() - 1
    &&& events[i] == ServerEvent::<MessageView>::Decoded(EchoControlMessage::Close)
    &&& events[i + 1] matches ServerEvent::Sent(Ok(_))
}

/// Being asked for a close, and having sent it, is what makes an echo server shut down.
proof fn lemma_shutting_down(
    framing: Framing,
    events: Seq<ServerEvent<MessageView>>,
    state: EchoView,
    actions: Actions,
)
    requires
        echo_run(EchoView::fresh(framing), events) == Some((state, actions)),
    ensures
        state.shutting_down <==> exists|i: int| #[trigger] closed_at(events, i),
        (state.phase matches EchoPhase::Sending { closes } && closes) <==> events.len() > 0
            && events.last() == ServerEvent::<MessageView>::Decoded(EchoControlMessage::Close),
    decreases events.len(),
{
    if events.len() > 0 {
        let earlier = events.drop_last();
        let before = lemma_last_echo_step(EchoView::fresh(framing), events, state, actions);
        lemma_shutting_down(framing, earlier, before.0, before.1);
        if before.0.shutting_down {
            let i = choose|i: int| #[trigger] closed_at(earlier, i);
            assert(closed_at(events, i));
        } else if state.shutting_down {
            assert(earlier.last() == events[events.len() - 2]);
            assert(closed_at(events, events.len() - 2));
        }
        if exists|i: int| #[trigger] closed_at(events, i) {
            let i = choose|i: int| #[trigger] closed_at(events, i);
            if i < events.len() - 2 {
                assert(closed_at(earlier, i));
            }
        }
    }
}

/// An echo server is done for good when a client asked it to drop the connection, or to close it
/// and the close was sent. Otherwise, when the client has closed or gone, it is ready for the
/// next connection.
pub proof fn serves_until_asked_to_stop(
    framing: Framing,
    events: Seq<ServerEvent<MessageView>>,
    state: EchoView,
    actions: Actions,
    done: bool,
)
    requires
        echo_run(EchoView::fresh(framing), events) == Some((state, actions)),
        actions.len() > 0,
        actions.last() == ServerAction::<MessageView, Seq<char>>::Finish(Ok(done)),
    ensures
        done <==> {
            ||| events.last() == ServerEvent::<MessageView>::Decoded(EchoControlMessage::Abort)
            ||| exists|i: int| #[trigger] closed_at(events, i)
        },
{
    lemma_decoding_what_was_received(EchoView::fresh(framing), events, state, actions);
    let before = lemma_last_echo_step(EchoView::fresh(framing), events, state, actions);
    lemma_shutting_down(framing, events, state, actions);
    lemma_shutting_down(framing, events.drop_last(), before.0, before.1);
}

/// A connection that fails under an echo server is not passed over: the server stops at once, with
/// the error of the connection.
pub proof fn reports_failed_connections(
    framing: Framing,
    events: Seq<ServerEvent<MessageView>>,
    state: EchoView,
    actions: Actions,
)
    requires
        echo_run(EchoView::fresh(framing), events) == Some((state, actions)),
    ensures
        actions.len() == events.len(),
        forall|i: int|
            0 <= i < events.len() ==> (#[trigger] events[i] matches ServerEvent::Received(
                Some(Err(e)),
            ) ==> i == events.len() - 1 && state.phase is Done && actions[i] == ServerAction::<
                MessageView,
                Seq<char>,
            >::Finish(Err(e))),
    decreases events.len(),
{
    if events.len() > 0 {
        let earlier = events.drop_last();
        let before = lemma_last_echo_step(EchoView::fresh(framing), events, state, actions);
        reports_failed_connections(framing, earlier, before.0, before.1);
        assert forall|i: int| 0 <= i < earlier.len() implies !(#[trigger] events[i] matches
            ServerEvent::Received(Some(Err(_)))) by {
            assert(earlier[i] == events[i]);
        }
    }
}

/// A connection that fails under a server that asks for authentication is not passed over either,
/// whether or not the client authenticated itself.
pub proof fn reports_failed_connections_around_authentication(
    events: Seq<ServerEvent<MessageView>>,
    state: AuthView,
    actions: Actions,
)
    requires
        auth_run(
            AuthView { phase: AuthPhase::Waiting, echo: EchoView::fresh(Framing::Json) },
            events,
        ) == Some((state, actions)),
    ensures
        actions.len() == events.len(),
        forall|i: int|
            0 <= i < events.len() ==> (#[trigger] events[i] matches ServerEvent::Received(
                Some(Err(e)),
            ) ==> i == events.len() - 1 && (state.phase is Done || state.phase is Echoing
                && state.echo.phase is Done) && actions[i] == ServerAction::<
                MessageView,
                Seq<char>,
            >::Finish(Err(e))),
    decreases events.len(),
{
    if events.len() > 0 {
        let start = AuthView { phase: AuthPhase::Waiting, echo: EchoView::fresh(Framing::Json) };
        let earlier = events.drop_last();
        let before = auth_run(start, earlier)->0;
        reports_failed_connections_around_authentication(earlier, before.0, before.1);
        assert forall|i: int| 0 <= i < earlier.len() implies !(#[trigger] events[i] matches
            ServerEvent::Received(Some(Err(_)))) by {
            assert(earlier[i] == events[i]);
        }
    }
}

/// What an echo server does when it is asked to: it sends a ping, it sends a close with code 1000
/// and an empty reason, or it drops the connection. A ping of the client is answered with a pong.
/// In between it goes back to reading.
pub proof fn obeys_control_messages(state: EchoView, message: MessageView, payload: Seq<u8>)
    requires
        state.phase is Reading,
        state.framing.carries(message),
    ensures
        ({
            let decoding = state.next(ServerEvent::Received(Some(Ok(message))));
            let asked = |control: EchoControlMessage| (decoding->0).0.next(
                ServerEvent::Decoded(control),
            );
            let sent = ServerEvent::<MessageView>::Sent(Ok(()));
            &&& decoding is Some
            &&& (decoding->0).1 == ServerAction::<MessageView, Seq<char>>::Decode(message)
            &&& asked(EchoControlMessage::SendPing) matches Some((sending, action))
            &&& action == ServerAction::<MessageView, Seq<char>>::Send(
                MessageView::Ping(Seq::empty()),
            )
            &&& sending.next(sent) == Some(state.reads())
            &&& asked(EchoControlMessage::Close) matches Some((closing, action))
            &&& action == ServerAction::<MessageView, Seq<char>>::Send(server_close())
            &&& closing.next(sent) == Some(EchoView { shutting_down: true, ..state }.reads())
            &&& asked(EchoControlMessage::Abort) == Some(state.stops(Ok(true)))
        }),
        ({
            let ponging = state.next(ServerEvent::Received(Some(Ok(MessageView::Ping(payload)))));
            &&& ponging is Some
            &&& (ponging->0).1 == ServerAction::<MessageView, Seq<char>>::Send(
                MessageView::Pong(Seq::empty()),
            )
            &&& (ponging->0).0.next(ServerEvent::Sent(Ok(()))) == Some(state.reads())
        }),
{
}

/// Whether a client authenticated itself at some event.
pub open spec fn authenticated_at(events: Seq<ServerEvent<MessageView>>, i: int) -> bool {
    &&& 0 <= i < events.len()
    &&& events[i] matches ServerEvent::AuthDecoded(auth)
    &&& accepts(auth)
}

/// Whether a server does nothing for its client but reply to its authentication.
pub open spec fn keeps_to_itself(action: ServerAction<MessageView, Seq<char>>) -> bool {
    match action {
        ServerAction::Receive | ServerAction::DecodeAuth(_) | ServerAction::Finish(_) => true,
        ServerAction::Send(message) => message == accepted_reply() || message == rejected_reply(),
        _ => false,
    }
}

/// The replies to an authentication differ.
proof fn lemma_replies_differ()
    ensures
        accepted_reply() != rejected_reply(),
{
    reveal_strlit("{\"status\":\"authenticated\"}");
    reveal_strlit("{\"status\":\"error\"}");
    assert("{\"status\":\"authenticated\"}"@.len() != "{\"status\":\"error\"}"@.len());
}

/// A server that asks for authentication welcomes a client and echoes only after the client
/// authenticated itself. Without that, the client gets no more than the reply that it did not.
pub proof fn echoes_only_after_authentication(
    events: Seq<ServerEvent<MessageView>>,
    state: AuthView,
    actions: Actions,
)
    requires
        auth_run(
            AuthView { phase: AuthPhase::Waiting, echo: EchoView::fresh(Framing::Json) },
            events,
        ) == Some((state, actions)),
    ensures
        state.phase is Echoing || state.phase is Accepting ==> exists|i: int| #[trigger]
            authenticated_at(events, i),
        (forall|i: int| !#[trigger] authenticated_at(events, i)) ==> forall|i: int|
            0 <= i < actions.len() ==> keeps_to_itself(#[trigger] actions[i]) && actions[i]
                != ServerAction::<MessageView, Seq<char>>::Send(accepted_reply()),
    decreases events.len(),
{
    if events.len() > 0 {
        lemma_replies_differ();
        let start = AuthView { phase: AuthPhase::Waiting, echo: EchoView::fresh(Framing::Json) };
        let earlier = events.drop_last();
        let before = auth_run(start, earlier)->0;
        echoes_only_after_authentication(earlier, before.0, before.1);
        if exists|i: int| #[trigger] authenticated_at(earlier, i) {
            let i = choose|i: int| #[trigger] authenticated_at(earlier, i);
            assert(authenticated_at(events, i));
        } else if state.phase is Accepting {
            assert(authenticated_at(events, events.len() - 1));
        }
        if forall|i: int| !#[trigger] authenticated_at(events, i) {
            assert(!authenticated_at(events, events.len() - 1));
            assert forall|i: int| !#[trigger] authenticated_at(earlier, i) by {
                assert(!authenticated_at(events, i));
            }
            assert forall|i: int| 0 <= i < actions.len() implies keeps_to_itself(
                #[trigger] actions[i],
            ) && actions[i] != ServerAction::<MessageView, Seq<char>>::Send(accepted_reply()) by {
                if i < before.1.len() {
                    assert(keeps_to_itself(before.1[i]));
                }
            }
        }
    }
}

/// A client is told whether its authentication was the expected one. If it was, the server then
/// behaves as an echo server does; if not, the server stops.
pub proof fn replies_to_authentication(
    state: AuthView,
    text: Seq<char>,
    auth: Option<crate::mock_server::AuthMessage>,
)
    requires
        state.phase is Waiting,
    ensures
        ({
            let checking = state.next(ServerEvent::Received(Some(Ok(MessageView::Text(text)))));
            let replying = (checking->0).0.next(ServerEvent::AuthDecoded(auth));
            let replied = (replying->0).0.next(ServerEvent::Sent(Ok(())));
            &&& checking is Some
            &&& replying is Some
            &&& replied is Some
            &&& (replying->0).1 == ServerAction::<MessageView, Seq<char>>::Send(
                if accepts(auth) {
                    accepted_reply()
                } else {
                    rejected_reply()
                },
            )
            &&& accepts(auth) ==> (replied->0).0.phase is Echoing && (
                (replied->0).0.echo,
                (replied->0).1,
            ) == state.echo.reads()
            &&& !accepts(auth) ==> (replied->0).1 == ServerAction::<MessageView, Seq<char>>::Finish(
                Ok(true),
            )
        }),
{
}

/// After the authentication the server is an echo server.
pub proof fn authenticated_server_echoes(state: AuthView, event: ServerEvent<MessageView>)
    requires
        state.phase is Echoing,
    ensures
        match (state.next(event), state.echo.next(event)) {
            (Some((after, action)), Some((echo, echo_action))) => {
                &&& after.phase is Echoing
                &&& after.echo == echo
                &&& action == echo_action
            },
            (None, None) => true,
            _ => false,
        },
{
}

/// How far a burst has got says what was sent of it.
pub open spec fn burst_sent(actions: Actions) -> bool {
    forall|i: int|
        0 <= i < actions.len() && i < BURST - 1 ==> #[trigger] actions[i]
            == ServerAction::<MessageView, Seq<char>>::SendControl(burst_text((i + 1) as u32))
            || actions[i] is Finish
}

/// A probe server sends its burst in order before anything else. After the first message, which
/// it starts with, come the other four, each when the one before is sent, unless sending fails;
/// only then does it listen.
pub proof fn bursts_in_order(
    start: ProbeView,
    events: Seq<ServerEvent<MessageView>>,
    state: ProbeView,
    actions: Actions,
)
    requires
        start.phase == ProbePhase::Bursting(0),
        probe_run(start, events) == Some((state, actions)),
    ensures
        actions.len() == events.len(),
        burst_sent(actions),
        state.phase matches ProbePhase::Bursting(i) ==> i == events.len() && i < BURST,
        events.len() < BURST ==> state.phase is Bursting || state.phase is Done,
    decreases events.len(),
{
    if events.len() > 0 {
        let earlier = events.drop_last();
        let before = probe_run(start, earlier)->0;
        bursts_in_order(start, earlier, before.0, before.1);
        assert forall|i: int|
            0 <= i < actions.len() && i < BURST - 1 implies #[trigger] actions[i] == ServerAction::<
            MessageView,
            Seq<char>,
        >::SendControl(burst_text((i + 1) as u32)) || actions[i] is Finish by {
            if i < before.1.len() {
                assert(actions[i] == before.1[i]);
            }
        }
    }
}

/// The marker differs from every message of the burst.
proof fn lemma_marker_is_no_burst(i: u32)
    ensures
        "alive"@ != burst_text(i),
{
    reveal_strlit("alive");
    reveal_strlit("burst-");
    assert("alive"@.len() == 5);
    assert(burst_text(i).len() == 7);
}

/// A probe server sends its marker only when a ping has just arrived in time.
pub proof fn marks_only_after_a_ping(state: ProbeView, event: ServerEvent<MessageView>)
    requires
        state.next(event) is Some,
    ensures
        (state.next(event)->0).1 == ServerAction::<MessageView, Seq<char>>::SendControl("alive"@)
            <==> state.phase is Probing && event matches ServerEvent::Received(
            Some(Ok(MessageView::Ping(_))),
        ),
        state.phase is Probing && event is TimedOut ==> state.next(event) == Some(state.drains()),
{
    if let ProbePhase::Bursting(i) = state.phase {
        lemma_marker_is_no_burst((i + 1) as u32);
    }
}

/// Whether an event is what may come of an action.
pub open spec fn answers(
    action: ServerAction<MessageView, Seq<char>>,
    event: ServerEvent<MessageView>,
) -> bool {
    match (action, event) {
        (ServerAction::Receive, ServerEvent::Received(_)) => true,
        (ServerAction::ReceiveWithin(_), ServerEvent::Received(_) | ServerEvent::TimedOut) => true,
        (ServerAction::Decode(_), ServerEvent::Decoded(_)) => true,
        (ServerAction::DecodeAuth(_), ServerEvent::AuthDecoded(_)) => true,
        (ServerAction::Send(_) | ServerAction::SendControl(_), ServerEvent::Sent(_)) => true,
        (ServerAction::CloseSink, ServerEvent::SinkClosed(_)) => true,
        _ => false,
    }
}

/// An echo server takes whatever comes of what it asked for, and nothing else: of its first action,
/// and of every action after that.
pub proof fn echo_server_takes_every_answer(
    framing: Framing,
    state: EchoView,
    event: ServerEvent<MessageView>,
    answer: ServerEvent<MessageView>,
)
    ensures
        answers(ServerAction::Receive, answer) <==> EchoView::fresh(framing).next(answer) is Some,
        state.next(event) matches Some((after, action)) ==> (answers(action, answer)
            <==> after.next(answer) is Some),
{
}

/// A server that asks for authentication takes whatever comes of what it asked for, and nothing
/// else: of its first action, and of every action after that.
pub proof fn auth_server_takes_every_answer(
    echo: EchoView,
    state: AuthView,
    event: ServerEvent<MessageView>,
    answer: ServerEvent<MessageView>,
)
    ensures
        answers(ServerAction::Receive, answer) <==> (AuthView {
            phase: AuthPhase::Waiting,
            echo,
        }).next(answer) is Some,
        state.next(event) matches Some((after, action)) ==> (answers(action, answer)
            <==> after.next(answer) is Some),
{
}

/// A probe server takes whatever comes of what it asked for, and nothing else: of its first action,
/// and of every action after that.
pub proof fn probe_server_takes_every_answer(
    start: ProbeView,
    state: ProbeView,
    event: ServerEvent<MessageView>,
    answer: ServerEvent<MessageView>,
)
    ensures
        answers(start.bursts(0).1, answer) <==> start.bursts(0).0.next(answer) is Some,
        state.next(event) matches Some((after, action)) ==> (answers(action, answer)
            <==> after.next(answer) is Some),
{
}

} // verus!
