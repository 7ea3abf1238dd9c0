//! Single steps of the test servers.

use std::time::Duration;

use socketeer::mock_server::{AuthMessage, EchoServer, ServerAction, ServerEvent};
use socketeer::tungstenite::error::ProtocolError;
use socketeer::tungstenite::Error as WsError;
use socketeer::{
    auth_echo_server, backpressure_probe_server, echo_server, msgpack_echo_server, CloseFrame,
    EchoControlMessage, Message,
};

type Action = ServerAction<Message, String>;

fn step(server: EchoServer, event: ServerEvent<Message>) -> (EchoServer, Action) {
    match server.step(event) {
        Ok(step) => step,
        Err(_) => panic!("the server waits for this event"),
    }
}

fn received(message: Message) -> ServerEvent<Message> {
    ServerEvent::Received(Some(Ok(message)))
}

/// An echo server after a control message in a text message.
fn asked(control: EchoControlMessage) -> (EchoServer, Action) {
    let (server, action) = step(echo_server().0, received(Message::text("asked")));
    assert!(matches!(action, ServerAction::Decode(Message::Text(text)) if text == "asked"));
    step(server, ServerEvent::Decoded(control))
}

#[test]
fn echo_server_echoes_what_it_received() {
    let (server, action) = asked(EchoControlMessage::Message("inner".to_string()));
    assert!(matches!(action, ServerAction::Send(Message::Text(text)) if text == "asked"));
    let (_, action) = step(server, ServerEvent::Sent(Ok(())));
    assert!(matches!(action, ServerAction::Receive));
}

#[test]
fn echo_server_pings_on_request() {
    let (_, action) = asked(EchoControlMessage::SendPing);
    assert!(matches!(action, ServerAction::Send(Message::Ping(payload)) if payload.is_empty()));
}

#[test]
fn echo_server_shuts_down_after_a_close() {
    let (server, action) = asked(EchoControlMessage::Close);
    let ServerAction::Send(close) = action else {
        panic!("expected a close");
    };
    assert_eq!(
        close,
        Message::Close(Some(CloseFrame {
            code: 1000,
            reason: String::new(),
        }))
    );
    let (server, _) = step(server, ServerEvent::Sent(Ok(())));
    let (_, action) = step(server, received(Message::Close(None)));
    assert!(matches!(action, ServerAction::Finish(Ok(true))));
}

#[test]
fn echo_server_drops_the_connection_on_request() {
    let (_, action) = asked(EchoControlMessage::Abort);
    assert!(matches!(action, ServerAction::Finish(Ok(true))));
}

#[test]
fn echo_server_answers_pings_and_the_peers_close() {
    let (server, action) = step(echo_server().0, received(Message::Ping(vec![1])));
    assert!(matches!(action, ServerAction::Send(Message::Pong(payload)) if payload.is_empty()));
    let (server, _) = step(server, ServerEvent::Sent(Ok(())));
    let (server, action) = step(server, received(Message::Close(None)));
    assert!(matches!(action, ServerAction::CloseSink));
    let (_, action) = step(server, ServerEvent::SinkClosed(Ok(())));
    assert!(matches!(action, ServerAction::Finish(Ok(false))));
}

#[test]
fn echo_server_panics_only_on_auxiliary_failures() {
    let (server, _) = asked(EchoControlMessage::Message("inner".to_string()));
    let (_, action) = step(server, ServerEvent::Sent(Err(WsError::ConnectionClosed)));
    assert!(matches!(
        action,
        ServerAction::Finish(Err(WsError::ConnectionClosed))
    ));
    let (server, _) = step(echo_server().0, received(Message::Ping(Vec::new())));
    let (_, action) = step(server, ServerEvent::Sent(Err(WsError::ConnectionClosed)));
    assert!(matches!(
        action,
        ServerAction::Panic(WsError::ConnectionClosed)
    ));
    let (server, _) = step(echo_server().0, received(Message::Close(None)));
    let (_, action) = step(server, ServerEvent::SinkClosed(Err(WsError::AlreadyClosed)));
    assert!(matches!(action, ServerAction::Panic(WsError::AlreadyClosed)));
}

#[test]
fn echo_server_ignores_other_messages() {
    let (server, action) = step(echo_server().0, received(Message::binary(vec![1])));
    assert!(matches!(action, ServerAction::Receive));
    let (server, action) = step(server, received(Message::Pong(vec![1])));
    assert!(matches!(action, ServerAction::Receive));
    let (_, action) = step(server, ServerEvent::Received(None));
    assert!(matches!(action, ServerAction::Finish(Ok(false))));
}

fn reset() -> ServerEvent<Message> {
    ServerEvent::Received(Some(Err(WsError::Protocol(
        ProtocolError::ResetWithoutClosingHandshake,
    ))))
}

#[test]
fn connection_that_is_reset_is_an_error_of_the_server() {
    for server in [echo_server().0, msgpack_echo_server().0] {
        let (server, action) = step(server, reset());
        assert!(matches!(
            action,
            ServerAction::Finish(Err(WsError::Protocol(
                ProtocolError::ResetWithoutClosingHandshake
            )))
        ));
        assert!(server.step(ServerEvent::Received(None)).is_err());
    }
    assert!(matches!(
        auth_echo_server().0.step(reset()),
        Ok((_, ServerAction::Finish(Err(WsError::Protocol(_)))))
    ));
}

#[test]
fn connection_that_is_reset_after_the_authentication_is_an_error_too() {
    let Ok((server, _)) = auth_echo_server().0.step(received(Message::text("auth"))) else {
        panic!("expected to decode");
    };
    let Ok((server, _)) = server.step(ServerEvent::AuthDecoded(auth("auth", "test-token"))) else {
        panic!("expected a reply");
    };
    let Ok((server, _)) = server.step(ServerEvent::Sent(Ok(()))) else {
        panic!("expected to echo");
    };
    assert!(matches!(
        server.step(reset()),
        Ok((_, ServerAction::Finish(Err(WsError::Protocol(_)))))
    ));
}

#[test]
fn msgpack_server_reads_binary_messages() {
    let (server, action) = step(msgpack_echo_server().0, received(Message::text("ignored")));
    assert!(matches!(action, ServerAction::Receive));
    let (server, action) = step(server, received(Message::binary(vec![7])));
    assert!(matches!(action, ServerAction::Decode(Message::Binary(bytes)) if bytes == vec![7]));
    let control = EchoControlMessage::Message("inner".to_string());
    let (_, action) = step(server, ServerEvent::Decoded(control));
    assert!(matches!(action, ServerAction::Send(Message::Binary(bytes)) if bytes == vec![7]));
}

#[test]
fn server_hands_back_an_event_that_it_does_not_wait_for() {
    let Err((server, ServerEvent::Sent(Ok(())))) = echo_server().0.step(ServerEvent::Sent(Ok(())))
    else {
        panic!("nothing was sent");
    };
    let (_, action) = step(server, ServerEvent::Received(None));
    assert!(matches!(action, ServerAction::Finish(Ok(false))));
}

/// What the server that asks for authentication replies to an authentication.
fn reply_to(auth: Option<AuthMessage>) -> String {
    let (server, action) = auth_echo_server();
    assert!(matches!(action, ServerAction::Receive));
    let Ok((server, ServerAction::DecodeAuth(_))) = server.step(received(Message::text("auth")))
    else {
        panic!("expected to decode");
    };
    let Ok((_, ServerAction::Send(Message::Text(reply)))) =
        server.step(ServerEvent::AuthDecoded(auth))
    else {
        panic!("expected a reply");
    };
    reply
}

fn auth(action: &str, token: &str) -> Option<AuthMessage> {
    Some(AuthMessage {
        action: action.to_string(),
        token: token.to_string(),
    })
}

#[test]
fn only_the_expected_authentication_is_accepted() {
    let accepted = r#"{"status":"authenticated"}"#;
    let rejected = r#"{"status":"error"}"#;
    assert_eq!(reply_to(auth("auth", "test-token")), accepted);
    assert_eq!(reply_to(auth("auth", "WRONG")), rejected);
    assert_eq!(reply_to(auth("login", "test-token")), rejected);
    assert_eq!(reply_to(None), rejected);
}

#[test]
fn first_message_must_be_the_authentication() {
    let (server, _) = auth_echo_server();
    let Ok((server, ServerAction::Receive)) = server.step(received(Message::Ping(Vec::new())))
    else {
        panic!("a ping is no message to authenticate with");
    };
    let Ok((server, ServerAction::Send(Message::Text(reply)))) =
        server.step(received(Message::binary(vec![1])))
    else {
        panic!("expected a reply");
    };
    assert_eq!(reply, r#"{"status":"error"}"#);
    assert!(matches!(
        server.step(ServerEvent::Sent(Ok(()))),
        Ok((_, ServerAction::Finish(Ok(true))))
    ));
}

#[test]
fn connection_that_ends_before_the_authentication_is_no_reason_to_stop() {
    let (server, _) = auth_echo_server();
    assert!(matches!(
        server.step(ServerEvent::Received(None)),
        Ok((_, ServerAction::Finish(Ok(false))))
    ));
}

#[test]
fn reply_that_cannot_be_sent_is_an_error() {
    let (server, _) = auth_echo_server();
    let Ok((server, _)) = server.step(received(Message::binary(vec![1]))) else {
        panic!("expected a reply");
    };
    assert!(matches!(
        server.step(ServerEvent::Sent(Err(WsError::ConnectionClosed))),
        Ok((_, ServerAction::Finish(Err(WsError::ConnectionClosed))))
    ));
}

#[test]
fn probe_server_waits_half_a_second_for_a_ping() {
    let (mut server, mut action) = backpressure_probe_server();
    for i in 0..5 {
        assert!(
            matches!(&action, ServerAction::SendControl(text) if *text == format!("burst-{i}"))
        );
        let Ok(next) = server.step(ServerEvent::Sent(Ok(()))) else {
            panic!("the burst was sent");
        };
        (server, action) = next;
    }
    let ServerAction::ReceiveWithin(limit) = action else {
        panic!("expected to wait for a ping");
    };
    assert_eq!(limit, Duration::from_millis(500));
    let Ok((server, ServerAction::ReceiveWithin(_))) =
        server.step(received(Message::text("no ping")))
    else {
        panic!("expected to go on waiting");
    };
    let Ok((server, ServerAction::SendControl(marker))) =
        server.step(received(Message::Ping(Vec::new())))
    else {
        panic!("expected the marker");
    };
    assert_eq!(marker, "alive");
    let Ok((server, ServerAction::Receive)) = server.step(ServerEvent::Sent(Ok(()))) else {
        panic!("expected to drain");
    };
    let Ok((server, ServerAction::Send(Message::Pong(_)))) =
        server.step(received(Message::Ping(Vec::new())))
    else {
        panic!("expected a pong");
    };
    let Ok((server, ServerAction::Receive)) = server.step(ServerEvent::Sent(Ok(()))) else {
        panic!("expected to drain");
    };
    let Ok((server, ServerAction::CloseSink)) = server.step(received(Message::Close(None))) else {
        panic!("expected to close");
    };
    assert!(matches!(
        server.step(ServerEvent::SinkClosed(Ok(()))),
        Ok((_, ServerAction::Finish(Ok(true))))
    ));
}

#[test]
fn probe_server_reports_a_burst_that_cannot_be_sent() {
    let (server, _) = backpressure_probe_server();
    assert!(matches!(
        server.step(ServerEvent::Sent(Err(WsError::ConnectionClosed))),
        Ok((_, ServerAction::Finish(Err(WsError::ConnectionClosed))))
    ));
}

#[test]
fn control_messages_can_be_cloned_and_compared() {
    let message = EchoControlMessage::Message("text".to_string());
    assert_eq!(message.clone(), message);
    assert_eq!(
        EchoControlMessage::SendPing.clone(),
        EchoControlMessage::SendPing
    );
    assert_ne!(EchoControlMessage::Close, EchoControlMessage::Abort);
    assert!(message < EchoControlMessage::SendPing);
}
