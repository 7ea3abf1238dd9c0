//! What a handle makes of its channels.

use socketeer::handle::{
    close_confirmed, confirmed, poll_recv_raw, queued, record_terminal_error, recv_raw,
    take_terminal_error, take_terminal_error_opt, Confirmation, Polled,
};
use socketeer::tungstenite::Error as WsError;
use socketeer::{Error, HandshakeContext, Message, RawCodec};

fn failed() -> Option<Error> {
    Some(Error::WebsocketError(WsError::ConnectionClosed))
}

#[test]
fn cause_is_taken_once() {
    let mut slot = failed();
    assert!(matches!(
        take_terminal_error_opt(&mut slot),
        Some(Error::WebsocketError(_))
    ));
    assert!(take_terminal_error_opt(&mut slot).is_none());
    assert!(matches!(
        take_terminal_error(&mut slot),
        Error::WebsocketClosed
    ));
}

#[test]
fn graceful_close_records_nothing() {
    let mut slot = None;
    record_terminal_error(&mut slot, None);
    assert!(slot.is_none());
    record_terminal_error(&mut slot, failed());
    assert!(slot.is_some());
    record_terminal_error(&mut slot, None);
    assert!(slot.is_some());
}

#[test]
fn messages_come_before_the_cause() {
    let mut slot = failed();
    assert_eq!(
        recv_raw(Some(Message::text("last")), &mut slot).unwrap(),
        Message::text("last")
    );
    assert!(matches!(
        recv_raw(None, &mut slot).unwrap_err(),
        Error::WebsocketError(_)
    ));
    assert!(matches!(
        recv_raw(None, &mut slot).unwrap_err(),
        Error::WebsocketClosed
    ));
}

#[test]
fn stream_yields_the_cause_and_then_ends() {
    let mut slot = failed();
    assert!(matches!(
        poll_recv_raw(Polled::Pending, &mut slot),
        Polled::Pending
    ));
    assert!(matches!(
        poll_recv_raw(Polled::Ready(Some(Message::text("last"))), &mut slot),
        Polled::Ready(Some(Ok(Message::Text(_))))
    ));
    assert!(matches!(
        poll_recv_raw(Polled::Ready(None), &mut slot),
        Polled::Ready(Some(Err(Error::WebsocketError(_))))
    ));
    for _ in 0..2 {
        assert!(matches!(
            poll_recv_raw(Polled::Ready(None), &mut slot),
            Polled::Ready(None)
        ));
    }
}

#[test]
fn send_on_a_closed_channel_takes_the_cause() {
    let mut slot = failed();
    assert!(confirmed(Confirmation::Answered(Ok(())), &mut slot).is_ok());
    assert!(queued(true, &mut slot).is_ok());
    assert!(matches!(
        confirmed(Confirmation::NotQueued, &mut slot).unwrap_err(),
        Error::WebsocketError(_)
    ));
    assert!(matches!(
        queued(false, &mut slot).unwrap_err(),
        Error::WebsocketClosed
    ));
}

#[test]
fn queued_send_that_the_loop_did_not_take_fails() {
    let mut slot = failed();
    assert!(matches!(
        confirmed(Confirmation::Unanswered, &mut slot).unwrap_err(),
        Error::WebsocketError(_)
    ));
    assert!(matches!(
        confirmed(Confirmation::Unanswered, &mut slot).unwrap_err(),
        Error::WebsocketClosed
    ));
}

#[test]
fn close_on_a_closed_channel_is_a_closure() {
    assert!(matches!(
        close_confirmed(Confirmation::Unanswered).unwrap_err(),
        Error::WebsocketClosed
    ));
    assert!(matches!(
        close_confirmed(Confirmation::NotQueued).unwrap_err(),
        Error::WebsocketClosed
    ));
    let reported = Confirmation::Answered(Err(Error::SocketeerDroppedWithoutClosing));
    assert!(matches!(
        close_confirmed(reported).unwrap_err(),
        Error::SocketeerDroppedWithoutClosing
    ));
}

#[test]
fn handshake_skips_pings_and_pongs_only() {
    let codec = RawCodec;
    let context = HandshakeContext::new(&codec);
    assert!(context
        .recv_raw(Some(Ok(Message::Ping(vec![1]))))
        .is_none());
    assert!(context
        .recv_raw(Some(Ok(Message::Pong(vec![1]))))
        .is_none());
    let close = context.recv_raw(Some(Ok(Message::Close(None))));
    assert_eq!(close.unwrap().unwrap(), Message::Close(None));
    assert!(matches!(
        context.recv_raw(None),
        Some(Err(Error::WebsocketClosed))
    ));
    assert!(matches!(
        context.recv(Some(Err(WsError::ConnectionClosed))),
        Some(Err(Error::WebsocketError(WsError::ConnectionClosed)))
    ));
    assert!(matches!(
        context.recv_text(Some(Ok(Message::Close(None)))),
        Some(Err(Error::UnexpectedMessageType(message))) if *message == Message::Close(None)
    ));
    assert!(matches!(
        context.sent(Err(WsError::ConnectionClosed)),
        Err(Error::WebsocketError(WsError::ConnectionClosed))
    ));
}

#[test]
fn outside_errors_become_errors_of_the_library() {
    assert!(matches!(
        Error::from(WsError::ConnectionClosed),
        Error::WebsocketError(WsError::ConnectionClosed)
    ));
    let json = serde_json::from_str::<serde_json::Value>("not json").unwrap_err();
    assert!(matches!(Error::from(json), Error::SerializationError(_)));
}
