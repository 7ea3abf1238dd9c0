//! A handle's side of the channels to the socket loop.
//!
//! A handle never touches the socket. It puts messages into the channel that the loop sends
//! from, takes messages out of the channel that the loop delivers to, and finds the cause of a
//! loop's end in the slot where the loop recorded it. The functions here say what goes into the
//! channel and what to make of what came back; whoever calls them does the waiting.
use vstd::prelude::*;

use crate::error::Error;
use crate::message::{CloseFrame, Message, MessageView};
use crate::socket_loop::{LoopAction, ResponseSender, TxChannelPayload};

verus! {

/// What became of a send whose result is awaited.
#[derive(Debug)]
pub enum Confirmation {
    /// The channel was closed, so the message was not queued.
    NotQueued,
    /// The message was queued, but the loop ended without taking it.
    Unanswered,
    /// The loop reported how sending the message went.
    Answered(Result<(), Error>),
}

/// What polling comes to.
#[derive(Debug)]
pub enum Polled<T> {
    /// Nothing yet.
    Pending,
    /// A value.
    Ready(T),
}

/// The cause that a closed channel is reported with: the recorded one, or a plain closure where
/// none was recorded.
pub open spec fn cause_of(slot: Option<Error>) -> Error {
    match slot {
        Some(cause) => cause,
        None => Error::WebsocketClosed,
    }
}

/// What receiving comes to, and what it leaves in the slot.
pub open spec fn received(message: Option<Message>, slot: Option<Error>) -> (
    Result<Message, Error>,
    Option<Error>,
) {
    match message {
        Some(message) => (Ok(message), slot),
        None => (Err(cause_of(slot)), None),
    }
}

/// What polling for a message comes to, and what it leaves in the slot.
pub open spec fn poll_received(polled: Polled<Option<Message>>, slot: Option<Error>) -> (
    Polled<Option<Result<Message, Error>>>,
    Option<Error>,
) {
    match polled {
        Polled::Pending => (Polled::Pending, slot),
        Polled::Ready(Some(message)) => (Polled::Ready(Some(Ok(message))), slot),
        Polled::Ready(None) => (
            Polled::Ready(
                match slot {
                    Some(cause) => Some(Err(cause)),
                    None => None,
                },
            ),
            None,
        ),
    }
}

/// What a confirmed send comes to, and what it leaves in the slot.
pub open spec fn confirmed_with(confirmation: Confirmation, slot: Option<Error>) -> (
    Result<(), Error>,
    Option<Error>,
) {
    match confirmation {
        Confirmation::NotQueued | Confirmation::Unanswered => (Err(cause_of(slot)), None),
        Confirmation::Answered(result) => (result, slot),
    }
}

/// The close message that a handle sends.
pub open spec fn closing_message() -> MessageView {
    MessageView::Close(Some((1000, "Closing Connection"@)))
}

/// The slot after a loop did something: the cause of its end is recorded there.
pub open spec fn slot_after(slot: Option<Error>, action: LoopAction<MessageView>) -> Option<Error> {
    match action {
        LoopAction::Finish(Some(cause)) => Some(cause),
        _ => slot,
    }
}

/// Records how a loop ended. A graceful close has no cause and records nothing.
pub fn record_terminal_error(slot: &mut Option<Error>, cause: Option<Error>)
    ensures
        *final(slot) == slot_after(*old(slot), LoopAction::Finish(cause)),
{
    if cause.is_some() {
        *slot = cause;
    }
}

/// Takes the recorded cause, if there is one. It is handed out once: later callers find none.
pub fn take_terminal_error_opt(slot: &mut Option<Error>) -> (cause: Option<Error>)
    ensures
        cause == *old(slot),
        *final(slot) is None,
{
    slot.take()
}

/// Like [`take_terminal_error_opt`], with [`Error::WebsocketClosed`] where no cause was recorded.
pub fn take_terminal_error(slot: &mut Option<Error>) -> (error: Error)
    ensures
        error == cause_of(*old(slot)),
        *final(slot) is None,
{
    match take_terminal_error_opt(slot) {
        Some(cause) => cause,
        None => Error::WebsocketClosed,
    }
}

/// What to queue for a send whose result is awaited at the other end of `response_tx`.
pub fn send_confirmed(message: Message, response_tx: ResponseSender) -> (payload: TxChannelPayload<
    Message,
>)
    ensures
        payload == (TxChannelPayload { message, response_tx: Some(response_tx) }),
{
    TxChannelPayload { message, response_tx: Some(response_tx) }
}

/// The result of a send that was to be queued by [`send_confirmed`]: what the loop reported, or,
/// where it ended before it could, why it did.
pub fn confirmed(confirmation: Confirmation, slot: &mut Option<Error>) -> (result: Result<
    (),
    Error,
>)
    ensures
        (result, *final(slot)) == confirmed_with(confirmation, *old(slot)),
{
    match confirmation {
        Confirmation::NotQueued | Confirmation::Unanswered => Err(take_terminal_error(slot)),
        Confirmation::Answered(result) => result,
    }
}

/// What to queue for a send that nobody waits for.
pub fn send_unconfirmed(message: Message) -> (payload: TxChannelPayload<Message>)
    ensures
        payload == (TxChannelPayload { message, response_tx: None }),
{
    TxChannelPayload { message, response_tx: None }
}

/// The result of a send that was queued by [`send_unconfirmed`]: success as soon as it is
/// queued, or why the channel was closed.
pub fn queued(is_queued: bool, slot: &mut Option<Error>) -> (result: Result<(), Error>)
    ensures
        is_queued ==> result == Ok::<(), Error>(()) && *final(slot) == *old(slot),
        !is_queued ==> result == Err::<(), Error>(cause_of(*old(slot))) && *final(slot) is None,
{
    if is_queued {
        Ok(())
    } else {
        Err(take_terminal_error(slot))
    }
}

/// What to queue to close the connection gracefully.
pub fn send_close(response_tx: ResponseSender) -> (payload: TxChannelPayload<Message>)
    ensures
        payload@ == (TxChannelPayload {
            message: closing_message(),
            response_tx: Some(response_tx),
        }),
{
    let frame = CloseFrame { code: 1000, reason: "Closing Connection".to_owned() };
    TxChannelPayload { message: Message::Close(Some(frame)), response_tx: Some(response_tx) }
}

/// The result of a close that was queued by [`send_close`]: what the loop reported, or that the
/// connection is closed already.
pub fn close_confirmed(confirmation: Confirmation) -> (result: Result<(), Error>)
    ensures
        result == (match confirmation {
            Confirmation::NotQueued | Confirmation::Unanswered => Err(Error::WebsocketClosed),
            Confirmation::Answered(reported) => reported,
        }),
{
    match confirmation {
        Confirmation::NotQueued | Confirmation::Unanswered => Err(Error::WebsocketClosed),
        Confirmation::Answered(reported) => reported,
    }
}

/// The next message from the receive channel, or why the channel is closed.
pub fn recv_raw(message: Option<Message>, slot: &mut Option<Error>) -> (result: Result<
    Message,
    Error,
>)
    ensures
        (result, *final(slot)) == received(message, *old(slot)),
{
    match message {
        Some(message) => Ok(message),
        None => Err(take_terminal_error(slot)),
    }
}

/// What a stream of messages yields: a closed channel yields the recorded cause once, and then
/// the end of the stream.
pub fn poll_recv_raw(polled: Polled<Option<Message>>, slot: &mut Option<Error>) -> (result: Polled<
    Option<Result<Message, Error>>,
>)
    ensures
        (result, *final(slot)) == poll_received(polled, *old(slot)),
{
    match polled {
        Polled::Pending => Polled::Pending,
        Polled::Ready(Some(message)) => Polled::Ready(Some(Ok(message))),
        Polled::Ready(None) => match take_terminal_error_opt(slot) {
            Some(cause) => Polled::Ready(Some(Err(cause))),
            None => Polled::Ready(None),
        },
    }
}

/// Whether a closed channel is from now on reported as a plain closure, each time, and as the end
/// of a stream.
pub open spec fn stays_closed(slot: Option<Error>) -> bool {
    &&& received(None, slot) == (Err::<Message, Error>(Error::WebsocketClosed), slot)
    &&& poll_received(Polled::Ready(None), slot) == (
        Polled::<Option<Result<Message, Error>>>::Ready(None),
        slot,
    )
}

/// The cause of a loop's end is surfaced once. Whoever asks first is told it. After that
/// the connection is just closed.
pub proof fn surfaces_cause_once(cause: Error)
    ensures
        ({
            let (first, slot) = received(None, Some(cause));
            &&& first == Err::<Message, Error>(cause)
            &&& stays_closed(slot)
        }),
        ({
            let (first, slot) = poll_received(Polled::Ready(None), Some(cause));
            &&& first == Polled::Ready(Some(Err::<Message, Error>(cause)))
            &&& stays_closed(slot)
        }),
        ({
            let (first, slot) = confirmed_with(Confirmation::NotQueued, Some(cause));
            &&& first == Err::<(), Error>(cause)
            &&& stays_closed(slot)
        }),
        ({
            let (first, slot) = confirmed_with(Confirmation::Unanswered, Some(cause));
            &&& first == Err::<(), Error>(cause)
            &&& stays_closed(slot)
        }),
{
}

/// A confirmed send succeeds only if the loop reports that it did: without a report, whether or not
/// the message was queued, it fails.
pub proof fn sends_succeed_only_when_reported(confirmation: Confirmation, slot: Option<Error>)
    ensures
        confirmed_with(confirmation, slot).0 is Ok <==> (confirmation matches Confirmation::Answered(
            result,
        ) && result is Ok),
{
}

/// Messages that the loop delivered before it ended are received before the cause of its end.
pub proof fn receives_messages_before_the_cause(message: Message, slot: Option<Error>)
    ensures
        received(Some(message), slot) == (Ok::<Message, Error>(message), slot),
        poll_received(Polled::Ready(Some(message)), slot) == (
            Polled::Ready(Some(Ok::<Message, Error>(message))),
            slot,
        ),
{
}

} // verus!
