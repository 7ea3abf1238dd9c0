//! What a single step of the socket loop comes to, event by event.
use vstd::prelude::*;

use std::time::Duration;

use tokio_tungstenite::tungstenite::Error as WsError;

use crate::error::Error;
use crate::message::{Message, MessageView};
use crate::socket_loop::{
    handle_incoming, send_keepalive, Capacity, Incoming, LoopAction, LoopEvent, LoopState, Phase,
    SocketLoop, TxChannelPayload,
};

verus! {

/// What a step gives: the loop and its next action, or the loop and the event that it refused.
pub type StepResult = Result<(SocketLoop, LoopAction<Message>), (SocketLoop, LoopEvent<Message>)>;

/// Whether two loops have the same keepalive settings.
pub open spec fn same_settings(one: SocketLoop, other: SocketLoop) -> bool {
    &&& one@.keepalive_interval == other@.keepalive_interval
    &&& one@.keepalive_message == other@.keepalive_message
}

/// Whether a loop waits again after a step: with a frame held, for room and not for incoming
/// messages; without one, for incoming messages and not for room; and either way for the keepalive
/// interval that it has.
pub open spec fn waits_again(
    before: SocketLoop,
    held: Option<MessageView>,
    result: StepResult,
) -> bool {
    match result {
        Ok((after, action)) => {
            &&& same_settings(after, before)
            &&& match held {
                Some(frame) => after@.phase == (Phase::Holding { frame }),
                None => after@.phase is Idle,
            }
            &&& action == (LoopAction::<Message>::Wait {
                incoming: held is None,
                capacity: held is Some,
                keepalive: before@.keepalive_interval,
            })
        },
        Err(_) => false,
    }
}

/// Whether a loop ended with a step, and with what cause.
pub open spec fn ended(before: SocketLoop, cause: Option<Error>, result: StepResult) -> bool {
    match result {
        Ok((after, action)) => {
            &&& same_settings(after, before)
            &&& after@.phase is Done
            &&& action == LoopAction::<Message>::Finish(cause)
        },
        Err(_) => false,
    }
}

/// A fresh loop is idle, has the settings that it was given, and waits for everything but room.
pub proof fn start_waits(
    interval: Option<Duration>,
    message: Option<Message>,
    step: (SocketLoop, LoopAction<Message>),
)
    requires
        call_ensures(SocketLoop::start, (interval, message), step),
    ensures
        step.0@.phase is Idle,
        step.0@.keepalive_interval == interval,
        step.0@.keepalive_message is Some <==> message is Some,
        message matches Some(m) ==> step.0@.keepalive_message == Some(m@),
        step.1 == (LoopAction::<Message>::Wait {
            incoming: true,
            capacity: false,
            keepalive: interval,
        }),
{
}

/// An idle loop asks for room for every data frame, text or binary, and for no other message.
pub proof fn step_reads_data(before: SocketLoop, message: Message, result: StepResult)
    requires
        before@.phase is Idle,
        call_ensures(SocketLoop::step, (before, LoopEvent::Incoming(Some(Ok(message)))), result),
    ensures
        message is Text || message is Binary <==> (result matches Ok((_, action)) && action
            is AskRoom),
        message is Text || message is Binary ==> (result matches Ok((after, _)) && after@.phase == (
        Phase::Offering { frame: message@ }) && same_settings(after, before)),
{
}

/// A frame that room was asked for is handed over where there is room, held where the channel is
/// full, whatever its type, and given up only where the consumer is gone.
pub proof fn step_offers_frame(
    before: SocketLoop,
    frame: MessageView,
    capacity: Capacity,
    result: StepResult,
)
    requires
        before@.phase == (Phase::Offering { frame }) || before@.phase == (Phase::Holding { frame })
            && capacity !is Full,
        call_ensures(SocketLoop::step, (before, LoopEvent::Room(capacity)), result),
    ensures
        capacity is Full ==> waits_again(before, Some(frame), result),
        capacity is Available ==> (result matches Ok((after, LoopAction::Deliver(delivered)))
            && delivered@ == frame && after@.phase is Handing && same_settings(after, before)),
        capacity is Closed ==> ended(before, Some(Error::SocketeerDroppedWithoutClosing), result),
{
}

/// Every data frame of the peer reaches the consumer, unchanged: at once where there is room, and
/// as soon as there is room where the channel was full. The loop then reads on.
pub proof fn step_delivers_every_data_frame(
    idle: SocketLoop,
    frame: Message,
    asked: StepResult,
    held: StepResult,
    at_once: StepResult,
    later: StepResult,
    done: StepResult,
)
    requires
        idle@.phase is Idle,
        frame is Text || frame is Binary,
        call_ensures(SocketLoop::step, (idle, LoopEvent::Incoming(Some(Ok(frame)))), asked),
        asked matches Ok((l, _)) ==> call_ensures(
            SocketLoop::step,
            (l, LoopEvent::Room(Capacity::Full)),
            held,
        ) && call_ensures(
            SocketLoop::step,
            (l, LoopEvent::Room(Capacity::Available)),
            at_once,
        ),
        held matches Ok((l, _)) ==> call_ensures(
            SocketLoop::step,
            (l, LoopEvent::Room(Capacity::Available)),
            later,
        ),
        later matches Ok((l, _)) ==> call_ensures(
            SocketLoop::step,
            (l, LoopEvent::Handed),
            done,
        ),
    ensures
        at_once matches Ok((_, LoopAction::Deliver(delivered))) && delivered@ == frame@,
        held matches Ok((_, LoopAction::Wait { incoming, capacity, .. })) && !incoming && capacity,
        later matches Ok((_, LoopAction::Deliver(delivered))) && delivered@ == frame@,
        waits_again(idle, None, done),
{
}

/// After a frame was handed over the loop reads on.
pub proof fn step_reads_on(before: SocketLoop, result: StepResult)
    requires
        before@.phase is Handing,
        call_ensures(SocketLoop::step, (before, LoopEvent::Handed), result),
    ensures
        waits_again(before, None, result),
{
}

/// Every ping that an idle loop reads, whatever its payload, is answered with a pong that says
/// `pong`; the loop goes on when the pong is sent, and ends with the error of the sink when it is
/// not.
pub proof fn step_answers_pings(
    idle: SocketLoop,
    payload: Vec<u8>,
    answer: Result<(), WsError>,
    ponging: StepResult,
    result: StepResult,
)
    requires
        idle@.phase is Idle,
        call_ensures(
            SocketLoop::step,
            (idle, LoopEvent::Incoming(Some(Ok(Message::Ping(payload))))),
            ponging,
        ),
        ponging matches Ok((l, _)) ==> call_ensures(
            SocketLoop::step,
            (l, LoopEvent::FrameSent(answer)),
            result,
        ),
    ensures
        ponging matches Ok((_, LoopAction::Send(Message::Pong(pong)))) && pong@ == seq![
            0x70u8,
            0x6fu8,
            0x6eu8,
            0x67u8,
        ],
        answer is Ok ==> waits_again(idle, None, result),
        answer matches Err(e) ==> ended(idle, Some(Error::WebsocketError(e)), result),
{
}

/// Every close message that an idle loop reads, whatever its code and reason and with or without a
/// close frame, leads to closing the sink. When the sink has closed the loop ends without a cause,
/// and when it fails to close, with the error of the sink.
pub proof fn step_completes_close(
    idle: SocketLoop,
    message: Message,
    answer: Result<(), WsError>,
    closing: StepResult,
    result: StepResult,
)
    requires
        idle@.phase is Idle,
        message is Close,
        call_ensures(SocketLoop::step, (idle, LoopEvent::Incoming(Some(Ok(message)))), closing),
        closing matches Ok((l, _)) ==> call_ensures(
            SocketLoop::step,
            (l, LoopEvent::SinkClosed(answer)),
            result,
        ),
    ensures
        closing matches Ok((_, action)) && action is CloseSink,
        answer is Ok ==> ended(idle, None, result),
        answer matches Err(e) ==> ended(idle, Some(Error::WebsocketError(e)), result),
{
}

/// Pongs and raw frames change nothing.
pub proof fn step_skips_pongs_and_raw_frames(
    before: SocketLoop,
    message: Message,
    result: StepResult,
)
    requires
        before@.phase is Idle,
        message is Pong || message is Frame,
        call_ensures(SocketLoop::step, (before, LoopEvent::Incoming(Some(Ok(message)))), result),
    ensures
        waits_again(before, None, result),
{
}

/// A connection that fails ends the loop with its error, and one that ends without a close is
/// closed.
pub proof fn step_ends_with_the_connection(
    before: SocketLoop,
    failure: Option<WsError>,
    result: StepResult,
)
    requires
        before@.phase is Idle,
        call_ensures(
            SocketLoop::step,
            (
                before,
                LoopEvent::Incoming(
                    match failure {
                        Some(e) => Some(Err(e)),
                        None => None,
                    },
                ),
            ),
            result,
        ),
    ensures
        failure matches Some(e) ==> ended(before, Some(Error::WebsocketError(e)), result),
        failure is None ==> ended(before, Some(Error::WebsocketClosed), result),
{
}

/// Whenever keepalives are enabled and the keepalive time comes, while the loop is idle or holds a
/// frame, the loop sends the custom message if there is one, of whatever type, and an empty ping if
/// there is none. When the sink took it the loop waits again as before, and when the sink failed it
/// ends with that error.
pub proof fn step_keeps_alive(
    before: SocketLoop,
    held: Option<MessageView>,
    answer: Result<(), WsError>,
    sending: StepResult,
    result: StepResult,
)
    requires
        match held {
            Some(frame) => before@.phase == (Phase::Holding { frame }),
            None => before@.phase is Idle,
        },
        before@.keepalive_interval is Some,
        call_ensures(SocketLoop::step, (before, LoopEvent::KeepaliveDue), sending),
        sending matches Ok((l, _)) ==> call_ensures(
            SocketLoop::step,
            (l, LoopEvent::FrameSent(answer)),
            result,
        ),
    ensures
        sending matches Ok((_, LoopAction::Send(keepalive))) && match before@.keepalive_message {
            Some(custom) => keepalive@ == custom,
            None => keepalive@ == MessageView::Ping(Seq::empty()),
        },
        answer is Ok ==> waits_again(before, held, result),
        answer matches Err(e) ==> ended(before, Some(Error::WebsocketError(e)), result),
{
}

/// Whatever the handle queued goes to the sink, unchanged, while the loop is idle or holds a frame.
/// A send that somebody waits for is answered just there, with just what the sink said. When it
/// went well the loop waits again as before, and when it did not the connection is closed.
pub proof fn step_sends_what_was_queued(
    before: SocketLoop,
    held: Option<MessageView>,
    payload: TxChannelPayload<Message>,
    answer: Result<(), WsError>,
    sending: StepResult,
    sent: StepResult,
    result: StepResult,
)
    requires
        match held {
            Some(frame) => before@.phase == (Phase::Holding { frame }),
            None => before@.phase is Idle,
        },
        call_ensures(SocketLoop::step, (before, LoopEvent::Outgoing(Some(payload))), sending),
        sending matches Ok((l, _)) ==> call_ensures(
            SocketLoop::step,
            (l, LoopEvent::FrameSent(answer)),
            sent,
        ),
        payload.response_tx is Some ==> (sent matches Ok((l, _)) ==> call_ensures(
            SocketLoop::step,
            (l, LoopEvent::Answered(true)),
            result,
        )),
        payload.response_tx is None ==> result == sent,
    ensures
        sending matches Ok((_, LoopAction::Send(message))) && message@ == payload.message@,
        payload.response_tx matches Some(response_tx) ==> (sent matches Ok(
            (_, LoopAction::Answer(place, reported)),
        ) && place == response_tx && match answer {
            Ok(_) => reported is Ok,
            Err(e) => reported == Err::<(), Error>(Error::WebsocketError(e)),
        }),
        answer is Ok ==> waits_again(before, held, result),
        answer is Err ==> ended(before, Some(Error::WebsocketClosed), result),
{
}

/// An answer that nobody is left to take ends the loop, and so does a handle that is gone.
pub proof fn step_ends_without_a_handle(
    before: SocketLoop,
    answering: SocketLoop,
    gone: StepResult,
    untaken: StepResult,
)
    requires
        before@.phase is Idle || before@.phase is Holding,
        answering@.phase is Answering,
        call_ensures(SocketLoop::step, (before, LoopEvent::Outgoing(None)), gone),
        call_ensures(SocketLoop::step, (answering, LoopEvent::Answered(false)), untaken),
    ensures
        ended(before, Some(Error::SocketeerDroppedWithoutClosing), gone),
        ended(answering, Some(Error::SocketeerDroppedWithoutClosing), untaken),
{
}

/// A loop ends only on a failure of the connection or of the sink, on the end of the connection, on
/// a close of the peer, or when the handle or the consumer is gone; and each with its own cause.
pub proof fn step_ends_only_for_a_reason(
    before: SocketLoop,
    event: LoopEvent<Message>,
    after: SocketLoop,
    cause: Option<Error>,
)
    requires
        call_ensures(SocketLoop::step, (before, event), Ok((after, LoopAction::Finish(cause)))),
    ensures
        match event {
            LoopEvent::Outgoing(payload) => payload is None && cause == Some(
                Error::SocketeerDroppedWithoutClosing,
            ),
            LoopEvent::Incoming(Some(Err(e))) => cause == Some(Error::WebsocketError(e)),
            LoopEvent::Incoming(read) => read is None && cause == Some(Error::WebsocketClosed),
            LoopEvent::FrameSent(sent) => sent matches Err(e) && (cause == Some(
                Error::WebsocketError(e),
            ) || cause == Some(Error::WebsocketClosed)),
            LoopEvent::SinkClosed(Ok(_)) => before@.phase is Closing && cause is None,
            LoopEvent::SinkClosed(Err(e)) => cause == Some(Error::WebsocketError(e)),
            LoopEvent::Answered(false) => cause == Some(Error::SocketeerDroppedWithoutClosing),
            LoopEvent::Answered(true) => (before@.phase matches Phase::Answering { failed, .. }
                && failed) && cause == Some(Error::WebsocketClosed),
            LoopEvent::Room(capacity) => capacity is Closed && cause == Some(
                Error::SocketeerDroppedWithoutClosing,
            ),
            LoopEvent::KeepaliveDue | LoopEvent::Handed => false,
        },
        after@.phase is Done,
{
}

/// Whether a send failed is remembered until it is answered, and nothing else is.
pub proof fn step_remembers_failed_sends(
    before: SocketLoop,
    answer: Result<(), WsError>,
    after: SocketLoop,
    action: LoopAction<Message>,
)
    requires
        before@.phase is Sending,
        call_ensures(SocketLoop::step, (before, LoopEvent::FrameSent(answer)), Ok((after, action))),
    ensures
        after@.phase matches Phase::Answering { failed, held } ==> failed == (answer is Err)
            && before@.phase->Sending_held == held,
{
}

/// An event that a loop does not wait for is handed back, with the loop as it was.
pub proof fn step_hands_back_what_it_refuses(
    before: SocketLoop,
    event: LoopEvent<Message>,
    unchanged: SocketLoop,
    refused: LoopEvent<Message>,
)
    requires
        call_ensures(SocketLoop::step, (before, event), Err((unchanged, refused))),
    ensures
        unchanged@ == before@,
        refused@ == event@,
{
}

/// What a loop waits for it takes: no answer to what it asked for is handed back.
pub proof fn step_takes_what_it_waits_for(
    before: SocketLoop,
    event: LoopEvent<Message>,
    result: StepResult,
)
    requires
        call_ensures(SocketLoop::step, (before, event), result),
        match (before@.phase, event) {
            (Phase::Idle, LoopEvent::Outgoing(_) | LoopEvent::Incoming(_)) => true,
            (Phase::Idle | Phase::Holding { .. }, LoopEvent::KeepaliveDue) => {
                before@.keepalive_interval is Some
            },
            (
                Phase::Sending { .. } | Phase::Ponging | Phase::KeepingAlive { .. },
                LoopEvent::FrameSent(_),
            ) => true,
            (Phase::Answering { .. }, LoopEvent::Answered(_)) => true,
            (Phase::Closing, LoopEvent::SinkClosed(_)) => true,
            (Phase::Offering { .. }, LoopEvent::Room(_)) => true,
            (Phase::Handing, LoopEvent::Handed) => true,
            (Phase::Holding { .. }, LoopEvent::Outgoing(_)) => true,
            (Phase::Holding { .. }, LoopEvent::Room(capacity)) => capacity !is Full,
            _ => false,
        },
    ensures
        result is Ok,
{
}

/// A step never changes the keepalive settings.
pub proof fn step_keeps_settings(
    before: SocketLoop,
    event: LoopEvent<Message>,
    after: SocketLoop,
    action: LoopAction<Message>,
)
    requires
        call_ensures(SocketLoop::step, (before, event), Ok((after, action))),
    ensures
        same_settings(after, before),
{
}

/// Incoming messages are sorted by their type alone.
pub proof fn incoming_messages_are_sorted_by_type(
    read: Option<Result<Message, WsError>>,
    incoming: Incoming,
)
    requires
        call_ensures(handle_incoming, (read,), incoming),
    ensures
        match read {
            Some(Ok(Message::Text(text))) => incoming matches Incoming::Data(frame) && frame@
                == MessageView::Text(text@),
            Some(Ok(Message::Binary(bytes))) => incoming matches Incoming::Data(frame) && frame@
                == MessageView::Binary(bytes@),
            Some(Ok(Message::Ping(_))) => incoming matches Incoming::Pong(Message::Pong(pong))
                && pong@ == seq![0x70u8, 0x6fu8, 0x6eu8, 0x67u8],
            Some(Ok(Message::Close(_))) => incoming is CloseSink,
            Some(Ok(Message::Pong(_) | Message::Frame(_))) => incoming == Incoming::State(
                LoopState::Running,
            ),
            Some(Err(e)) => incoming == Incoming::State(
                LoopState::Error(Error::WebsocketError(e)),
            ),
            None => incoming == Incoming::State(LoopState::Error(Error::WebsocketClosed)),
        },
{
}

/// The keepalive is the custom message, of whatever type, or else an empty ping.
pub proof fn keepalive_is_the_custom_message(custom: Option<&Message>, message: Message)
    requires
        call_ensures(send_keepalive, (custom,), message),
    ensures
        match custom {
            Some(custom) => message@ == custom@,
            None => message@ == MessageView::Ping(Seq::empty()),
        },
{
}

} // verus!
