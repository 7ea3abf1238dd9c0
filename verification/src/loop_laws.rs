//! What holds of every run of the socket loop.
use vstd::prelude::*;

use crate::error::Error;
use crate::handle::{poll_received, received, slot_after, Polled};
use crate::message::{Message, MessageView};
use crate::socket_loop::{
    keepalive_frame, pong_payload, sink_result, Capacity, LoopAction, LoopEvent, LoopView, Phase,
    ResponseSender, TxChannelPayload,
};

verus! {

/// Where a loop gets to and what it does, one action for each event, or nothing where it does
/// not wait for one of the events.
pub open spec fn run(start: LoopView, events: Seq<LoopEvent<MessageView>>) -> Option<
    (LoopView, Seq<LoopAction<MessageView>>),
>
    decreases events.len(),
{
    if events.len() == 0 {
        Some((start, Seq::empty()))
    } else {
        match run(start, events.drop_last()) {
            Some((state, actions)) => match state.next(events.last()) {
                Some((state, action)) => Some((state, actions.push(action))),
                None => None,
            },
            None => None,
        }
    }
}

/// The data frames that the peer sent, in order.
pub open spec fn data_in(events: Seq<LoopEvent<MessageView>>) -> Seq<MessageView>
    decreases events.len(),
{
    if events.len() == 0 {
        Seq::empty()
    } else {
        let before = data_in(events.drop_last());
        match events.last() {
            LoopEvent::Incoming(Some(Ok(frame))) => if frame is Text || frame is Binary {
                before.push(frame)
            } else {
                before
            },
            _ => before,
        }
    }
}

/// The frames that were handed to the receive channel, in order.
pub open spec fn delivered(actions: Seq<LoopAction<MessageView>>) -> Seq<MessageView>
    decreases actions.len(),
{
    if actions.len() == 0 {
        Seq::empty()
    } else {
        let before = delivered(actions.drop_last());
        match actions.last() {
            LoopAction::Deliver(frame) => before.push(frame),
            _ => before,
        }
    }
}

/// The frame that a loop holds, as a sequence of at most one.
pub open spec fn held_frames(state: LoopView) -> Seq<MessageView> {
    match state.held() {
        Some(frame) => seq![frame],
        None => Seq::empty(),
    }
}

/// Where the results of the confirmed sends are to be reported, in the order of the sends.
pub open spec fn awaiting(events: Seq<LoopEvent<MessageView>>) -> Seq<ResponseSender>
    decreases events.len(),
{
    if events.len() == 0 {
        Seq::empty()
    } else {
        let before = awaiting(events.drop_last());
        match events.last() {
            LoopEvent::Outgoing(
                Some(TxChannelPayload { message: _, response_tx: Some(response_tx) }),
            ) => before.push(response_tx),
            _ => before,
        }
    }
}

/// Where results of sends were reported, in order.
pub open spec fn answered(actions: Seq<LoopAction<MessageView>>) -> Seq<ResponseSender>
    decreases actions.len(),
{
    if actions.len() == 0 {
        Seq::empty()
    } else {
        let before = answered(actions.drop_last());
        match actions.last() {
            LoopAction::Answer(response_tx, _) => before.push(response_tx),
            _ => before,
        }
    }
}

/// The confirmed send that a loop has not reported on yet, as a sequence of at most one.
pub open spec fn unanswered(state: LoopView) -> Seq<ResponseSender> {
    match state.phase {
        Phase::Sending { response_tx: Some(response_tx), .. } => seq![response_tx],
        _ => Seq::empty(),
    }
}

/// What a run did before its last event.
proof fn lemma_last_step(
    start: LoopView,
    events: Seq<LoopEvent<MessageView>>,
    state: LoopView,
    actions: Seq<LoopAction<MessageView>>,
) -> (before: (LoopView, Seq<LoopAction<MessageView>>))
    requires
        events.len() > 0,
        run(start, events) == Some((state, actions)),
    ensures
        run(start, events.drop_last()) == Some(before),
        before.0.next(events.last()) == Some((state, actions.last())),
        actions.len() > 0,
        actions.drop_last() == before.1,
        actions == before.1.push(actions.last()),
{
    let before = run(start, events.drop_last())->0;
    assert(actions.drop_last() =~= before.1);
    before
}

/// Zero loss, in order: as long as a loop runs, what the peer sent as data is what the consumer
/// was handed, followed by the one frame that the loop holds, if it holds one. When it has ended
/// gracefully, the consumer was handed all of it; when it has ended otherwise, all of it but
/// perhaps the last frame.
pub proof fn delivers_in_order(
    start: LoopView,
    events: Seq<LoopEvent<MessageView>>,
    state: LoopView,
    actions: Seq<LoopAction<MessageView>>,
)
    requires
        start.phase is Idle,
        run(start, events) == Some((state, actions)),
    ensures
        state.phase !is Done ==> data_in(events) == delivered(actions) + held_frames(state),
        state.phase is Done ==> {
            ||| data_in(events) == delivered(actions)
            ||| exists|lost: MessageView| data_in(events) == #[trigger] delivered(actions).push(lost)
        },
        actions.len() > 0 && actions.last() == LoopAction::<MessageView>::Finish(None)
            ==> data_in(events) == delivered(actions),
    decreases events.len(),
{
    if events.len() > 0 {
        let before = lemma_last_step(start, events, state, actions);
        delivers_in_order(start, events.drop_last(), before.0, before.1);
        let held = held_frames(before.0);
        if state.phase is Done {
            if held.len() == 0 {
                assert(data_in(events) =~= delivered(actions));
            } else {
                assert(data_in(events) =~= delivered(actions).push(held[0]));
            }
        } else {
            assert(data_in(events) =~= delivered(actions) + held_frames(state));
        }
    } else {
        assert(data_in(events) =~= delivered(actions) + held_frames(state));
    }
}

/// Only text and binary messages reach the consumer.
pub proof fn delivers_only_data(
    start: LoopView,
    events: Seq<LoopEvent<MessageView>>,
    state: LoopView,
    actions: Seq<LoopAction<MessageView>>,
)
    requires
        start.phase is Idle,
        run(start, events) == Some((state, actions)),
    ensures
        forall|i: int|
            0 <= i < delivered(actions).len() ==> (#[trigger] delivered(actions)[i]).is_data() && (
            delivered(actions)[i] is Text || delivered(actions)[i] is Binary),
        state.held() matches Some(frame) ==> frame.is_data(),
    decreases events.len(),
{
    if events.len() > 0 {
        let before = lemma_last_step(start, events, state, actions);
        delivers_only_data(start, events.drop_last(), before.0, before.1);
        if let LoopAction::Deliver(frame) = actions.last() {
            assert(before.0.held() == Some(frame));
        }
        assert forall|i: int| 0 <= i < delivered(actions).len() implies #[trigger] delivered(
            actions,
        )[i].is_data() by {
            let earlier = delivered(before.1);
            if i < earlier.len() {
                assert(earlier[i].is_data());
            }
        }
    }
}

/// Every confirmed send that the loop took is reported on, once and in the order of the sends. At
/// any time at most one report is outstanding, and none is when the loop has ended.
pub proof fn answers_every_confirmed_send(
    start: LoopView,
    events: Seq<LoopEvent<MessageView>>,
    state: LoopView,
    actions: Seq<LoopAction<MessageView>>,
)
    requires
        start.phase is Idle,
        run(start, events) == Some((state, actions)),
    ensures
        awaiting(events) == answered(actions) + unanswered(state),
        state.phase is Done ==> awaiting(events) == answered(actions),
    decreases events.len(),
{
    if events.len() > 0 {
        let before = lemma_last_step(start, events, state, actions);
        answers_every_confirmed_send(start, events.drop_last(), before.0, before.1);
    }
    assert(awaiting(events) =~= answered(actions) + unanswered(state));
    if state.phase is Done {
        assert(awaiting(events) =~= answered(actions));
    }
}

/// What confirmed sends came to, in order: where each is to be reported, and the result of the
/// sink that the send itself led to.
pub open spec fn settled(events: Seq<LoopEvent<MessageView>>) -> Seq<
    (ResponseSender, Result<(), Error>),
>
    decreases events.len(),
{
    if events.len() < 2 {
        Seq::empty()
    } else {
        let before = settled(events.drop_last());
        match (events[events.len() - 2], events.last()) {
            (
                LoopEvent::Outgoing(
                    Some(TxChannelPayload { message: _, response_tx: Some(response_tx) }),
                ),
                LoopEvent::FrameSent(result),
            ) => before.push((response_tx, sink_result(result))),
            _ => before,
        }
    }
}

/// What was reported, in order, and where.
pub open spec fn reports(actions: Seq<LoopAction<MessageView>>) -> Seq<
    (ResponseSender, Result<(), Error>),
>
    decreases actions.len(),
{
    if actions.len() == 0 {
        Seq::empty()
    } else {
        let before = reports(actions.drop_last());
        match actions.last() {
            LoopAction::Answer(response_tx, result) => before.push((response_tx, result)),
            _ => before,
        }
    }
}

/// What a confirmed send is told is what the sink answered to that very message.
pub proof fn answers_with_the_result_of_the_send(
    start: LoopView,
    events: Seq<LoopEvent<MessageView>>,
    state: LoopView,
    actions: Seq<LoopAction<MessageView>>,
)
    requires
        start.phase is Idle,
        run(start, events) == Some((state, actions)),
    ensures
        reports(actions) == settled(events),
        state.phase matches Phase::Sending { response_tx, .. } ==> events.len() > 0
            && (events.last() matches LoopEvent::Outgoing(Some(payload)) && payload.response_tx
            == response_tx),
        events.len() > 0 && events.last() is Outgoing ==> state.phase is Sending
            || state.phase is Done,
    decreases events.len(),
{
    if events.len() > 0 {
        let earlier = events.drop_last();
        let before = lemma_last_step(start, events, state, actions);
        answers_with_the_result_of_the_send(start, earlier, before.0, before.1);
        if earlier.len() > 0 {
            assert(earlier.last() == events[events.len() - 2]);
        }
    }
}

/// An outgoing message goes to the sink at once, whether or not a frame is held, and the next
/// thing that the loop waits for is what became of it. A confirmed send is then told just that.
pub proof fn sends_outgoing_messages(
    state: LoopView,
    payload: TxChannelPayload<MessageView>,
    result: Result<(), tokio_tungstenite::tungstenite::Error>,
)
    requires
        state.phase is Idle || state.phase is Holding,
    ensures
        ({
            let sending = state.next(LoopEvent::Outgoing(Some(payload)));
            &&& sending is Some
            &&& (sending->0).1 == LoopAction::Send(payload.message)
            &&& (sending->0).0.next(LoopEvent::FrameSent(result)) matches Some((_, action))
            &&& payload.response_tx matches Some(response_tx) ==> action == LoopAction::<
                MessageView,
            >::Answer(response_tx, sink_result(result))
        }),
{
}

/// What the sink gets is what the handle sent, a pong, or a keepalive; keepalives only if they
/// are enabled.
pub proof fn sends_nothing_else(state: LoopView, event: LoopEvent<MessageView>)
    requires
        state.next(event) is Some,
    ensures
        (state.next(event)->0).1 matches LoopAction::Send(message) ==> {
            ||| event matches LoopEvent::Outgoing(Some(payload)) && message == payload.message
            ||| event matches LoopEvent::Incoming(Some(Ok(MessageView::Ping(_)))) && message
                == MessageView::Pong(pong_payload())
            ||| event is KeepaliveDue && state.keepalive_interval is Some && message
                == keepalive_frame(state.keepalive_message)
        },
{
}

/// A ping is answered with a pong, and the loop goes on.
pub proof fn answers_pings(state: LoopView, payload: Seq<u8>)
    requires
        state.phase is Idle,
    ensures
        ({
            let ponging = state.next(LoopEvent::Incoming(Some(Ok(MessageView::Ping(payload)))));
            &&& ponging is Some
            &&& (ponging->0).1 == LoopAction::Send(MessageView::Pong(pong_payload()))
            &&& (ponging->0).0.next(LoopEvent::FrameSent(Ok(()))) == Some(state.waits(None))
        }),
{
}

/// While a frame is held, no other frame is read: the loop does not ask for incoming messages
/// and does not take them. When it waits, it waits for room, for outgoing messages and for the
/// keepalive time that it was started with.
pub proof fn holds_back_reading(
    start: LoopView,
    events: Seq<LoopEvent<MessageView>>,
    state: LoopView,
    actions: Seq<LoopAction<MessageView>>,
)
    requires
        start.phase is Idle,
        run(start, events) == Some((state, actions)),
        state.held() is Some,
    ensures
        actions.len() > 0,
        !(actions.last() matches LoopAction::Wait { incoming, .. } && incoming),
        forall|message: Option<Result<MessageView, tokio_tungstenite::tungstenite::Error>>|
            #[trigger] state.next(LoopEvent::Incoming(message)) is None,
        state.phase is Holding ==> actions.last() == (LoopAction::<MessageView>::Wait {
            incoming: false,
            capacity: true,
            keepalive: start.keepalive_interval,
        }),
{
    keeps_settings(start, events, state, actions);
    if events.len() > 0 {
        let before = lemma_last_step(start, events, state, actions);
        keeps_settings(start, events.drop_last(), before.0, before.1);
    }
}

/// The keepalive settings stay those that the loop was started with.
pub proof fn keeps_settings(
    start: LoopView,
    events: Seq<LoopEvent<MessageView>>,
    state: LoopView,
    actions: Seq<LoopAction<MessageView>>,
)
    requires
        run(start, events) == Some((state, actions)),
    ensures
        state.keepalive_interval == start.keepalive_interval,
        state.keepalive_message == start.keepalive_message,
    decreases events.len(),
{
    if events.len() > 0 {
        let before = lemma_last_step(start, events, state, actions);
        keeps_settings(start, events.drop_last(), before.0, before.1);
    }
}

/// Backpressure does not starve the protocol: while a frame is held, keepalives and outgoing
/// messages go through, and the loop holds the same frame when they have.
pub proof fn stays_alive_under_backpressure(
    state: LoopView,
    frame: MessageView,
    payload: TxChannelPayload<MessageView>,
)
    requires
        state.phase == (Phase::Holding { frame }),
    ensures
        state.keepalive_interval is Some ==> {
            let keeping_alive = state.next(LoopEvent::KeepaliveDue);
            &&& keeping_alive is Some
            &&& (keeping_alive->0).1 == LoopAction::Send(keepalive_frame(state.keepalive_message))
            &&& (keeping_alive->0).0.next(LoopEvent::FrameSent(Ok(()))) == Some(
                state.waits(Some(frame)),
            )
        },
        ({
            let sending = state.next(LoopEvent::Outgoing(Some(payload)));
            let sent = (sending->0).0.next(LoopEvent::FrameSent(Ok(())));
            &&& sending is Some
            &&& sent is Some
            &&& if payload.response_tx is Some {
                (sent->0).0.next(LoopEvent::Answered(true)) == Some(state.waits(Some(frame)))
            } else {
                sent == Some(state.waits(Some(frame)))
            }
        }),
        state.waits(Some(frame)).0 == state,
{
}

/// A held frame is delivered as soon as there is room, and the loop then reads on.
pub proof fn delivers_when_room_frees(state: LoopView, frame: MessageView)
    requires
        state.phase == (Phase::Holding { frame }) || state.phase == (Phase::Offering { frame }),
    ensures
        ({
            let handing = state.next(LoopEvent::Room(Capacity::Available));
            &&& handing is Some
            &&& (handing->0).1 == LoopAction::Deliver(frame)
            &&& (handing->0).0.next(LoopEvent::Handed) == Some(state.waits(None))
        }),
{
}

/// A loop ends once: its last action, and no other, records how it ended, and after that it
/// takes no event. As long as it runs nothing is recorded.
pub proof fn ends_once(
    start: LoopView,
    events: Seq<LoopEvent<MessageView>>,
    state: LoopView,
    actions: Seq<LoopAction<MessageView>>,
)
    requires
        start.phase is Idle,
        run(start, events) == Some((state, actions)),
    ensures
        actions.len() == events.len(),
        forall|i: int|
            0 <= i < actions.len() ==> (#[trigger] actions[i] is Finish <==> state.phase is Done && i
                == actions.len() - 1),
        state.phase is Done ==> forall|event: LoopEvent<MessageView>| #[trigger]
            state.next(event) is None,
    decreases events.len(),
{
    if events.len() > 0 {
        let before = lemma_last_step(start, events, state, actions);
        ends_once(start, events.drop_last(), before.0, before.1);
    }
}

/// A loop ends without a cause just when the peer closed the connection and the sink then closed
/// too. Every other end has a cause: the error of the connection, its closure, or that the handle
/// was dropped.
pub proof fn graceful_close_has_no_cause(
    start: LoopView,
    events: Seq<LoopEvent<MessageView>>,
    state: LoopView,
    actions: Seq<LoopAction<MessageView>>,
    cause: Option<Error>,
)
    requires
        start.phase is Idle,
        run(start, events) == Some((state, actions)),
        actions.len() > 0,
        actions.last() == LoopAction::<MessageView>::Finish(cause),
    ensures
        cause is None <==> {
            &&& events.len() >= 2
            &&& events[events.len() - 2] matches LoopEvent::Incoming(
                Some(Ok(MessageView::Close(_))),
            )
            &&& events.last() matches LoopEvent::SinkClosed(Ok(()))
        },
        cause matches Some(e) ==> {
            ||| e is WebsocketError
            ||| e is WebsocketClosed
            ||| e is SocketeerDroppedWithoutClosing
        },
{
    ends_once(start, events, state, actions);
    let before = lemma_last_step(start, events, state, actions);
    if before.0.phase is Closing {
        let earlier = lemma_last_step(start, events.drop_last(), before.0, before.1);
        assert(events.drop_last().last() == events[events.len() - 2]);
    }
}

/// The slot for the cause of a loop's end, empty at first, after what the loop did.
pub open spec fn slot_of(actions: Seq<LoopAction<MessageView>>) -> Option<Error>
    decreases actions.len(),
{
    if actions.len() == 0 {
        None
    } else {
        slot_after(slot_of(actions.drop_last()), actions.last())
    }
}

/// As long as nothing is recorded the slot stays empty.
proof fn lemma_slot_stays_empty(actions: Seq<LoopAction<MessageView>>)
    requires
        forall|i: int| 0 <= i < actions.len() ==> #[trigger] actions[i] !is Finish,
    ensures
        slot_of(actions) is None,
    decreases actions.len(),
{
    if actions.len() > 0 {
        assert forall|i: int| 0 <= i < actions.drop_last().len() implies #[trigger]
            actions.drop_last()[i] !is Finish by {
            assert(actions[i] !is Finish);
        }
        lemma_slot_stays_empty(actions.drop_last());
    }
}

/// A handle that finds its channel closed learns why the loop ended: a failed connection is
/// reported with its cause, and a graceful close as a plain closure, which ends a stream without
/// an error.
pub proof fn handle_learns_the_cause(
    start: LoopView,
    events: Seq<LoopEvent<MessageView>>,
    state: LoopView,
    actions: Seq<LoopAction<MessageView>>,
    cause: Option<Error>,
)
    requires
        start.phase is Idle,
        run(start, events) == Some((state, actions)),
        actions.len() > 0,
        actions.last() == LoopAction::<MessageView>::Finish(cause),
    ensures
        slot_of(actions) == cause,
        match cause {
            Some(e) => {
                &&& received(None, slot_of(actions)).0 == Err::<Message, Error>(e)
                &&& poll_received(Polled::Ready(None), slot_of(actions)).0 == Polled::Ready(
                    Some(Err::<Message, Error>(e)),
                )
            },
            None => {
                &&& received(None, slot_of(actions)).0 == Err::<Message, Error>(
                    Error::WebsocketClosed,
                )
                &&& poll_received(Polled::Ready(None), slot_of(actions)).0
                    == Polled::<Option<Result<Message, Error>>>::Ready(None)
            },
        },
{
    ends_once(start, events, state, actions);
    assert forall|i: int| 0 <= i < actions.drop_last().len() implies #[trigger]
        actions.drop_last()[i] !is Finish by {
        assert(actions[i] !is Finish);
    }
    lemma_slot_stays_empty(actions.drop_last());
}

/// Whether an event is what may come of an action.
pub open spec fn answers(action: LoopAction<MessageView>, event: LoopEvent<MessageView>) -> bool {
    match (action, event) {
        (LoopAction::Wait { .. }, LoopEvent::Outgoing(_)) => true,
        (LoopAction::Wait { incoming, .. }, LoopEvent::Incoming(_)) => incoming,
        (LoopAction::Wait { capacity, .. }, LoopEvent::Room(room)) => capacity && room !is Full,
        (LoopAction::Wait { keepalive, .. }, LoopEvent::KeepaliveDue) => keepalive is Some,
        (LoopAction::Send(_), LoopEvent::FrameSent(_)) => true,
        (LoopAction::CloseSink, LoopEvent::SinkClosed(_)) => true,
        (LoopAction::Answer(_, _), LoopEvent::Answered(_)) => true,
        (LoopAction::AskRoom, LoopEvent::Room(_)) => true,
        (LoopAction::Deliver(_), LoopEvent::Handed) => true,
        _ => false,
    }
}

/// A loop takes whatever comes of what it asked for, and nothing else: of its first action, and of
/// every action after that. So whoever does what it asks never has an event refused.
pub proof fn takes_every_answer(
    start: LoopView,
    state: LoopView,
    event: LoopEvent<MessageView>,
    answer: LoopEvent<MessageView>,
)
    ensures
        answers(start.waits(None).1, answer) <==> start.waits(None).0.next(answer) is Some,
        state.next(event) matches Some((after, action)) ==> (answers(action, answer)
            <==> after.next(answer) is Some),
{
}

/// A run of a loop goes on as long as every event answers the action before it.
pub proof fn runs_on_answers(
    start: LoopView,
    events: Seq<LoopEvent<MessageView>>,
    state: LoopView,
    actions: Seq<LoopAction<MessageView>>,
    answer: LoopEvent<MessageView>,
)
    requires
        start.phase is Idle,
        run(start, events) == Some((state, actions)),
        answers(
            if actions.len() == 0 {
                start.waits(None).1
            } else {
                actions.last()
            },
            answer,
        ),
    ensures
        run(start, events.push(answer)) is Some,
{
    assert(events.push(answer).drop_last() =~= events);
    if events.len() > 0 {
        let before = lemma_last_step(start, events, state, actions);
        takes_every_answer(start, before.0, events.last(), answer);
    } else {
        takes_every_answer(start, start, answer, answer);
    }
}

} // verus!
