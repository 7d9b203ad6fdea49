//! What holds of the reading of a session from its beginning on, whatever the
//! user does meanwhile.
use eventual::Complete;
use vstd::prelude::*;
use vstd::utf8::valid_utf8;
use websocket::WebSocketError;

use crate::client::{ClientView, ConnectionState, ReactionView};
use crate::connection::{RecvActionView, RecvEvent, RecvPhase};
use crate::error::Error;
use crate::laws::{
    after_history, law_every_history_is_well_formed, nearness, possible_history, Operation,
};
use crate::messages::ID;
use crate::transport::{Frame, Opcode, WebSocketMessage};

verus! {

/// The phase in which reading is after a history.
pub open spec fn phase_after<C, F, V>(
    start: ClientView<C, F>,
    history: Seq<Operation<C, F, V>>,
) -> RecvPhase
    decreases history.len(),
{
    if history.len() == 0 {
        RecvPhase::Receiving
    } else {
        match history.last() {
            Operation::Receive(phase, event) => phase.next(
                after_history(start, history.drop_last()).session,
                event,
            ).phase,
            _ => phase_after(start, history.drop_last()),
        }
    }
}

/// What reading has asked to be done in a history.
pub open spec fn actions_of<C, F, V>(
    start: ClientView<C, F>,
    history: Seq<Operation<C, F, V>>,
) -> Seq<RecvActionView<V>>
    decreases history.len(),
{
    if history.len() == 0 {
        seq![]
    } else {
        let before = actions_of(start, history.drop_last());
        match history.last().action(after_history(start, history.drop_last())) {
            Some(action) => before.push(action),
            None => before,
        }
    }
}

/// Whether the history is a run: all that happens in it is possible when it
/// happens, and every step of reading takes up where the one before it ended.
pub open spec fn is_run<C, F, V>(
    start: ClientView<C, F>,
    history: Seq<Operation<C, F, V>>,
) -> bool
    decreases history.len(),
{
    history.len() > 0 ==> {
        &&& is_run(start, history.drop_last())
        &&& history.last().possible(after_history(start, history.drop_last()))
        &&& history.last() matches Operation::Receive(phase, _) ==> phase == phase_after(
            start,
            history.drop_last(),
        )
    }
}

/// A run is a possible history.
proof fn lemma_run_is_possible<C, F, V>(start: ClientView<C, F>, history: Seq<Operation<C, F, V>>)
    requires
        is_run(start, history),
    ensures
        possible_history(start, history),
    decreases history.len(),
{
    if history.len() > 0 {
        lemma_run_is_possible(start, history.drop_last());
    }
}

/// The payloads of the pings that are read in a history.
pub open spec fn pings<C, F, V>(history: Seq<Operation<C, F, V>>) -> Seq<Vec<u8>>
    decreases history.len(),
{
    if history.len() == 0 {
        seq![]
    } else {
        let before = pings(history.drop_last());
        match history.last() {
            Operation::Receive(_, RecvEvent::Incoming(Some(Ok(message)))) => if message.opcode
                == Opcode::Ping {
                before.push(message.payload)
            } else {
                before
            },
            _ => before,
        }
    }
}

/// The payloads of the pongs among the actions.
pub open spec fn pongs<V>(actions: Seq<RecvActionView<V>>) -> Seq<Vec<u8>>
    decreases actions.len(),
{
    if actions.len() == 0 {
        seq![]
    } else {
        let before = pongs(actions.drop_last());
        match actions.last() {
            RecvActionView::Send(Frame::Pong(payload)) => before.push(payload),
            _ => before,
        }
    }
}

/// The pongs that are sent in a run are those of the pings that are read in
/// it, in the same order.
pub proof fn law_pongs_are_those_of_the_pings<C, F, V>(
    start: ClientView<C, F>,
    history: Seq<Operation<C, F, V>>,
)
    requires
        is_run(start, history),
    ensures
        pongs(actions_of(start, history)) == pings(history),
    decreases history.len(),
{
    if history.len() > 0 {
        let before = actions_of(start, history.drop_last());
        law_pongs_are_those_of_the_pings(start, history.drop_last());
        match history.last().action(after_history(start, history.drop_last())) {
            Some(action) => {
                assert(before.push(action).drop_last() == before);
            },
            None => {},
        }
    }
}

/// Whether the action does something: it is more than reading and decoding.
pub open spec fn is_deed<V>(action: RecvActionView<V>) -> bool {
    !(action is Receive) && !(action is DecodeJson) && !(action is DecodeMsgPack)
}

/// What is done among the actions.
pub open spec fn deeds<V>(actions: Seq<RecvActionView<V>>) -> Seq<RecvActionView<V>> {
    actions.filter(|action: RecvActionView<V>| is_deed(action))
}

/// Whether two histories leave the same behind: the same client, in the same
/// phase, with the same done.
pub open spec fn same_outcome<C, F, V>(
    start: ClientView<C, F>,
    one: Seq<Operation<C, F, V>>,
    other: Seq<Operation<C, F, V>>,
) -> bool {
    &&& after_history(start, one) == after_history(start, other)
    &&& phase_after(start, one) == phase_after(start, other)
    &&& deeds(actions_of(start, one)) == deeds(actions_of(start, other))
    &&& is_run(start, one) <==> is_run(start, other)
}

/// What leaves the same behind does so whatever follows.
proof fn lemma_same_outcome_stays<C, F, V>(
    start: ClientView<C, F>,
    one: Seq<Operation<C, F, V>>,
    other: Seq<Operation<C, F, V>>,
    after: Seq<Operation<C, F, V>>,
)
    requires
        same_outcome(start, one, other),
    ensures
        same_outcome(start, one + after, other + after),
    decreases after.len(),
{
    if after.len() == 0 {
        assert(one + after == one);
        assert(other + after == other);
    } else {
        let ones = one + after;
        let others = other + after;
        assert(ones.drop_last() == one + after.drop_last());
        assert(others.drop_last() == other + after.drop_last());
        lemma_same_outcome_stays(start, one, other, after.drop_last());
        let action = after.last().action(after_history(start, ones.drop_last()));
        if action is Some {
            lemma_deeds_push(actions_of(start, ones.drop_last()), action->0);
            lemma_deeds_push(actions_of(start, others.drop_last()), action->0);
        }
    }
}

/// What is done grows by the last action, if that does something.
proof fn lemma_deeds_push<V>(actions: Seq<RecvActionView<V>>, action: RecvActionView<V>)
    ensures
        deeds(actions.push(action)) == if is_deed(action) {
            deeds(actions).push(action)
        } else {
            deeds(actions)
        },
{
    reveal(Seq::filter);
    assert(actions.push(action).drop_last() == actions);
}

/// The step in which a frame is read.
pub open spec fn reads<C, F, V>(
    incoming: Result<WebSocketMessage, WebSocketError>,
) -> Operation<C, F, V> {
    Operation::Receive(RecvPhase::Receiving, RecvEvent::Incoming(Some(incoming)))
}

/// The steps in which a frame is read that holds nothing for the client: a
/// pong, a text that is none, or a payload in which there is no message.
pub open spec fn passes_over<C, F, V>(message: WebSocketMessage) -> Seq<Operation<C, F, V>> {
    let read = reads(Ok(message));
    if message.opcode == Opcode::Pong || message.opcode == Opcode::Text && !valid_utf8(
        message.payload@,
    ) {
        seq![read]
    } else {
        seq![read, Operation::Receive(RecvPhase::Decoding, RecvEvent::Decoded(None))]
    }
}

/// A pong, or a frame that cannot be decoded, changes nothing wherever in a run
/// it is read: all goes on, and goes out, as it does without it.
pub proof fn law_idle_frames_change_nothing<C, F, V>(
    start: ClientView<C, F>,
    before: Seq<Operation<C, F, V>>,
    message: WebSocketMessage,
    after: Seq<Operation<C, F, V>>,
)
    requires
        phase_after(start, before) == RecvPhase::Receiving,
        message.opcode == Opcode::Pong || message.opcode == Opcode::Text || message.opcode
            == Opcode::Binary,
    ensures
        same_outcome(start, before + passes_over(message) + after, before + after),
{
    let idle = passes_over::<C, F, V>(message);
    let read = before.push(idle[0]);
    let client = after_history(start, before);
    assert(read.drop_last() == before);
    lemma_deeds_push(actions_of(start, before), idle[0].action(client)->0);
    assert(after_history(start, read) == client);
    assert(is_run(start, read) == is_run(start, before));
    if idle.len() == 1 {
        assert(before + idle == read);
    } else {
        let decoded = read.push(idle[1]);
        assert(decoded.drop_last() == read);
        assert(before + idle == decoded);
        lemma_deeds_push(actions_of(start, read), idle[1].action(client)->0);
        assert(after_history(start, decoded) == client);
        assert(is_run(start, decoded) == is_run(start, read));
    }
    lemma_same_outcome_stays(start, before + idle, before, after);
}

/// Whether a step of reading finds the connection broken: the other side has
/// closed it, or nothing can be read from it.
pub open spec fn is_break<C, F, V>(operation: Operation<C, F, V>) -> bool {
    match operation {
        Operation::Receive(_, RecvEvent::Incoming(Some(Ok(message)))) => message.opcode
            == Opcode::Close,
        Operation::Receive(_, RecvEvent::Incoming(Some(Err(_)))) => true,
        _ => false,
    }
}

/// Whether the connection breaks in a history.
pub open spec fn breaks<C, F, V>(history: Seq<Operation<C, F, V>>) -> bool {
    exists|i: int| 0 <= i < history.len() && is_break(#[trigger] history[i])
}

/// A close of the other side and a failure to read end a run alike.
pub proof fn law_breaks_are_alike<C, F, V>(
    start: ClientView<C, F>,
    before: Seq<Operation<C, F, V>>,
    message: WebSocketMessage,
    error: WebSocketError,
    after: Seq<Operation<C, F, V>>,
)
    requires
        phase_after(start, before) == RecvPhase::Receiving,
        message.opcode == Opcode::Close,
    ensures
        same_outcome(
            start,
            before.push(reads(Ok(message))) + after,
            before.push(reads(Err(error))) + after,
        ),
{
    let closed = before.push(reads(Ok(message)));
    let failed = before.push(reads(Err(error)));
    assert(closed.drop_last() == before);
    assert(failed.drop_last() == before);
    assert(actions_of(start, closed) == actions_of(start, failed));
    lemma_same_outcome_stays(start, closed, failed, after);
}

/// How many of the actions are to send a close.
pub open spec fn closes<V>(actions: Seq<RecvActionView<V>>) -> nat
    decreases actions.len(),
{
    if actions.len() == 0 {
        0
    } else {
        let before = closes(actions.drop_last());
        match actions.last() {
            RecvActionView::Send(Frame::Close) => before + 1,
            RecvActionView::SendOrFail(Frame::Close) => before + 1,
            _ => before,
        }
    }
}

/// A run that is over has sent two closes if the connection broke: one at
/// once, and the last. If the stream ended or with a goodbye it has sent the
/// last only. Until reading is over, none is sent.
pub proof fn law_closes_of_a_run<C, F, V>(
    start: ClientView<C, F>,
    history: Seq<Operation<C, F, V>>,
)
    requires
        is_run(start, history),
    ensures
        nearness(phase_after(start, history)) == 0 ==> !breaks(history) && closes(
            actions_of(start, history),
        ) == 0,
        phase_after(start, history) == RecvPhase::Leaving ==> closes(actions_of(start, history))
            == if breaks(history) {
            1nat
        } else {
            0nat
        },
        nearness(phase_after(start, history)) > 1 ==> closes(actions_of(start, history))
            == if breaks(history) {
            2nat
        } else {
            1nat
        },
    decreases history.len(),
{
    if history.len() > 0 {
        let earlier = history.drop_last();
        let before = actions_of(start, earlier);
        law_closes_of_a_run(start, earlier);
        assert(breaks(history) <==> breaks(earlier) || is_break(history.last())) by {
            if breaks(earlier) {
                let i = choose|i: int| 0 <= i < earlier.len() && is_break(#[trigger] earlier[i]);
                assert(history[i] == earlier[i]);
            }
            if breaks(history) {
                let i = choose|i: int| 0 <= i < history.len() && is_break(#[trigger] history[i]);
                if i < earlier.len() {
                    assert(earlier[i] == history[i]);
                }
            }
            assert(history[history.len() - 1] == history.last());
        }
        match history.last().action(after_history(start, earlier)) {
            Some(action) => {
                assert(before.push(action).drop_last() == before);
            },
            None => {},
        }
    }
}

/// The promises that the session ends which are made in a history: those of
/// the shutdowns that are not refused.
pub open spec fn promised<C, F, V>(
    start: ClientView<C, F>,
    history: Seq<Operation<C, F, V>>,
) -> Seq<Complete<(), Error>>
    decreases history.len(),
{
    if history.len() == 0 {
        seq![]
    } else {
        let before = promised(start, history.drop_last());
        match history.last() {
            Operation::Shutdown(promise) => if after_history(
                start,
                history.drop_last(),
            ).session.state == ConnectionState::Connected {
                before.push(promise)
            } else {
                before
            },
            _ => before,
        }
    }
}

/// The promises that the session ends which the actions keep.
pub open spec fn kept<V>(actions: Seq<RecvActionView<V>>) -> Seq<Complete<(), Error>>
    decreases actions.len(),
{
    if actions.len() == 0 {
        seq![]
    } else {
        let before = kept(actions.drop_last());
        match actions.last() {
            RecvActionView::Complete(promise) => before.push(promise),
            RecvActionView::React(ReactionView::CompleteShutdown(promise)) => before.push(promise),
            _ => before,
        }
    }
}

/// In a session the promise that it ends is made at most once. As long as it
/// waits it has not been kept, and else it has been kept exactly once. When
/// the run is over it does not wait any more.
pub proof fn law_end_is_kept_once<C, F, V>(
    protocol: Seq<char>,
    id: ID,
    history: Seq<Operation<C, F, V>>,
)
    requires
        is_run(ClientView::<C, F>::opened(protocol, id), history),
    ensures
        ({
            let start = ClientView::<C, F>::opened(protocol, id);
            let made = promised(start, history);
            let done = kept(actions_of(start, history));
            let phase = phase_after(start, history);
            let session = after_history(start, history).session;
            &&& made.len() <= 1
            &&& session.state == ConnectionState::Connected ==> made.len() == 0
            &&& session.shutdown_complete matches Some(promise) ==> made == seq![promise]
                && done.len() == 0
            &&& session.shutdown_complete is None ==> done == made
            &&& nearness(phase) > 1 ==> session.state == ConnectionState::Disconnected
            &&& nearness(phase) > 3 ==> session.shutdown_complete is None && done == made
        }),
    decreases history.len(),
{
    let start = ClientView::<C, F>::opened(protocol, id);
    if history.len() > 0 {
        let earlier = history.drop_last();
        let before = actions_of(start, earlier);
        law_end_is_kept_once(protocol, id, earlier);
        lemma_run_is_possible(start, earlier);
        law_every_history_is_well_formed(protocol, id, earlier);
        match history.last().action(after_history(start, earlier)) {
            Some(action) => {
                assert(before.push(action).drop_last() == before);
            },
            None => {},
        }
    }
}

} // verus!
