//! What holds of a session as a whole, whatever the order in which things happen.
use eventual::Complete;
use vstd::prelude::*;
use vstd::utf8::{decode_utf8, valid_utf8};
use websocket::WebSocketError;

use crate::client::{
    dict_or_empty, goodbye, list_or_empty, refused_shutdown, ClientView, ConnectionState, Reaction,
    ReactionView, SessionView,
};
use crate::connection::{
    chosen_protocol, Handshake, RecvAction, RecvActionView, RecvEvent, RecvNext, RecvPhase,
    WelcomeStep, EXPECTED_WELCOME,
};
use crate::error::{Error, ErrorKind};
use crate::messages::{Dict, ErrorDetails, List, Message, Reason, ID, URI};
use crate::transport::{framed, Frame, Opcode, WebSocketMessage, WAMP_JSON, WAMP_MSGPACK};

verus! {

/// Whatever can happen to a client in a session.
pub enum Operation<C, F, V> {
    /// `Client::subscribe_with`.
    Subscribe(Complete<ID, Error>),
    /// `PendingSubscription::confirm`.
    ConfirmSubscription(ID, C),
    /// `Client::unsubscribe`.
    Unsubscribe,
    /// `PendingUnsubscription::register`.
    RegisterUnsubscription(ID, Complete<(), Error>),
    /// `PendingUnsubscription::confirm`.
    ConfirmUnsubscription(ID),
    /// `Client::on_published`.
    OnPublished(F),
    /// `Client::publish`.
    Publish(URI),
    /// `Client::shutdown_with`.
    Shutdown(Complete<(), Error>),
    /// `Connection::recv_step`.
    Receive(RecvPhase, RecvEvent<V>),
}

impl<C, F, V> Operation<C, F, V> {
    /// Whether the operation can happen now.
    pub open spec fn possible(self, client: ClientView<C, F>) -> bool {
        match self {
            Operation::Subscribe(_) => client.can_request(),
            Operation::Unsubscribe => client.can_request(),
            Operation::Publish(_) => client.can_request(),
            Operation::RegisterUnsubscription(request_id, _) => 1 <= request_id
                <= client.max_session_id && client.session.unused(request_id),
            Operation::Receive(phase, event) => phase.accepts(event),
            _ => true,
        }
    }

    /// The client afterwards.
    pub open spec fn apply(self, client: ClientView<C, F>) -> ClientView<C, F> {
        match self {
            Operation::Subscribe(promise) => client.subscribing(promise),
            Operation::ConfirmSubscription(subscription_id, callback) => ClientView {
                session: SessionView {
                    subscriptions: client.session.subscriptions.insert(subscription_id, callback),
                    ..client.session
                },
                ..client
            },
            Operation::Unsubscribe => client.requesting(),
            Operation::RegisterUnsubscription(request_id, promise) => ClientView {
                session: client.session.awaiting_unsubscription(request_id, promise),
                ..client
            },
            Operation::ConfirmUnsubscription(subscription_id) => ClientView {
                session: SessionView {
                    subscriptions: client.session.subscriptions.remove(subscription_id),
                    ..client.session
                },
                ..client
            },
            Operation::OnPublished(callback) => ClientView {
                session: SessionView {
                    published_callbacks: client.session.published_callbacks.push(callback),
                    ..client.session
                },
                ..client
            },
            Operation::Publish(topic) => client.publishing(topic),
            Operation::Shutdown(promise) => if client.session.state == ConnectionState::Connected {
                client.shutting_down(promise)
            } else {
                client
            },
            Operation::Receive(phase, event) => ClientView {
                session: phase.next(client.session, event).session,
                ..client
            },
        }
    }

    /// The action that follows, if the operation is a step in reading the
    /// router's messages. Only such an action keeps a promise.
    pub open spec fn action(self, client: ClientView<C, F>) -> Option<RecvActionView<V>> {
        match self {
            Operation::Receive(phase, event) => Some(phase.next(client.session, event).action),
            _ => None,
        }
    }
}

/// Whether every operation of a history was possible when it happened.
pub open spec fn possible_history<C, F, V>(
    start: ClientView<C, F>,
    history: Seq<Operation<C, F, V>>,
) -> bool
    decreases history.len(),
{
    history.len() > 0 ==> {
        &&& possible_history(start, history.drop_last())
        &&& history.last().possible(after_history(start, history.drop_last()))
    }
}

/// The client after a history.
pub open spec fn after_history<C, F, V>(
    start: ClientView<C, F>,
    history: Seq<Operation<C, F, V>>,
) -> ClientView<C, F>
    decreases history.len(),
{
    if history.len() == 0 {
        start
    } else {
        history.last().apply(after_history(start, history.drop_last()))
    }
}

/// How far a state is from the beginning of a session.
pub open spec fn progress(state: ConnectionState) -> int {
    match state {
        ConnectionState::Connected => 0,
        ConnectionState::ShuttingDown => 1,
        ConnectionState::Disconnected => 2,
    }
}

/// Every operation keeps a client well-formed, under the subprotocol and the
/// number of its session, gives out numbers in ascending order, and moves the
/// session forward or leaves it where it is: a session that is shutting down
/// or gone does not open again.
pub proof fn law_operations_keep<C, F, V>(client: ClientView<C, F>, operation: Operation<C, F, V>)
    requires
        client.well_formed(),
        operation.possible(client),
    ensures
        operation.apply(client).well_formed(),
        operation.apply(client).session.protocol == client.session.protocol,
        operation.apply(client).id == client.id,
        operation.apply(client).max_session_id >= client.max_session_id,
        progress(operation.apply(client).session.state) >= progress(client.session.state),
{
}

/// Whatever has happened in a session, its client is well-formed, and still
/// under the subprotocol and the number with which it was opened.
pub proof fn law_every_history_is_well_formed<C, F, V>(
    protocol: Seq<char>,
    id: ID,
    history: Seq<Operation<C, F, V>>,
)
    requires
        possible_history(ClientView::<C, F>::opened(protocol, id), history),
    ensures
        after_history(ClientView::<C, F>::opened(protocol, id), history).well_formed(),
        after_history(ClientView::<C, F>::opened(protocol, id), history).session.protocol
            == protocol,
        after_history(ClientView::<C, F>::opened(protocol, id), history).id == id,
    decreases history.len(),
{
    if history.len() > 0 {
        let before = after_history(ClientView::<C, F>::opened(protocol, id), history.drop_last());
        law_every_history_is_well_formed(protocol, id, history.drop_last());
        law_operations_keep(before, history.last());
    }
}

/// The number of the next request is one that no request waits under, and
/// giving it out makes the one after it the next: no number is given out twice.
pub proof fn law_request_numbers_are_fresh<C, F>(client: ClientView<C, F>)
    requires
        client.well_formed(),
        client.can_request(),
    ensures
        client.session.unused(client.next_id()),
        client.next_id() > client.max_session_id,
        client.requesting().can_request() ==> client.requesting().next_id() == client.next_id() + 1,
{
}

/// A number that has been given out and that no request waits under stays so,
/// unless a cancellation is registered under it. So a cancellation can be
/// registered whenever its request went out, whatever has happened meanwhile.
pub proof fn law_given_numbers_stay_unused<C, F, V>(
    client: ClientView<C, F>,
    operation: Operation<C, F, V>,
    request_id: ID,
)
    requires
        client.well_formed(),
        operation.possible(client),
        1 <= request_id <= client.max_session_id,
        client.session.unused(request_id),
        !(operation matches Operation::RegisterUnsubscription(id, _) && id == request_id),
    ensures
        operation.apply(client).session.unused(request_id),
{
}

/// The router's confirmation of a subscription keeps the promise that was
/// made when it was asked for, with the number that the router gave, and
/// leaves the other requests waiting. A second confirmation asks for nothing.
pub proof fn law_subscription_is_confirmed_once<C, F, V>(
    client: ClientView<C, F>,
    promise: Complete<ID, Error>,
    subscription_id: ID,
)
    requires
        client.well_formed(),
        client.can_request(),
    ensures
        ({
            let asked = client.subscribing(promise).session;
            let confirmation = Message::<V>::Subscribed(client.next_id(), subscription_id);
            let confirmed = asked.after(confirmation);
            &&& asked.reaction(confirmation) == ReactionView::<V>::CompleteSubscription(
                promise,
                subscription_id,
            )
            &&& confirmed == client.session
            &&& confirmed.reaction(confirmation) == ReactionView::<V>::Nothing
            &&& confirmed.after(confirmation) == confirmed
        }),
{
    let asked = client.subscribing(promise).session;
    let confirmation = Message::<V>::Subscribed(client.next_id(), subscription_id);
    assert(asked.after(confirmation) =~= client.session);
    assert(client.session.after(confirmation) =~= client.session);
}

/// The router's confirmation of a cancellation keeps the promise that was
/// registered when the request went out, and leaves the other requests
/// waiting. A second confirmation asks for nothing.
pub proof fn law_unsubscription_is_confirmed_once<C, F, V>(
    session: SessionView<C, F>,
    request_id: ID,
    promise: Complete<(), Error>,
)
    requires
        session.unused(request_id),
    ensures
        ({
            let asked = session.awaiting_unsubscription(request_id, promise);
            let confirmation = Message::<V>::Unsubscribed(request_id);
            let confirmed = asked.after(confirmation);
            &&& asked.reaction(confirmation) == ReactionView::<V>::CompleteUnsubscription(promise)
            &&& confirmed == session
            &&& confirmed.reaction(confirmation) == ReactionView::<V>::Nothing
            &&& confirmed.after(confirmation) == confirmed
        }),
{
    let asked = session.awaiting_unsubscription(request_id, promise);
    let confirmation = Message::<V>::Unsubscribed(request_id);
    assert(asked.after(confirmation) =~= session);
    assert(session.after(confirmation) =~= session);
}

/// Whether an action keeps the promise of a subscription.
pub open spec fn keeps_subscription<V>(
    action: RecvActionView<V>,
    promise: Complete<ID, Error>,
) -> bool {
    action matches RecvActionView::React(reaction)
        && reaction matches ReactionView::CompleteSubscription(kept, _) && kept == promise
}

/// Whether an action keeps the promise of a cancellation.
pub open spec fn keeps_unsubscription<V>(
    action: RecvActionView<V>,
    promise: Complete<(), Error>,
) -> bool {
    action matches RecvActionView::React(reaction)
        && reaction matches ReactionView::CompleteUnsubscription(kept) && kept == promise
}

/// Whether an action keeps the promise that the session ends.
pub open spec fn keeps_shutdown<V>(
    action: RecvActionView<V>,
    promise: Complete<(), Error>,
) -> bool {
    ||| action == RecvActionView::<V>::Complete(promise)
    ||| action == RecvActionView::<V>::React(ReactionView::CompleteShutdown(promise))
}

/// No operation loses a promise: one that waits for a subscription, for a
/// cancellation or for the end of the session goes on waiting, where it did,
/// unless the operation keeps it.
pub proof fn law_promises_are_not_lost<C, F, V>(
    client: ClientView<C, F>,
    operation: Operation<C, F, V>,
    request_id: ID,
)
    requires
        client.well_formed(),
        operation.possible(client),
    ensures
        ({
            let session = client.session;
            let next = operation.apply(client).session;
            let action = operation.action(client);
            &&& session.subscription_requests.contains_key(request_id) ==> {
                ||| next.subscription_requests.contains_key(request_id)
                    && next.subscription_requests[request_id]
                    == session.subscription_requests[request_id]
                ||| action is Some && keeps_subscription(
                    action->0,
                    session.subscription_requests[request_id],
                )
            }
            &&& session.unsubscription_requests.contains_key(request_id) ==> {
                ||| next.unsubscription_requests.contains_key(request_id)
                    && next.unsubscription_requests[request_id]
                    == session.unsubscription_requests[request_id]
                ||| action is Some && keeps_unsubscription(
                    action->0,
                    session.unsubscription_requests[request_id],
                )
            }
            &&& session.shutdown_complete matches Some(promise) ==> {
                ||| next.shutdown_complete == Some(promise)
                ||| action is Some && keeps_shutdown(action->0, promise)
            }
        }),
{
}

/// Reading the router's messages keeps no promise twice: one that is kept was
/// waiting, and waits no longer. Nor does it make a promise.
pub proof fn law_promises_are_kept_once<C, F, V>(
    phase: RecvPhase,
    session: SessionView<C, F>,
    event: RecvEvent<V>,
)
    requires
        phase.accepts(event),
    ensures
        ({
            let next = phase.next(session, event);
            &&& next.action matches RecvActionView::React(
                ReactionView::CompleteSubscription(promise, subscription_id),
            ) ==> exists|request_id: ID|
                {
                    &&& #[trigger] session.subscription_requests.contains_key(request_id)
                    &&& session.subscription_requests[request_id] == promise
                    &&& next.session.subscription_requests
                        == session.subscription_requests.remove(request_id)
                }
            &&& next.action matches RecvActionView::React(
                ReactionView::CompleteUnsubscription(promise),
            ) ==> exists|request_id: ID|
                {
                    &&& #[trigger] session.unsubscription_requests.contains_key(request_id)
                    &&& session.unsubscription_requests[request_id] == promise
                    &&& next.session.unsubscription_requests
                        == session.unsubscription_requests.remove(request_id)
                }
            &&& forall|promise| #[trigger]
                keeps_shutdown(next.action, promise) ==> session.shutdown_complete == Some(promise)
                    && next.session.shutdown_complete is None
            &&& next.session.subscription_requests.submap_of(session.subscription_requests)
            &&& next.session.unsubscription_requests.submap_of(session.unsubscription_requests)
            &&& next.session.shutdown_complete is Some ==> next.session.shutdown_complete
                == session.shutdown_complete
        }),
{
}

/// The events of a subscription go to its callback from the moment it is
/// confirmed until its cancellation is, with the arguments that they carry,
/// and to no one before or after. They change nothing in the session.
pub proof fn law_events_reach_subscribers<C, F, V>(
    client: ClientView<C, F>,
    subscription_id: ID,
    callback: C,
    publication_id: ID,
    details: Dict<V>,
    args: Option<List<V>>,
    kwargs: Option<Dict<V>>,
)
    ensures
        ({
            let event = Message::Event(subscription_id, publication_id, details, args, kwargs);
            let confirmed = Operation::<C, F, V>::ConfirmSubscription(
                subscription_id,
                callback,
            ).apply(client).session;
            let cancelled = Operation::<C, F, V>::ConfirmUnsubscription(subscription_id).apply(
                client,
            ).session;
            &&& confirmed.reaction(event) == ReactionView::Deliver(
                subscription_id,
                list_or_empty(args),
                dict_or_empty(kwargs),
            )
            &&& confirmed.subscriptions[subscription_id] == callback
            &&& confirmed.after(event) == confirmed
            &&& cancelled.reaction(event) == ReactionView::<V>::Nothing
            &&& cancelled.after(event) == cancelled
            &&& !client.session.subscriptions.contains_key(subscription_id)
                ==> client.session.reaction(event) == ReactionView::<V>::Nothing
        }),
{
}

/// Who is called with the events of a subscription changes only when that
/// subscription, or its cancellation, is confirmed.
pub proof fn law_callbacks_stay<C, F, V>(
    client: ClientView<C, F>,
    operation: Operation<C, F, V>,
    subscription_id: ID,
)
    requires
        operation.possible(client),
        !(operation matches Operation::ConfirmSubscription(id, _) && id == subscription_id),
        !(operation matches Operation::ConfirmUnsubscription(id) && id == subscription_id),
    ensures
        operation.apply(client).session.subscriptions.contains_key(subscription_id)
            == client.session.subscriptions.contains_key(subscription_id),
        client.session.subscriptions.contains_key(subscription_id) ==> operation.apply(
            client,
        ).session.subscriptions[subscription_id] == client.session.subscriptions[subscription_id],
{
}

/// A publication is acknowledged to whoever asked to hear of it: if someone
/// had when it was made, its acknowledgement names its topic, each time that
/// it comes, and otherwise it asks for nothing.
pub proof fn law_publications_are_acknowledged<C, F, V>(
    client: ClientView<C, F>,
    topic: URI,
    publication_id: ID,
)
    requires
        client.well_formed(),
        client.can_request(),
    ensures
        ({
            let published = client.publishing(topic).session;
            let acknowledgement = Message::<V>::Published(client.next_id(), publication_id);
            &&& published.reaction(acknowledgement) == if client.acknowledges() {
                ReactionView::<V>::NotifyPublished(topic)
            } else {
                ReactionView::<V>::Nothing
            }
            &&& published.after(acknowledgement) == published
        }),
{
}

/// A topic whose acknowledgement was asked for is remembered, whatever happens.
pub proof fn law_published_topics_stay<C, F, V>(
    client: ClientView<C, F>,
    operation: Operation<C, F, V>,
    request_id: ID,
)
    requires
        client.well_formed(),
        operation.possible(client),
        client.session.publish_ids_to_topics.contains_key(request_id),
    ensures
        operation.apply(client).session.publish_ids_to_topics.contains_key(request_id),
        operation.apply(client).session.publish_ids_to_topics[request_id]
            == client.session.publish_ids_to_topics[request_id],
{
}

/// Messages that a router has no business sending in a session, and those that
/// name a request or a subscription that the client does not know, change
/// nothing and ask for nothing.
pub proof fn law_unknown_messages_are_passed_over<C, F, V>(
    session: SessionView<C, F>,
    message: Message<V>,
)
    requires
        match message {
            Message::Subscribed(id, _) => !session.subscription_requests.contains_key(id),
            Message::Unsubscribed(id) => !session.unsubscription_requests.contains_key(id),
            Message::Event(id, _, _, _, _) => !session.subscriptions.contains_key(id),
            Message::Published(id, _) => !session.publish_ids_to_topics.contains_key(id),
            Message::Goodbye(_, _) => session.state == ConnectionState::Disconnected,
            _ => true,
        },
    ensures
        session.after(message) == session,
        session.reaction(message) == ReactionView::<V>::Nothing,
{
    assert(session.after(message) =~= session);
}

/// The router's answer to the client's goodbye keeps the promise that was made
/// when the client said it, and after that the end of the connection has no
/// promise left to keep.
pub proof fn law_shutdown_completes_on_goodbye<C, F, V>(
    client: ClientView<C, F>,
    promise: Complete<(), Error>,
    details: ErrorDetails,
    reason: Reason,
)
    ensures
        ({
            let asked = client.shutting_down(promise).session;
            let answer = RecvEvent::<V>::Decoded(Some(Message::Goodbye(details, reason)));
            let answered = RecvPhase::Decoding.next(asked, answer);
            &&& answered.action == RecvActionView::<V>::React(
                ReactionView::CompleteShutdown(promise),
            )
            &&& answered.phase == RecvPhase::Leaving
            &&& ended::<C, F, V>(answered.session).action == RecvActionView::<V>::Finish
        }),
{
}

/// A connection that ends without the router's answer keeps the promise as well.
pub proof fn law_shutdown_completes_on_disconnect<C, F, V>(
    client: ClientView<C, F>,
    promise: Complete<(), Error>,
)
    ensures
        ended::<C, F, V>(client.shutting_down(promise).session).action == RecvActionView::<
            V,
        >::Complete(promise),
{
}

/// What is left to do once the last frame is out and the WebSocket is shut
/// down, if the connection ends here.
pub open spec fn ended<C, F, V>(session: SessionView<C, F>) -> RecvNext<C, F, V> {
    let closing = RecvPhase::Leaving.next(session, RecvEvent::<V>::Done);
    let closed = closing.phase.next(closing.session, RecvEvent::<V>::Done);
    closed.phase.next(closed.session, RecvEvent::<V>::Done)
}

/// Once reading is over, a last close goes out, then the WebSocket is shut
/// down, then the promise that the session ends is kept if it waits, and then
/// it is all over: the session is disconnected and no one waits for its end.
pub proof fn law_end_of_a_connection<C, F, V>(session: SessionView<C, F>)
    ensures
        ({
            let done = RecvEvent::<V>::Done;
            let closing = RecvPhase::Leaving.next(session, done);
            let closed = closing.phase.next(closing.session, done);
            let end = ended::<C, F, V>(session);
            &&& closing.action == RecvActionView::<V>::SendOrFail(Frame::Close)
            &&& closed.action == RecvActionView::<V>::Shutdown
            &&& end.phase == if session.shutdown_complete is Some {
                RecvPhase::Completing
            } else {
                RecvPhase::Finished
            }
            &&& end.phase == RecvPhase::Completing ==> end.phase.next(end.session, done).phase
                == RecvPhase::Finished
            &&& end.session.state == ConnectionState::Disconnected
            &&& end.session.shutdown_complete is None
        }),
{
}

/// A router that says goodbye first is answered in kind, and then the
/// connection ends.
pub proof fn law_goodbye_is_answered<C, F, V>(
    session: SessionView<C, F>,
    details: ErrorDetails,
    reason: Reason,
)
    requires
        session.state == ConnectionState::Connected,
    ensures
        ({
            let next = RecvPhase::Decoding.next(
                session,
                RecvEvent::<V>::Decoded(Some(Message::Goodbye(details, reason))),
            );
            &&& next.action == RecvActionView::<V>::React(
                ReactionView::Reply(framed(goodbye(Reason::GoodbyeAndOut), session.protocol)),
            )
            &&& next.phase == RecvPhase::Leaving
            &&& next.session == session
        }),
{
}

/// How near a phase is to the end, once reading is over.
pub open spec fn nearness(phase: RecvPhase) -> int {
    match phase {
        RecvPhase::Leaving => 1,
        RecvPhase::Closing => 2,
        RecvPhase::ShuttingDown => 3,
        RecvPhase::Completing => 4,
        RecvPhase::Finished => 5,
        _ => 0,
    }
}

/// Once reading is over nothing more is read or decoded: every answer brings
/// the end nearer.
pub proof fn law_leaving_is_final<C, F, V>(
    phase: RecvPhase,
    session: SessionView<C, F>,
    event: RecvEvent<V>,
)
    requires
        phase.accepts(event),
        nearness(phase) > 0,
    ensures
        nearness(phase.next(session, event).phase) > nearness(phase),
        !(phase.next(session, event).action is Receive),
        !(phase.next(session, event).action is DecodeJson),
        !(phase.next(session, event).action is DecodeMsgPack),
{
}

/// Reading ends only if the stream does, if it fails, if the other side closes
/// the WebSocket, or with the router's goodbye.
pub proof fn law_reading_ends_for_a_reason<C, F, V>(
    phase: RecvPhase,
    session: SessionView<C, F>,
    event: RecvEvent<V>,
)
    requires
        phase.accepts(event),
        nearness(phase) == 0,
    ensures
        nearness(phase.next(session, event).phase) > 0 <==> match event {
            RecvEvent::Incoming(Some(Ok(message))) => message.opcode == Opcode::Close,
            RecvEvent::Incoming(_) => true,
            RecvEvent::Decoded(Some(message)) => message is Goodbye,
            _ => false,
        },
{
}

/// A ping is answered with a pong that carries its payload, and changes
/// nothing in the session; a pong is passed over.
pub proof fn law_pings_are_answered<C, F, V>(session: SessionView<C, F>, payload: Vec<u8>)
    ensures
        ({
            let ping = WebSocketMessage { opcode: Opcode::Ping, payload };
            let pong = WebSocketMessage { opcode: Opcode::Pong, payload };
            let next = RecvPhase::Receiving.next(
                session,
                RecvEvent::<V>::Incoming(Some(Ok(ping))),
            );
            let resumed = next.phase.next(next.session, RecvEvent::<V>::Done);
            let passed = RecvPhase::Receiving.next(
                session,
                RecvEvent::<V>::Incoming(Some(Ok(pong))),
            );
            &&& next.action == RecvActionView::<V>::Send(Frame::Pong(payload))
            &&& resumed.action == RecvActionView::<V>::Receive
            &&& resumed.session == session
            &&& passed.action == RecvActionView::<V>::Receive
            &&& passed.session == session
        }),
{
}

/// The subprotocol that the router names decides how the messages of the whole
/// session go out: as MsgPack if it is that of MsgPack, and as JSON otherwise,
/// so also if the router names none.
pub proof fn law_subprotocol_decides_encoding<C, F, V>(
    protocols: Option<Vec<String>>,
    id: ID,
    history: Seq<Operation<C, F, V>>,
    message: Message<V>,
)
    requires
        possible_history(ClientView::<C, F>::opened(chosen_protocol(protocols), id), history),
    ensures
        ({
            let opened = ClientView::<C, F>::opened(chosen_protocol(protocols), id);
            let frame = after_history(opened, history).frame(message);
            let msgpack = protocols is Some && protocols->0@.len() > 0 && protocols->0@[0]@
                == WAMP_MSGPACK@;
            frame == if msgpack {
                Frame::Binary(message)
            } else {
                Frame::Text(message)
            }
        }),
{
    law_every_history_is_well_formed(chosen_protocol(protocols), id, history);
    reveal_strlit("wamp.2.json");
    reveal_strlit("wamp.2.msgpack");
    assert(WAMP_JSON@.len() != WAMP_MSGPACK@.len());
}

/// Whether the steps are those of a client that awaits the reply to its
/// greeting: it goes on reading as long as it waits.
pub open spec fn awaits_welcome<V>(
    incoming: Seq<Option<Result<WebSocketMessage, WebSocketError>>>,
    steps: Seq<WelcomeStep<V>>,
) -> bool {
    &&& incoming.len() == steps.len()
    &&& forall|i: int| 0 <= i < steps.len() ==> (#[trigger] steps[i]).follows(incoming[i])
    &&& forall|i: int| 0 <= i < steps.len() - 1 ==> (#[trigger] steps[i]).waits()
}

/// Whether what was read is a ping or a pong.
pub open spec fn is_heartbeat(
    incoming: Option<Result<WebSocketMessage, WebSocketError>>,
) -> bool {
    incoming matches Some(Ok(message)) && (message.opcode == Opcode::Ping || message.opcode
        == Opcode::Pong)
}

/// Only pings and pongs can precede what is taken for the reply to the
/// greeting, every ping is answered with its own payload, and nothing else is
/// sent while the reply is awaited.
pub proof fn law_reply_is_the_first_that_is_no_heartbeat<V>(
    incoming: Seq<Option<Result<WebSocketMessage, WebSocketError>>>,
    steps: Seq<WelcomeStep<V>>,
)
    requires
        awaits_welcome(incoming, steps),
    ensures
        forall|i: int| 0 <= i < steps.len() - 1 ==> is_heartbeat(#[trigger] incoming[i]),
        forall|i: int|
            0 <= i < steps.len() ==> ((#[trigger] steps[i]).waits() <==> is_heartbeat(incoming[i])),
        forall|i: int|
            0 <= i < steps.len() && (#[trigger] steps[i]) is Send ==> {
                &&& incoming[i] matches Some(Ok(message))
                &&& message.opcode == Opcode::Ping
                &&& steps[i]->Send_0 == Frame::<V>::Pong(message.payload)
            },
{
    assert forall|i: int| 0 <= i < steps.len() - 1 implies is_heartbeat(#[trigger] incoming[i]) by {
        assert(steps[i].waits() && steps[i].follows(incoming[i]));
    }
}

/// Whatever other requests wait beside it, the confirmation of a subscription
/// settles the request that it names: it asks to keep the promise that waits
/// under that number, with the subscription's number as the router gives it.
/// That request waits no longer, every other one does as before, and nothing
/// else changes. If no request waits under the number, nothing happens.
pub proof fn law_subscribed_settles_its_request<C, F, V>(
    session: SessionView<C, F>,
    request_id: ID,
    subscription_id: ID,
)
    ensures
        ({
            let message = Message::<V>::Subscribed(request_id, subscription_id);
            let waiting = session.subscription_requests;
            let after = session.after(message);
            let left = after.subscription_requests;
            &&& waiting.contains_key(request_id) ==> {
                &&& session.reaction(message) matches ReactionView::CompleteSubscription(kept, with)
                &&& kept == waiting[request_id]
                &&& with == subscription_id
            }
            &&& !waiting.contains_key(request_id) ==> session.reaction(message) is Nothing
            &&& !left.contains_key(request_id)
            &&& forall|other: ID|
                other != request_id ==> {
                    &&& #[trigger] left.contains_key(other) <==> waiting.contains_key(other)
                    &&& waiting.contains_key(other) ==> left[other] == waiting[other]
                }
            &&& after == (SessionView { subscription_requests: left, ..session })
        }),
{
}

/// Two subscriptions that wait at once get each its own confirmation, with its
/// own number, whichever comes first.
pub proof fn law_subscriptions_are_told_apart<C, F, V>(
    session: SessionView<C, F>,
    one: ID,
    one_id: ID,
    other: ID,
    other_id: ID,
)
    requires
        one != other,
        session.subscription_requests.contains_key(one),
        session.subscription_requests.contains_key(other),
    ensures
        ({
            let first = Message::<V>::Subscribed(one, one_id);
            let second = Message::<V>::Subscribed(other, other_id);
            let promises = session.subscription_requests;
            &&& session.reaction(first) == ReactionView::<V>::CompleteSubscription(
                promises[one],
                one_id,
            )
            &&& session.after(first).reaction(second) == ReactionView::<V>::CompleteSubscription(
                promises[other],
                other_id,
            )
            &&& session.after(first).after(second) == session.after(second).after(first)
        }),
{
    let first = Message::<V>::Subscribed(one, one_id);
    let second = Message::<V>::Subscribed(other, other_id);
    assert(session.after(first).after(second) =~= session.after(second).after(first));
}

/// Whatever other requests wait beside it, the confirmation of a cancellation
/// settles the request that it names: it asks to keep the promise that waits
/// under that number. That request waits no longer, every other one does as
/// before, and nothing else changes. If no request waits under the number,
/// nothing happens.
pub proof fn law_unsubscribed_settles_its_request<C, F, V>(
    session: SessionView<C, F>,
    request_id: ID,
)
    ensures
        ({
            let message = Message::<V>::Unsubscribed(request_id);
            let waiting = session.unsubscription_requests;
            let after = session.after(message);
            let left = after.unsubscription_requests;
            &&& waiting.contains_key(request_id) ==> {
                &&& session.reaction(message) matches ReactionView::CompleteUnsubscription(kept)
                &&& kept == waiting[request_id]
            }
            &&& !waiting.contains_key(request_id) ==> session.reaction(message) is Nothing
            &&& !left.contains_key(request_id)
            &&& forall|other: ID|
                other != request_id ==> {
                    &&& #[trigger] left.contains_key(other) <==> waiting.contains_key(other)
                    &&& waiting.contains_key(other) ==> left[other] == waiting[other]
                }
            &&& after == (SessionView { unsubscription_requests: left, ..session })
        }),
{
}

/// Whatever has been published beside it, the acknowledgement of a publication
/// tells of the topic that was published under the number that it names, and
/// changes nothing. If no acknowledgement was asked for under that number, it
/// tells of nothing.
pub proof fn law_published_tells_of_its_topic<C, F, V>(
    session: SessionView<C, F>,
    request_id: ID,
    publication_id: ID,
)
    ensures
        ({
            let message = Message::<V>::Published(request_id, publication_id);
            let topics = session.publish_ids_to_topics;
            &&& topics.contains_key(request_id) ==> {
                &&& session.reaction(message) matches ReactionView::NotifyPublished(topic)
                &&& topic == topics[request_id]
            }
            &&& !topics.contains_key(request_id) ==> session.reaction(message) is Nothing
            &&& session.after(message) == session
        }),
{
}

/// A publication whose acknowledgement was asked for is told of by its own
/// topic whenever that comes, whatever has happened since: also if other
/// topics have been published, and acknowledged, in between.
pub proof fn law_topic_is_told_whenever_it_is_acknowledged<C, F, V>(
    client: ClientView<C, F>,
    topic: URI,
    history: Seq<Operation<C, F, V>>,
    publication_id: ID,
)
    requires
        client.well_formed(),
        client.can_request(),
        client.session.published_callbacks.len() > 0,
        possible_history(client.publishing(topic), history),
    ensures
        ({
            let later = after_history(client.publishing(topic), history);
            let acknowledgement = Message::<V>::Published(
                (client.max_session_id + 1) as ID,
                publication_id,
            );
            &&& later.well_formed()
            &&& later.session.publish_ids_to_topics.contains_key((client.max_session_id + 1) as ID)
            &&& later.session.reaction(acknowledgement) == ReactionView::<V>::NotifyPublished(topic)
        }),
    decreases history.len(),
{
    let published = client.publishing(topic);
    let number = (client.max_session_id + 1) as ID;
    if history.len() == 0 {
        law_operations_keep(client, Operation::<C, F, V>::Publish(topic));
    } else {
        let before = after_history(published, history.drop_last());
        law_topic_is_told_whenever_it_is_acknowledged(
            client,
            topic,
            history.drop_last(),
            publication_id,
        );
        assert(before.session.publish_ids_to_topics[number] == topic) by {
            law_published_tells_of_its_topic::<C, F, V>(before.session, number, publication_id);
        }
        law_operations_keep(before, history.last());
        law_published_topics_stay(before, history.last(), number);
    }
}

/// An event of a subscription that is in place goes to that subscription, with
/// all the arguments that the message carries: the positional ones in their
/// number and order, the named ones under their names. Arguments that the
/// message leaves out are none. An event of another subscription goes to no
/// one. Neither changes anything.
pub proof fn law_events_carry_their_arguments<C, F, V>(
    session: SessionView<C, F>,
    subscription_id: ID,
    publication_id: ID,
    details: Dict<V>,
    args: Option<List<V>>,
    kwargs: Option<Dict<V>>,
)
    ensures
        ({
            let message = Message::Event(subscription_id, publication_id, details, args, kwargs);
            &&& session.subscriptions.contains_key(subscription_id) ==> {
                &&& session.reaction(message) matches ReactionView::Deliver(to, list, dict)
                &&& to == subscription_id
                &&& args is None ==> list.len() == 0
                &&& args matches Some(given) ==> {
                    &&& list.len() == given@.len()
                    &&& forall|i: int| 0 <= i < given@.len() ==> #[trigger] list[i] == given@[i]
                }
                &&& kwargs is None ==> forall|name: String| !#[trigger] dict.contains_key(name)
                &&& kwargs matches Some(given) ==> forall|name: String|
                    {
                        &&& #[trigger] dict.contains_key(name) <==> given@.contains_key(name)
                        &&& given@.contains_key(name) ==> dict[name] == given@[name]
                    }
            }
            &&& !session.subscriptions.contains_key(subscription_id)
                ==> session.reaction(message) is Nothing
            &&& session.after(message) == session
        }),
{
}

/// A goodbye of the router is answered while the session is open, with a
/// goodbye that closes it, and changes nothing then. Once the client has said
/// goodbye it keeps the promise that the session ends, if that waits, and the
/// promise waits no longer. After the connection is gone it does nothing.
pub proof fn law_goodbye_does_what_the_state_asks<C, F, V>(
    session: SessionView<C, F>,
    details: ErrorDetails,
    reason: Reason,
)
    ensures
        ({
            let message = Message::<V>::Goodbye(details, reason);
            let answer = Message::<V>::Goodbye(
                ErrorDetails { message: None },
                Reason::GoodbyeAndOut,
            );
            &&& session.state == ConnectionState::Connected ==> {
                &&& session.after(message) == session
                &&& session.reaction(message) matches ReactionView::Reply(frame)
                &&& frame == if session.protocol == "wamp.2.msgpack"@ {
                    Frame::Binary(answer)
                } else {
                    Frame::Text(answer)
                }
            }
            &&& session.state == ConnectionState::ShuttingDown ==> {
                &&& session.after(message) == (SessionView { shutdown_complete: None, ..session })
                &&& session.shutdown_complete is None ==> session.reaction(message) is Nothing
                &&& session.shutdown_complete matches Some(promise) ==> session.reaction(message)
                    == ReactionView::<V>::CompleteShutdown(promise)
            }
            &&& session.state == ConnectionState::Disconnected ==> {
                &&& session.after(message) == session
                &&& session.reaction(message) is Nothing
            }
        }),
{
}

/// What the library hands out and what the laws say of it agree: each reaction
/// stands for the one of the same kind, with all that it carries.
pub proof fn law_reactions_mean_what_they_carry<V>(
    promise: Complete<ID, Error>,
    completion: Complete<(), Error>,
    id: ID,
    args: List<V>,
    kwargs: Dict<V>,
    topic: URI,
    frame: Frame<V>,
)
    ensures
        Reaction::<V>::Nothing@ == ReactionView::<V>::Nothing,
        Reaction::<V>::CompleteSubscription(promise, id)@
            == ReactionView::<V>::CompleteSubscription(promise, id),
        Reaction::<V>::CompleteUnsubscription(completion)@
            == ReactionView::<V>::CompleteUnsubscription(completion),
        Reaction::Deliver(id, args, kwargs)@ == ReactionView::Deliver(id, args@, kwargs@),
        Reaction::<V>::NotifyPublished(topic)@ == ReactionView::<V>::NotifyPublished(topic),
        Reaction::Reply(frame)@ == ReactionView::Reply(frame),
        Reaction::<V>::CompleteShutdown(completion)@ == ReactionView::<V>::CompleteShutdown(
            completion,
        ),
{
}

/// What the library hands out and what the laws say of it agree: each action
/// stands for the one of the same kind, with all that it carries.
pub proof fn law_actions_mean_what_they_carry<V>(
    text: String,
    bytes: Vec<u8>,
    frame: Frame<V>,
    reaction: Reaction<V>,
    promise: Complete<(), Error>,
)
    ensures
        RecvAction::<V>::Receive@ == RecvActionView::<V>::Receive,
        RecvAction::<V>::DecodeJson(text)@ == RecvActionView::<V>::DecodeJson(text@),
        RecvAction::<V>::DecodeMsgPack(bytes)@ == RecvActionView::<V>::DecodeMsgPack(bytes),
        RecvAction::Send(frame)@ == RecvActionView::Send(frame),
        RecvAction::SendOrFail(frame)@ == RecvActionView::SendOrFail(frame),
        RecvAction::React(reaction)@ == RecvActionView::React(reaction@),
        RecvAction::<V>::Shutdown@ == RecvActionView::<V>::Shutdown,
        RecvAction::<V>::Complete(promise)@ == RecvActionView::<V>::Complete(promise),
        RecvAction::<V>::Finish@ == RecvActionView::<V>::Finish,
{
}

/// Every message that is read and decoded is taken in at once: the session
/// becomes what the message makes of it, and what the message asks for is
/// done. Reading ends with a goodbye, and goes on after every other message.
/// What could not be decoded is passed over.
pub proof fn law_every_decoded_message_is_taken_in<C, F, V>(
    session: SessionView<C, F>,
    message: Message<V>,
)
    ensures
        ({
            let taken = RecvPhase::Decoding.next(session, RecvEvent::Decoded(Some(message)));
            let passed = RecvPhase::Decoding.next(session, RecvEvent::<V>::Decoded(None));
            &&& taken.action == RecvActionView::React(session.reaction(message))
            &&& taken.session == session.after(message)
            &&& message is Goodbye ==> taken.phase == RecvPhase::Leaving
            &&& !(message is Goodbye) ==> taken.phase == RecvPhase::Resuming
            &&& passed.action is Receive
            &&& passed.session == session
            &&& passed.phase == RecvPhase::Receiving
        }),
{
}

/// A confirmation that is read while its request waits keeps the promise of
/// that request in the step that takes it in, and an event that is read while
/// its subscription is in place goes out in that step.
pub proof fn law_confirmations_that_are_read_are_kept<C, F, V>(
    session: SessionView<C, F>,
    request_id: ID,
    subscription_id: ID,
)
    ensures
        ({
            let subscribed = RecvEvent::Decoded(
                Some(Message::<V>::Subscribed(request_id, subscription_id)),
            );
            let unsubscribed = RecvEvent::Decoded(Some(Message::<V>::Unsubscribed(request_id)));
            let on_subscribed = RecvPhase::Decoding.next(session, subscribed);
            let on_unsubscribed = RecvPhase::Decoding.next(session, unsubscribed);
            &&& session.subscription_requests.contains_key(request_id) ==> {
                &&& on_subscribed.action == RecvActionView::React(
                    ReactionView::<V>::CompleteSubscription(
                        session.subscription_requests[request_id],
                        subscription_id,
                    ),
                )
                &&& !on_subscribed.session.subscription_requests.contains_key(request_id)
            }
            &&& session.unsubscription_requests.contains_key(request_id) ==> {
                &&& on_unsubscribed.action == RecvActionView::React(
                    ReactionView::<V>::CompleteUnsubscription(
                        session.unsubscription_requests[request_id],
                    ),
                )
                &&& !on_unsubscribed.session.unsubscription_requests.contains_key(request_id)
            }
        }),
{
}

/// Every frame that is read is treated by its kind, whatever it carries: a
/// text is decoded as JSON, the bytes of a binary frame as MsgPack, a ping is
/// answered with its payload, a pong and a text that is not UTF-8 are passed
/// over, and a close ends reading, as a failure does and the end of the stream.
/// Only the end of the stream changes the session at once.
pub proof fn law_every_frame_is_treated_by_its_kind<C, F, V>(
    session: SessionView<C, F>,
    message: WebSocketMessage,
    error: WebSocketError,
)
    ensures
        ({
            let read = RecvPhase::Receiving.next(
                session,
                RecvEvent::<V>::Incoming(Some(Ok(message))),
            );
            let failed = RecvPhase::Receiving.next(
                session,
                RecvEvent::<V>::Incoming(Some(Err(error))),
            );
            let ended = RecvPhase::Receiving.next(session, RecvEvent::<V>::Incoming(None));
            &&& read.session == session
            &&& message.opcode == Opcode::Text && valid_utf8(message.payload@) ==> {
                &&& read.phase == RecvPhase::Decoding
                &&& read.action matches RecvActionView::DecodeJson(text)
                &&& text == decode_utf8(message.payload@)
            }
            &&& message.opcode == Opcode::Binary ==> {
                &&& read.phase == RecvPhase::Decoding
                &&& read.action matches RecvActionView::DecodeMsgPack(bytes)
                &&& bytes == message.payload
            }
            &&& message.opcode == Opcode::Ping ==> {
                &&& read.phase == RecvPhase::Resuming
                &&& read.action matches RecvActionView::Send(Frame::Pong(payload))
                &&& payload == message.payload
            }
            &&& message.opcode == Opcode::Pong || message.opcode == Opcode::Text && !valid_utf8(
                message.payload@,
            ) ==> {
                &&& read.phase == RecvPhase::Receiving
                &&& read.action is Receive
            }
            &&& message.opcode == Opcode::Close ==> {
                &&& read.phase == RecvPhase::Leaving
                &&& read.action == RecvActionView::<V>::Send(Frame::Close)
            }
            &&& failed.session == session
            &&& failed.phase == RecvPhase::Leaving
            &&& failed.action == RecvActionView::<V>::Send(Frame::Close)
            &&& ended.session == (SessionView { state: ConnectionState::Disconnected, ..session })
            &&& ended.phase == RecvPhase::Closing
            &&& ended.action == RecvActionView::<V>::SendOrFail(Frame::Close)
        }),
{
}

/// What follows once an action is done. After what a message asked for, or a
/// pong, the next frame is read. When reading is over the connection counts as
/// gone and the last close goes out, then the WebSocket is shut down, then the
/// promise that the session ends is kept if it waits, and then nothing is left.
pub proof fn law_what_follows_an_action<C, F, V>(session: SessionView<C, F>)
    ensures
        ({
            let done = RecvEvent::<V>::Done;
            let resumed = RecvPhase::Resuming.next(session, done);
            let left = RecvPhase::Leaving.next(session, done);
            let closed = RecvPhase::Closing.next(session, done);
            let shut = RecvPhase::ShuttingDown.next(session, done);
            let completed = RecvPhase::Completing.next(session, done);
            &&& resumed.phase == RecvPhase::Receiving
            &&& resumed.action is Receive
            &&& resumed.session == session
            &&& left.phase == RecvPhase::Closing
            &&& left.action == RecvActionView::<V>::SendOrFail(Frame::Close)
            &&& left.session == (SessionView { state: ConnectionState::Disconnected, ..session })
            &&& closed.phase == RecvPhase::ShuttingDown
            &&& closed.action is Shutdown
            &&& closed.session == session
            &&& shut.session == (SessionView { shutdown_complete: None, ..session })
            &&& session.shutdown_complete matches Some(promise) ==> {
                &&& shut.phase == RecvPhase::Completing
                &&& shut.action == RecvActionView::<V>::Complete(promise)
            }
            &&& session.shutdown_complete is None ==> {
                &&& shut.phase == RecvPhase::Finished
                &&& shut.action is Finish
            }
            &&& completed.phase == RecvPhase::Finished
            &&& completed.action is Finish
            &&& completed.session == session
        }),
{
}

/// While a frame is read only what reading gave is an answer, while a payload
/// is decoded only what decoding gave, while something is done only that it is
/// done, and at the end nothing is.
pub proof fn law_answers_fit_what_was_asked<V>(phase: RecvPhase, event: RecvEvent<V>)
    ensures
        phase == RecvPhase::Receiving ==> (phase.accepts(event) <==> event is Incoming),
        phase == RecvPhase::Decoding ==> (phase.accepts(event) <==> event is Decoded),
        phase == RecvPhase::Finished ==> !phase.accepts(event),
        phase != RecvPhase::Receiving && phase != RecvPhase::Decoding && phase
            != RecvPhase::Finished ==> (phase.accepts(event) <==> event is Done),
{
}

/// Whatever is read while the reply to the greeting is awaited: a binary frame
/// of any length is the reply in MsgPack, to be decoded from exactly its
/// payload, and a text that is UTF-8 is the reply in JSON. A ping is answered
/// with its payload and a pong passed over, and then the reply is still
/// awaited. The client gives up only at the end of the stream, on a failure to
/// read, on a close, or on a text that is not UTF-8, each with its own error.
pub proof fn law_every_frame_before_the_welcome<V>(
    step: WelcomeStep<V>,
    incoming: Option<Result<WebSocketMessage, WebSocketError>>,
)
    requires
        step.follows(incoming),
    ensures
        incoming matches Some(Ok(message)) ==> {
            &&& message.opcode == Opcode::Binary ==> {
                &&& step matches WelcomeStep::DecodeMsgPack(bytes)
                &&& bytes == message.payload
            }
            &&& message.opcode == Opcode::Text && valid_utf8(message.payload@) ==> {
                &&& step matches WelcomeStep::DecodeJson(text)
                &&& text@ == decode_utf8(message.payload@)
            }
            &&& message.opcode == Opcode::Text && !valid_utf8(message.payload@) ==> {
                &&& step matches WelcomeStep::Fail(error)
                &&& error.kind is MalformedData
            }
            &&& message.opcode == Opcode::Ping ==> {
                &&& step matches WelcomeStep::Send(Frame::Pong(payload))
                &&& payload == message.payload
            }
            &&& message.opcode == Opcode::Pong ==> step is Wait
            &&& message.opcode == Opcode::Close ==> {
                &&& step matches WelcomeStep::Fail(error)
                &&& error.kind is ConnectionLost
            }
        },
        incoming matches Some(Err(failure)) ==> {
            &&& step matches WelcomeStep::Fail(error)
            &&& error.kind == ErrorKind::WebSocketError(failure)
        },
        incoming is None ==> {
            &&& step matches WelcomeStep::Fail(error)
            &&& error.kind is ConnectionLost
        },
        step is Fail <==> match incoming {
            Some(Ok(message)) => message.opcode == Opcode::Close || message.opcode == Opcode::Text
                && !valid_utf8(message.payload@),
            _ => true,
        },
        step.waits() <==> (step is Wait || step is Send),
{
}

/// The subprotocol is the first that the router names, whatever else it names,
/// and `wamp.2.json` if it names none or says nothing of it.
pub proof fn law_the_first_name_is_the_subprotocol(names: Vec<String>)
    ensures
        names@.len() > 0 ==> chosen_protocol(Some(names)) == names@[0]@,
        names@.len() == 0 ==> chosen_protocol(Some(names)) == "wamp.2.json"@,
        chosen_protocol(None) == "wamp.2.json"@,
{
}

/// A handshake that asks for an address and a realm goes to that address, is
/// for that realm, and offers `wamp.2.msgpack` and then `wamp.2.json`, and
/// nothing else.
pub proof fn law_handshakes_offer_both_subprotocols(
    handshake: Handshake,
    url: Seq<char>,
    realm: URI,
)
    requires
        handshake.asks(url, realm),
    ensures
        handshake.url@ == url,
        handshake.realm == realm,
        handshake.protocols@.len() == 2,
        handshake.protocols@[0]@ == "wamp.2.msgpack"@,
        handshake.protocols@[1]@ == "wamp.2.json"@,
{
}

/// Every message goes out whole: in a binary frame under `wamp.2.msgpack`, and
/// in a text frame under every other subprotocol.
pub proof fn law_messages_go_out_whole<C, F, V>(client: ClientView<C, F>, message: Message<V>)
    ensures
        ({
            let frame = framed(message, client.session.protocol);
            &&& client.session.protocol == "wamp.2.msgpack"@ ==> {
                &&& frame matches Frame::Binary(sent)
                &&& sent == message
            }
            &&& client.session.protocol != "wamp.2.msgpack"@ ==> {
                &&& frame matches Frame::Text(sent)
                &&& sent == message
            }
            &&& client.frame(message) == frame
        }),
{
}

/// A session begins connected, under the subprotocol that was agreed on, with
/// the number that the router gave, with no request made, nothing subscribed
/// to, no one to hear of publications and no promise to keep.
pub proof fn law_sessions_begin_empty<C, F>(protocol: Seq<char>, id: ID)
    ensures
        ({
            let client = ClientView::<C, F>::opened(protocol, id);
            let session = client.session;
            &&& client.id == id
            &&& client.max_session_id == 0
            &&& session == SessionView::<C, F>::opened(protocol)
            &&& session.state == ConnectionState::Connected
            &&& session.protocol == protocol
            &&& forall|k: ID| !#[trigger] session.subscription_requests.contains_key(k)
            &&& forall|k: ID| !#[trigger] session.unsubscription_requests.contains_key(k)
            &&& forall|k: ID| !#[trigger] session.subscriptions.contains_key(k)
            &&& forall|k: ID| !#[trigger] session.publish_ids_to_topics.contains_key(k)
            &&& session.published_callbacks.len() == 0
            &&& session.shutdown_complete is None
            &&& client.well_formed()
        }),
{
}

/// Requests are numbered from one on, each by one more than the one before,
/// until the numbers run out. Giving out a number changes nothing else.
pub proof fn law_requests_are_numbered_in_turn<C, F>(client: ClientView<C, F>)
    ensures
        client.can_request() <==> client.max_session_id < u64::MAX,
        client.can_request() ==> client.next_id() == client.max_session_id + 1,
        client.requesting().max_session_id == client.next_id(),
        client.requesting().session == client.session,
        client.requesting().id == client.id,
{
}

/// To ask for a subscription is to take the next number and to wait under it
/// with the promise that was made. The requests that wait already go on
/// waiting, and nothing else changes.
pub proof fn law_subscribing_waits_under_the_next_number<C, F>(
    client: ClientView<C, F>,
    promise: Complete<ID, Error>,
)
    requires
        client.can_request(),
    ensures
        ({
            let after = client.subscribing(promise);
            let number = (client.max_session_id + 1) as ID;
            let waiting = after.session.subscription_requests;
            &&& waiting.contains_key(number)
            &&& waiting[number] == promise
            &&& forall|other: ID|
                other != number ==> {
                    &&& #[trigger] waiting.contains_key(other)
                        <==> client.session.subscription_requests.contains_key(other)
                    &&& waiting[other] == client.session.subscription_requests[other]
                }
            &&& after.session == (SessionView { subscription_requests: waiting, ..client.session })
            &&& after.max_session_id == number
            &&& after.id == client.id
        }),
{
}

/// To wait for a cancellation is to wait under the number of its request with
/// the promise that was made. The requests that wait already go on waiting,
/// and nothing else changes.
pub proof fn law_unsubscribing_waits_under_its_number<C, F>(
    session: SessionView<C, F>,
    request_id: ID,
    promise: Complete<(), Error>,
)
    ensures
        ({
            let after = session.awaiting_unsubscription(request_id, promise);
            let waiting = after.unsubscription_requests;
            &&& waiting.contains_key(request_id)
            &&& waiting[request_id] == promise
            &&& forall|other: ID|
                other != request_id ==> {
                    &&& #[trigger] waiting.contains_key(other)
                        <==> session.unsubscription_requests.contains_key(other)
                    &&& waiting[other] == session.unsubscription_requests[other]
                }
            &&& after == (SessionView { unsubscription_requests: waiting, ..session })
        }),
{
}

/// To publish is to take the next number. If someone wants to hear of
/// publications, and only then, the router is asked to acknowledge and the
/// topic is remembered under that number, beside those that are remembered
/// already. Nothing else changes.
pub proof fn law_publishing_remembers_its_topic<C, F>(client: ClientView<C, F>, topic: URI)
    requires
        client.can_request(),
    ensures
        ({
            let after = client.publishing(topic);
            let number = (client.max_session_id + 1) as ID;
            let topics = after.session.publish_ids_to_topics;
            &&& client.acknowledges() <==> client.session.published_callbacks.len() > 0
            &&& client.session.published_callbacks.len() > 0 ==> {
                &&& topics.contains_key(number)
                &&& topics[number] == topic
            }
            &&& client.session.published_callbacks.len() == 0 ==> topics
                == client.session.publish_ids_to_topics
            &&& forall|other: ID|
                other != number ==> {
                    &&& #[trigger] topics.contains_key(other)
                        <==> client.session.publish_ids_to_topics.contains_key(other)
                    &&& topics[other] == client.session.publish_ids_to_topics[other]
                }
            &&& after.session == (SessionView { publish_ids_to_topics: topics, ..client.session })
            &&& after.max_session_id == number
            &&& after.id == client.id
        }),
{
}

/// To shut down is to stop counting as connected and to wait for the end with
/// the promise that was made. Nothing else changes, and no number is taken.
pub proof fn law_shutting_down_waits_for_the_end<C, F>(
    client: ClientView<C, F>,
    promise: Complete<(), Error>,
)
    ensures
        ({
            let after = client.shutting_down(promise);
            &&& after.session.state == ConnectionState::ShuttingDown
            &&& after.session.shutdown_complete == Some(promise)
            &&& after.session.subscription_requests == client.session.subscription_requests
            &&& after.session.unsubscription_requests == client.session.unsubscription_requests
            &&& after.session.subscriptions == client.session.subscriptions
            &&& after.session.publish_ids_to_topics == client.session.publish_ids_to_topics
            &&& after.session.protocol == client.session.protocol
            &&& after.session.published_callbacks == client.session.published_callbacks
            &&& after.max_session_id == client.max_session_id
            &&& after.id == client.id
        }),
{
}

/// What the client says: its goodbyes give the reason that they are for and no
/// more, a second shutdown is refused in these words, and a reply that is
/// neither a welcome nor an abort is turned down in these.
pub proof fn law_words_of_the_client<V>(reason: Reason, error: Error)
    ensures
        goodbye::<V>(reason) matches Message::Goodbye(details, given) && details.message is None
            && given == reason,
        refused_shutdown(error) <==> (error.kind matches ErrorKind::InvalidState(text) && text@
            == "Tried to shut down a client that was already shutting down"@),
        EXPECTED_WELCOME@ == "Expected Welcome Message"@,
{
}

/// In a session that is well-formed every request that waits has a number that
/// has been given out, no number stands for two of them, acknowledgements were
/// asked for only if someone wanted to hear of them, and no one waits for the
/// end of a session that is open. A number is unused if nothing waits under it.
pub proof fn law_well_formed_sessions<C, F>(client: ClientView<C, F>, request_id: ID)
    ensures
        client.session.unused(request_id) <==> !client.session.subscription_requests.contains_key(
            request_id,
        ) && !client.session.unsubscription_requests.contains_key(request_id)
            && !client.session.publish_ids_to_topics.contains_key(request_id),
        client.well_formed() ==> {
            &&& request_id == 0 || request_id > client.max_session_id ==> client.session.unused(
                request_id,
            )
            &&& !(client.session.subscription_requests.contains_key(request_id)
                && client.session.unsubscription_requests.contains_key(request_id))
            &&& !(client.session.subscription_requests.contains_key(request_id)
                && client.session.publish_ids_to_topics.contains_key(request_id))
            &&& !(client.session.unsubscription_requests.contains_key(request_id)
                && client.session.publish_ids_to_topics.contains_key(request_id))
            &&& client.session.publish_ids_to_topics.contains_key(request_id)
                ==> client.session.published_callbacks.len() > 0
            &&& client.session.state == ConnectionState::Connected
                ==> client.session.shutdown_complete is None
        },
{
}

} // verus!
