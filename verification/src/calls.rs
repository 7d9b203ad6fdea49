//! What the calls of the library give, each in terms of what it is given, and
//! what follows from several of them in a row.
use eventual::{Complete, Future};
use vstd::prelude::*;
use vstd::utf8::{decode_utf8, valid_utf8};
use websocket::WebSocketError;

use crate::address::{host_fits, law_plain_addresses_fit, law_short_addresses_fit};
use crate::client::{
    Client, ClientView, ConnectionInfo, ConnectionState, PendingSubscription,
    PendingUnsubscription, Reaction, SessionView, Subscription,
};
use crate::connection::{
    choose_protocol, handle_welcome_message, welcome_from_json, welcome_from_msgpack, Connection,
    Handshake, Negotiated, RecvAction, RecvEvent, RecvPhase, WelcomeStep,
};
use crate::decimal::{decimal_string, law_decimal_reads_back, value};
use crate::error::{Error, ErrorKind, UrlError, WampResult};
use crate::messages::{
    ClientRoles, Dict, ErrorDetails, HelloDetails, List, Message, PublishOptions, Reason,
    SubscribeOptions, ID, URI,
};
use crate::outside::{parsed_url, settles_completion, settles_subscription};
use crate::transport::{
    after_send, payload_text, send_message, send_message_json, send_message_msgpack, Frame, Opcode,
    WebSocketMessage,
};

verus! {

/// How a message is to go out under a subprotocol: whole, in a binary frame
/// under `wamp.2.msgpack`, and in a text frame under every other.
pub open spec fn goes_out<V>(frame: Frame<V>, message: Message<V>, protocol: Seq<char>) -> bool {
    if protocol == "wamp.2.msgpack"@ {
        frame matches Frame::Binary(sent) && sent == message
    } else {
        frame matches Frame::Text(sent) && sent == message
    }
}

/// `send_message` frames every message by the subprotocol, and the two that it
/// chooses between by their kind.
pub proof fn law_call_send_message<V>(
    message: Message<V>,
    protocol: &str,
    frame: Frame<V>,
    json: Frame<V>,
    msgpack: Frame<V>,
)
    requires
        call_ensures(send_message::<V>, (message, protocol), frame),
        call_ensures(send_message_json::<V>, (message,), json),
        call_ensures(send_message_msgpack::<V>, (message,), msgpack),
    ensures
        goes_out(frame, message, protocol@),
        json matches Frame::Text(sent) && sent == message,
        msgpack matches Frame::Binary(sent) && sent == message,
{
}

/// After a frame went out, nothing more is to be done. After one that did not,
/// a close is to be sent, and the failure is passed on as it is.
pub proof fn law_call_after_send<V>(
    sent: Result<(), WebSocketError>,
    r: (Option<Frame<V>>, WampResult<()>),
)
    requires
        call_ensures(after_send::<V>, (sent,), r),
    ensures
        sent is Ok ==> r.0 is None && r.1 is Ok,
        sent matches Err(failure) ==> {
            &&& r.0 matches Some(Frame::Close)
            &&& r.1 matches Err(error)
            &&& error.kind == ErrorKind::WebSocketError(failure)
        },
{
}

/// The text of a payload is what its bytes encode, and there is one exactly
/// if they are UTF-8.
pub proof fn law_call_payload_text(payload: &Vec<u8>, text: Option<String>)
    requires
        call_ensures(payload_text, (payload,), text),
    ensures
        text is Some <==> valid_utf8(payload@),
        text matches Some(t) ==> t@ == decode_utf8(payload@),
{
}

/// A connection begins with the request to open a WebSocket at its address, as
/// the parser gives it, for its realm, in which MsgPack is offered before
/// JSON. If the parser rejects the address, it fails with what the parser says.
pub proof fn law_call_connect(
    url: &str,
    realm: &str,
    connection: &Connection,
    handshake: WampResult<Handshake>,
)
    requires
        host_fits(url@),
        call_ensures(Connection::new, (url, realm), *connection),
        call_ensures(Connection::connect, (connection,), handshake),
    ensures
        parsed_url(url@) matches Ok(normal) ==> {
            &&& handshake matches Ok(request)
            &&& request.url@ == normal
            &&& request.realm.uri@ == realm@
            &&& request.protocols@.len() == 2
            &&& request.protocols@[0]@ == "wamp.2.msgpack"@
            &&& request.protocols@[1]@ == "wamp.2.json"@
        },
        parsed_url(url@) matches Err(flaw) ==> {
            &&& handshake matches Err(error)
            &&& error.kind == ErrorKind::URLError(flaw)
        },
{
}

/// A connection can be tried with every address of up to 214 characters, and
/// with every one in plain ASCII that `url` can count.
pub proof fn law_call_can_connect(url: &str, realm: &str, connection: &Connection, r: bool)
    requires
        call_ensures(Connection::new, (url, realm), *connection),
        call_ensures(Connection::can_connect, (connection,), r),
    ensures
        url@.len() <= 214 ==> r,
        url@.len() < 0x8000_0000 && (forall|k: int|
            0 <= k < url@.len() ==> (#[trigger] url@[k] as u32) < 0x80 && url@[k] != '%') ==> r,
        url@.len() >= 0x8000_0000 ==> !r,
        r <==> host_fits(url@),
{
    if url@.len() <= 214 {
        law_short_addresses_fit(url@);
    }
    if url@.len() < 0x8000_0000 && (forall|k: int|
        0 <= k < url@.len() ==> (#[trigger] url@[k] as u32) < 0x80 && url@[k] != '%') {
        law_plain_addresses_fit(url@);
    }
}

/// With the address parsed already, what was parsed is taken as it is.
pub proof fn law_call_connect_to(
    url: &str,
    realm: &str,
    connection: &Connection,
    parsed: Result<String, UrlError>,
    handshake: WampResult<Handshake>,
)
    requires
        call_ensures(Connection::new, (url, realm), *connection),
        call_ensures(Connection::connect_to, (connection, parsed), handshake),
    ensures
        parsed matches Ok(normal) ==> {
            &&& handshake matches Ok(request)
            &&& request.url@ == normal@
            &&& request.realm.uri@ == realm@
            &&& request.protocols@.len() == 2
            &&& request.protocols@[0]@ == "wamp.2.msgpack"@
            &&& request.protocols@[1]@ == "wamp.2.json"@
        },
        parsed matches Err(flaw) ==> {
            &&& handshake matches Err(error)
            &&& error.kind == ErrorKind::URLError(flaw)
        },
{
}

/// The router's answer decides the subprotocol: it is the first that the
/// router names, whatever else it names, and JSON if it names none. The realm
/// is the one that was asked for. A failure is passed on as it is.
pub proof fn law_call_respond(
    handshake: Handshake,
    response: Result<Option<Vec<String>>, WebSocketError>,
    r: WampResult<Negotiated>,
)
    requires
        call_ensures(Handshake::respond, (handshake, response), r),
    ensures
        response matches Ok(answer) ==> {
            &&& r matches Ok(negotiated)
            &&& negotiated.realm == handshake.realm
            &&& answer is Some && answer->0@.len() > 0 ==> negotiated.protocol@
                == answer->0@[0]@
            &&& answer is None || answer->0@.len() == 0 ==> negotiated.protocol@ == "wamp.2.json"@
        },
        response matches Err(failure) ==> {
            &&& r matches Err(error)
            &&& error.kind == ErrorKind::WebSocketError(failure)
        },
{
}

/// The choice of a subprotocol for itself.
pub proof fn law_call_choose_protocol(answer: Option<Vec<String>>, protocol: String)
    requires
        call_ensures(choose_protocol, (answer,), protocol),
    ensures
        answer is Some && answer->0@.len() > 0 ==> protocol@ == answer->0@[0]@,
        answer is None || answer->0@.len() == 0 ==> protocol@ == "wamp.2.json"@,
{
}

/// The greeting names the realm and both roles, under the subprotocol.
pub proof fn law_call_hello<V>(negotiated: &Negotiated, frame: Frame<V>)
    requires
        call_ensures(Negotiated::hello::<V>, (negotiated,), frame),
    ensures
        goes_out(
            frame,
            Message::<V>::Hello(
                negotiated.realm,
                HelloDetails { roles: ClientRoles { publisher: true, subscriber: true } },
            ),
            negotiated.protocol@,
        ),
{
}

/// A welcome opens a session with the number that it gives, under the
/// subprotocol, and with nothing in it. An abort and every other reply open
/// none, each with its own error.
pub proof fn law_call_open<C, F, V>(
    negotiated: Negotiated,
    reply: Message<V>,
    client: WampResult<Client<C, F>>,
)
    requires
        call_ensures(Negotiated::open::<C, F, V>, (negotiated, reply), client),
    ensures
        reply matches Message::Welcome(session_id, _) ==> {
            &&& client matches Ok(opened)
            &&& begins(opened, negotiated.protocol@, session_id)
        },
        reply is Abort ==> {
            &&& client matches Err(error)
            &&& error.kind is ConnectionLost
        },
        !(reply is Welcome) && !(reply is Abort) ==> {
            &&& client matches Err(error)
            &&& error.kind matches ErrorKind::UnexpectedMessage(words)
            &&& words@ == "Expected Welcome Message"@
        },
{
}

/// Whether the client is in a session that has just begun.
pub open spec fn begins<C, F>(client: Client<C, F>, protocol: Seq<char>, id: ID) -> bool {
    &&& client@.id == id
    &&& client@.max_session_id == 0
    &&& client@.session.state == ConnectionState::Connected
    &&& client@.session.protocol == protocol
    &&& forall|k: ID| !#[trigger] client@.session.subscription_requests.contains_key(k)
    &&& forall|k: ID| !#[trigger] client@.session.unsubscription_requests.contains_key(k)
    &&& forall|k: ID| !#[trigger] client@.session.subscriptions.contains_key(k)
    &&& forall|k: ID| !#[trigger] client@.session.publish_ids_to_topics.contains_key(k)
    &&& client@.session.published_callbacks.len() == 0
    &&& client@.session.shutdown_complete is None
}

/// A new client is in a session that has just begun.
pub proof fn law_call_new_client<C, F>(protocol: String, id: ID, client: Client<C, F>)
    requires
        call_ensures(Client::<C, F>::new, (protocol, id), client),
    ensures
        begins(client, protocol@, id),
        client@.well_formed(),
{
}

/// What is read while the reply to the greeting is awaited is treated by its
/// kind, whatever it carries, and the client gives up only at the end of the
/// stream, on a failure to read, on a close or on a text that is not UTF-8.
pub proof fn law_call_handle_welcome_message<V>(
    incoming: Option<Result<WebSocketMessage, WebSocketError>>,
    step: WelcomeStep<V>,
)
    requires
        call_ensures(handle_welcome_message::<V>, (incoming,), step),
    ensures
        incoming matches Some(Ok(message)) ==> {
            &&& message.opcode == Opcode::Binary ==> {
                &&& step matches WelcomeStep::DecodeMsgPack(bytes)
                &&& bytes == message.payload
            }
            &&& message.opcode == Opcode::Text && valid_utf8(message.payload@) ==> {
                &&& step matches WelcomeStep::DecodeJson(text)
                &&& text@ == decode_utf8(message.payload@)
            }
            &&& message.opcode == Opcode::Text && !valid_utf8(message.payload@) ==> {
                &&& step matches WelcomeStep::Fail(error)
                &&& error.kind is MalformedData
            }
            &&& message.opcode == Opcode::Ping ==> {
                &&& step matches WelcomeStep::Send(Frame::Pong(payload))
                &&& payload == message.payload
            }
            &&& message.opcode == Opcode::Pong ==> step is Wait
            &&& message.opcode == Opcode::Close ==> {
                &&& step matches WelcomeStep::Fail(error)
                &&& error.kind is ConnectionLost
            }
        },
        incoming matches Some(Err(failure)) ==> {
            &&& step matches WelcomeStep::Fail(error)
            &&& error.kind == ErrorKind::WebSocketError(failure)
        },
        incoming is None ==> {
            &&& step matches WelcomeStep::Fail(error)
            &&& error.kind is ConnectionLost
        },
{
}

/// What was decoded is the reply, as it is, and a failure to decode is passed
/// on as it is.
pub proof fn law_call_welcome_decoded<V>(
    json: Result<Message<V>, serde_json::Error>,
    from_json: WampResult<Message<V>>,
    msgpack: Result<Message<V>, rmp_serde::decode::Error>,
    from_msgpack: WampResult<Message<V>>,
)
    requires
        call_ensures(welcome_from_json::<V>, (json,), from_json),
        call_ensures(welcome_from_msgpack::<V>, (msgpack,), from_msgpack),
    ensures
        json matches Ok(message) ==> from_json == Ok::<Message<V>, Error>(message),
        json matches Err(failure) ==> {
            &&& from_json matches Err(error)
            &&& error.kind == ErrorKind::JSONError(failure)
        },
        msgpack matches Ok(message) ==> from_msgpack == Ok::<Message<V>, Error>(message),
        msgpack matches Err(failure) ==> {
            &&& from_msgpack matches Err(error)
            &&& error.kind == ErrorKind::MsgPackError(failure)
        },
{
}

/// Handling the confirmation of a subscription hands out the promise that
/// waits under the number that it names, with the number of the subscription,
/// and takes it off the requests that wait. All else stays.
pub proof fn law_call_handle_subscribed<C, F, V>(
    request_id: ID,
    subscription_id: ID,
    info: &mut ConnectionInfo<C, F>,
    r: (bool, Reaction<V>),
)
    requires
        call_ensures(
            Connection::handle_message::<C, F, V>,
            (Message::Subscribed(request_id, subscription_id), info),
            r,
        ),
    ensures
        r.0,
        old(info)@.subscription_requests.contains_key(request_id) ==> {
            &&& r.1 matches Reaction::CompleteSubscription(kept, with)
            &&& kept == old(info)@.subscription_requests[request_id]
            &&& with == subscription_id
        },
        !old(info)@.subscription_requests.contains_key(request_id) ==> r.1 is Nothing,
        final(info)@ == (SessionView {
            subscription_requests: old(info)@.subscription_requests.remove(request_id),
            ..old(info)@
        }),
{
}

/// Handling the confirmation of a cancellation hands out the promise that
/// waits under the number that it names, and takes it off the requests that
/// wait. All else stays.
pub proof fn law_call_handle_unsubscribed<C, F, V>(
    request_id: ID,
    info: &mut ConnectionInfo<C, F>,
    r: (bool, Reaction<V>),
)
    requires
        call_ensures(
            Connection::handle_message::<C, F, V>,
            (Message::Unsubscribed(request_id), info),
            r,
        ),
    ensures
        r.0,
        old(info)@.unsubscription_requests.contains_key(request_id) ==> {
            &&& r.1 matches Reaction::CompleteUnsubscription(kept)
            &&& kept == old(info)@.unsubscription_requests[request_id]
        },
        !old(info)@.unsubscription_requests.contains_key(request_id) ==> r.1 is Nothing,
        final(info)@ == (SessionView {
            unsubscription_requests: old(info)@.unsubscription_requests.remove(request_id),
            ..old(info)@
        }),
{
}

/// Handling an acknowledgement tells of the topic that was published under the
/// number that it names, and changes nothing.
pub proof fn law_call_handle_published<C, F, V>(
    request_id: ID,
    publication_id: ID,
    info: &mut ConnectionInfo<C, F>,
    r: (bool, Reaction<V>),
)
    requires
        call_ensures(
            Connection::handle_message::<C, F, V>,
            (Message::Published(request_id, publication_id), info),
            r,
        ),
    ensures
        r.0,
        old(info)@.publish_ids_to_topics.contains_key(request_id) ==> {
            &&& r.1 matches Reaction::NotifyPublished(topic)
            &&& topic == old(info)@.publish_ids_to_topics[request_id]
        },
        !old(info)@.publish_ids_to_topics.contains_key(request_id) ==> r.1 is Nothing,
        final(info)@ == old(info)@,
{
}

/// Handling an event delivers it to its subscription, if that is in place,
/// with the arguments that it carries: all positional ones, in order, and all
/// named ones, under their names. It changes nothing.
pub proof fn law_call_handle_event<C, F, V>(
    subscription_id: ID,
    publication_id: ID,
    details: Dict<V>,
    args: Option<List<V>>,
    kwargs: Option<Dict<V>>,
    info: &mut ConnectionInfo<C, F>,
    r: (bool, Reaction<V>),
)
    requires
        call_ensures(
            Connection::handle_message::<C, F, V>,
            (Message::Event(subscription_id, publication_id, details, args, kwargs), info),
            r,
        ),
    ensures
        r.0,
        old(info)@.subscriptions.contains_key(subscription_id) ==> {
            &&& r.1 matches Reaction::Deliver(to, list, dict)
            &&& to == subscription_id
            &&& args is None ==> list@.len() == 0
            &&& args matches Some(given) ==> {
                &&& list@.len() == given@.len()
                &&& forall|i: int| 0 <= i < given@.len() ==> #[trigger] list@[i] == given@[i]
            }
            &&& kwargs is None ==> forall|name: String| !#[trigger] dict@.contains_key(name)
            &&& kwargs matches Some(given) ==> forall|name: String|
                {
                    &&& #[trigger] dict@.contains_key(name) <==> given@.contains_key(name)
                    &&& given@.contains_key(name) ==> dict@[name] == given@[name]
                }
        },
        !old(info)@.subscriptions.contains_key(subscription_id) ==> r.1 is Nothing,
        final(info)@ == old(info)@,
{
}

/// Handling a goodbye ends the reading. In an open session it is answered, in
/// one that the client has ended the promise of the end is handed out if it
/// waits, and nothing else comes of it.
pub proof fn law_call_handle_goodbye<C, F, V>(
    details: ErrorDetails,
    reason: Reason,
    info: &mut ConnectionInfo<C, F>,
    r: (bool, Reaction<V>),
)
    requires
        call_ensures(
            Connection::handle_message::<C, F, V>,
            (Message::Goodbye(details, reason), info),
            r,
        ),
    ensures
        !r.0,
        old(info)@.state == ConnectionState::Connected ==> {
            &&& r.1 matches Reaction::Reply(frame)
            &&& goes_out(
                frame,
                Message::<V>::Goodbye(ErrorDetails { message: None }, Reason::GoodbyeAndOut),
                old(info)@.protocol,
            )
            &&& final(info)@ == old(info)@
        },
        old(info)@.state == ConnectionState::ShuttingDown ==> {
            &&& old(info)@.shutdown_complete matches Some(promise) ==> r.1
                == Reaction::<V>::CompleteShutdown(promise)
            &&& old(info)@.shutdown_complete is None ==> r.1 is Nothing
            &&& final(info)@ == (SessionView { shutdown_complete: None, ..old(info)@ })
        },
        old(info)@.state == ConnectionState::Disconnected ==> r.1 is Nothing && final(info)@
            == old(info)@,
{
}

/// Handling any other message does nothing, and reading goes on.
pub proof fn law_call_handle_other<C, F, V>(
    message: Message<V>,
    info: &mut ConnectionInfo<C, F>,
    r: (bool, Reaction<V>),
)
    requires
        call_ensures(Connection::handle_message::<C, F, V>, (message, info), r),
        message is Hello || message is Welcome || message is Abort || message is Error
            || message is Subscribe || message is Unsubscribe || message is Publish,
    ensures
        r.0,
        r.1 is Nothing,
        final(info)@ == old(info)@,
{
}

/// Reading begins with reading a frame.
pub proof fn law_call_start_recv_loop<V>(r: (RecvPhase, RecvAction<V>))
    requires
        call_ensures(Connection::start_recv_loop::<V>, (), r),
    ensures
        r.0 == RecvPhase::Receiving,
        r.1 is Receive,
{
}

/// What answers an action: what was read a reading, what was decoded a
/// decoding, and that it is done anything else, but for the end.
pub proof fn law_call_is_answered_by<V>(phase: &RecvPhase, event: &RecvEvent<V>, r: bool)
    requires
        call_ensures(RecvPhase::is_answered_by::<V>, (phase, event), r),
    ensures
        r <==> match *phase {
            RecvPhase::Receiving => *event is Incoming,
            RecvPhase::Decoding => *event is Decoded,
            RecvPhase::Finished => false,
            _ => *event is Done,
        },
{
}

/// A step of reading treats every frame by its kind, whatever it carries, and
/// leaves the session as it is.
pub proof fn law_call_recv_step_reads<C, F, V>(
    message: WebSocketMessage,
    info: &mut ConnectionInfo<C, F>,
    r: (RecvPhase, RecvAction<V>),
)
    requires
        call_ensures(
            Connection::recv_step::<C, F, V>,
            (RecvPhase::Receiving, RecvEvent::Incoming(Some(Ok(message))), info),
            r,
        ),
    ensures
        final(info)@ == old(info)@,
        message.opcode == Opcode::Text && valid_utf8(message.payload@) ==> {
            &&& r.0 == RecvPhase::Decoding
            &&& r.1 matches RecvAction::DecodeJson(text)
            &&& text@ == decode_utf8(message.payload@)
        },
        message.opcode == Opcode::Binary ==> {
            &&& r.0 == RecvPhase::Decoding
            &&& r.1 matches RecvAction::DecodeMsgPack(bytes)
            &&& bytes == message.payload
        },
        message.opcode == Opcode::Ping ==> {
            &&& r.0 == RecvPhase::Resuming
            &&& r.1 matches RecvAction::Send(Frame::Pong(payload))
            &&& payload == message.payload
        },
        message.opcode == Opcode::Pong || message.opcode == Opcode::Text && !valid_utf8(
            message.payload@,
        ) ==> r.0 == RecvPhase::Receiving && r.1 is Receive,
        message.opcode == Opcode::Close ==> {
            &&& r.0 == RecvPhase::Leaving
            &&& r.1 matches RecvAction::Send(Frame::Close)
        },
{
}

/// A step of reading in which nothing can be read ends it: after a failure a
/// close is tried at once, and at the end of the stream the last one is sent.
pub proof fn law_call_recv_step_breaks<C, F, V>(
    incoming: Option<Result<WebSocketMessage, WebSocketError>>,
    info: &mut ConnectionInfo<C, F>,
    r: (RecvPhase, RecvAction<V>),
)
    requires
        call_ensures(
            Connection::recv_step::<C, F, V>,
            (RecvPhase::Receiving, RecvEvent::Incoming(incoming), info),
            r,
        ),
    ensures
        incoming matches Some(Err(_)) ==> {
            &&& r.0 == RecvPhase::Leaving
            &&& r.1 matches RecvAction::Send(Frame::Close)
            &&& final(info)@ == old(info)@
        },
        incoming is None ==> {
            &&& r.0 == RecvPhase::Closing
            &&& r.1 matches RecvAction::SendOrFail(Frame::Close)
            &&& final(info)@ == (SessionView { state: ConnectionState::Disconnected, ..old(info)@ })
        },
{
}

/// A step of reading takes every message in that was decoded, as handling it
/// does: with the same reaction, and the same session left behind. Reading
/// ends with a goodbye, and goes on after every other message.
pub proof fn law_call_recv_step_takes_in<C, F, V>(
    message: Message<V>,
    handled: &mut ConnectionInfo<C, F>,
    h: (bool, Reaction<V>),
    info: &mut ConnectionInfo<C, F>,
    r: (RecvPhase, RecvAction<V>),
)
    requires
        old(handled)@ == old(info)@,
        call_ensures(Connection::handle_message::<C, F, V>, (message, handled), h),
        call_ensures(
            Connection::recv_step::<C, F, V>,
            (RecvPhase::Decoding, RecvEvent::Decoded(Some(message)), info),
            r,
        ),
    ensures
        r.1 matches RecvAction::React(reaction) && reaction@ == h.1@,
        final(info)@ == final(handled)@,
        h.0 <==> !(message is Goodbye),
        h.0 ==> r.0 == RecvPhase::Resuming,
        !h.0 ==> r.0 == RecvPhase::Leaving,
{
}

/// What cannot be decoded is passed over, and reading goes on after what was
/// done about a frame or a message.
pub proof fn law_call_recv_step_goes_on<C, F, V>(
    undecoded: &mut ConnectionInfo<C, F>,
    u: (RecvPhase, RecvAction<V>),
    info: &mut ConnectionInfo<C, F>,
    r: (RecvPhase, RecvAction<V>),
)
    requires
        call_ensures(
            Connection::recv_step::<C, F, V>,
            (RecvPhase::Decoding, RecvEvent::Decoded(None), undecoded),
            u,
        ),
        call_ensures(
            Connection::recv_step::<C, F, V>,
            (RecvPhase::Resuming, RecvEvent::Done, info),
            r,
        ),
    ensures
        u.0 == RecvPhase::Receiving && u.1 is Receive && final(undecoded)@ == old(undecoded)@,
        r.0 == RecvPhase::Receiving && r.1 is Receive && final(info)@ == old(info)@,
{
}

/// When reading is over the connection counts as gone and the last close is
/// sent, then the WebSocket is shut down, then the promise of the end is kept
/// if it waits, and then nothing is left to do.
pub proof fn law_call_recv_step_ends<C, F, V>(
    one: &mut ConnectionInfo<C, F>,
    close: (RecvPhase, RecvAction<V>),
    two: &mut ConnectionInfo<C, F>,
    shut: (RecvPhase, RecvAction<V>),
    three: &mut ConnectionInfo<C, F>,
    end: (RecvPhase, RecvAction<V>),
    four: &mut ConnectionInfo<C, F>,
    last: (RecvPhase, RecvAction<V>),
)
    requires
        call_ensures(
            Connection::recv_step::<C, F, V>,
            (RecvPhase::Leaving, RecvEvent::Done, one),
            close,
        ),
        old(two)@ == final(one)@,
        call_ensures(Connection::recv_step::<C, F, V>, (close.0, RecvEvent::Done, two), shut),
        old(three)@ == final(two)@,
        call_ensures(Connection::recv_step::<C, F, V>, (shut.0, RecvEvent::Done, three), end),
        old(four)@ == final(three)@,
        end.0 == RecvPhase::Completing ==> call_ensures(
            Connection::recv_step::<C, F, V>,
            (end.0, RecvEvent::Done, four),
            last,
        ),
    ensures
        close.1 matches RecvAction::SendOrFail(Frame::Close),
        shut.1 is Shutdown,
        old(one)@.shutdown_complete matches Some(promise) ==> {
            &&& end.0 == RecvPhase::Completing
            &&& end.1 == RecvAction::<V>::Complete(promise)
            &&& last.0 == RecvPhase::Finished
            &&& last.1 is Finish
            &&& final(four)@ == old(four)@
        },
        old(one)@.shutdown_complete is None ==> end.0 == RecvPhase::Finished && end.1 is Finish,
        final(one)@ == (SessionView { state: ConnectionState::Disconnected, ..old(one)@ }),
        final(three)@ == (SessionView { shutdown_complete: None, ..final(one)@ }),
{
}

/// The callback of a subscription is the one in place for it, if there is one,
/// and the callbacks for publications are those that were given, in order.
pub proof fn law_call_callbacks<C, F>(
    info: &ConnectionInfo<C, F>,
    subscription_id: ID,
    callback: Option<&C>,
    callbacks: &Vec<F>,
)
    requires
        call_ensures(ConnectionInfo::<C, F>::event_callback, (info, subscription_id), callback),
        call_ensures(ConnectionInfo::<C, F>::published_callbacks, (info,), callbacks),
    ensures
        callback is Some <==> info@.subscriptions.contains_key(subscription_id),
        callback matches Some(c) ==> *c == info@.subscriptions[subscription_id],
        callbacks@ == info@.published_callbacks,
{
}

/// Noting that the connection is gone changes only that. Finishing hands out
/// the promise of the end, if it waits, and it waits no longer.
pub proof fn law_call_disconnect_and_finish<C, F>(
    gone: &mut ConnectionInfo<C, F>,
    info: &mut ConnectionInfo<C, F>,
    promise: Option<Complete<(), Error>>,
)
    requires
        call_ensures(ConnectionInfo::<C, F>::disconnect, (gone,), ()),
        call_ensures(ConnectionInfo::<C, F>::finish, (info,), promise),
    ensures
        final(gone)@ == (SessionView { state: ConnectionState::Disconnected, ..old(gone)@ }),
        promise == old(info)@.shutdown_complete,
        final(info)@ == (SessionView { shutdown_complete: None, ..old(info)@ }),
{
}

/// The session of a client is the one that is changed through it. The client
/// keeps its numbers.
pub proof fn law_call_connection_info<C, F>(
    client: &mut Client<C, F>,
    info: &mut ConnectionInfo<C, F>,
)
    requires
        call_ensures(Client::<C, F>::connection_info, (client,), info),
    ensures
        old(info)@ == old(client)@.session,
        final(client)@.session == final(info)@,
        final(client)@.max_session_id == old(client)@.max_session_id,
        final(client)@.id == old(client)@.id,
{
}

/// Numbers are given out one after the other, as long as there are any, and
/// that changes nothing else. Messages go out under the session's subprotocol.
pub proof fn law_call_numbers_and_frames<C, F, V>(
    asked: &Client<C, F>,
    can: bool,
    client: &mut Client<C, F>,
    number: ID,
    message: Message<V>,
    frame: Frame<V>,
)
    requires
        call_ensures(Client::<C, F>::can_request, (asked,), can),
        old(client)@.max_session_id < u64::MAX,
        call_ensures(Client::<C, F>::get_next_session_id, (client,), number),
        call_ensures(Client::<C, F>::send_message::<V>, (asked, message), frame),
    ensures
        can <==> asked@.max_session_id < u64::MAX,
        number == old(client)@.max_session_id + 1,
        final(client)@.max_session_id == number,
        final(client)@.session == old(client)@.session,
        final(client)@.id == old(client)@.id,
        goes_out(frame, message, asked@.session.protocol),
{
}

/// Whether exactly this subscription has come to be waited for, under the next
/// number.
pub open spec fn comes_to_wait<C, F>(
    before: ClientView<C, F>,
    after: ClientView<C, F>,
    promise: Complete<ID, Error>,
) -> bool {
    let number = (before.max_session_id + 1) as ID;
    &&& after.max_session_id == number
    &&& after.id == before.id
    &&& after.session == (SessionView {
        subscription_requests: before.session.subscription_requests.insert(number, promise),
        ..before.session
    })
}

/// To subscribe asks the router for the topic, under the next number, and the
/// promise comes to wait under that number. With `subscribe` the promise is
/// one that settles the future, and topic and callback are kept for later.
pub proof fn law_call_subscribe<C, F, V>(
    topic: URI,
    promise: Complete<ID, Error>,
    client: &mut Client<C, F>,
    frame: Frame<V>,
    callback: C,
    other: &mut Client<C, F>,
    r: (Frame<V>, PendingSubscription<C>, Future<ID, Error>),
)
    requires
        old(client)@.max_session_id < u64::MAX,
        old(other)@.max_session_id < u64::MAX,
        call_ensures(Client::<C, F>::subscribe_with::<V>, (client, topic, promise), frame),
        call_ensures(Client::<C, F>::subscribe::<V>, (other, topic, callback), r),
    ensures
        comes_to_wait(old(client)@, final(client)@, promise),
        goes_out(
            frame,
            Message::<V>::Subscribe(
                (old(client)@.max_session_id + 1) as ID,
                SubscribeOptions {  },
                topic,
            ),
            old(client)@.session.protocol,
        ),
        exists|made|
            #[trigger] comes_to_wait(old(other)@, final(other)@, made) && settles_subscription(
                made,
                r.2,
            ),
        goes_out(
            r.0,
            Message::<V>::Subscribe(
                (old(other)@.max_session_id + 1) as ID,
                SubscribeOptions {  },
                topic,
            ),
            old(other)@.session.protocol,
        ),
        r.1.topic == topic,
        r.1.callback == callback,
{
    let made = choose|made|
        final(other)@ == #[trigger] old(other)@.subscribing(made) && settles_subscription(
            made,
            r.2,
        );
    assert(comes_to_wait(old(other)@, final(other)@, made));
}

/// A subscription that is confirmed has its callback in place under the number
/// that the router gave, and every other stays as it is.
pub proof fn law_call_confirm_subscription<C, F>(
    pending: PendingSubscription<C>,
    subscription_id: ID,
    info: &mut ConnectionInfo<C, F>,
    subscription: Subscription,
)
    requires
        call_ensures(
            PendingSubscription::<C>::confirm::<F>,
            (pending, subscription_id, info),
            subscription,
        ),
    ensures
        final(info)@ == (SessionView {
            subscriptions: old(info)@.subscriptions.insert(subscription_id, pending.callback),
            ..old(info)@
        }),
        subscription.uri() == pending.topic,
        subscription.id() == subscription_id,
{
}

/// Two topics are subscribed to, one after the other, and the router confirms
/// both, in whichever order. Each confirmation keeps the promise of its own
/// request, with its own number, and then the events of each subscription go
/// to the callback that was given for its topic.
pub proof fn law_subscribing_from_end_to_end<C, F, V>(
    topics: (URI, URI),
    promises: (Complete<ID, Error>, Complete<ID, Error>),
    frames: (Frame<V>, Frame<V>),
    one: &mut Client<C, F>,
    two: &mut Client<C, F>,
    ids: (ID, ID),
    later: &mut ConnectionInfo<C, F>,
    on_later: (bool, Reaction<V>),
    earlier: &mut ConnectionInfo<C, F>,
    on_earlier: (bool, Reaction<V>),
    callbacks: (C, C),
    first: &mut ConnectionInfo<C, F>,
    second: &mut ConnectionInfo<C, F>,
    subscriptions: (Subscription, Subscription),
    end: &ConnectionInfo<C, F>,
    called: (Option<&C>, Option<&C>),
)
    requires
        old(one)@.max_session_id < u64::MAX - 1,
        call_ensures(
            Client::<C, F>::subscribe_with::<V>,
            (one, topics.0, promises.0),
            frames.0,
        ),
        old(two)@ == final(one)@,
        call_ensures(
            Client::<C, F>::subscribe_with::<V>,
            (two, topics.1, promises.1),
            frames.1,
        ),
        old(later)@ == final(two)@.session,
        call_ensures(
            Connection::handle_message::<C, F, V>,
            (Message::Subscribed((old(one)@.max_session_id + 2) as ID, ids.1), later),
            on_later,
        ),
        old(earlier)@ == final(later)@,
        call_ensures(
            Connection::handle_message::<C, F, V>,
            (Message::Subscribed((old(one)@.max_session_id + 1) as ID, ids.0), earlier),
            on_earlier,
        ),
        ids.0 != ids.1,
        old(first)@ == final(earlier)@,
        call_ensures(
            PendingSubscription::<C>::confirm::<F>,
            (PendingSubscription { topic: topics.0, callback: callbacks.0 }, ids.0, first),
            subscriptions.0,
        ),
        old(second)@ == final(first)@,
        call_ensures(
            PendingSubscription::<C>::confirm::<F>,
            (PendingSubscription { topic: topics.1, callback: callbacks.1 }, ids.1, second),
            subscriptions.1,
        ),
        end@ == final(second)@,
        call_ensures(ConnectionInfo::<C, F>::event_callback, (end, ids.0), called.0),
        call_ensures(ConnectionInfo::<C, F>::event_callback, (end, ids.1), called.1),
    ensures
        on_later.1 matches Reaction::CompleteSubscription(kept, with) && kept == promises.1 && with
            == ids.1,
        on_earlier.1 matches Reaction::CompleteSubscription(kept, with) && kept == promises.0
            && with == ids.0,
        called.0 matches Some(callback) && *callback == callbacks.0,
        called.1 matches Some(callback) && *callback == callbacks.1,
        !final(earlier)@.subscription_requests.contains_key((old(one)@.max_session_id + 1) as ID),
        !final(earlier)@.subscription_requests.contains_key((old(one)@.max_session_id + 2) as ID),
{
}

/// To unsubscribe asks the router to cancel the subscription, under the next
/// number. If the request goes out, a promise that settles the future comes to
/// wait under that number. Otherwise nothing does, and the failure is passed
/// on. The router's confirmation keeps that promise, and then the events of
/// the subscription go to no one.
pub proof fn law_unsubscribing_from_end_to_end<C, F, V>(
    subscription: Subscription,
    client: &mut Client<C, F>,
    r: (Frame<V>, PendingUnsubscription),
    sent: WampResult<()>,
    info: &mut ConnectionInfo<C, F>,
    future: WampResult<Future<(), Error>>,
    confirmed: &mut ConnectionInfo<C, F>,
    on_confirmed: (bool, Reaction<V>),
    cancelled: &mut ConnectionInfo<C, F>,
)
    requires
        old(client)@.max_session_id < u64::MAX,
        call_ensures(Client::<C, F>::unsubscribe::<V>, (client, subscription), r),
        old(info)@ == final(client)@.session,
        call_ensures(PendingUnsubscription::sent::<C, F>, (&r.1, sent, info), future),
        old(confirmed)@ == final(info)@,
        call_ensures(
            Connection::handle_message::<C, F, V>,
            (Message::Unsubscribed((old(client)@.max_session_id + 1) as ID), confirmed),
            on_confirmed,
        ),
        old(cancelled)@ == final(confirmed)@,
        call_ensures(PendingUnsubscription::confirm::<C, F>, (r.1, cancelled), ()),
    ensures
        goes_out(
            r.0,
            Message::<V>::Unsubscribe((old(client)@.max_session_id + 1) as ID, subscription.id()),
            old(client)@.session.protocol,
        ),
        final(client)@.max_session_id == old(client)@.max_session_id + 1,
        final(client)@.session == old(client)@.session,
        final(client)@.id == old(client)@.id,
        sent is Ok ==> {
            &&& future is Ok
            &&& on_confirmed.1 matches Reaction::CompleteUnsubscription(kept)
            &&& settles_completion(kept, future->Ok_0)
            &&& final(info)@ == (SessionView {
                unsubscription_requests: old(info)@.unsubscription_requests.insert(
                    (old(client)@.max_session_id + 1) as ID,
                    kept,
                ),
                ..old(info)@
            })
        },
        sent matches Err(failure) ==> {
            &&& future matches Err(error)
            &&& error == failure
            &&& final(info)@ == old(info)@
        },
        final(cancelled)@ == (SessionView {
            subscriptions: final(confirmed)@.subscriptions.remove(subscription.id()),
            ..final(confirmed)@
        }),
{
}

/// A promise that is registered for a cancellation waits under the number of
/// its request, and every other request goes on waiting.
pub proof fn law_call_register<C, F>(
    pending: &PendingUnsubscription,
    promise: Complete<(), Error>,
    info: &mut ConnectionInfo<C, F>,
)
    requires
        call_ensures(PendingUnsubscription::register::<C, F>, (pending, promise, info), ()),
    ensures
        final(info)@ == (SessionView {
            unsubscription_requests: old(info)@.unsubscription_requests.insert(
                pending.request(),
                promise,
            ),
            ..old(info)@
        }),
{
}

/// Who wants to hear of publications is called after those who did before.
pub proof fn law_call_on_published<C, F>(client: &mut Client<C, F>, callback: F)
    requires
        call_ensures(Client::<C, F>::on_published, (client, callback), ()),
    ensures
        final(client)@.session == (SessionView {
            published_callbacks: old(client)@.session.published_callbacks.push(callback),
            ..old(client)@.session
        }),
        final(client)@.max_session_id == old(client)@.max_session_id,
        final(client)@.id == old(client)@.id,
{
}

/// To publish sends the topic and all arguments to the router, under the next
/// number, and asks for an acknowledgement exactly if someone wants to hear of
/// it. Then, and only then, the topic is remembered under that number.
pub proof fn law_call_publish<C, F, V>(
    topic: URI,
    args: Option<List<V>>,
    kwargs: Option<Dict<V>>,
    client: &mut Client<C, F>,
    frame: Frame<V>,
)
    requires
        old(client)@.max_session_id < u64::MAX,
        call_ensures(Client::<C, F>::publish::<V>, (client, topic, args, kwargs), frame),
    ensures
        ({
            let number = (old(client)@.max_session_id + 1) as ID;
            let heard = old(client)@.session.published_callbacks.len() > 0;
            let before = old(client)@.session.publish_ids_to_topics;
            &&& goes_out(
                frame,
                Message::Publish(
                    number,
                    PublishOptions { acknowledge: heard },
                    topic,
                    args,
                    kwargs,
                ),
                old(client)@.session.protocol,
            )
            &&& final(client)@.max_session_id == number
            &&& final(client)@.id == old(client)@.id
            &&& final(client)@.session == (SessionView {
                publish_ids_to_topics: if heard {
                    before.insert(number, topic)
                } else {
                    before
                },
                ..old(client)@.session
            })
        }),
{
}

/// Two topics are published, one after the other, and the router acknowledges
/// the first or the second: it is told of by its own topic.
pub proof fn law_publishing_from_end_to_end<C, F, V>(
    topics: (URI, URI),
    one: &mut Client<C, F>,
    two: &mut Client<C, F>,
    frames: (Frame<V>, Frame<V>),
    publications: (ID, ID),
    first: &mut ConnectionInfo<C, F>,
    on_first: (bool, Reaction<V>),
    second: &mut ConnectionInfo<C, F>,
    on_second: (bool, Reaction<V>),
)
    requires
        old(one)@.max_session_id < u64::MAX - 1,
        old(one)@.session.published_callbacks.len() > 0,
        call_ensures(
            Client::<C, F>::publish::<V>,
            (one, topics.0, None::<List<V>>, None::<Dict<V>>),
            frames.0,
        ),
        old(two)@ == final(one)@,
        call_ensures(
            Client::<C, F>::publish::<V>,
            (two, topics.1, None::<List<V>>, None::<Dict<V>>),
            frames.1,
        ),
        old(first)@ == final(two)@.session,
        call_ensures(
            Connection::handle_message::<C, F, V>,
            (Message::Published((old(one)@.max_session_id + 1) as ID, publications.0), first),
            on_first,
        ),
        old(second)@ == final(first)@,
        call_ensures(
            Connection::handle_message::<C, F, V>,
            (Message::Published((old(one)@.max_session_id + 2) as ID, publications.1), second),
            on_second,
        ),
    ensures
        on_first.1 matches Reaction::NotifyPublished(topic) && topic == topics.0,
        on_second.1 matches Reaction::NotifyPublished(topic) && topic == topics.1,
{
}

/// To shut an open session down says goodbye to the router and has the promise
/// wait for the end, and with `shutdown` that is a promise that settles the
/// future. A session that is not open is left as it is, and that is refused.
pub proof fn law_call_shutdown<C, F, V>(
    promise: Complete<(), Error>,
    client: &mut Client<C, F>,
    frame: WampResult<Frame<V>>,
    other: &mut Client<C, F>,
    r: WampResult<(Frame<V>, Future<(), Error>)>,
)
    requires
        old(client)@ == old(other)@,
        call_ensures(Client::<C, F>::shutdown_with::<V>, (client, promise), frame),
        call_ensures(Client::<C, F>::shutdown::<V>, (other,), r),
    ensures
        ({
            let before = old(client)@;
            let farewell = Message::<V>::Goodbye(
                ErrorDetails { message: None },
                Reason::SystemShutdown,
            );
            &&& before.session.state == ConnectionState::Connected ==> {
                &&& frame matches Ok(sent)
                &&& goes_out(sent, farewell, before.session.protocol)
                &&& final(client)@.session == (SessionView {
                    state: ConnectionState::ShuttingDown,
                    shutdown_complete: Some(promise),
                    ..before.session
                })
                &&& final(client)@.max_session_id == before.max_session_id
                &&& final(client)@.id == before.id
                &&& r matches Ok(pair)
                &&& goes_out(pair.0, farewell, before.session.protocol)
                &&& final(other)@.session.shutdown_complete matches Some(made)
                &&& settles_completion(made, pair.1)
                &&& final(other)@.session == (SessionView {
                    state: ConnectionState::ShuttingDown,
                    shutdown_complete: Some(made),
                    ..before.session
                })
                &&& final(other)@.max_session_id == before.max_session_id
                &&& final(other)@.id == before.id
            }
            &&& before.session.state != ConnectionState::Connected ==> {
                &&& frame matches Err(error)
                &&& error.kind matches ErrorKind::InvalidState(words)
                &&& words@ == "Tried to shut down a client that was already shutting down"@
                &&& final(client)@ == before
                &&& r matches Err(failure)
                &&& failure.kind matches ErrorKind::InvalidState(text)
                &&& text@ == "Tried to shut down a client that was already shutting down"@
                &&& final(other)@ == before
            }
        }),
{
}

/// The text for people names the session by its number, in decimal notation
/// that reads back as that number.
pub proof fn law_call_debug_text<C, F>(client: &Client<C, F>, text: String, number: String)
    requires
        call_ensures(Client::<C, F>::debug_text, (client,), text),
        call_ensures(decimal_string, (client@.id,), number),
    ensures
        text@ == "{Connection id: "@ + number@ + "}"@,
        value(number@) == client@.id,
        number@.len() > 0,
        forall|k: int| 0 <= k < number@.len() ==> '0' <= #[trigger] number@[k] <= '9',
        number@.len() > 1 ==> number@[0] != '0',
{
    law_decimal_reads_back(client@.id as nat);
}

/// What is made of parts holds these parts, and what says nothing is empty.
pub proof fn law_call_parts(
    text: &str,
    name: URI,
    copied: &URI,
    copy: URI,
    roles: ClientRoles,
    given: ClientRoles,
    hello: HelloDetails,
    details: ErrorDetails,
    acknowledge: bool,
    publish: PublishOptions,
    kind: ErrorKind,
    error: Error,
)
    requires
        call_ensures(URI::new, (text,), name),
        call_ensures(<URI as Clone>::clone, (copied,), copy),
        call_ensures(ClientRoles::new, (), roles),
        call_ensures(HelloDetails::new, (given,), hello),
        call_ensures(ErrorDetails::new, (), details),
        call_ensures(PublishOptions::new, (acknowledge,), publish),
        call_ensures(Error::new, (kind,), error),
    ensures
        name.uri@ == text@,
        copy == *copied,
        roles.publisher && roles.subscriber,
        hello.roles == given,
        details.message is None,
        publish.acknowledge == acknowledge,
        error.kind == kind,
{
}

} // verus!
