//! Opening a session, and reading what the router sends.
use eventual::Complete;
use vstd::prelude::*;
use vstd::utf8::{decode_utf8, valid_utf8};
use websocket::WebSocketError;

use crate::address::{fits, host_fits};
use crate::client::{
    Client, ClientView, ConnectionInfo, ConnectionState, Reaction, ReactionView, SessionView,
};
use crate::error::{Error, ErrorKind, UrlError, WampResult};
use crate::messages::{ClientRoles, HelloDetails, Message, ID, URI};
use crate::outside::{parse_url, parsed_url};
use crate::transport::{
    framed, payload_text, send_message, Frame, Opcode, WebSocketMessage, WAMP_JSON, WAMP_MSGPACK,
};

verus! {

/// Where to find a router, and which realm to join there.
pub struct Connection {
    realm: URI,
    url: String,
}

impl Connection {
    /// The realm to join.
    pub closed spec fn realm(self) -> URI {
        self.realm
    }

    /// The router's address, as it was given.
    pub closed spec fn address(self) -> Seq<char> {
        self.url@
    }

    /// A connection to be made to the address, for a session in the realm.
    pub fn new(url: &str, realm: &str) -> (connection: Connection)
        ensures
            connection.address() == url@,
            connection.realm()@ == realm@,
    {
        Connection { realm: URI::new(realm), url: url.to_string() }
    }

    /// Whether the URL parser is certain to take the address, be it to accept
    /// or to reject it. It may panic on others: on such as have a label of
    /// hundreds of characters in their host, or more characters than fit into
    /// a signed 32-bit integer.
    pub fn can_connect(&self) -> (r: bool)
        ensures
            r == host_fits(self.address()),
    {
        fits(self.url.as_str())
    }

    /// Begins to connect. Fails on an address that is not an absolute URL.
    pub fn connect(&self) -> (handshake: WampResult<Handshake>)
        requires
            host_fits(self.address()),
        ensures
            match parsed_url(self.address()) {
                Ok(url) => handshake is Ok && handshake->Ok_0.asks(url, self.realm()),
                Err(e) => handshake is Err && handshake->Err_0.kind == ErrorKind::URLError(e),
            },
    {
        self.connect_to(parse_url(self.url.as_str()))
    }

    /// Begins to connect, with the address parsed.
    pub fn connect_to(&self, url: Result<String, UrlError>) -> (handshake: WampResult<Handshake>)
        ensures
            match url {
                Ok(url) => handshake is Ok && handshake->Ok_0.asks(url@, self.realm()),
                Err(e) => handshake is Err && handshake->Err_0.kind == ErrorKind::URLError(e),
            },
    {
        match url {
            Ok(url) => {
                let mut protocols: Vec<String> = Vec::new();
                protocols.push(WAMP_MSGPACK.to_string());
                protocols.push(WAMP_JSON.to_string());
                Ok(Handshake { url, protocols, realm: self.realm.clone() })
            },
            Err(e) => Err(Error::new(ErrorKind::URLError(e))),
        }
    }
}

/// The request that opens the WebSocket.
pub struct Handshake {
    /// The URL to connect to.
    pub url: String,
    /// The subprotocols to offer, the preferred one first.
    pub protocols: Vec<String>,
    /// The realm to join once the WebSocket is open.
    pub realm: URI,
}

/// The subprotocol that the router's answer settles on: the first that it
/// names, and JSON if it names none.
pub open spec fn chosen_protocol(protocols: Option<Vec<String>>) -> Seq<char> {
    match protocols {
        Some(names) => if names@.len() == 0 {
            WAMP_JSON@
        } else {
            names@[0]@
        },
        None => WAMP_JSON@,
    }
}

/// Reads off the router's answer which subprotocol to use.
pub fn choose_protocol(protocols: Option<Vec<String>>) -> (protocol: String)
    ensures
        protocol@ == chosen_protocol(protocols),
{
    match protocols {
        Some(names) => if names.len() == 0 {
            WAMP_JSON.to_string()
        } else {
            names[0].clone()
        },
        None => WAMP_JSON.to_string(),
    }
}

impl Handshake {
    /// Whether this asks for the URL and the realm, and offers MsgPack before JSON.
    pub open spec fn asks(self, url: Seq<char>, realm: URI) -> bool {
        &&& self.url@ == url
        &&& self.realm == realm
        &&& self.protocols@.len() == 2
        &&& self.protocols@[0]@ == WAMP_MSGPACK@
        &&& self.protocols@[1]@ == WAMP_JSON@
    }

    /// Takes in the router's answer: the subprotocols that it names, if its
    /// answer says anything of them, or how the attempt failed.
    pub fn respond(self, response: Result<Option<Vec<String>>, WebSocketError>) -> (r: WampResult<
        Negotiated,
    >)
        ensures
            match response {
                Ok(protocols) => r is Ok && r->Ok_0.protocol@ == chosen_protocol(protocols)
                    && r->Ok_0.realm == self.realm,
                Err(e) => r is Err && r->Err_0.kind == ErrorKind::WebSocketError(e),
            },
    {
        match response {
            Ok(protocols) => Ok(
                Negotiated { protocol: choose_protocol(protocols), realm: self.realm },
            ),
            Err(e) => Err(Error::new(ErrorKind::WebSocketError(e))),
        }
    }
}

/// A WebSocket that is open, with the session still to be opened.
pub struct Negotiated {
    /// The subprotocol to use.
    pub protocol: String,
    /// The realm to join.
    pub realm: URI,
}

impl Negotiated {
    /// The greeting with which the client asks for a session.
    pub fn hello<V>(&self) -> (frame: Frame<V>)
        ensures
            frame == framed(
                Message::<V>::Hello(
                    self.realm,
                    HelloDetails { roles: ClientRoles { publisher: true, subscriber: true } },
                ),
                self.protocol@,
            ),
    {
        let hello = Message::Hello(self.realm.clone(), HelloDetails::new(ClientRoles::new()));
        send_message(hello, self.protocol.as_str())
    }

    /// Takes in the router's reply to the greeting. Only a welcome opens the
    /// session.
    pub fn open<C, F, V>(self, reply: Message<V>) -> (client: WampResult<Client<C, F>>)
        ensures
            match reply {
                Message::Welcome(session_id, _) => client is Ok && client->Ok_0@ == ClientView::<
                    C,
                    F,
                >::opened(self.protocol@, session_id),
                Message::Abort(_, _) => client is Err && client->Err_0.kind
                    == ErrorKind::ConnectionLost,
                _ => client is Err && client->Err_0.kind == ErrorKind::UnexpectedMessage(
                    EXPECTED_WELCOME,
                ),
            },
    {
        match reply {
            Message::Welcome(session_id, _) => Ok(Client::new(self.protocol, session_id)),
            Message::Abort(_, _) => Err(Error::new(ErrorKind::ConnectionLost)),
            _ => Err(Error::new(ErrorKind::UnexpectedMessage(EXPECTED_WELCOME))),
        }
    }
}

/// What the client says of a reply to its greeting that is none.
pub const EXPECTED_WELCOME: &'static str = "Expected Welcome Message";

/// What to do next while the router's reply to the greeting is awaited.
pub enum WelcomeStep<V> {
    /// Read on.
    Wait,
    /// Send this, whether or not that works, and read on.
    Send(Frame<V>),
    /// Decode the text as JSON: that is the reply.
    DecodeJson(String),
    /// Decode the bytes as MsgPack: that is the reply.
    DecodeMsgPack(Vec<u8>),
    /// Give up.
    Fail(Error),
}

impl<V> WelcomeStep<V> {
    /// Whether this is what to do after one turn of reading from the
    /// WebSocket, which gives nothing at the end of the stream.
    pub open spec fn follows(
        self,
        incoming: Option<Result<WebSocketMessage, WebSocketError>>,
    ) -> bool {
        match incoming {
            None => self == WelcomeStep::<V>::Fail(Error { kind: ErrorKind::ConnectionLost }),
            Some(Err(e)) => self == WelcomeStep::<V>::Fail(
                Error { kind: ErrorKind::WebSocketError(e) },
            ),
            Some(Ok(message)) => match message.opcode {
                Opcode::Close => self == WelcomeStep::<V>::Fail(
                    Error { kind: ErrorKind::ConnectionLost },
                ),
                Opcode::Text => if valid_utf8(message.payload@) {
                    self is DecodeJson && self->DecodeJson_0@ == decode_utf8(message.payload@)
                } else {
                    self == WelcomeStep::<V>::Fail(Error { kind: ErrorKind::MalformedData })
                },
                Opcode::Binary => self == WelcomeStep::<V>::DecodeMsgPack(message.payload),
                Opcode::Ping => self == WelcomeStep::<V>::Send(Frame::Pong(message.payload)),
                Opcode::Pong => self is Wait,
            },
        }
    }

    /// Whether the reply is still awaited.
    pub open spec fn waits(self) -> bool {
        self is Wait || self is Send
    }
}

/// Takes in what one turn of reading from the WebSocket gave while the
/// router's reply to the greeting is awaited.
pub fn handle_welcome_message<V>(
    incoming: Option<Result<WebSocketMessage, WebSocketError>>,
) -> (step: WelcomeStep<V>)
    ensures
        step.follows(incoming),
{
    let message = match incoming {
        None => return WelcomeStep::Fail(Error::new(ErrorKind::ConnectionLost)),
        Some(Err(e)) => return WelcomeStep::Fail(Error::new(ErrorKind::WebSocketError(e))),
        Some(Ok(message)) => message,
    };
    match message.opcode {
        Opcode::Close => WelcomeStep::Fail(Error::new(ErrorKind::ConnectionLost)),
        Opcode::Text => match payload_text(&message.payload) {
            Some(text) => WelcomeStep::DecodeJson(text),
            None => WelcomeStep::Fail(Error::new(ErrorKind::MalformedData)),
        },
        Opcode::Binary => WelcomeStep::DecodeMsgPack(message.payload),
        Opcode::Ping => WelcomeStep::Send(Frame::Pong(message.payload)),
        Opcode::Pong => WelcomeStep::Wait,
    }
}

/// The reply to the greeting, if it came as JSON.
pub fn welcome_from_json<V>(decoded: Result<Message<V>, serde_json::Error>) -> (reply: WampResult<
    Message<V>,
>)
    ensures
        match decoded {
            Ok(message) => reply is Ok && reply->Ok_0 == message,
            Err(e) => reply is Err && reply->Err_0.kind == ErrorKind::JSONError(e),
        },
{
    match decoded {
        Ok(message) => Ok(message),
        Err(e) => Err(Error::new(ErrorKind::JSONError(e))),
    }
}

/// The reply to the greeting, if it came as MsgPack.
pub fn welcome_from_msgpack<V>(
    decoded: Result<Message<V>, rmp_serde::decode::Error>,
) -> (reply: WampResult<Message<V>>)
    ensures
        match decoded {
            Ok(message) => reply is Ok && reply->Ok_0 == message,
            Err(e) => reply is Err && reply->Err_0.kind == ErrorKind::MsgPackError(e),
        },
{
    match decoded {
        Ok(message) => Ok(message),
        Err(e) => Err(Error::new(ErrorKind::MsgPackError(e))),
    }
}

/// Where the reading of a session's messages stands: what the answer to the
/// last action is about to decide.
#[derive(Debug, Clone, Copy, PartialEq, Eq, Structural)]
pub enum RecvPhase {
    /// A WebSocket message is being read.
    Receiving,
    /// A payload is being decoded.
    Decoding,
    /// Something is being done, after which reading goes on.
    Resuming,
    /// Something is being done, after which the connection ends.
    Leaving,
    /// The last frame is being sent.
    Closing,
    /// The WebSocket is being shut down.
    ShuttingDown,
    /// The promise that the session ends is being kept.
    Completing,
    /// It is all over.
    Finished,
}

/// The answer to an action.
pub enum RecvEvent<V> {
    /// What reading from the WebSocket gave: nothing at the end of the stream.
    Incoming(Option<Result<WebSocketMessage, WebSocketError>>),
    /// The message that a payload held, if it held one.
    Decoded(Option<Message<V>>),
    /// The action has been carried out.
    Done,
}

/// What to do next while a session lasts.
pub enum RecvAction<V> {
    /// Read from the WebSocket.
    Receive,
    /// Decode the text as JSON.
    DecodeJson(String),
    /// Decode the bytes as MsgPack.
    DecodeMsgPack(Vec<u8>),
    /// Send this, whether or not that works.
    Send(Frame<V>),
    /// Send this. If that fails, so does everything.
    SendOrFail(Frame<V>),
    /// Do as the message asks.
    React(Reaction<V>),
    /// Shut down both directions of the WebSocket.
    Shutdown,
    /// Keep the promise: the session is over.
    Complete(Complete<(), Error>),
    /// Nothing is left to do.
    Finish,
}

/// The mathematical content of a `RecvAction`.
pub enum RecvActionView<V> {
    Receive,
    DecodeJson(Seq<char>),
    DecodeMsgPack(Vec<u8>),
    Send(Frame<V>),
    SendOrFail(Frame<V>),
    React(ReactionView<V>),
    Shutdown,
    Complete(Complete<(), Error>),
    Finish,
}

impl<V> View for RecvAction<V> {
    type V = RecvActionView<V>;

    open spec fn view(&self) -> RecvActionView<V> {
        match *self {
            RecvAction::Receive => RecvActionView::Receive,
            RecvAction::DecodeJson(text) => RecvActionView::DecodeJson(text@),
            RecvAction::DecodeMsgPack(bytes) => RecvActionView::DecodeMsgPack(bytes),
            RecvAction::Send(frame) => RecvActionView::Send(frame),
            RecvAction::SendOrFail(frame) => RecvActionView::SendOrFail(frame),
            RecvAction::React(reaction) => RecvActionView::React(reaction@),
            RecvAction::Shutdown => RecvActionView::Shutdown,
            RecvAction::Complete(promise) => RecvActionView::Complete(promise),
            RecvAction::Finish => RecvActionView::Finish,
        }
    }
}

/// The phase, the session and the action that an event leads to.
pub struct RecvNext<C, F, V> {
    pub phase: RecvPhase,
    pub session: SessionView<C, F>,
    pub action: RecvActionView<V>,
}

/// Reading goes on.
pub open spec fn read_on<C, F, V>(session: SessionView<C, F>) -> RecvNext<C, F, V> {
    RecvNext { phase: RecvPhase::Receiving, session, action: RecvActionView::Receive }
}

/// The connection ends: a last frame goes out.
pub open spec fn close<C, F, V>(session: SessionView<C, F>) -> RecvNext<C, F, V> {
    RecvNext {
        phase: RecvPhase::Closing,
        session: SessionView { state: ConnectionState::Disconnected, ..session },
        action: RecvActionView::SendOrFail(Frame::Close),
    }
}

/// What follows a turn of reading from the WebSocket.
pub open spec fn after_incoming<C, F, V>(
    session: SessionView<C, F>,
    incoming: Option<Result<WebSocketMessage, WebSocketError>>,
) -> RecvNext<C, F, V> {
    let leave = RecvNext {
        phase: RecvPhase::Leaving,
        session,
        action: RecvActionView::Send(Frame::Close),
    };
    match incoming {
        None => close(session),
        Some(Err(_)) => leave,
        Some(Ok(message)) => match message.opcode {
            Opcode::Close => leave,
            Opcode::Text => if valid_utf8(message.payload@) {
                RecvNext {
                    phase: RecvPhase::Decoding,
                    session,
                    action: RecvActionView::DecodeJson(decode_utf8(message.payload@)),
                }
            } else {
                read_on(session)
            },
            Opcode::Binary => RecvNext {
                phase: RecvPhase::Decoding,
                session,
                action: RecvActionView::DecodeMsgPack(message.payload),
            },
            Opcode::Ping => RecvNext {
                phase: RecvPhase::Resuming,
                session,
                action: RecvActionView::Send(Frame::Pong(message.payload)),
            },
            Opcode::Pong => read_on(session),
        },
    }
}

/// What follows the decoding of a payload: the message is taken in, and what
/// could not be decoded is passed over.
pub open spec fn after_decoding<C, F, V>(
    session: SessionView<C, F>,
    decoded: Option<Message<V>>,
) -> RecvNext<C, F, V> {
    match decoded {
        None => read_on(session),
        Some(message) => RecvNext {
            phase: if message is Goodbye {
                RecvPhase::Leaving
            } else {
                RecvPhase::Resuming
            },
            session: session.after(message),
            action: RecvActionView::React(session.reaction(message)),
        },
    }
}

/// What follows the shutdown of the WebSocket: the promise that the session
/// ends is kept, if it has not been kept before.
pub open spec fn after_shutdown<C, F, V>(session: SessionView<C, F>) -> RecvNext<C, F, V> {
    let over = SessionView { shutdown_complete: None, ..session };
    match session.shutdown_complete {
        Some(promise) => RecvNext {
            phase: RecvPhase::Completing,
            session: over,
            action: RecvActionView::Complete(promise),
        },
        None => RecvNext {
            phase: RecvPhase::Finished,
            session: over,
            action: RecvActionView::Finish,
        },
    }
}

impl RecvPhase {
    /// Whether the event can answer the action that is under way.
    pub open spec fn accepts<V>(self, event: RecvEvent<V>) -> bool {
        match self {
            RecvPhase::Receiving => event is Incoming,
            RecvPhase::Decoding => event is Decoded,
            RecvPhase::Finished => false,
            _ => event is Done,
        }
    }

    /// What an event leads to.
    pub open spec fn next<C, F, V>(
        self,
        session: SessionView<C, F>,
        event: RecvEvent<V>,
    ) -> RecvNext<C, F, V>
        recommends
            self.accepts(event),
    {
        match self {
            RecvPhase::Receiving => after_incoming(session, event->Incoming_0),
            RecvPhase::Decoding => after_decoding(session, event->Decoded_0),
            RecvPhase::Resuming => read_on(session),
            RecvPhase::Leaving => close(session),
            RecvPhase::Closing => RecvNext {
                phase: RecvPhase::ShuttingDown,
                session,
                action: RecvActionView::Shutdown,
            },
            RecvPhase::ShuttingDown => after_shutdown(session),
            _ => RecvNext { phase: RecvPhase::Finished, session, action: RecvActionView::Finish },
        }
    }

    /// Whether the event can answer the action that is under way.
    pub fn is_answered_by<V>(&self, event: &RecvEvent<V>) -> (r: bool)
        ensures
            r == self.accepts(*event),
    {
        match self {
            RecvPhase::Receiving => matches!(event, RecvEvent::Incoming(_)),
            RecvPhase::Decoding => matches!(event, RecvEvent::Decoded(_)),
            RecvPhase::Finished => false,
            _ => matches!(event, RecvEvent::Done),
        }
    }
}

impl Connection {
    /// Begins to read the messages of a session.
    pub fn start_recv_loop<V>() -> (r: (RecvPhase, RecvAction<V>))
        ensures
            r.0 == RecvPhase::Receiving,
            r.1@ == RecvActionView::<V>::Receive,
    {
        (RecvPhase::Receiving, RecvAction::Receive)
    }

    /// Takes in the answer to the last action and says what to do next.
    pub fn recv_step<C, F, V>(
        phase: RecvPhase,
        event: RecvEvent<V>,
        connection_info: &mut ConnectionInfo<C, F>,
    ) -> (r: (RecvPhase, RecvAction<V>))
        requires
            phase.accepts(event),
        ensures
            r.0 == phase.next(old(connection_info)@, event).phase,
            final(connection_info)@ == phase.next(old(connection_info)@, event).session,
            forall|last: ID|
                old(connection_info)@.well_formed(last)
                    ==> #[trigger] final(connection_info)@.well_formed(last),
            r.1@ == phase.next(old(connection_info)@, event).action,
    {
        match event {
            RecvEvent::Incoming(incoming) => Connection::receive(incoming, connection_info),
            RecvEvent::Decoded(None) => (RecvPhase::Receiving, RecvAction::Receive),
            RecvEvent::Decoded(Some(message)) => {
                let (go_on, reaction) = Connection::handle_message(message, connection_info);
                let next = if go_on {
                    RecvPhase::Resuming
                } else {
                    RecvPhase::Leaving
                };
                (next, RecvAction::React(reaction))
            },
            RecvEvent::Done => match phase {
                RecvPhase::Resuming => (RecvPhase::Receiving, RecvAction::Receive),
                RecvPhase::Leaving => {
                    connection_info.disconnect();
                    (RecvPhase::Closing, RecvAction::SendOrFail(Frame::Close))
                },
                RecvPhase::Closing => (RecvPhase::ShuttingDown, RecvAction::Shutdown),
                RecvPhase::ShuttingDown => match connection_info.finish() {
                    Some(promise) => (RecvPhase::Completing, RecvAction::Complete(promise)),
                    None => (RecvPhase::Finished, RecvAction::Finish),
                },
                _ => (RecvPhase::Finished, RecvAction::Finish),
            },
        }
    }

    /// Takes in what a turn of reading from the WebSocket gave.
    fn receive<C, F, V>(
        incoming: Option<Result<WebSocketMessage, WebSocketError>>,
        connection_info: &mut ConnectionInfo<C, F>,
    ) -> (r: (RecvPhase, RecvAction<V>))
        ensures
            r.0 == after_incoming::<C, F, V>(old(connection_info)@, incoming).phase,
            final(connection_info)@ == after_incoming::<C, F, V>(
                old(connection_info)@,
                incoming,
            ).session,
            r.1@ == after_incoming::<C, F, V>(old(connection_info)@, incoming).action,
    {
        let message = match incoming {
            None => {
                connection_info.disconnect();
                return (RecvPhase::Closing, RecvAction::SendOrFail(Frame::Close));
            },
            Some(Err(_)) => return (RecvPhase::Leaving, RecvAction::Send(Frame::Close)),
            Some(Ok(message)) => message,
        };
        match message.opcode {
            Opcode::Close => (RecvPhase::Leaving, RecvAction::Send(Frame::Close)),
            Opcode::Text => match payload_text(&message.payload) {
                Some(text) => (RecvPhase::Decoding, RecvAction::DecodeJson(text)),
                None => (RecvPhase::Receiving, RecvAction::Receive),
            },
            Opcode::Binary => (RecvPhase::Decoding, RecvAction::DecodeMsgPack(message.payload)),
            Opcode::Ping => (
                RecvPhase::Resuming,
                RecvAction::Send(Frame::Pong(message.payload)),
            ),
            Opcode::Pong => (RecvPhase::Receiving, RecvAction::Receive),
        }
    }
}

} // verus!
