//! What passes over the WebSocket, seen from both ends of the wire.
use vstd::prelude::*;
use vstd::utf8::{decode_utf8, valid_utf8};
use websocket::WebSocketError;

use crate::error::{Error, ErrorKind, WampResult};
use crate::messages::Message;

verus! {

/// The subprotocol in which messages are JSON texts.
pub const WAMP_JSON: &'static str = "wamp.2.json";

/// The subprotocol in which messages are MsgPack.
pub const WAMP_MSGPACK: &'static str = "wamp.2.msgpack";

/// The kind of a WebSocket message.
#[derive(Debug, Clone, Copy, PartialEq, Eq, Structural)]
pub enum Opcode {
    Text,
    Binary,
    Ping,
    Pong,
    Close,
}

/// A WebSocket message as it comes in.
#[derive(Debug)]
pub struct WebSocketMessage {
    pub opcode: Opcode,
    pub payload: Vec<u8>,
}

/// What to put on the wire.
#[derive(Debug)]
pub enum Frame<V> {
    /// A text message that holds the message in JSON.
    Text(Message<V>),
    /// A binary message that holds the message in MsgPack.
    Binary(Message<V>),
    /// The answer to a ping, with this payload.
    Pong(Vec<u8>),
    /// The announcement that the connection ends.
    Close,
}

/// How a message goes out under a subprotocol: as MsgPack under
/// `wamp.2.msgpack`, as JSON under every other.
pub open spec fn framed<V>(message: Message<V>, protocol: Seq<char>) -> Frame<V> {
    if protocol == WAMP_MSGPACK@ {
        Frame::Binary(message)
    } else {
        Frame::Text(message)
    }
}

/// Frames a message for the subprotocol.
pub fn send_message<V>(message: Message<V>, protocol: &str) -> (frame: Frame<V>)
    ensures
        frame == framed(message, protocol@),
{
    if protocol.to_string() == WAMP_MSGPACK.to_string() {
        send_message_msgpack(message)
    } else {
        send_message_json(message)
    }
}

/// Frames a message as JSON.
pub fn send_message_json<V>(message: Message<V>) -> (frame: Frame<V>)
    ensures
        frame == Frame::Text(message),
{
    Frame::Text(message)
}

/// Frames a message as MsgPack.
pub fn send_message_msgpack<V>(message: Message<V>) -> (frame: Frame<V>)
    ensures
        frame == Frame::Binary(message),
{
    Frame::Binary(message)
}

/// What follows an attempt to put a message on the wire. If it failed, the
/// connection is to be closed, and the failure is the error of the operation.
pub fn after_send<V>(sent: Result<(), WebSocketError>) -> (r: (Option<Frame<V>>, WampResult<()>))
    ensures
        sent is Ok ==> r.0 is None && r.1 is Ok,
        sent matches Err(e) ==> r.0 == Some(Frame::<V>::Close) && r.1 is Err && r.1->Err_0.kind
            == ErrorKind::WebSocketError(e),
{
    match sent {
        Ok(()) => (None, Ok(())),
        Err(e) => (Some(Frame::Close), Err(Error::new(ErrorKind::WebSocketError(e)))),
    }
}

/// The text that a payload holds, if it is valid UTF-8.
pub fn payload_text(payload: &Vec<u8>) -> (text: Option<String>)
    ensures
        match text {
            Some(t) => valid_utf8(payload@) && t@ == decode_utf8(payload@),
            None => !valid_utf8(payload@),
        },
{
    match std::str::from_utf8(payload.as_slice()) {
        Ok(text) => Some(text.to_string()),
        Err(_) => None,
    }
}

} // verus!
