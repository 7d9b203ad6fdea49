//! The client side of the Web Application Messaging Protocol (WAMP): opening a
//! session, subscribing, publishing and shutting down, over a WebSocket.
//!
//! The library decides and keeps the session's state. It performs no input or
//! output: it says which frame to send or which payload to decode, and takes
//! what came back.
pub mod address;
pub mod calls;
pub mod client;
pub mod connection;
pub mod decimal;
pub mod error;
pub mod laws;
pub mod messages;
pub mod outside;
pub mod runs;
pub mod transport;

pub use client::{
    Client, ConnectionInfo, ConnectionState, PendingSubscription, PendingUnsubscription, Reaction,
    Subscription,
};
pub use connection::{
    Connection, Handshake, Negotiated, RecvAction, RecvEvent, RecvPhase, WelcomeStep,
};
pub use error::{Error, ErrorKind, UrlError, WampResult};
pub use messages::{
    ClientRoles, Dict, ErrorDetails, HelloDetails, List, Message, PublishOptions, Reason,
    SubscribeOptions, ID, URI,
};
pub use transport::{Frame, Opcode, WebSocketMessage, WAMP_JSON, WAMP_MSGPACK};
