//! The errors that the client reports.
use vstd::prelude::*;

verus! {

/// Why a text is not an absolute URL.
#[derive(Debug, Clone, Copy, PartialEq, Eq, Structural)]
pub enum UrlError {
    EmptyHost,
    IdnaError,
    InvalidPort,
    InvalidIpv4Address,
    InvalidIpv6Address,
    InvalidDomainCharacter,
    RelativeUrlWithoutBase,
    RelativeUrlWithCannotBeABaseBase,
    SetHostOnCannotBeABaseUrl,
    Overflow,
}

/// What went wrong.
#[derive(Debug)]
pub enum ErrorKind {
    /// The WebSocket failed.
    WebSocketError(websocket::WebSocketError),
    /// The address to connect to is not a URL.
    URLError(UrlError),
    /// A text message does not hold a WAMP message in JSON.
    JSONError(serde_json::Error),
    /// A binary message does not hold a WAMP message in MsgPack.
    MsgPackError(rmp_serde::decode::Error),
    /// The other side closed the connection, or refused the session.
    ConnectionLost,
    /// A text message is not valid UTF-8.
    MalformedData,
    /// The router sent a message that makes no sense at this point.
    UnexpectedMessage(&'static str),
    /// The client is not in a state in which the operation makes sense.
    InvalidState(String),
}

/// An error of the client.
#[derive(Debug)]
pub struct Error {
    pub kind: ErrorKind,
}

impl Error {
    pub fn new(kind: ErrorKind) -> (error: Error)
        ensures
            error.kind == kind,
    {
        Error { kind }
    }
}

/// What an operation of the client gives.
pub type WampResult<T> = Result<T, Error>;

} // verus!
