//! The messages that client and router exchange.
use std::collections::HashMap;
use vstd::prelude::*;

verus! {

/// A number that names a session, a request, a subscription or a publication.
pub type ID = u64;

/// Positional arguments. What an argument is, is up to the user of the library.
pub type List<V> = Vec<V>;

/// Keyword arguments, or details of a message.
pub type Dict<V> = HashMap<String, V>;

/// A name on the router: of a realm, a topic or a reason.
#[derive(Debug)]
pub struct URI {
    pub uri: String,
}

impl View for URI {
    type V = Seq<char>;

    open spec fn view(&self) -> Seq<char> {
        self.uri@
    }
}

impl URI {
    pub fn new(uri: &str) -> (r: URI)
        ensures
            r@ == uri@,
    {
        URI { uri: uri.to_string() }
    }
}

/// A name is its text, as it is.
pub proof fn law_names_are_their_text(name: URI)
    ensures
        name@ == name.uri@,
{
}

impl Clone for URI {
    fn clone(&self) -> (r: URI)
        ensures
            r == *self,
    {
        URI { uri: self.uri.clone() }
    }
}

/// The roles that the client plays: it publishes and it subscribes.
#[derive(Debug, Clone, Copy, PartialEq, Eq, Structural)]
pub struct ClientRoles {
    pub publisher: bool,
    pub subscriber: bool,
}

impl ClientRoles {
    pub fn new() -> (roles: ClientRoles)
        ensures
            roles == (ClientRoles { publisher: true, subscriber: true }),
    {
        ClientRoles { publisher: true, subscriber: true }
    }
}

/// What the client says of itself when it greets the router.
#[derive(Debug, Clone, Copy, PartialEq, Eq, Structural)]
pub struct HelloDetails {
    pub roles: ClientRoles,
}

impl HelloDetails {
    pub fn new(roles: ClientRoles) -> (details: HelloDetails)
        ensures
            details == (HelloDetails { roles }),
    {
        HelloDetails { roles }
    }
}

/// What accompanies the end of a session.
#[derive(Debug)]
pub struct ErrorDetails {
    pub message: Option<String>,
}

impl ErrorDetails {
    pub fn new() -> (details: ErrorDetails)
        ensures
            details == (ErrorDetails { message: None }),
    {
        ErrorDetails { message: None }
    }
}

/// How to subscribe: with no option set, to the topic exactly as it is named.
#[derive(Debug, Clone, Copy, PartialEq, Eq, Structural)]
pub struct SubscribeOptions {}

impl SubscribeOptions {
    pub fn new() -> (options: SubscribeOptions)
        ensures
            options == (SubscribeOptions {  }),
    {
        SubscribeOptions {  }
    }
}

/// How to publish: whether the router is to confirm.
#[derive(Debug, Clone, Copy, PartialEq, Eq, Structural)]
pub struct PublishOptions {
    pub acknowledge: bool,
}

impl PublishOptions {
    pub fn new(acknowledge: bool) -> (options: PublishOptions)
        ensures
            options == (PublishOptions { acknowledge }),
    {
        PublishOptions { acknowledge }
    }
}

/// Why a session ends or does not begin.
#[derive(Debug)]
pub enum Reason {
    RealmDoesNotExist,
    SystemShutdown,
    CloseRealm,
    GoodbyeAndOut,
    CustomReason(URI),
}

/// A message of the protocol.
#[derive(Debug)]
pub enum Message<V> {
    /// The realm to join, and what the client is.
    Hello(URI, HelloDetails),
    /// The session, and what the router is.
    Welcome(ID, Dict<V>),
    Abort(ErrorDetails, Reason),
    Goodbye(ErrorDetails, Reason),
    /// The kind of the request that failed, the request, and why.
    Error(ID, ID, Dict<V>, Reason, Option<List<V>>, Option<Dict<V>>),
    /// The request, how, and the topic.
    Subscribe(ID, SubscribeOptions, URI),
    /// The request and the subscription.
    Subscribed(ID, ID),
    /// The request and the subscription.
    Unsubscribe(ID, ID),
    /// The request.
    Unsubscribed(ID),
    /// The request, how, the topic and the arguments.
    Publish(ID, PublishOptions, URI, Option<List<V>>, Option<Dict<V>>),
    /// The request and the publication.
    Published(ID, ID),
    /// The subscription, the publication, details and the arguments.
    Event(ID, ID, Dict<V>, Option<List<V>>, Option<Dict<V>>),
}

} // verus!
