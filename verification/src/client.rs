//! The state of a session and what the client does with it.
use std::collections::HashMap;

use eventual::{Complete, Future};
use vstd::prelude::*;
use vstd::string::*;

use crate::connection::Connection;
use crate::decimal::{decimal, decimal_string};
use crate::error::{Error, ErrorKind, WampResult};
use crate::messages::{
    Dict, ErrorDetails, List, Message, PublishOptions, Reason, SubscribeOptions, ID, URI,
};
use crate::outside::{
    completion_promise, settles_completion, settles_subscription, subscription_promise,
};
use crate::transport::{framed, send_message, Frame};

verus! {

broadcast use vstd::std_specs::hash::group_hash_axioms;

/// How far a session has come.
#[derive(Debug, Clone, Copy, PartialEq, Eq, Structural)]
pub enum ConnectionState {
    /// The session is open.
    Connected,
    /// The client has said goodbye and waits for the router to do so.
    ShuttingDown,
    /// The connection is gone.
    Disconnected,
}

/// What the two ends of a session share: the requests that wait for the
/// router's reply, what is subscribed, and how far the session has come.
/// `C` is called with the events of a subscription, `F` with the topic of an
/// acknowledged publication.
pub struct ConnectionInfo<C, F> {
    connection_state: ConnectionState,
    subscription_requests: HashMap<ID, Complete<ID, Error>>,
    unsubscription_requests: HashMap<ID, Complete<(), Error>>,
    subscriptions: HashMap<ID, C>,
    publish_ids_to_topics: HashMap<ID, URI>,
    protocol: String,
    published_callbacks: Vec<F>,
    shutdown_complete: Option<Complete<(), Error>>,
}

/// The mathematical content of a `ConnectionInfo`.
#[verifier::ext_equal]
pub struct SessionView<C, F> {
    pub state: ConnectionState,
    /// The promises of the subscriptions that the router has not confirmed.
    pub subscription_requests: Map<ID, Complete<ID, Error>>,
    /// The promises of the cancellations that the router has not confirmed.
    pub unsubscription_requests: Map<ID, Complete<(), Error>>,
    /// Whom to call with the events of a subscription.
    pub subscriptions: Map<ID, C>,
    /// The topics of the publications that the router was asked to acknowledge.
    pub publish_ids_to_topics: Map<ID, URI>,
    pub protocol: Seq<char>,
    /// Whom to call when the router acknowledges a publication.
    pub published_callbacks: Seq<F>,
    /// The promise to keep when the session is over.
    pub shutdown_complete: Option<Complete<(), Error>>,
}

impl<C, F> View for ConnectionInfo<C, F> {
    type V = SessionView<C, F>;

    closed spec fn view(&self) -> SessionView<C, F> {
        SessionView {
            state: self.connection_state,
            subscription_requests: self.subscription_requests@,
            unsubscription_requests: self.unsubscription_requests@,
            subscriptions: self.subscriptions@,
            publish_ids_to_topics: self.publish_ids_to_topics@,
            protocol: self.protocol@,
            published_callbacks: self.published_callbacks@,
            shutdown_complete: self.shutdown_complete,
        }
    }
}

/// What a message of the router asks the client to do.
pub enum Reaction<V> {
    /// Nothing.
    Nothing,
    /// Keep the promise: the subscription has this ID.
    CompleteSubscription(Complete<ID, Error>, ID),
    /// Keep the promise: the subscription is cancelled.
    CompleteUnsubscription(Complete<(), Error>),
    /// Call the callback of the subscription with these arguments.
    Deliver(ID, List<V>, Dict<V>),
    /// Call every callback for acknowledged publications with this topic.
    NotifyPublished(URI),
    /// Answer the router.
    Reply(Frame<V>),
    /// Keep the promise: the session is over.
    CompleteShutdown(Complete<(), Error>),
}

/// The mathematical content of a `Reaction`.
pub enum ReactionView<V> {
    Nothing,
    CompleteSubscription(Complete<ID, Error>, ID),
    CompleteUnsubscription(Complete<(), Error>),
    Deliver(ID, Seq<V>, Map<String, V>),
    NotifyPublished(URI),
    Reply(Frame<V>),
    CompleteShutdown(Complete<(), Error>),
}

impl<V> View for Reaction<V> {
    type V = ReactionView<V>;

    open spec fn view(&self) -> ReactionView<V> {
        match *self {
            Reaction::Nothing => ReactionView::Nothing,
            Reaction::CompleteSubscription(promise, id) => ReactionView::CompleteSubscription(
                promise,
                id,
            ),
            Reaction::CompleteUnsubscription(promise) => ReactionView::CompleteUnsubscription(
                promise,
            ),
            Reaction::Deliver(id, args, kwargs) => ReactionView::Deliver(id, args@, kwargs@),
            Reaction::NotifyPublished(topic) => ReactionView::NotifyPublished(topic),
            Reaction::Reply(frame) => ReactionView::Reply(frame),
            Reaction::CompleteShutdown(promise) => ReactionView::CompleteShutdown(promise),
        }
    }
}

/// Positional arguments that a message may leave out.
pub open spec fn list_or_empty<V>(args: Option<List<V>>) -> Seq<V> {
    match args {
        Some(list) => list@,
        None => Seq::empty(),
    }
}

/// Keyword arguments that a message may leave out.
pub open spec fn dict_or_empty<V>(kwargs: Option<Dict<V>>) -> Map<String, V> {
    match kwargs {
        Some(dict) => dict@,
        None => Map::empty(),
    }
}

/// The client's own way to say goodbye.
pub open spec fn goodbye<V>(reason: Reason) -> Message<V> {
    Message::Goodbye(ErrorDetails { message: None }, reason)
}

impl<C, F> SessionView<C, F> {
    /// Whether no request waits under this number, of whatever kind.
    pub open spec fn unused(self, request_id: ID) -> bool {
        &&& !self.subscription_requests.contains_key(request_id)
        &&& !self.unsubscription_requests.contains_key(request_id)
        &&& !self.publish_ids_to_topics.contains_key(request_id)
    }

    /// What holds of every session whose last request had the number `last`.
    pub open spec fn well_formed(self, last: ID) -> bool {
        // Every request that waits has one of the numbers up to the last, and
        // no number stands for requests of different kinds.
        &&& forall|id: ID| #[trigger]
            self.subscription_requests.contains_key(id) ==> {
                &&& 1 <= id <= last
                &&& !self.unsubscription_requests.contains_key(id)
                &&& !self.publish_ids_to_topics.contains_key(id)
            }
        &&& forall|id: ID| #[trigger]
            self.unsubscription_requests.contains_key(id) ==> {
                &&& 1 <= id <= last
                &&& !self.publish_ids_to_topics.contains_key(id)
            }
        // Acknowledgements are asked for only if someone wants to hear of them.
        &&& forall|id: ID| #[trigger]
            self.publish_ids_to_topics.contains_key(id) ==> {
                &&& 1 <= id <= last
                &&& self.published_callbacks.len() > 0
            }
        // Nobody waits for the end of a session that nobody has ended.
        &&& self.state == ConnectionState::Connected ==> self.shutdown_complete is None
    }

    /// A session that has just been opened.
    pub open spec fn opened(protocol: Seq<char>) -> Self {
        SessionView {
            state: ConnectionState::Connected,
            subscription_requests: Map::empty(),
            unsubscription_requests: Map::empty(),
            subscriptions: Map::empty(),
            publish_ids_to_topics: Map::empty(),
            protocol,
            published_callbacks: Seq::empty(),
            shutdown_complete: None,
        }
    }

    /// The session after a message of the router: a confirmed request no
    /// longer waits, and the router's answer to the client's goodbye uses up
    /// the promise that the session ends.
    pub open spec fn after<V>(self, message: Message<V>) -> Self {
        match message {
            Message::Subscribed(request_id, _) => SessionView {
                subscription_requests: self.subscription_requests.remove(request_id),
                ..self
            },
            Message::Unsubscribed(request_id) => SessionView {
                unsubscription_requests: self.unsubscription_requests.remove(request_id),
                ..self
            },
            Message::Goodbye(_, _) => if self.state == ConnectionState::ShuttingDown {
                SessionView { shutdown_complete: None, ..self }
            } else {
                self
            },
            _ => self,
        }
    }

    /// The session once a request to cancel a subscription is out.
    pub open spec fn awaiting_unsubscription(
        self,
        request_id: ID,
        promise: Complete<(), Error>,
    ) -> Self {
        SessionView {
            unsubscription_requests: self.unsubscription_requests.insert(request_id, promise),
            ..self
        }
    }

    /// What a message of the router asks the client to do.
    pub open spec fn reaction<V>(self, message: Message<V>) -> ReactionView<V> {
        match message {
            Message::Subscribed(request_id, subscription_id) =>
                if self.subscription_requests.contains_key(request_id) {
                    ReactionView::CompleteSubscription(
                        self.subscription_requests[request_id],
                        subscription_id,
                    )
                } else {
                    ReactionView::Nothing
                },
            Message::Unsubscribed(request_id) =>
                if self.unsubscription_requests.contains_key(request_id) {
                    ReactionView::CompleteUnsubscription(self.unsubscription_requests[request_id])
                } else {
                    ReactionView::Nothing
                },
            Message::Event(subscription_id, _, _, args, kwargs) =>
                if self.subscriptions.contains_key(subscription_id) {
                    ReactionView::Deliver(
                        subscription_id,
                        list_or_empty(args),
                        dict_or_empty(kwargs),
                    )
                } else {
                    ReactionView::Nothing
                },
            Message::Published(request_id, _) =>
                if self.publish_ids_to_topics.contains_key(request_id) {
                    ReactionView::NotifyPublished(self.publish_ids_to_topics[request_id])
                } else {
                    ReactionView::Nothing
                },
            Message::Goodbye(_, _) => match self.state {
                ConnectionState::Connected => ReactionView::Reply(
                    framed(goodbye(Reason::GoodbyeAndOut), self.protocol),
                ),
                ConnectionState::ShuttingDown => match self.shutdown_complete {
                    Some(promise) => ReactionView::CompleteShutdown(promise),
                    None => ReactionView::Nothing,
                },
                ConnectionState::Disconnected => ReactionView::Nothing,
            },
            _ => ReactionView::Nothing,
        }
    }
}

impl<C, F> ConnectionInfo<C, F> {
    /// A session that has just been opened under the subprotocol.
    pub fn new(protocol: String) -> (info: Self)
        ensures
            info@ == SessionView::<C, F>::opened(protocol@),
    {
        ConnectionInfo {
            connection_state: ConnectionState::Connected,
            subscription_requests: HashMap::new(),
            unsubscription_requests: HashMap::new(),
            subscriptions: HashMap::new(),
            publish_ids_to_topics: HashMap::new(),
            protocol,
            published_callbacks: Vec::new(),
            shutdown_complete: None,
        }
    }
}

impl Connection {
    /// Takes in a message of the router. The first result says whether to go
    /// on reading: a goodbye is the last message of a session.
    pub fn handle_message<C, F, V>(
        message: Message<V>,
        connection_info: &mut ConnectionInfo<C, F>,
    ) -> (r: (bool, Reaction<V>))
        ensures
            final(connection_info)@ == old(connection_info)@.after(message),
            forall|last: ID|
                old(connection_info)@.well_formed(last)
                    ==> #[trigger] final(connection_info)@.well_formed(last),
            r.0 == !(message is Goodbye),
            r.1@ == old(connection_info)@.reaction(message),
    {
        match message {
            Message::Subscribed(request_id, subscription_id) => {
                match connection_info.subscription_requests.remove(&request_id) {
                    Some(promise) => (
                        true,
                        Reaction::CompleteSubscription(promise, subscription_id),
                    ),
                    None => (true, Reaction::Nothing),
                }
            },
            Message::Unsubscribed(request_id) => {
                match connection_info.unsubscription_requests.remove(&request_id) {
                    Some(promise) => (true, Reaction::CompleteUnsubscription(promise)),
                    None => (true, Reaction::Nothing),
                }
            },
            Message::Event(subscription_id, _, _, args, kwargs) => {
                let args = match args {
                    Some(list) => list,
                    None => Vec::new(),
                };
                let kwargs = match kwargs {
                    Some(dict) => dict,
                    None => HashMap::new(),
                };
                if connection_info.subscriptions.contains_key(&subscription_id) {
                    (true, Reaction::Deliver(subscription_id, args, kwargs))
                } else {
                    (true, Reaction::Nothing)
                }
            },
            Message::Published(request_id, _) => {
                match connection_info.publish_ids_to_topics.get(&request_id) {
                    Some(topic) => (true, Reaction::NotifyPublished(topic.clone())),
                    None => (true, Reaction::Nothing),
                }
            },
            Message::Goodbye(_, _) => match connection_info.connection_state {
                ConnectionState::Connected => {
                    let reply = Message::Goodbye(ErrorDetails::new(), Reason::GoodbyeAndOut);
                    (false, Reaction::Reply(send_message(reply, connection_info.protocol.as_str())))
                },
                ConnectionState::ShuttingDown => match connection_info.shutdown_complete.take() {
                    Some(promise) => (false, Reaction::CompleteShutdown(promise)),
                    None => (false, Reaction::Nothing),
                },
                ConnectionState::Disconnected => (false, Reaction::Nothing),
            },
            _ => (true, Reaction::Nothing),
        }
    }
}

impl<C, F> ConnectionInfo<C, F> {
    /// Whom to call with the events of a subscription.
    pub fn event_callback(&self, subscription_id: ID) -> (callback: Option<&C>)
        ensures
            match callback {
                Some(c) => self@.subscriptions.contains_key(subscription_id)
                    && *c == self@.subscriptions[subscription_id],
                None => !self@.subscriptions.contains_key(subscription_id),
            },
    {
        self.subscriptions.get(&subscription_id)
    }

    /// Whom to call, in this order, when the router acknowledges a publication.
    pub fn published_callbacks(&self) -> (callbacks: &Vec<F>)
        ensures
            callbacks@ == self@.published_callbacks,
    {
        &self.published_callbacks
    }

    /// Notes that the connection is gone.
    pub fn disconnect(&mut self)
        ensures
            forall|last: ID|
                old(self)@.well_formed(last) ==> #[trigger] final(self)@.well_formed(last),
            final(self)@ == (SessionView { state: ConnectionState::Disconnected, ..old(self)@ }),
    {
        self.connection_state = ConnectionState::Disconnected;
    }

    /// Hands out the promise that the session ends, if it is still to be kept.
    pub fn finish(&mut self) -> (promise: Option<Complete<(), Error>>)
        ensures
            forall|last: ID|
                old(self)@.well_formed(last) ==> #[trigger] final(self)@.well_formed(last),
            final(self)@ == (SessionView { shutdown_complete: None, ..old(self)@ }),
            promise == old(self)@.shutdown_complete,
    {
        self.shutdown_complete.take()
    }
}

/// A topic that the client has subscribed to.
pub struct Subscription {
    pub topic: URI,
    subscription_id: ID,
}

impl Subscription {
    /// The topic.
    pub closed spec fn uri(self) -> URI {
        self.topic
    }

    /// The router's number for the subscription.
    pub closed spec fn id(self) -> ID {
        self.subscription_id
    }
}

/// A subscription that the router has been asked for.
pub struct PendingSubscription<C> {
    pub topic: URI,
    pub callback: C,
}

impl<C> PendingSubscription<C> {
    /// What to do once the router has confirmed the subscription: from here on
    /// its events go to the callback.
    pub fn confirm<F>(
        self,
        subscription_id: ID,
        info: &mut ConnectionInfo<C, F>,
    ) -> (subscription: Subscription)
        ensures
            forall|last: ID|
                old(info)@.well_formed(last) ==> #[trigger] final(info)@.well_formed(last),
            final(info)@ == (SessionView {
                subscriptions: old(info)@.subscriptions.insert(subscription_id, self.callback),
                ..old(info)@
            }),
            subscription.uri() == self.topic,
            subscription.id() == subscription_id,
    {
        info.subscriptions.insert(subscription_id, self.callback);
        Subscription { topic: self.topic, subscription_id }
    }
}

/// A cancellation that the router is to be asked for.
pub struct PendingUnsubscription {
    request_id: ID,
    subscription_id: ID,
}

impl PendingUnsubscription {
    /// The number of the request.
    pub closed spec fn request(self) -> ID {
        self.request_id
    }

    /// The subscription to cancel.
    pub closed spec fn subscription(self) -> ID {
        self.subscription_id
    }

    /// Has the router's reply to the request keep the promise.
    pub fn register<C, F>(&self, promise: Complete<(), Error>, info: &mut ConnectionInfo<C, F>)
        ensures
            final(info)@ == old(info)@.awaiting_unsubscription(self.request(), promise),
            forall|last: ID|
                old(info)@.well_formed(last) && 1 <= self.request() <= last && old(info)@.unused(
                    self.request(),
                ) ==> #[trigger] final(info)@.well_formed(last),
    {
        info.unsubscription_requests.insert(self.request_id, promise);
    }

    /// What to do once the request went out or failed to: only a request that
    /// went out is answered.
    pub fn sent<C, F>(
        &self,
        sent: WampResult<()>,
        info: &mut ConnectionInfo<C, F>,
    ) -> (future: WampResult<Future<(), Error>>)
        ensures
            sent is Ok ==> future is Ok && exists|promise|
                final(info)@ == #[trigger] old(info)@.awaiting_unsubscription(
                    self.request(),
                    promise,
                ) && settles_completion(promise, future->Ok_0),
            sent matches Err(e) ==> final(info)@ == old(info)@ && future is Err && future->Err_0
                == e,
            forall|last: ID|
                old(info)@.well_formed(last) && 1 <= self.request() <= last && old(info)@.unused(
                    self.request(),
                ) ==> #[trigger] final(info)@.well_formed(last),
    {
        match sent {
            Ok(()) => {
                let (complete, future) = completion_promise();
                self.register(complete, info);
                Ok(future)
            },
            Err(e) => Err(e),
        }
    }

    /// What to do once the router has confirmed the cancellation: the events
    /// of the subscription go to no one any more.
    pub fn confirm<C, F>(self, info: &mut ConnectionInfo<C, F>)
        ensures
            forall|last: ID|
                old(info)@.well_formed(last) ==> #[trigger] final(info)@.well_formed(last),
            final(info)@ == (SessionView {
                subscriptions: old(info)@.subscriptions.remove(self.subscription()),
                ..old(info)@
            }),
    {
        info.subscriptions.remove(&self.subscription_id);
    }
}

/// A client in a session. `C` and `F` are as in `ConnectionInfo`.
pub struct Client<C, F> {
    connection_info: ConnectionInfo<C, F>,
    max_session_id: ID,
    id: ID,
}

/// The mathematical content of a `Client`.
#[verifier::ext_equal]
pub struct ClientView<C, F> {
    pub session: SessionView<C, F>,
    /// The number of the last request.
    pub max_session_id: ID,
    /// The router's number for the session.
    pub id: ID,
}

impl<C, F> View for Client<C, F> {
    type V = ClientView<C, F>;

    closed spec fn view(&self) -> ClientView<C, F> {
        ClientView {
            session: self.connection_info@,
            max_session_id: self.max_session_id,
            id: self.id,
        }
    }
}

impl<C, F> ClientView<C, F> {
    /// What holds of every client.
    pub open spec fn well_formed(self) -> bool {
        self.session.well_formed(self.max_session_id)
    }

    /// A client whose session has just been opened.
    pub open spec fn opened(protocol: Seq<char>, id: ID) -> Self {
        ClientView { session: SessionView::opened(protocol), max_session_id: 0, id }
    }

    /// Whether there is a number left for one more request.
    pub open spec fn can_request(self) -> bool {
        self.max_session_id < u64::MAX
    }

    /// The number of the next request.
    pub open spec fn next_id(self) -> ID {
        (self.max_session_id + 1) as ID
    }

    /// The client once it has given out the number of the next request.
    pub open spec fn requesting(self) -> Self {
        ClientView { max_session_id: self.next_id(), ..self }
    }

    /// The client once it has a subscription to ask for.
    pub open spec fn subscribing(self, promise: Complete<ID, Error>) -> Self {
        ClientView {
            session: SessionView {
                subscription_requests: self.session.subscription_requests.insert(
                    self.next_id(),
                    promise,
                ),
                ..self.session
            },
            ..self.requesting()
        }
    }

    /// Whether the router is to acknowledge publications: only if someone
    /// wants to hear of it.
    pub open spec fn acknowledges(self) -> bool {
        self.session.published_callbacks.len() > 0
    }

    /// The client once it has something to publish to the topic.
    pub open spec fn publishing(self, topic: URI) -> Self {
        if self.acknowledges() {
            ClientView {
                session: SessionView {
                    publish_ids_to_topics: self.session.publish_ids_to_topics.insert(
                        self.next_id(),
                        topic,
                    ),
                    ..self.session
                },
                ..self.requesting()
            }
        } else {
            self.requesting()
        }
    }

    /// The client once it has said goodbye.
    pub open spec fn shutting_down(self, promise: Complete<(), Error>) -> Self {
        ClientView {
            session: SessionView {
                state: ConnectionState::ShuttingDown,
                shutdown_complete: Some(promise),
                ..self.session
            },
            ..self
        }
    }

    /// How a message of this client goes out.
    pub open spec fn frame<V>(self, message: Message<V>) -> Frame<V> {
        framed(message, self.session.protocol)
    }
}

impl<C, F> Client<C, F> {
    /// A client whose session has just been opened.
    pub fn new(protocol: String, id: ID) -> (client: Self)
        ensures
            client@ == ClientView::<C, F>::opened(protocol@, id),
            client@.well_formed(),
    {
        Client { connection_info: ConnectionInfo::new(protocol), max_session_id: 0, id }
    }

    /// The state of the session.
    pub fn connection_info(&mut self) -> (info: &mut ConnectionInfo<C, F>)
        ensures
            (*info)@ == old(self)@.session,
            final(self)@ == (ClientView { session: final(info)@, ..old(self)@ }),
    {
        &mut self.connection_info
    }

    /// Whether there is a number left for one more request.
    pub fn can_request(&self) -> (r: bool)
        ensures
            r == self@.can_request(),
    {
        self.max_session_id < u64::MAX
    }

    /// Frames a message for the router.
    pub fn send_message<V>(&self, message: Message<V>) -> (frame: Frame<V>)
        ensures
            frame == self@.frame(message),
    {
        send_message(message, self.connection_info.protocol.as_str())
    }

    /// Gives out the number of the next request.
    pub fn get_next_session_id(&mut self) -> (request_id: ID)
        requires
            old(self)@.can_request(),
        ensures
            request_id == old(self)@.next_id(),
            final(self)@ == old(self)@.requesting(),
            old(self)@.well_formed() ==> final(self)@.well_formed(),
    {
        self.max_session_id += 1;
        self.max_session_id
    }

    /// Asks for a subscription to the topic. The promise is kept with the
    /// subscription's number once the router has confirmed.
    pub fn subscribe_with<V>(&mut self, topic: URI, promise: Complete<ID, Error>) -> (frame: Frame<
        V,
    >)
        requires
            old(self)@.can_request(),
        ensures
            final(self)@ == old(self)@.subscribing(promise),
            old(self)@.well_formed() ==> final(self)@.well_formed(),
            frame == old(self)@.frame(
                Message::<V>::Subscribe(old(self)@.next_id(), SubscribeOptions {  }, topic),
            ),
    {
        let request_id: ID = self.get_next_session_id();
        self.connection_info.subscription_requests.insert(request_id, promise);
        self.send_message(Message::Subscribe(request_id, SubscribeOptions::new(), topic))
    }

    /// Asks for a subscription to the topic, whose events are to go to the
    /// callback. The future comes to hold the subscription's number once the
    /// router has confirmed; the subscription is then to be confirmed here.
    pub fn subscribe<V>(&mut self, topic: URI, callback: C) -> (r: (
        Frame<V>,
        PendingSubscription<C>,
        Future<ID, Error>,
    ))
        requires
            old(self)@.can_request(),
        ensures
            exists|promise|
                final(self)@ == #[trigger] old(self)@.subscribing(promise) && settles_subscription(
                    promise,
                    r.2,
                ),
            old(self)@.well_formed() ==> final(self)@.well_formed(),
            r.0 == old(self)@.frame(
                Message::<V>::Subscribe(old(self)@.next_id(), SubscribeOptions {  }, topic),
            ),
            r.1 == (PendingSubscription { topic, callback }),
    {
        let (complete, future) = subscription_promise();
        let pending = PendingSubscription { topic: topic.clone(), callback };
        let frame = self.subscribe_with(topic, complete);
        (frame, pending, future)
    }

    /// Asks to cancel the subscription. Once the frame is out, `sent` is to
    /// be told; once the router has confirmed, `confirm`.
    pub fn unsubscribe<V>(&mut self, subscription: Subscription) -> (r: (
        Frame<V>,
        PendingUnsubscription,
    ))
        requires
            old(self)@.can_request(),
        ensures
            final(self)@ == old(self)@.requesting(),
            old(self)@.well_formed() ==> final(self)@.well_formed(),
            r.0 == old(self)@.frame(
                Message::<V>::Unsubscribe(old(self)@.next_id(), subscription.id()),
            ),
            r.1.request() == old(self)@.next_id(),
            r.1.subscription() == subscription.id(),
    {
        let request_id: ID = self.get_next_session_id();
        let subscription_id: ID = subscription.subscription_id;
        let frame = self.send_message(Message::Unsubscribe(request_id, subscription_id));
        (frame, PendingUnsubscription { request_id, subscription_id })
    }

    /// Has the callback called with the topic of every publication that the
    /// router acknowledges, of those made from here on and of those made
    /// before that it was asked to acknowledge.
    pub fn on_published(&mut self, callback: F)
        ensures
            final(self)@ == (ClientView {
                session: SessionView {
                    published_callbacks: old(self)@.session.published_callbacks.push(callback),
                    ..old(self)@.session
                },
                ..old(self)@
            }),
            old(self)@.well_formed() ==> final(self)@.well_formed(),
    {
        self.connection_info.published_callbacks.push(callback);
    }

    /// Publishes to the topic. The router is asked to acknowledge if someone
    /// wants to hear of it.
    pub fn publish<V>(
        &mut self,
        topic: URI,
        args: Option<List<V>>,
        kwargs: Option<Dict<V>>,
    ) -> (frame: Frame<V>)
        requires
            old(self)@.can_request(),
        ensures
            final(self)@ == old(self)@.publishing(topic),
            old(self)@.well_formed() ==> final(self)@.well_formed(),
            frame == old(self)@.frame(
                Message::Publish(
                    old(self)@.next_id(),
                    PublishOptions { acknowledge: old(self)@.acknowledges() },
                    topic,
                    args,
                    kwargs,
                ),
            ),
    {
        let request_id: ID = self.get_next_session_id();
        let request_acknowledge = self.connection_info.published_callbacks.len() > 0;
        if request_acknowledge {
            self.connection_info.publish_ids_to_topics.insert(request_id, topic.clone());
        }
        self.send_message(
            Message::Publish(
                request_id,
                PublishOptions::new(request_acknowledge),
                topic,
                args,
                kwargs,
            ),
        )
    }

    /// Says goodbye to the router, unless the client has done so before or the
    /// connection is gone. The promise is kept when the session is over.
    pub fn shutdown_with<V>(&mut self, promise: Complete<(), Error>) -> (frame: WampResult<
        Frame<V>,
    >)
        ensures
            old(self)@.well_formed() ==> final(self)@.well_formed(),
            old(self)@.session.state == ConnectionState::Connected ==> {
                &&& frame is Ok
                &&& frame->Ok_0 == old(self)@.frame(goodbye::<V>(Reason::SystemShutdown))
                &&& final(self)@ == old(self)@.shutting_down(promise)
            },
            old(self)@.session.state != ConnectionState::Connected ==> {
                &&& frame is Err
                &&& refused_shutdown(frame->Err_0)
                &&& final(self)@ == old(self)@
            },
    {
        if self.connection_info.connection_state == ConnectionState::Connected {
            self.connection_info.connection_state = ConnectionState::ShuttingDown;
            self.connection_info.shutdown_complete = Some(promise);
            Ok(
                self.send_message(
                    Message::Goodbye(ErrorDetails::new(), Reason::SystemShutdown),
                ),
            )
        } else {
            Err(Error::new(ErrorKind::InvalidState(ALREADY_SHUTTING_DOWN.to_string())))
        }
    }

    /// Says goodbye to the router, unless the client has done so before or the
    /// connection is gone. The future is settled when the session is over.
    pub fn shutdown<V>(&mut self) -> (r: WampResult<(Frame<V>, Future<(), Error>)>)
        ensures
            old(self)@.well_formed() ==> final(self)@.well_formed(),
            old(self)@.session.state == ConnectionState::Connected ==> {
                &&& r is Ok
                &&& r->Ok_0.0 == old(self)@.frame(goodbye::<V>(Reason::SystemShutdown))
                &&& exists|promise|
                    final(self)@ == #[trigger] old(self)@.shutting_down(promise)
                        && settles_completion(promise, r->Ok_0.1)
            },
            old(self)@.session.state != ConnectionState::Connected ==> {
                &&& r is Err
                &&& refused_shutdown(r->Err_0)
                &&& final(self)@ == old(self)@
            },
    {
        let (complete, future) = completion_promise();
        match self.shutdown_with(complete) {
            Ok(frame) => Ok((frame, future)),
            Err(e) => Err(e),
        }
    }

    /// The client in a word, for people to read.
    pub fn debug_text(&self) -> (text: String)
        ensures
            text@ == "{Connection id: "@ + decimal(self@.id as nat) + "}"@,
    {
        let mut text = "{Connection id: ".to_string();
        text.append(decimal_string(self.id).as_str());
        text.append("}");
        text
    }
}

/// What a client says that is told to shut down a second time.
pub const ALREADY_SHUTTING_DOWN: &'static str =
    "Tried to shut down a client that was already shutting down";

/// Whether this is the error of a client that cannot shut down any more.
pub open spec fn refused_shutdown(error: Error) -> bool {
    &&& error.kind is InvalidState
    &&& error.kind->InvalidState_0@ == ALREADY_SHUTTING_DOWN@
}

} // verus!
