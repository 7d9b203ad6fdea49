use std::collections::HashMap;

use eventual::{Async, Future};
use wamp::client::ALREADY_SHUTTING_DOWN;
use wamp::{
    Client, Connection, ErrorDetails, ErrorKind, Frame, Message, Opcode,
    PublishOptions, Reaction, Reason, RecvAction, RecvEvent, RecvPhase, SubscribeOptions,
    Subscription, WebSocketMessage, ID, URI,
};
use websocket::WebSocketError;

type TestClient = Client<&'static str, &'static str>;

fn client() -> TestClient {
    Client::new("wamp.2.json".to_string(), 1)
}

fn handle(client: &mut TestClient, message: Message<u8>) -> (bool, Reaction<u8>) {
    Connection::handle_message(message, client.connection_info())
}

fn event(subscription: ID, args: Option<Vec<u8>>, kwargs: Option<HashMap<String, u8>>) -> Message<u8> {
    Message::Event(subscription, 99, HashMap::new(), args, kwargs)
}

fn goodbye() -> Message<u8> {
    Message::Goodbye(ErrorDetails::new(), Reason::CloseRealm)
}

fn step(
    client: &mut TestClient,
    phase: RecvPhase,
    event: RecvEvent<u8>,
) -> (RecvPhase, RecvAction<u8>) {
    assert!(phase.is_answered_by(&event));
    Connection::recv_step(phase, event, client.connection_info())
}

fn read(opcode: Opcode, payload: &[u8]) -> RecvEvent<u8> {
    RecvEvent::Incoming(Some(Ok(WebSocketMessage { opcode, payload: payload.to_vec() })))
}

fn subscribed(client: &mut TestClient, topic: &str, callback: &'static str, id: ID) -> Subscription {
    let (_, pending, _) = client.subscribe::<u8>(URI::new(topic), callback);
    pending.confirm(id, client.connection_info())
}

#[test]
fn subscribing_asks_the_router() {
    let mut client = client();
    let (frame, pending, future) = client.subscribe::<u8>(URI::new("com.topic"), "cb");
    match frame {
        Frame::Text(Message::Subscribe(1, options, topic)) => {
            assert_eq!(options, SubscribeOptions::new());
            assert_eq!(topic.uri, "com.topic");
        }
        _ => panic!("no request"),
    }
    assert_eq!(pending.topic.uri, "com.topic");
    assert_eq!(pending.callback, "cb");
    assert!(!future.is_ready());
}

#[test]
fn the_confirmation_keeps_the_promise_once() {
    let mut client = client();
    let (_, _, future) = client.subscribe::<u8>(URI::new("t"), "cb");
    match handle(&mut client, Message::Subscribed(1, 55)) {
        (true, Reaction::CompleteSubscription(promise, 55)) => promise.complete(55),
        _ => panic!("no promise"),
    }
    assert!(matches!(future.poll(), Ok(Ok(55))));
    assert!(matches!(handle(&mut client, Message::Subscribed(1, 55)), (true, Reaction::Nothing)));
}

#[test]
fn a_given_promise_is_the_one_that_is_kept() {
    let mut client = client();
    let (first, first_future) = Future::pair();
    let (second, second_future) = Future::pair();
    let _ = client.subscribe_with::<u8>(URI::new("a"), first);
    let _ = client.subscribe_with::<u8>(URI::new("b"), second);
    match handle(&mut client, Message::Subscribed(2, 70)) {
        (true, Reaction::CompleteSubscription(promise, id)) => promise.complete(id),
        _ => panic!("no promise"),
    }
    assert!(matches!(second_future.poll(), Ok(Ok(70))));
    assert!(!first_future.is_ready());
}

#[test]
fn events_go_to_the_callback() {
    let mut client = client();
    assert!(matches!(handle(&mut client, event(55, None, None)), (true, Reaction::Nothing)));
    let subscription = subscribed(&mut client, "t", "cb", 55);
    assert_eq!(subscription.topic.uri, "t");
    let mut kwargs = HashMap::new();
    kwargs.insert("key".to_string(), 3);
    match handle(&mut client, event(55, Some(vec![1, 2]), Some(kwargs))) {
        (true, Reaction::Deliver(55, args, kwargs)) => {
            assert_eq!(args, vec![1, 2]);
            assert_eq!(kwargs.get("key"), Some(&3));
            assert_eq!(kwargs.len(), 1);
        }
        _ => panic!("not delivered"),
    }
    assert_eq!(client.connection_info().event_callback(55), Some(&"cb"));
    assert_eq!(client.connection_info().event_callback(56), None);
    assert!(matches!(handle(&mut client, event(56, None, None)), (true, Reaction::Nothing)));
}

#[test]
fn absent_arguments_are_empty() {
    let mut client = client();
    let _ = subscribed(&mut client, "t", "cb", 55);
    match handle(&mut client, event(55, None, None)) {
        (true, Reaction::Deliver(55, args, kwargs)) => assert!(args.is_empty() && kwargs.is_empty()),
        _ => panic!("not delivered"),
    }
}

#[test]
fn a_later_subscription_takes_the_number_over() {
    let mut client = client();
    let _ = subscribed(&mut client, "t", "old", 55);
    let _ = subscribed(&mut client, "t", "new", 55);
    assert_eq!(client.connection_info().event_callback(55), Some(&"new"));
}

#[test]
fn unsubscribing_stops_the_events() {
    let mut client = client();
    let subscription = subscribed(&mut client, "t", "cb", 55);
    let _ = subscribed(&mut client, "u", "other", 56);
    let (frame, pending) = client.unsubscribe::<u8>(subscription);
    assert!(matches!(frame, Frame::Text(Message::Unsubscribe(3, 55))));
    assert!(matches!(handle(&mut client, Message::Unsubscribed(3)), (true, Reaction::Nothing)));
    let future = pending.sent(Ok(()), client.connection_info()).ok().unwrap();
    match handle(&mut client, Message::Unsubscribed(3)) {
        (true, Reaction::CompleteUnsubscription(promise)) => promise.complete(()),
        _ => panic!("no promise"),
    }
    assert!(matches!(future.poll(), Ok(Ok(()))));
    assert!(matches!(handle(&mut client, event(55, None, None)), (true, Reaction::Deliver(55, _, _))));
    pending.confirm(client.connection_info());
    assert!(matches!(handle(&mut client, event(55, None, None)), (true, Reaction::Nothing)));
    assert!(matches!(handle(&mut client, event(56, None, None)), (true, Reaction::Deliver(56, _, _))));
    assert!(matches!(handle(&mut client, Message::Unsubscribed(3)), (true, Reaction::Nothing)));
}

#[test]
fn a_cancellation_that_did_not_go_out_is_not_awaited() {
    let mut client = client();
    let subscription = subscribed(&mut client, "t", "cb", 55);
    let (_, pending) = client.unsubscribe::<u8>(subscription);
    let error = wamp::Error::new(ErrorKind::WebSocketError(WebSocketError::NoDataAvailable));
    match pending.sent(Err(error), client.connection_info()) {
        Ok(_) => panic!("sent"),
        Err(e) => assert!(matches!(e.kind, ErrorKind::WebSocketError(WebSocketError::NoDataAvailable))),
    }
    assert!(matches!(handle(&mut client, Message::Unsubscribed(2)), (true, Reaction::Nothing)));
    assert!(matches!(handle(&mut client, event(55, None, None)), (true, Reaction::Deliver(55, _, _))));
}

#[test]
fn publishing_without_listeners_asks_for_no_acknowledgement() {
    let mut client = client();
    match client.publish(URI::new("t"), Some(vec![1u8]), None) {
        Frame::Text(Message::Publish(1, options, topic, Some(args), None)) => {
            assert_eq!(options, PublishOptions { acknowledge: false });
            assert_eq!(topic.uri, "t");
            assert_eq!(args, vec![1]);
        }
        _ => panic!("not published"),
    }
    assert!(matches!(handle(&mut client, Message::Published(1, 5)), (true, Reaction::Nothing)));
}

#[test]
fn listeners_hear_of_acknowledged_publications() {
    let mut client = client();
    client.on_published("first");
    client.on_published("second");
    assert_eq!(client.connection_info().published_callbacks(), &vec!["first", "second"]);
    match client.publish::<u8>(URI::new("t"), None, Some(HashMap::new())) {
        Frame::Text(Message::Publish(1, options, _, None, Some(kwargs))) => {
            assert_eq!(options, PublishOptions { acknowledge: true });
            assert!(kwargs.is_empty());
        }
        _ => panic!("not published"),
    }
    let mut times = 0;
    while times < 2 {
        match handle(&mut client, Message::Published(1, 5)) {
            (true, Reaction::NotifyPublished(topic)) => assert_eq!(topic.uri, "t"),
            _ => panic!("not acknowledged"),
        }
        times += 1;
    }
    assert!(matches!(handle(&mut client, Message::Published(2, 5)), (true, Reaction::Nothing)));
}

#[test]
fn requests_are_numbered_from_one() {
    let mut client = client();
    let first = subscribed(&mut client, "t", "cb", 55);
    assert!(matches!(client.publish::<u8>(URI::new("t"), None, None), Frame::Text(Message::Publish(2, _, _, _, _))));
    assert!(matches!(client.unsubscribe::<u8>(first).0, Frame::Text(Message::Unsubscribe(3, 55))));
    assert_eq!(client.get_next_session_id(), 4);
}

#[test]
fn msgpack_sessions_send_bytes() {
    let mut client: TestClient = Client::new("wamp.2.msgpack".to_string(), 1);
    assert!(matches!(client.send_message(Message::<u8>::Unsubscribed(1)), Frame::Binary(Message::Unsubscribed(1))));
    assert!(matches!(client.publish::<u8>(URI::new("t"), None, None), Frame::Binary(Message::Publish(1, _, _, _, _))));
    match handle(&mut client, goodbye()) {
        (false, Reaction::Reply(Frame::Binary(Message::Goodbye(details, Reason::GoodbyeAndOut)))) => {
            assert!(details.message.is_none())
        }
        _ => panic!("no answer"),
    }
}

#[test]
fn the_router_says_goodbye_first() {
    let mut client = client();
    assert!(matches!(
        handle(&mut client, goodbye()),
        (false, Reaction::Reply(Frame::Text(Message::Goodbye(_, Reason::GoodbyeAndOut))))
    ));
}

#[test]
fn shutting_down_waits_for_the_router() {
    let mut client = client();
    let (frame, future) = client.shutdown::<u8>().ok().unwrap();
    match frame {
        Frame::Text(Message::Goodbye(details, Reason::SystemShutdown)) => assert!(details.message.is_none()),
        _ => panic!("no goodbye"),
    }
    match handle(&mut client, goodbye()) {
        (false, Reaction::CompleteShutdown(promise)) => promise.complete(()),
        _ => panic!("no promise"),
    }
    assert!(matches!(future.poll(), Ok(Ok(()))));
    assert!(matches!(handle(&mut client, goodbye()), (false, Reaction::Nothing)));
}

#[test]
fn shutting_down_twice_is_refused() {
    let mut client = client();
    let (promise, future) = Future::pair();
    assert!(client.shutdown_with::<u8>(promise).is_ok());
    match client.shutdown::<u8>() {
        Ok(_) => panic!("shut down twice"),
        Err(e) => match e.kind {
            ErrorKind::InvalidState(text) => {
                assert_eq!(text, "Tried to shut down a client that was already shutting down");
                assert_eq!(text, ALREADY_SHUTTING_DOWN);
            }
            _ => panic!("another error"),
        },
    }
    client.connection_info().disconnect();
    assert!(client.shutdown::<u8>().is_err());
    assert!(matches!(handle(&mut client, goodbye()), (false, Reaction::Nothing)));
    client.connection_info().finish().unwrap().complete(());
    assert!(matches!(future.poll(), Ok(Ok(()))));
    assert!(client.connection_info().finish().is_none());
}

#[test]
fn promises_wait_whatever_else_is_done() {
    let mut client = client();
    let (subscription, subscription_future) = Future::pair();
    let _ = client.subscribe_with::<u8>(URI::new("a"), subscription);
    let cancelled = subscribed(&mut client, "b", "cb", 55);
    let (_, pending) = client.unsubscribe::<u8>(cancelled);
    let cancellation_future = pending.sent(Ok(()), client.connection_info()).ok().unwrap();
    let (end, end_future) = Future::pair();
    assert!(client.shutdown_with::<u8>(end).is_ok());

    let _ = subscribed(&mut client, "c", "other", 56);
    pending.confirm(client.connection_info());
    client.on_published("listener");
    let _ = client.publish::<u8>(URI::new("d"), None, None);
    assert!(client.shutdown::<u8>().is_err());
    assert!(matches!(handle(&mut client, Message::Published(5, 1)), (true, Reaction::NotifyPublished(_))));
    assert!(!subscription_future.is_ready() && !cancellation_future.is_ready() && !end_future.is_ready());

    match handle(&mut client, Message::Subscribed(1, 70)) {
        (true, Reaction::CompleteSubscription(promise, id)) => promise.complete(id),
        _ => panic!("no subscription"),
    }
    assert!(matches!(subscription_future.poll(), Ok(Ok(70))));
    match handle(&mut client, Message::Unsubscribed(3)) {
        (true, Reaction::CompleteUnsubscription(promise)) => promise.complete(()),
        _ => panic!("no cancellation"),
    }
    assert!(matches!(cancellation_future.poll(), Ok(Ok(()))));
    match handle(&mut client, goodbye()) {
        (false, Reaction::CompleteShutdown(promise)) => promise.complete(()),
        _ => panic!("no end"),
    }
    assert!(matches!(end_future.poll(), Ok(Ok(()))));
}

#[test]
fn other_messages_are_passed_over() {
    let mut client = client();
    let messages: Vec<Message<u8>> = vec![
        Message::Welcome(1, HashMap::new()),
        Message::Abort(ErrorDetails::new(), Reason::CustomReason(URI::new("x"))),
        Message::Error(32, 1, HashMap::new(), Reason::CloseRealm, None, None),
        Message::Subscribe(1, SubscribeOptions::new(), URI::new("t")),
        Message::Unsubscribe(1, 2),
        Message::Publish(1, PublishOptions::new(true), URI::new("t"), None, None),
    ];
    for message in messages {
        assert!(matches!(handle(&mut client, message), (true, Reaction::Nothing)));
    }
}

#[test]
fn reading_sorts_what_comes_in() {
    let mut c = client();
    let (phase, action) = Connection::start_recv_loop::<u8>();
    assert!(matches!(action, RecvAction::Receive));
    let (next, action) = step(&mut c, phase, read(Opcode::Text, b"[36]"));
    assert_eq!(next, RecvPhase::Decoding);
    assert!(matches!(action, RecvAction::DecodeJson(text) if text == "[36]"));
    let (next, action) = step(&mut c, phase, read(Opcode::Text, &[0xfe]));
    assert_eq!(next, RecvPhase::Receiving);
    assert!(matches!(action, RecvAction::Receive));
    let (next, action) = step(&mut c, phase, read(Opcode::Binary, &[0x90]));
    assert_eq!(next, RecvPhase::Decoding);
    assert!(matches!(action, RecvAction::DecodeMsgPack(bytes) if bytes == vec![0x90]));
    let (next, action) = step(&mut c, phase, read(Opcode::Ping, &[4, 2]));
    assert_eq!(next, RecvPhase::Resuming);
    assert!(matches!(action, RecvAction::Send(Frame::Pong(payload)) if payload == vec![4, 2]));
    let (next, action) = step(&mut c, next, RecvEvent::Done);
    assert_eq!(next, RecvPhase::Receiving);
    assert!(matches!(action, RecvAction::Receive));
    let (next, action) = step(&mut c, phase, read(Opcode::Pong, &[]));
    assert_eq!(next, RecvPhase::Receiving);
    assert!(matches!(action, RecvAction::Receive));
    let (next, action) = step(&mut c, phase, read(Opcode::Close, &[]));
    assert_eq!(next, RecvPhase::Leaving);
    assert!(matches!(action, RecvAction::Send(Frame::Close)));
    let failed = RecvEvent::Incoming(Some(Err(WebSocketError::NoDataAvailable)));
    let (next, action) = step(&mut c, phase, failed);
    assert_eq!(next, RecvPhase::Leaving);
    assert!(matches!(action, RecvAction::Send(Frame::Close)));
}

#[test]
fn what_cannot_be_decoded_is_passed_over() {
    let mut c = client();
    let (next, action) = step(&mut c, RecvPhase::Decoding, RecvEvent::Decoded(None));
    assert_eq!(next, RecvPhase::Receiving);
    assert!(matches!(action, RecvAction::Receive));
    let message = RecvEvent::Decoded(Some(Message::Published(1, 1)));
    let (next, action) = step(&mut c, RecvPhase::Decoding, message);
    assert_eq!(next, RecvPhase::Resuming);
    assert!(matches!(action, RecvAction::React(Reaction::Nothing)));
}

#[test]
fn the_end_of_the_stream_ends_the_connection() {
    let mut c = client();
    let (_, future) = c.shutdown::<u8>().ok().unwrap();
    let (phase, action) = step(&mut c, RecvPhase::Receiving, RecvEvent::Incoming(None));
    assert_eq!(phase, RecvPhase::Closing);
    assert!(matches!(action, RecvAction::SendOrFail(Frame::Close)));
    let (phase, action) = step(&mut c, phase, RecvEvent::Done);
    assert_eq!(phase, RecvPhase::ShuttingDown);
    assert!(matches!(action, RecvAction::Shutdown));
    let (phase, action) = step(&mut c, phase, RecvEvent::Done);
    assert_eq!(phase, RecvPhase::Completing);
    match action {
        RecvAction::Complete(promise) => promise.complete(()),
        _ => panic!("no promise"),
    }
    assert!(matches!(future.poll(), Ok(Ok(()))));
    let (phase, action) = step(&mut c, phase, RecvEvent::Done);
    assert_eq!(phase, RecvPhase::Finished);
    assert!(matches!(action, RecvAction::Finish));
    assert!(!phase.is_answered_by(&RecvEvent::<u8>::Done));
}

#[test]
fn a_goodbye_ends_the_connection() {
    let mut c = client();
    let (_, future) = c.shutdown::<u8>().ok().unwrap();
    let (phase, action) = step(&mut c, RecvPhase::Decoding, RecvEvent::Decoded(Some(goodbye())));
    assert_eq!(phase, RecvPhase::Leaving);
    match action {
        RecvAction::React(Reaction::CompleteShutdown(promise)) => promise.complete(()),
        _ => panic!("no promise"),
    }
    assert!(matches!(future.poll(), Ok(Ok(()))));
    let (phase, action) = step(&mut c, phase, RecvEvent::Done);
    assert_eq!(phase, RecvPhase::Closing);
    assert!(matches!(action, RecvAction::SendOrFail(Frame::Close)));
    let (phase, _) = step(&mut c, phase, RecvEvent::Done);
    let (phase, action) = step(&mut c, phase, RecvEvent::Done);
    assert_eq!(phase, RecvPhase::Finished);
    assert!(matches!(action, RecvAction::Finish));
    assert!(c.shutdown::<u8>().is_err());
}

type Arrival = (RecvEvent<u8>, Option<Message<u8>>);

/// Reads what arrives, and then the end of the stream, and notes what is done.
fn run(client: &mut TestClient, arrivals: Vec<Arrival>) -> Vec<String> {
    let (mut phase, mut action) = Connection::start_recv_loop::<u8>();
    let mut arrivals = arrivals.into_iter();
    let mut held = None;
    let mut deeds = Vec::new();
    loop {
        let event = match action {
            RecvAction::Receive => {
                let (event, message) = arrivals.next().unwrap_or((RecvEvent::Incoming(None), None));
                held = message;
                event
            }
            RecvAction::DecodeJson(_) | RecvAction::DecodeMsgPack(_) => RecvEvent::Decoded(held.take()),
            RecvAction::Finish => return deeds,
            deed => {
                deeds.push(match deed {
                    RecvAction::Send(Frame::Pong(payload)) => format!("pong {:?}", payload),
                    RecvAction::Send(Frame::Close) | RecvAction::SendOrFail(Frame::Close) => "close".to_string(),
                    RecvAction::React(Reaction::Deliver(id, _, _)) => format!("deliver {}", id),
                    RecvAction::React(Reaction::Reply(_)) => "reply".to_string(),
                    RecvAction::React(Reaction::CompleteShutdown(promise)) | RecvAction::Complete(promise) => {
                        promise.complete(());
                        "complete".to_string()
                    }
                    RecvAction::Shutdown => "shutdown".to_string(),
                    _ => panic!("something else"),
                });
                RecvEvent::Done
            }
        };
        let next = step(client, phase, event);
        phase = next.0;
        action = next.1;
    }
}

fn failed() -> Arrival {
    (RecvEvent::Incoming(Some(Err(WebSocketError::NoDataAvailable))), None)
}

#[test]
fn pongs_follow_the_pings() {
    let arrivals = vec![
        (read(Opcode::Ping, b"a"), None),
        (read(Opcode::Pong, b"x"), None),
        (read(Opcode::Ping, b"b"), None),
        (read(Opcode::Ping, b"a"), None),
    ];
    assert_eq!(
        run(&mut client(), arrivals),
        ["pong [97]", "pong [98]", "pong [97]", "close", "shutdown"]
    );
}

#[test]
fn idle_frames_can_arrive_anywhere() {
    let idle = || {
        vec![
            (read(Opcode::Pong, b"x"), None),
            (read(Opcode::Text, &[0xff]), None),
            (read(Opcode::Text, b"{"), None),
            (read(Opcode::Binary, &[0xc1]), None),
        ]
    };
    let news = || (read(Opcode::Text, b"[36]"), Some(event(55, None, None)));
    let mut arrivals = idle();
    arrivals.push(news());
    arrivals.extend(idle());
    arrivals.push((read(Opcode::Text, b"[6]"), Some(goodbye())));
    let mut with = client();
    let _ = subscribed(&mut with, "t", "cb", 55);
    let mut without = client();
    let _ = subscribed(&mut without, "t", "cb", 55);
    let deeds = run(&mut with, arrivals);
    assert_eq!(deeds, ["deliver 55", "reply", "close", "shutdown"]);
    let few = vec![news(), (read(Opcode::Text, b"[6]"), Some(goodbye()))];
    assert_eq!(run(&mut without, few), deeds);
}

#[test]
fn a_broken_connection_is_closed_twice() {
    let twice = ["close", "close", "shutdown"];
    assert_eq!(run(&mut client(), vec![(read(Opcode::Close, b""), None)]), twice);
    assert_eq!(run(&mut client(), vec![failed()]), twice);
    assert_eq!(run(&mut client(), vec![]), ["close", "shutdown"]);
    assert_eq!(
        run(&mut client(), vec![(read(Opcode::Text, b"[6]"), Some(goodbye()))]),
        ["reply", "close", "shutdown"]
    );
}

#[test]
fn the_end_is_promised_and_kept_once() {
    let endings: Vec<(Vec<Arrival>, Vec<&str>)> = vec![
        (vec![(read(Opcode::Text, b"[6]"), Some(goodbye()))], vec!["complete", "close", "shutdown"]),
        (vec![(read(Opcode::Close, b""), None)], vec!["close", "close", "shutdown", "complete"]),
        (vec![failed()], vec!["close", "close", "shutdown", "complete"]),
        (vec![], vec!["close", "shutdown", "complete"]),
    ];
    for (arrivals, deeds) in endings {
        let mut client = client();
        let (_, future) = client.shutdown::<u8>().ok().unwrap();
        assert!(client.shutdown::<u8>().is_err());
        assert_eq!(run(&mut client, arrivals), deeds);
        assert!(matches!(future.poll(), Ok(Ok(()))));
        assert!(client.shutdown::<u8>().is_err());
        assert!(client.connection_info().finish().is_none());
    }
}
