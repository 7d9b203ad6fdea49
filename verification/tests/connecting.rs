use std::collections::HashMap;

use wamp::connection::{
    choose_protocol, handle_welcome_message, welcome_from_json, welcome_from_msgpack,
};
use wamp::transport::{after_send, payload_text, send_message};
use wamp::{
    Client, ClientRoles, Connection, ErrorDetails, ErrorKind, Frame, HelloDetails, Message,
    Negotiated, Opcode, Reason, UrlError, WebSocketMessage, WelcomeStep, URI, WAMP_JSON,
    WAMP_MSGPACK,
};
use websocket::WebSocketError;

type Step = WelcomeStep<u8>;

fn url_error(url: &str) -> UrlError {
    match Connection::new(url, "realm1").connect() {
        Ok(_) => panic!("connected"),
        Err(e) => match e.kind {
            ErrorKind::URLError(e) => e,
            _ => panic!("another error"),
        },
    }
}

fn incoming(opcode: Opcode, payload: &[u8]) -> Option<Result<WebSocketMessage, WebSocketError>> {
    Some(Ok(WebSocketMessage { opcode, payload: payload.to_vec() }))
}

fn negotiated(protocol: &str) -> Negotiated {
    Negotiated { protocol: protocol.to_string(), realm: URI::new("realm1") }
}

fn open_error(reply: Message<u8>) -> ErrorKind {
    let client: Result<Client<(), ()>, wamp::Error> = negotiated(WAMP_JSON).open(reply);
    match client {
        Ok(_) => panic!("opened"),
        Err(e) => e.kind,
    }
}

#[test]
fn connect_parses_the_url_and_offers_msgpack_first() {
    let handshake = Connection::new("WS://Example.COM:9000/a/../ws", "realm1").connect().ok().unwrap();
    assert_eq!(handshake.url, "ws://example.com:9000/ws");
    assert_eq!(handshake.protocols, vec!["wamp.2.msgpack".to_string(), "wamp.2.json".to_string()]);
    assert_eq!(handshake.realm.uri, "realm1");
}

#[test]
fn connect_drops_the_default_port() {
    let handshake = Connection::new("ws://127.0.0.1:80/ws", "r").connect().ok().unwrap();
    assert_eq!(handshake.url, "ws://127.0.0.1/ws");
}

#[test]
fn connect_rejects_what_is_no_url() {
    assert_eq!(url_error("127.0.0.1/ws"), UrlError::RelativeUrlWithoutBase);
    assert_eq!(url_error(""), UrlError::RelativeUrlWithoutBase);
    assert_eq!(url_error("ws://"), UrlError::EmptyHost);
    assert_eq!(url_error("ws://host:99999/"), UrlError::InvalidPort);
    assert_eq!(url_error("ws://[::g]/"), UrlError::InvalidIpv6Address);
    assert_eq!(url_error("ws://256.256.256.256/"), UrlError::InvalidIpv4Address);
    assert_eq!(url_error("ws://a b/"), UrlError::InvalidDomainCharacter);
    assert_eq!(url_error("ws://xn--\u{fc}/"), UrlError::IdnaError);
}

#[test]
fn connect_writes_international_hosts_in_punycode() {
    let connection = Connection::new("ws://b\u{fc}cher.Example:9000/ws", "r");
    assert!(connection.can_connect());
    assert_eq!(connection.connect().ok().unwrap().url, "ws://xn--bcher-kva.example:9000/ws");
}

fn can_connect(url: &str) -> bool {
    Connection::new(url, "r").can_connect()
}

#[test]
fn labels_fit_up_to_a_size() {
    assert!(can_connect(&format!("ws://{}/", "a".repeat(5000))));
    assert!(can_connect(&format!("ws://{}/", "\u{fc}".repeat(215))));
    assert!(can_connect(&format!("ws://{}/", "\u{fc}".repeat(9362))));
    assert!(!can_connect(&format!("ws://{}/", "\u{fc}".repeat(9363))));
    assert!(can_connect(&format!("ws://{}/", "\u{fdfa}".repeat(214))));
    assert!(!can_connect(&format!("ws://{}/", "\u{fdfa}".repeat(215))));
    assert!(can_connect(&format!("ws://{}\u{10fe4f}/", "a".repeat(3848))));
    assert!(!can_connect(&format!("ws://{}\u{10fe4f}/", "a".repeat(3849))));
    assert!(!can_connect(&format!("ws://{}\u{10fe4f}/", "a".repeat(3856))));
    assert!(can_connect(&format!("ws://{}%41/", "a".repeat(3847))));
    assert!(!can_connect(&format!("ws://{}%41/", "a".repeat(3848))));
    assert!(can_connect(&format!("ws://\u{fc}-{}/", "a".repeat(3847))));
    assert!(!can_connect(&format!("ws://\u{fc}-{}/", "a".repeat(3848))));
    assert!(can_connect(&format!("ws://\u{fc}{}/", "a".repeat(3848))));
    assert!(can_connect(&format!("ws://-{}/", "a".repeat(5000))));
}

#[test]
fn each_label_is_counted_for_itself() {
    let fits = "\u{fc}".repeat(9362);
    let long = "\u{fc}".repeat(9363);
    assert!(can_connect(&format!("ws://{}.{}.{}", fits, fits, "a".repeat(10000))));
    assert!(!can_connect(&format!("ws://{}.h/", long)));
    assert!(!can_connect(&format!("ws://h.{}.h/", long)));
    assert!(!can_connect(&format!("ws://h.{}", long)));
}

#[test]
fn only_the_host_is_counted() {
    let long = "\u{fc}".repeat(9363);
    for url in [
        format!("ws://{}@h/", long),
        format!("ws://a@{}:{}@h:80/", long, long),
        format!("ws://h:{}/", long),
        format!("ws://[{}]/", long),
        format!("ws://h/{}", long),
        format!("ws://h\\{}", long),
        format!("ws://h?{}", long),
        format!("ws://h#{}", long),
        format!("w s://{}", long),
        format!("router://{}/", long),
        format!("file:/{}/", long),
        format!("file:///{}/", long),
        long.clone(),
        "".to_string(),
        "ws:".to_string(),
        "ws://".to_string(),
    ] {
        assert!(can_connect(&url), "{}", url);
    }
    for url in [
        format!("ws:{}", long),
        format!(" \u{1}Ws:\\/\t/{}", long),
        format!("w\ns://u@{}:80/", long),
        format!("ws://a[:{}]/", long),
        format!("ws://a[]{}:80/", long),
        format!("wss://{}/", long),
        format!("http://{}/", long),
        format!("HTTPS://{}/", long),
        format!("ftp://{}/", long),
        format!("gopher://{}/", long),
        format!("file:\\\\{}/", long),
        format!("file://{}@h/", long),
    ] {
        assert!(!can_connect(&url), "{}", url);
    }
}

#[test]
fn what_fits_is_parsed() {
    let parsed = |url: &str| Connection::new(url, "r").connect().ok().unwrap().url;
    assert!(parsed(&format!("ws://{}/", "\u{fc}".repeat(9362))).starts_with("ws://xn--"));
    assert_eq!(url_error(&format!("ws://{}/", "\u{fdfa}".repeat(214))), UrlError::IdnaError);
    assert_eq!(url_error(&format!("ws://{}\u{10fe4f}/", "a".repeat(3848))), UrlError::IdnaError);
    let plain = format!("ws://{}/", "a".repeat(5000));
    assert_eq!(parsed(&plain), plain);
    let user = format!("ws://{}@h/", "%41".repeat(72));
    assert_eq!(parsed(&user), user);
    let other = format!("router://{}/", "%c3%bc".repeat(4000));
    assert_eq!(parsed(&other), other);
}

#[test]
fn a_parsed_url_is_taken_as_it_is() {
    let connection = Connection::new("ignored", "realm1");
    let handshake = connection.connect_to(Ok("ws://h/".to_string())).ok().unwrap();
    assert_eq!(handshake.url, "ws://h/");
    match connection.connect_to(Err(UrlError::Overflow)) {
        Ok(_) => panic!("connected"),
        Err(e) => assert!(matches!(e.kind, ErrorKind::URLError(UrlError::Overflow))),
    }
}

#[test]
fn the_first_subprotocol_is_chosen() {
    assert_eq!(choose_protocol(None), "wamp.2.json");
    assert_eq!(choose_protocol(Some(vec![])), "wamp.2.json");
    assert_eq!(choose_protocol(Some(vec!["wamp.2.msgpack".to_string()])), "wamp.2.msgpack");
    assert_eq!(choose_protocol(Some(vec!["x".to_string(), "wamp.2.msgpack".to_string()])), "x");
}

#[test]
fn the_answer_is_taken_in() {
    let handshake = Connection::new("ws://h/", "realm1").connect().ok().unwrap();
    let n = handshake.respond(Ok(Some(vec!["wamp.2.msgpack".to_string()]))).ok().unwrap();
    assert_eq!(n.protocol, "wamp.2.msgpack");
    assert_eq!(n.realm.uri, "realm1");
}

#[test]
fn a_failed_attempt_is_reported() {
    let handshake = Connection::new("ws://h/", "realm1").connect().ok().unwrap();
    match handshake.respond(Err(WebSocketError::ProtocolError("refused"))) {
        Ok(_) => panic!("accepted"),
        Err(e) => assert!(matches!(
            e.kind,
            ErrorKind::WebSocketError(WebSocketError::ProtocolError("refused"))
        )),
    }
}

#[test]
fn the_greeting_names_realm_and_roles() {
    let roles = ClientRoles { publisher: true, subscriber: true };
    match negotiated(WAMP_MSGPACK).hello::<u8>() {
        Frame::Binary(Message::Hello(realm, details)) => {
            assert_eq!(realm.uri, "realm1");
            assert_eq!(details, HelloDetails { roles });
        }
        _ => panic!("no greeting in MsgPack"),
    }
    match negotiated("something.else").hello::<u8>() {
        Frame::Text(Message::Hello(realm, _)) => assert_eq!(realm.uri, "realm1"),
        _ => panic!("no greeting in JSON"),
    }
}

#[test]
fn messages_are_framed_by_subprotocol() {
    let binary = send_message(Message::<u8>::Subscribed(1, 2), "wamp.2.msgpack");
    assert!(matches!(binary, Frame::Binary(Message::Subscribed(1, 2))));
    let text = send_message(Message::<u8>::Subscribed(1, 2), "wamp.2.json");
    assert!(matches!(text, Frame::Text(Message::Subscribed(1, 2))));
    let other = send_message(Message::<u8>::Subscribed(1, 2), "wamp.2.msgpack.batched");
    assert!(matches!(other, Frame::Text(Message::Subscribed(1, 2))));
}

#[test]
fn a_failed_send_closes_the_connection() {
    let (close, result) = after_send::<u8>(Ok(()));
    assert!(close.is_none() && result.is_ok());
    let (close, result) = after_send::<u8>(Err(WebSocketError::NoDataAvailable));
    assert!(matches!(close, Some(Frame::Close)));
    assert!(matches!(
        result.unwrap_err().kind,
        ErrorKind::WebSocketError(WebSocketError::NoDataAvailable)
    ));
}

#[test]
fn payloads_are_read_as_utf8() {
    assert_eq!(payload_text(&"gr\u{fc}n \u{1f600}".as_bytes().to_vec()), Some("gr\u{fc}n \u{1f600}".to_string()));
    assert_eq!(payload_text(&vec![]), Some("".to_string()));
    assert_eq!(payload_text(&vec![0xff]), None);
    assert_eq!(payload_text(&vec![0xc0, 0x80]), None);
    assert_eq!(payload_text(&vec![0xed, 0xa0, 0x80]), None);
    assert_eq!(payload_text(&vec![b'a', 0xe2, 0x82]), None);
}

#[test]
fn welcome_over_text_or_bytes() {
    let step: Step = handle_welcome_message(incoming(Opcode::Text, b"[2,7,{}]"));
    assert!(matches!(step, WelcomeStep::DecodeJson(text) if text == "[2,7,{}]"));
    let step: Step = handle_welcome_message(incoming(Opcode::Binary, &[1, 2]));
    assert!(matches!(step, WelcomeStep::DecodeMsgPack(bytes) if bytes == vec![1, 2]));
}

#[test]
fn pings_before_the_welcome_are_answered() {
    let step: Step = handle_welcome_message(incoming(Opcode::Ping, &[9, 8]));
    assert!(matches!(step, WelcomeStep::Send(Frame::Pong(payload)) if payload == vec![9, 8]));
    let step: Step = handle_welcome_message(incoming(Opcode::Pong, &[9, 8]));
    assert!(matches!(step, WelcomeStep::Wait));
}

#[test]
fn no_welcome_comes() {
    let lost: Step = handle_welcome_message(incoming(Opcode::Close, &[]));
    assert!(matches!(lost, WelcomeStep::Fail(e) if matches!(e.kind, ErrorKind::ConnectionLost)));
    let lost: Step = handle_welcome_message(None);
    assert!(matches!(lost, WelcomeStep::Fail(e) if matches!(e.kind, ErrorKind::ConnectionLost)));
    let bad: Step = handle_welcome_message(incoming(Opcode::Text, &[0xff]));
    assert!(matches!(bad, WelcomeStep::Fail(e) if matches!(e.kind, ErrorKind::MalformedData)));
    let failed: Step = handle_welcome_message(Some(Err(WebSocketError::NoDataAvailable)));
    assert!(matches!(
        failed,
        WelcomeStep::Fail(e)
            if matches!(e.kind, ErrorKind::WebSocketError(WebSocketError::NoDataAvailable))
    ));
}

#[test]
fn the_reply_must_decode() {
    let reply = welcome_from_json(Ok(Message::<u8>::Unsubscribed(3)));
    assert!(matches!(reply, Ok(Message::Unsubscribed(3))));
    let error = serde_json::from_str::<u8>("").unwrap_err();
    let reply = welcome_from_json::<u8>(Err(error));
    assert!(matches!(reply.unwrap_err().kind, ErrorKind::JSONError(e) if e.is_eof()));
    let reply = welcome_from_msgpack(Ok(Message::<u8>::Unsubscribed(3)));
    assert!(matches!(reply, Ok(Message::Unsubscribed(3))));
    let error = rmp_serde::from_slice::<u8>(&[0xc1]).unwrap_err();
    let reply = welcome_from_msgpack::<u8>(Err(error));
    assert!(matches!(reply.unwrap_err().kind, ErrorKind::MsgPackError(_)));
}

#[test]
fn only_a_welcome_opens_the_session() {
    let reply: Message<u8> = Message::Welcome(4711, HashMap::new());
    let client: Client<(), ()> = negotiated(WAMP_JSON).open(reply).ok().unwrap();
    assert_eq!(client.debug_text(), "{Connection id: 4711}");
    assert!(client.can_request());
    let aborted = Message::Abort(ErrorDetails::new(), Reason::RealmDoesNotExist);
    assert!(matches!(open_error(aborted), ErrorKind::ConnectionLost));
    assert!(matches!(
        open_error(Message::Subscribed(1, 2)),
        ErrorKind::UnexpectedMessage("Expected Welcome Message")
    ));
    let goodbye = Message::Goodbye(ErrorDetails::new(), Reason::GoodbyeAndOut);
    assert!(matches!(
        open_error(goodbye),
        ErrorKind::UnexpectedMessage("Expected Welcome Message")
    ));
}

#[test]
fn the_debug_text_holds_the_session_in_decimal() {
    let zero: Client<(), ()> = Client::new("p".to_string(), 0);
    assert_eq!(zero.debug_text(), "{Connection id: 0}");
    let max: Client<(), ()> = Client::new("p".to_string(), u64::MAX);
    assert_eq!(max.debug_text(), "{Connection id: 18446744073709551615}");
}
