use wsio::client::{envelope, WsClient};
use wsio::codec::{parse_decimal, parse_frame, ParseError};
use wsio::config::{ConnectionRegistry, WsIo, WsNamespace};
use wsio::dispatch::{handle_frame, CloseReason, Frame, FrameReply, OutMessage};
use wsio::handler::{
    arg_bool, arg_str, arg_u64, expect_arity, EchoHandler, ExtractError, HandlerWrapper,
    ReplyHandler, WsHandler,
};
use wsio::heartbeat::{
    HeartbeatAction, HeartbeatEvent, HeartbeatMonitor, CLIENT_TIMEOUT_MS, HEARTBEAT_INTERVAL_MS,
};
use wsio::json::Json;
use wsio::registry::{DispatchError, HandlerRegistry};

fn text(s: &str) -> Frame {
    Frame::Text(s.as_bytes().to_vec())
}

fn echo_registry() -> HandlerRegistry<EchoHandler> {
    let mut r = HandlerRegistry::new();
    r.on("chat".to_string(), EchoHandler);
    r
}

fn reply_text(r: &FrameReply) -> Option<String> {
    match &r.message {
        Some(OutMessage::Text(t)) => Some(t.clone()),
        _ => None,
    }
}

#[test]
fn parses_nonce_event_and_args() {
    let m = parse_frame(b"7[\"chat\",{\"msg\":\"hi\"},42]").unwrap();
    assert_eq!(m.nonce, 7);
    assert_eq!(m.event, "chat");
    assert_eq!(m.args.len(), 2);
    match &m.args[0] {
        Json::Object(fields) => {
            assert_eq!(fields.len(), 1);
            assert_eq!(fields[0].0, "msg");
            assert!(matches!(&fields[0].1, Json::Str(s) if s == "hi"));
        }
        other => panic!("unexpected {:?}", other),
    }
    assert!(matches!(&m.args[1], Json::Number(n) if n == "42"));
}

#[test]
fn parses_event_without_args() {
    let m = parse_frame(b"12[\"ping\"]").unwrap();
    assert_eq!(m.nonce, 12);
    assert_eq!(m.event, "ping");
    assert!(m.args.is_empty());
}

#[test]
fn refuses_missing_nonce() {
    assert_eq!(parse_frame(b"abc").unwrap_err(), ParseError::MissingNonce);
    assert_eq!(parse_frame(b"[\"chat\"]").unwrap_err(), ParseError::MissingNonce);
    assert_eq!(parse_frame(b"").unwrap_err(), ParseError::MissingNonce);
}

#[test]
fn refuses_bad_bodies() {
    assert_eq!(parse_frame(b"3").unwrap_err(), ParseError::InvalidJson);
    assert_eq!(parse_frame(b"3[\"chat\"").unwrap_err(), ParseError::InvalidJson);
    assert_eq!(parse_frame(b"3{\"a\":1}").unwrap_err(), ParseError::NotAnArray);
    assert_eq!(parse_frame(b"3\"chat\"").unwrap_err(), ParseError::NotAnArray);
    assert_eq!(parse_frame(b"3[]").unwrap_err(), ParseError::MissingEvent);
    assert_eq!(parse_frame(b"3[1,\"x\"]").unwrap_err(), ParseError::EventNotString);
}

#[test]
fn nonce_limits() {
    let m = parse_frame(b"18446744073709551615[\"e\"]").unwrap();
    assert_eq!(m.nonce, u64::MAX);
    assert_eq!(
        parse_frame(b"18446744073709551616[\"e\"]").unwrap_err(),
        ParseError::NonceOverflow
    );
    assert_eq!(
        parse_frame(b"99999999999999999999999[\"e\"]").unwrap_err(),
        ParseError::NonceOverflow
    );
}

#[test]
fn decimal_parsing() {
    assert_eq!(parse_decimal(b"0"), Some(0));
    assert_eq!(parse_decimal(b"4096"), Some(4096));
    assert_eq!(parse_decimal(b"18446744073709551615"), Some(u64::MAX));
    assert_eq!(parse_decimal(b"18446744073709551616"), None);
    assert_eq!(parse_decimal(b""), None);
    assert_eq!(parse_decimal(b"-1"), None);
    assert_eq!(parse_decimal(b"1.5"), None);
}

#[test]
fn argument_extraction() {
    let m = parse_frame(b"1[\"e\",\"s\",true,17,-2,null]").unwrap();
    let a = &m.args;
    assert_eq!(expect_arity(a, 5), Ok(()));
    assert_eq!(expect_arity(a, 2), Err(ExtractError::Arity { expected: 2, found: 5 }));
    assert_eq!(arg_str(a, 0), Ok("s".to_string()));
    assert_eq!(arg_str(a, 1), Err(ExtractError::WrongType { index: 1 }));
    assert_eq!(arg_bool(a, 1), Ok(true));
    assert_eq!(arg_bool(a, 0), Err(ExtractError::WrongType { index: 0 }));
    assert_eq!(arg_u64(a, 2), Ok(17));
    assert_eq!(arg_u64(a, 3), Err(ExtractError::WrongType { index: 3 }));
    assert_eq!(arg_u64(a, 4), Err(ExtractError::WrongType { index: 4 }));
    assert_eq!(arg_str(a, 9), Err(ExtractError::Missing { index: 9 }));
}

#[test]
fn echo_handler_replies_with_its_argument() {
    let m = parse_frame(b"1[\"chat\",\"hey\"]").unwrap();
    assert_eq!(EchoHandler.call(&m.args), Ok("hey".to_string()));
    let w = HandlerWrapper::new(EchoHandler);
    assert_eq!(w.call(&m.args), Ok("hey".to_string()));
    let none = parse_frame(b"1[\"chat\"]").unwrap();
    assert_eq!(
        EchoHandler.call(&none.args),
        Err(ExtractError::Arity { expected: 1, found: 0 })
    );
}

#[test]
fn registered_handler_is_dispatched() {
    let mut r = HandlerRegistry::new();
    r.on("chat".to_string(), ReplyHandler { text: "from chat".to_string() });
    r.on("news".to_string(), ReplyHandler { text: "from news".to_string() });
    let chat = parse_frame(b"1[\"chat\",\"x\"]").unwrap();
    assert_eq!(r.dispatch(&chat), Ok("from chat".to_string()));
    let news = parse_frame(b"2[\"news\"]").unwrap();
    assert_eq!(r.dispatch(&news), Ok("from news".to_string()));
}

#[test]
fn later_registration_wins() {
    let mut r = HandlerRegistry::new();
    r.on("chat".to_string(), ReplyHandler { text: "first".to_string() });
    r.on("chat".to_string(), ReplyHandler { text: "second".to_string() });
    let chat = parse_frame(b"1[\"chat\"]").unwrap();
    assert_eq!(r.dispatch(&chat), Ok("second".to_string()));
    assert!(r.lookup(&"other".to_string()).is_none());
}

#[test]
fn unknown_event_is_an_error() {
    let r = echo_registry();
    let m = parse_frame(b"1[\"unknown\",\"x\"]").unwrap();
    assert_eq!(r.dispatch(&m), Err(DispatchError::UnknownEvent));
    let mut hb = HeartbeatMonitor::new(0);
    let out = handle_frame(&r, &mut hb, text("1[\"unknown\",\"x\"]"), 5);
    assert!(!out.terminate);
    assert!(matches!(out.message, Some(OutMessage::Error(DispatchError::UnknownEvent))));
}

#[test]
fn bad_arguments_are_reported_not_fatal() {
    let r = echo_registry();
    let mut hb = HeartbeatMonitor::new(0);
    let out = handle_frame(&r, &mut hb, text("1[\"chat\",5]"), 5);
    assert!(!out.terminate);
    assert!(matches!(
        out.message,
        Some(OutMessage::Error(DispatchError::BadArguments(ExtractError::WrongType { index: 0 })))
    ));
}

#[test]
fn chat_frame_is_echoed() {
    let r = echo_registry();
    let mut hb = HeartbeatMonitor::new(0);
    let out = handle_frame(&r, &mut hb, text("3[\"chat\",\"hello\"]"), 1);
    assert!(!out.terminate);
    assert_eq!(reply_text(&out), Some("hello".to_string()));
}

#[test]
fn malformed_frame_closes() {
    let r = echo_registry();
    let mut hb = HeartbeatMonitor::new(0);
    let out = handle_frame(&r, &mut hb, text("abc"), 1);
    assert!(out.terminate);
    assert!(matches!(out.message, Some(OutMessage::Close(None))));
    let out = handle_frame(&r, &mut hb, text(""), 1);
    assert!(out.terminate);
    assert!(matches!(out.message, Some(OutMessage::Close(None))));
}

#[test]
fn control_frames() {
    let r = echo_registry();
    let mut hb = HeartbeatMonitor::new(100);
    let out = handle_frame(&r, &mut hb, Frame::Ping(vec![1, 2]), 700);
    assert!(!out.terminate);
    assert!(matches!(out.message, Some(OutMessage::Pong(ref p)) if p == &vec![1u8, 2]));
    assert_eq!(hb.last_seen(), 700);
    let out = handle_frame(&r, &mut hb, Frame::Binary(vec![9]), 800);
    assert!(!out.terminate && out.message.is_none());
    let reason = CloseReason { code: 1000, description: Some("bye".to_string()) };
    let out = handle_frame(&r, &mut hb, Frame::Close(Some(reason.clone())), 900);
    assert!(out.terminate);
    assert!(matches!(out.message, Some(OutMessage::Close(Some(ref c))) if *c == reason));
    let out = handle_frame(&r, &mut hb, Frame::Pong(vec![]), 900);
    assert!(out.terminate);
    assert!(matches!(out.message, Some(OutMessage::Close(None))));
    assert_eq!(hb.last_seen(), 700);
}

#[test]
fn silent_peer_times_out() {
    let hb = HeartbeatMonitor::new(1000);
    assert_eq!(hb.heartbeat_interval(), HEARTBEAT_INTERVAL_MS);
    assert_eq!(hb.client_timeout(), CLIENT_TIMEOUT_MS);
    assert_eq!(hb.step(HeartbeatEvent::Tick, 6000), HeartbeatAction::SendPing);
    assert_eq!(hb.step(HeartbeatEvent::Tick, 11000), HeartbeatAction::SendPing);
    assert_eq!(hb.step(HeartbeatEvent::Tick, 11001), HeartbeatAction::TimedOut);
    assert!(hb.is_timed_out(16000));
}

#[test]
fn timeout_boundary_after_ping() {
    let mut hb = HeartbeatMonitor::with_timeouts(5000, 10000, 0);
    hb.record_ping(20000);
    assert_eq!(hb.step(HeartbeatEvent::Tick, 29999), HeartbeatAction::SendPing);
    assert_eq!(hb.step(HeartbeatEvent::Tick, 30000), HeartbeatAction::SendPing);
    assert_eq!(hb.step(HeartbeatEvent::Tick, 30001), HeartbeatAction::TimedOut);
}

#[test]
fn last_ping_never_moves_back() {
    let mut hb = HeartbeatMonitor::new(500);
    hb.record_ping(300);
    assert_eq!(hb.last_seen(), 500);
    hb.record_ping(900);
    assert_eq!(hb.last_seen(), 900);
}

#[test]
fn stop_events_end_the_task() {
    let hb = HeartbeatMonitor::new(0);
    assert_eq!(hb.step(HeartbeatEvent::Disconnected, 1), HeartbeatAction::Stop);
    assert_eq!(hb.step(HeartbeatEvent::SendFailed, 1), HeartbeatAction::Stop);
    assert_eq!(hb.step(HeartbeatEvent::Disconnected, 99999), HeartbeatAction::Stop);
}

#[test]
fn many_connections_keep_their_order() {
    let r = echo_registry();
    let mut monitors: Vec<HeartbeatMonitor> = (0..100).map(|_| HeartbeatMonitor::new(0)).collect();
    let mut replies: Vec<Vec<String>> = vec![Vec::new(); 100];
    for k in 0..50u64 {
        for c in 0..100usize {
            let frame = format!("{}[\"chat\",\"c{}-m{}\"]", k, c, k);
            let out = handle_frame(&r, &mut monitors[c], text(&frame), k);
            assert!(!out.terminate);
            replies[c].push(reply_text(&out).unwrap());
        }
    }
    for c in 0..100usize {
        assert_eq!(replies[c].len(), 50);
        for k in 0..50usize {
            assert_eq!(replies[c][k], format!("c{}-m{}", c, k));
        }
    }
}

#[test]
fn defaults() {
    let io = WsIo::default();
    assert_eq!(io.heartbeat_interval, 5);
    assert_eq!(io.client_timeout, 10);
    assert_eq!(io.namespace.name, "/");
    assert_eq!(WsNamespace::new("/chat".to_string()).name, "/chat");
}

#[test]
fn connection_registry() {
    let mut reg = ConnectionRegistry::new();
    reg.add("a".to_string());
    reg.add("b".to_string());
    reg.add("a".to_string());
    assert_eq!(reg.len(), 3);
    assert!(reg.contains(&"b".to_string()));
    reg.remove(&"a".to_string());
    assert_eq!(reg.len(), 1);
    assert!(!reg.contains(&"a".to_string()));
    assert!(reg.contains(&"b".to_string()));
}

#[test]
fn emit_wraps_event_and_data() {
    let mut c: WsClient<EchoHandler> = WsClient::new("peer-1".to_string());
    c.on("chat", EchoHandler);
    assert_eq!(c.id, "peer-1");
    assert!(c.handlers.lookup(&"chat".to_string()).is_some());
    assert_eq!(c.emit("chat", "\"hi\""), "[\"chat\",\"hi\"]");
    assert_eq!(c.emit("a\"b", "null"), "[\"a\\\"b\",null]");
    assert_eq!(envelope("\"e\"", "[1,2]"), "[\"e\",[1,2]]");
}
