use v8_rs::inspector::{read_message_text, start_step, StartStep};
use v8_rs::v8::inspector::messages::{
    ClientMessage, ErrorCode, ErrorMessage, JsonValue, MethodCallInformation, ServerMessage,
};
use v8_rs::v8::inspector::server::{
    data_check, handshake_step, main_loop_end, peeked, pong_sent, process_message, read_action,
    timed_read_outcome, wait_step, DataCheck, DebuggerSessionConnectionHints, HandshakeStep,
    MessageStep, ReadAction, TransportError, WaitStep, WebSocketMessage, CONTINUE_WAITING,
};
use v8_rs::v8::inspector::{Inspector, IoError, IoErrorKind};
use v8_rs::v8::isolate::IsolateId;

fn io(kind: IoErrorKind, message: &str) -> IoError {
    IoError::new(kind, message)
}

#[test]
fn set_breakpoint() {
    let inspector = Inspector::new(IsolateId::from(1));
    let inspector = inspector.guard(Some(IsolateId::from(1))).unwrap();

    // Set a "good" breakpoint.
    assert!(inspector.schedule_pause_on_next_statement("Test breakpoint").is_ok());

    // Set a "bad" breakpoint.
    assert!(inspector.schedule_pause_on_next_statement("Test\0breakpoint").is_err());
}

#[test]
fn test_isolate_id() {
    let isolate = IsolateId::from(1);
    let inspector = Inspector::new(isolate);
    // The same isolate as the one the inspector was created for.
    assert!(inspector.check_isolate_id(Some(isolate)).is_ok());

    let isolate_another = IsolateId::from(2);
    // A different isolate.
    assert!(inspector.check_isolate_id(Some(isolate_another)).is_err());
}

#[test]
fn isolate_check_messages() {
    let inspector = Inspector::new(IsolateId::from(5));
    let missing = inspector.check_isolate_id(None).unwrap_err();
    assert_eq!(missing.kind, IoErrorKind::InvalidInput);
    assert_eq!(missing.message, "The isolate doesn't have an ID.");
    let other = inspector.guard(Some(IsolateId::from(6))).err().unwrap();
    assert_eq!(other.kind, IoErrorKind::InvalidInput);
    assert_eq!(
        other.message,
        "The isolate passed doesn't match with the isolate used to create the inspector."
    );
    assert_eq!(inspector.get_isolate_id(), Some(IsolateId::from(5)));
}

#[test]
fn dispatch_refuses_nul() {
    let inspector = Inspector::new(IsolateId::from(1));
    let guard = inspector.guard(Some(IsolateId::from(1))).unwrap();
    assert!(guard.dispatch_protocol_message("{\"id\":1,\"method\":\"Runtime.enable\"}").is_ok());
    let e = guard.dispatch_protocol_message("{\"id\":1\0}").unwrap_err();
    assert_eq!(e.kind, IoErrorKind::InvalidInput);
    assert_eq!(e.message, "The V8 Inspector Protocol message shouldn't contain nul symbols.");
    let e = guard.schedule_pause_on_next_statement("a\0").unwrap_err();
    assert_eq!(e.message, "The V8 Inspector Protocol breakpoint reason shouldn't contain nul symbols.");
}

#[test]
fn error_codes() {
    assert_eq!(ErrorCode::Parse.code(), -32700);
    assert_eq!(ErrorCode::InvalidRequest.code(), -32600);
    assert_eq!(ErrorCode::MethodNotFound.code(), -32601);
    assert_eq!(ErrorCode::InvalidParameters.code(), -32602);
    assert_eq!(ErrorCode::Internal.code(), -32603);
    assert_eq!(ErrorCode::Server.code(), -32000);
    assert_eq!(i32::from(ErrorCode::SessionNotFound), -32001);
}

#[test]
fn client_messages() {
    let ready = ClientMessage::new_client_ready(3);
    assert_eq!(ready.id, 3);
    assert_eq!(ready.method.name, "Runtime.runIfWaitingForDebugger");
    assert!(ready.is_client_ready());
    assert!(!ready.is_debugger_pause());

    let enable = ClientMessage::new_runtime_enable(4);
    assert_eq!(enable.method.name, "Runtime.enable");
    assert!(enable.method.arguments.is_empty());
    assert!(!enable.is_client_ready());

    let pause = ClientMessage { id: 5, method: MethodCallInformation::without_arguments("Debugger.pause") };
    assert!(pause.is_debugger_pause());
    assert!(!pause.is_client_ready());
}

#[test]
fn breakpoint_message() {
    let m = ClientMessage::new_breakpoint(1015, 0, 12, "file:///tmp/a.js");
    assert_eq!(m.id, 1015);
    assert_eq!(m.method.name, "Debugger.setBreakpointByUrl");
    assert_eq!(m.method.arguments.len(), 3);
    assert_eq!(m.method.arguments[0].0, "columnNumber");
    assert!(matches!(&m.method.arguments[0].1, JsonValue::Number(t) if t == "0"));
    assert_eq!(m.method.arguments[1].0, "lineNumber");
    assert!(matches!(&m.method.arguments[1].1, JsonValue::Number(t) if t == "12"));
    assert_eq!(m.method.arguments[2].0, "urlRegex");
    assert!(matches!(&m.method.arguments[2].1, JsonValue::Text(t) if t == "file:///tmp/a.js"));
    assert!(!m.is_client_ready());
}

#[test]
fn script_parsed_argument() {
    let mut m = MethodCallInformation::without_arguments("Debugger.scriptParsed");
    assert!(!m.is_script_parsed());
    m.arguments.push(("scriptId".to_string(), JsonValue::Text("3".to_string())));
    assert!(!m.is_script_parsed());
    m.arguments.push(("Debugger.scriptParsed".to_string(), JsonValue::Null));
    assert!(m.is_script_parsed());
}

#[test]
fn server_message_parts() {
    let e = ErrorMessage { code: ErrorCode::MethodNotFound.code(), message: "no such method".to_string() };
    let m = ServerMessage::from(e);
    let back = m.get_error().unwrap();
    assert_eq!(back.code, -32601);
    assert_eq!(back.message, "no such method");
    assert!(m.get_invocation().is_none());

    let invoke = ServerMessage::Invoke(MethodCallInformation::without_arguments("Debugger.paused"));
    assert_eq!(invoke.get_invocation().unwrap().name, "Debugger.paused");
    assert!(invoke.get_error().is_none());

    let result = ServerMessage::Result { id: 2, result: vec![] };
    assert!(result.get_error().is_none());
    assert!(result.get_invocation().is_none());
}

#[test]
fn close_message_aborts_connection() {
    match process_message(Ok(WebSocketMessage::Close(None))) {
        MessageStep::Done(Err(e)) => {
            assert_eq!(e.kind, IoErrorKind::ConnectionAborted);
            assert_eq!(e.message, "The WebSocket connection has been closed.");
        }
        _ => panic!("a close message ends the connection"),
    }
}

#[test]
fn ping_is_answered_with_pong() {
    match process_message(Ok(WebSocketMessage::Ping(vec![1, 2, 3]))) {
        MessageStep::SendPong(p) => assert_eq!(p, vec![1, 2, 3]),
        _ => panic!("a ping is answered"),
    }
    assert!(matches!(pong_sent(Ok(())), Ok(None)));
    let failed = pong_sent(Err(TransportError::AlreadyClosed)).unwrap_err();
    assert_eq!(failed.kind, IoErrorKind::ConnectionAborted);
}

#[test]
fn text_and_binary_messages() {
    match process_message(Ok(WebSocketMessage::Text("{\"id\":1}".to_string()))) {
        MessageStep::Done(Ok(Some(t))) => assert_eq!(t, "{\"id\":1}"),
        _ => panic!("a text message is read"),
    }
    match process_message(Ok(WebSocketMessage::Binary("héllo".as_bytes().to_vec()))) {
        MessageStep::Done(Ok(Some(t))) => assert_eq!(t, "héllo"),
        _ => panic!("a binary message in UTF-8 is read"),
    }
    match process_message(Ok(WebSocketMessage::Pong(vec![0xff, 0xfe]))) {
        MessageStep::Done(Err(e)) => {
            assert_eq!(e.kind, IoErrorKind::Other);
            assert_eq!(e.message, "UTF-8 encoding error");
        }
        _ => panic!("a payload that is not UTF-8 fails"),
    }
}

#[test]
fn transport_errors() {
    match process_message(Err(TransportError::ConnectionClosed)) {
        MessageStep::Done(Err(e)) => assert_eq!(e.kind, IoErrorKind::ConnectionAborted),
        _ => panic!("a closed connection fails"),
    }
    match process_message(Err(TransportError::Io(io(IoErrorKind::TimedOut, "timed out")))) {
        MessageStep::Done(Err(e)) => {
            assert_eq!(e.kind, IoErrorKind::TimedOut);
            assert_eq!(e.message, "timed out");
        }
        _ => panic!("an I/O failure is kept"),
    }
    match process_message(Err(TransportError::Other("Attack attempt detected".to_string()))) {
        MessageStep::Done(Err(e)) => {
            assert_eq!(e.kind, IoErrorKind::Other);
            assert_eq!(e.message, "Attack attempt detected");
        }
        _ => panic!("another failure is reported"),
    }
}

#[test]
fn data_checks() {
    assert!(matches!(data_check(true), DataCheck::Peek));
    match data_check(false) {
        DataCheck::Fail(e) => assert_eq!(e.message, "The connection is aborted."),
        _ => panic!("an unreadable connection fails"),
    }
    assert_eq!(peeked(Ok(1)).unwrap(), true);
    assert_eq!(peeked(Ok(0)).unwrap(), false);
    assert!(peeked(Err(io(IoErrorKind::WouldBlock, "would block"))).is_err());
}

#[test]
fn session_read_loop() {
    assert!(matches!(read_action(Ok("m".to_string())), ReadAction::Deliver(t) if t == "m"));
    assert!(matches!(read_action(Err(io(IoErrorKind::TimedOut, ""))), ReadAction::ReadAgain));
    assert!(matches!(read_action(Err(io(IoErrorKind::WouldBlock, ""))), ReadAction::ReadBlocking));
    assert!(matches!(
        read_action(Err(io(IoErrorKind::ConnectionAborted, "gone"))),
        ReadAction::Fail(e) if e.kind == IoErrorKind::ConnectionAborted
    ));
}

#[test]
fn wait_callback_steps() {
    assert!(matches!(wait_step(Ok("{}".to_string())), WaitStep::Dispatch(t) if t == "{}"));
    assert!(matches!(wait_step(Ok("{\0}".to_string())), WaitStep::ReadAgain));
    assert!(matches!(
        wait_step(Err(io(IoErrorKind::ConnectionAborted, ""))),
        WaitStep::Finish(c) if c == CONTINUE_WAITING
    ));
    assert!(matches!(wait_step(Err(io(IoErrorKind::TimedOut, ""))), WaitStep::ReadAgain));
}

#[test]
fn session_start_handshake() {
    let inspector = Inspector::new(IsolateId::from(9));
    let guard = inspector.guard(Some(IsolateId::from(9))).unwrap();
    assert_eq!(handshake_step(&guard, "not json", None).unwrap(), HandshakeStep::Skip);
    let enable = ClientMessage::new_runtime_enable(1);
    assert_eq!(handshake_step(&guard, "{}", Some(&enable)).unwrap(), HandshakeStep::Continue);
    let ready = ClientMessage::new_client_ready(2);
    assert_eq!(handshake_step(&guard, "{}", Some(&ready)).unwrap(), HandshakeStep::Started);
    assert!(handshake_step(&guard, "{\0}", Some(&ready)).is_err());
}

#[test]
fn main_loop_ends() {
    assert!(main_loop_end(io(IoErrorKind::ConnectionAborted, "")).is_ok());
    let e = main_loop_end(io(IoErrorKind::Other, "broken")).unwrap_err();
    assert_eq!(e.message, "broken");
}

#[test]
fn timed_reads() {
    assert_eq!(timed_read_outcome(Ok(None)).unwrap(), false);
    assert_eq!(timed_read_outcome(Ok(Some("m".to_string()))).unwrap(), false);
    assert_eq!(timed_read_outcome(Err(io(IoErrorKind::ConnectionAborted, ""))).unwrap(), true);
    assert_eq!(timed_read_outcome(Err(io(IoErrorKind::WouldBlock, ""))).unwrap(), false);
    assert_eq!(timed_read_outcome(Err(io(IoErrorKind::TimedOut, ""))).unwrap(), false);
    assert_eq!(timed_read_outcome(Err(io(IoErrorKind::Interrupted, ""))).unwrap(), false);
    assert!(timed_read_outcome(Err(io(IoErrorKind::InvalidInput, ""))).is_err());
}

#[test]
fn connection_hints() {
    let hints = DebuggerSessionConnectionHints::from_address("127.0.0.1:9005");
    assert_eq!(hints.get_address(), "127.0.0.1:9005");
    assert_eq!(
        hints.get_chromium_link(),
        "devtools://devtools/bundled/inspector.html?experiments=true&v8only=true&ws=127.0.0.1:9005"
    );
    let expected = r#"
        {
            "version": "0.2.0",
            "configurations": [
                {
                    "name": "Attach to RedisGears V8 through WebSocket at 127.0.0.1:9005",
                    "type": "node",
                    "request": "attach",
                    "cwd": "${workspaceFolder}",
                    "websocketAddress": "ws://127.0.0.1:9005",
                }
            ]
        }
        "#;
    assert_eq!(hints.get_visual_studio_code_configuration(), expected);
    let notice = hints.to_string();
    assert!(notice.starts_with(
        "The V8 remote debugging server is waiting for a connection via WebSocket on: 127.0.0.1:9005.\nHint: you may browse this link: devtools://"
    ));
    assert!(notice.ends_with(expected));
}

#[test]
fn simple_session_reads() {
    assert_eq!(read_message_text(Ok(WebSocketMessage::Text("a".to_string()))).unwrap(), "a");
    assert_eq!(read_message_text(Ok(WebSocketMessage::Close(None))).unwrap(), "");
    assert_eq!(
        read_message_text(Ok(WebSocketMessage::Close(Some((1000, "bye".to_string()))))).unwrap(),
        "bye"
    );
    assert_eq!(read_message_text(Ok(WebSocketMessage::Ping(b"hi".to_vec()))).unwrap(), "hi");
    let e = read_message_text(Err(TransportError::ConnectionClosed)).unwrap_err();
    assert_eq!(e.kind, IoErrorKind::ConnectionAborted);
    assert_eq!(e.message, "The WebSocket connection has been closed.");
}

#[test]
fn simple_session_start() {
    assert_eq!(start_step("x", None), StartStep::Skip);
    let ready = ClientMessage::new_client_ready(0);
    assert_eq!(start_step("{}", Some(&ready)), StartStep::Start { dispatch: true });
    assert_eq!(start_step("{\0}", Some(&ready)), StartStep::Start { dispatch: false });
    let enable = ClientMessage::new_runtime_enable(0);
    assert_eq!(start_step("{}", Some(&enable)), StartStep::Forward { dispatch: true });
}
