//! Scenario tests of the decision procedures, the frame layout, identifiers,
//! PID text, paths and the broker.

use single_instance_app::frame::{host_byte_order, take_frame, write_frame, ByteOrder};
use single_instance_app::message::{format_uuid_v4, timestamp_from_millis, timestamp_of_reading};
use single_instance_app::polling::{
    no_message_received, no_response_received, retry_pause, wait_expired, WRITE_ATTEMPTS,
};
use single_instance_app::paths::{
    file_endpoint, get_socket_path, in_memory_endpoint, response_path, scratch_path, shm_endpoint,
};
use single_instance_app::pid::{decimal_text, is_blank, parse_pid, probe_target};
use single_instance_app::serving::{
    handshake_outcome, handshake_reply_text, in_memory_reply, is_echo, lock_file_taken, reply_to_request,
};
use single_instance_app::error::lock_conflict;
use single_instance_app::{
    get_temp_path, uuid_v4, CleanupAction, CleanupEvent, CommunicationError, CommunicationFactory,
    CommunicationMessage, EnforcementAction, EnforcementEvent, FileBasedClient, JsonValue, ProtocolType,
    RequestBroker, SharedMemoryClient, SingleInstanceApp, StaleCleanup, CommunicationConfig,
};

// ============ Identifiers ============

fn check_uuid_shape(s: &str) {
    let chars: Vec<char> = s.chars().collect();
    assert_eq!(chars.len(), 36);
    for (j, c) in chars.iter().enumerate() {
        if j == 8 || j == 13 || j == 18 || j == 23 {
            assert_eq!(*c, '-');
        } else {
            assert!(c.is_ascii_digit() || ('a'..='f').contains(c), "{}", s);
        }
    }
    assert_eq!(chars[14], '4');
    assert!(['8', '9', 'a', 'b'].contains(&chars[19]));
}

#[test]
fn uuid_of_zero_bytes() {
    assert_eq!(format_uuid_v4([0u8; 16]), "00000000-0000-4000-8000-000000000000");
}

#[test]
fn uuid_of_full_bytes() {
    assert_eq!(format_uuid_v4([0xffu8; 16]), "ffffffff-ffff-4fff-bfff-ffffffffffff");
}

#[test]
fn uuid_of_counting_bytes() {
    let mut b = [0u8; 16];
    for (i, x) in b.iter_mut().enumerate() {
        *x = (i as u8) * 17;
    }
    let s = format_uuid_v4(b);
    assert_eq!(s, "00112233-4455-4677-8899-aabbccddeeff");
    check_uuid_shape(&s);
}

#[test]
fn fresh_identifiers_have_the_shape_and_differ() {
    let a = uuid_v4();
    let b = uuid_v4();
    check_uuid_shape(&a);
    check_uuid_shape(&b);
    assert_ne!(a, b);
}

#[test]
fn reply_names_the_request() {
    let request = CommunicationMessage::command_line_args(vec!["x".to_string()]);
    let reply = request.create_reply(JsonValue::String("ok".to_string()));
    assert_eq!(reply.reply_to, Some(request.id.clone()));
    assert_eq!(reply.message_type, "response");
    assert_eq!(reply.source_id, "unknown");
    check_uuid_shape(&reply.id);
}

#[test]
fn new_message_defaults() {
    let m = CommunicationMessage::new("event", JsonValue::Bool(true));
    assert_eq!(m.message_type, "event");
    assert_eq!(m.payload, JsonValue::Bool(true));
    assert_eq!(m.source_id, "unknown");
    assert_eq!(m.reply_to, None);
    assert_eq!(m.metadata, JsonValue::Null);
    let m = m.with_source("me");
    assert_eq!(m.source_id, "me");
}

// ============ Shared-memory frames ============

#[test]
fn frame_round_trip_and_taken_once() {
    let mut region = vec![0u8; 4096];
    assert!(write_frame(&mut region, b"hello", ByteOrder::Little).is_ok());
    assert_eq!(region[0], 1);
    assert_eq!(&region[1..5], &[5, 0, 0, 0]);
    assert_eq!(&region[5..10], b"hello");
    let taken = take_frame(&mut region, ByteOrder::Little).unwrap();
    assert_eq!(taken, Some(b"hello".to_vec()));
    assert_eq!(region[0], 0);
    assert_eq!(take_frame(&mut region, ByteOrder::Little).unwrap(), None);
}

#[test]
fn frame_length_in_big_endian_order() {
    let mut region = vec![0u8; 4096];
    assert!(write_frame(&mut region, b"hello", ByteOrder::Big).is_ok());
    assert_eq!(&region[1..5], &[0, 0, 0, 5]);
    assert_eq!(take_frame(&mut region, ByteOrder::Big).unwrap(), Some(b"hello".to_vec()));
}

#[test]
fn frame_length_in_host_order() {
    let order = host_byte_order();
    let mut region = vec![0u8; 4096];
    assert!(write_frame(&mut region, b"hey", order).is_ok());
    assert_eq!(&region[1..5], &3u32.to_ne_bytes());
    if 1u32.to_ne_bytes()[0] == 1 {
        assert_eq!(order, ByteOrder::Little);
    } else {
        assert_eq!(order, ByteOrder::Big);
    }
    assert_eq!(take_frame(&mut region, order).unwrap(), Some(b"hey".to_vec()));
}

#[test]
fn frame_of_largest_payload() {
    let mut region = vec![0u8; 4096];
    let payload = vec![7u8; 4091];
    assert!(write_frame(&mut region, &payload, ByteOrder::Little).is_ok());
    assert_eq!(take_frame(&mut region, ByteOrder::Little).unwrap(), Some(payload));
}

#[test]
fn empty_frame_is_not_taken() {
    let mut region = vec![0u8; 4096];
    assert!(write_frame(&mut region, b"", ByteOrder::Little).is_ok());
    assert_eq!(take_frame(&mut region, ByteOrder::Little).unwrap(), None);
    assert_eq!(region[0], 1);
}

#[test]
fn frame_too_large_fails_after_header() {
    let mut region = vec![9u8; 16];
    let r = write_frame(&mut region, &[1u8; 20], ByteOrder::Little);
    assert!(matches!(r, Err(CommunicationError::IoError(_))));
    assert_eq!(region[0], 1);
    assert_eq!(&region[1..5], &[20, 0, 0, 0]);
    assert_eq!(&region[5..], &[9u8; 11]);
}

#[test]
fn frame_overrun_on_read() {
    let mut region = vec![0u8; 4096];
    region[0] = 1;
    region[1..5].copy_from_slice(&4095u32.to_le_bytes());
    assert!(matches!(take_frame(&mut region, ByteOrder::Little), Err(CommunicationError::IoError(_))));
    assert_eq!(region[0], 1);
    let mut short = vec![1u8, 2];
    assert!(take_frame(&mut short, ByteOrder::Little).is_err());
    let mut empty: Vec<u8> = vec![];
    assert!(take_frame(&mut empty, ByteOrder::Little).is_err());
    assert!(write_frame(&mut empty, b"x", ByteOrder::Little).is_err());
}

#[test]
fn frame_length_beyond_limit_is_ignored() {
    let mut region = vec![0u8; 8192];
    region[0] = 1;
    region[1..5].copy_from_slice(&4096u32.to_le_bytes());
    assert_eq!(take_frame(&mut region, ByteOrder::Little).unwrap(), None);
    assert_eq!(region[0], 1);
}

// ============ PID text ============

#[test]
fn pid_text_parsing() {
    assert_eq!(parse_pid("123"), Some(123));
    assert_eq!(parse_pid(" 123\n"), Some(123));
    assert_eq!(parse_pid("+7"), Some(7));
    assert_eq!(parse_pid("\u{3000}42\u{a0}"), Some(42));
    assert_eq!(parse_pid("4294967295"), Some(4294967295));
    assert_eq!(parse_pid("0004"), Some(4));
    assert_eq!(parse_pid("4294967296"), None);
    assert_eq!(parse_pid("99999999999999999999"), None);
    assert_eq!(parse_pid(""), None);
    assert_eq!(parse_pid("   "), None);
    assert_eq!(parse_pid("+"), None);
    assert_eq!(parse_pid("-1"), None);
    assert_eq!(parse_pid("12a"), None);
    assert_eq!(parse_pid("1 2"), None);
}

#[test]
fn pid_text_round_trip() {
    for n in [0u32, 7, 10, 12345, 4294967295] {
        let text = decimal_text(n);
        assert_eq!(text, n.to_string());
        assert_eq!(parse_pid(&text), Some(n));
    }
}

#[test]
fn blank_text() {
    assert!(is_blank(""));
    assert!(is_blank(" \n\t"));
    assert!(!is_blank(" x "));
}

// ============ Paths ============

#[test]
fn file_names() {
    assert_eq!(get_temp_path("/tmp", "app", "lock"), "/tmp/app.lock");
    assert_eq!(get_socket_path("app"), "/tmp/app.sock");
    assert_eq!(response_path("/tmp/app.msg"), "/tmp/app.msg.response");
    assert_eq!(scratch_path("/tmp/app.out", 42), "/tmp/app.out.temp.42");
    assert_eq!(file_endpoint("/tmp/app.lock"), "file:///tmp/app.lock");
    assert_eq!(shm_endpoint("/tmp/app.shm"), "shm:///tmp/app.shm");
    assert_eq!(in_memory_endpoint("app"), "in-memory://app");
}

// ============ Errors ============

#[test]
fn error_texts() {
    let cases = vec![
        (CommunicationError::ConnectionFailed("a".into()), "Connection failed: a"),
        (CommunicationError::SerializationFailed("b".into()), "Serialization failed: b"),
        (CommunicationError::DeserializationFailed("c".into()), "Deserialization failed: c"),
        (CommunicationError::ProtocolNotSupported("d".into()), "Protocol not supported: d"),
        (CommunicationError::Timeout("e".into()), "Timeout: e"),
        (CommunicationError::ResourceNotFound("f".into()), "Resource not found: f"),
        (CommunicationError::PermissionDenied("g".into()), "Permission denied: g"),
        (CommunicationError::IoError("h".into()), "I/O error: h"),
    ];
    for (e, text) in cases {
        assert_eq!(e.to_string(), text);
    }
}

#[test]
fn lock_conflicts_are_recognized() {
    assert!(lock_conflict(&lock_file_taken()));
    assert!(lock_conflict(&CommunicationError::ConnectionFailed("os error: AlreadyExists here".into())));
    assert!(!lock_conflict(&CommunicationError::ConnectionFailed("refused".into())));
    assert!(!lock_conflict(&CommunicationError::IoError("AlreadyExists".into())));
}

#[test]
fn named_pipes_are_refused() {
    match CommunicationFactory::create_protocol(ProtocolType::NamedPipe) {
        Err(CommunicationError::ProtocolNotSupported(m)) => assert_eq!(m, "NamedPipe is only supported on Windows"),
        _ => panic!("NamedPipe should be refused"),
    }
    let p = CommunicationFactory::create_protocol(ProtocolType::FileBased).unwrap();
    assert_eq!(p.protocol_type(), ProtocolType::FileBased);
}

// ============ Server answers ============

#[test]
fn server_answers() {
    let request = CommunicationMessage::command_line_args(vec![]);
    let default_reply = reply_to_request(&request, None);
    assert_eq!(default_reply.reply_to, Some(request.id.clone()));
    assert_eq!(default_reply.payload, JsonValue::String("Received".to_string()));
    let custom = CommunicationMessage::response("mine".to_string());
    let custom_id = custom.id.clone();
    assert_eq!(reply_to_request(&request, Some(custom)).id, custom_id);

    let ack = in_memory_reply(&request);
    assert_eq!(ack.message_type, "response");
    assert_eq!(ack.payload, JsonValue::String("Command line arguments received successfully".to_string()));
    let other = CommunicationMessage::new("query", JsonValue::Null);
    let refusal = in_memory_reply(&other);
    assert_eq!(refusal.message_type, "error");
    assert_eq!(refusal.payload, JsonValue::String("Unsupported message type".to_string()));
}

#[test]
fn handshake_texts() {
    assert_eq!(handshake_reply_text(&CommunicationMessage::response("hi".to_string())), "hi");
    let mut m = CommunicationMessage::response("x".to_string());
    m.payload = JsonValue::Number("3".to_string());
    assert_eq!(handshake_reply_text(&m), "Received");
    assert_eq!(handshake_reply_text(&CommunicationMessage::error("no".to_string())), "Connected");
}

// ============ Broker ============

#[test]
fn broker_delivers_once() {
    let mut broker = RequestBroker::new();
    let request = CommunicationMessage::command_line_args(vec![]);
    assert!(!broker.register_request(request.id.clone()));
    let reply = request.create_reply(JsonValue::Null);
    assert!(broker.dispatch_response(&reply));
    assert!(!broker.dispatch_response(&reply));
    let unsolicited = CommunicationMessage::response("x".to_string());
    assert!(!broker.dispatch_response(&unsolicited));
}

#[test]
fn broker_keeps_other_requests() {
    let mut broker = RequestBroker::new();
    let a = CommunicationMessage::command_line_args(vec![]);
    let b = CommunicationMessage::command_line_args(vec![]);
    broker.register_request(a.id.clone());
    broker.register_request(b.id.clone());
    assert!(broker.register_request(a.id.clone()));
    assert!(broker.dispatch_response(&a.create_reply(JsonValue::Null)));
    assert!(broker.dispatch_response(&b.create_reply(JsonValue::Null)));
}

// ============ Clients ============

#[test]
fn file_client_state() {
    let mut config = CommunicationConfig::default();
    config.identifier = "app".to_string();
    let mut c = FileBasedClient::new(&config, "/tmp").unwrap();
    assert_eq!(c.message_file(), "/tmp/app.msg");
    assert_eq!(c.response_file(), "/tmp/app.msg.response");
    assert_eq!(c.broadcast_file(), "/tmp/app.out");
    assert!(matches!(c.ensure_connected(), Err(CommunicationError::ConnectionFailed(m)) if m == "Not connected"));
    assert!(matches!(c.connect(false), Err(CommunicationError::ConnectionFailed(m)) if m == "Server not running"));
    assert!(c.connect(true).is_ok());
    assert!(c.is_connected());

    assert_eq!(c.broadcast_resume(0), None);
    assert_eq!(c.broadcast_resume(30), Some(0));
    assert!(c.accept_broadcast(&"id-1".to_string(), 10));
    assert!(!c.accept_broadcast(&"id-1".to_string(), 20));
    assert_eq!(c.broadcast_resume(30), Some(10));
    c.finish_broadcast_scan(30);
    assert_eq!(c.broadcast_resume(30), None);
    // a shorter file was restarted: read again from its start
    assert_eq!(c.broadcast_resume(5), Some(0));
    assert!(!c.accept_broadcast(&"id-1".to_string(), 5));
    assert!(c.disconnect().is_ok());
    assert!(!c.is_connected());
}

#[test]
fn shm_client_state() {
    let mut config = CommunicationConfig::default();
    config.identifier = "app".to_string();
    let mut c = SharedMemoryClient::new(&config, "/var/tmp").unwrap();
    assert_eq!(c.shm_file(), "/var/tmp/app.shm");
    assert!(c.ensure_connected().is_err());
    assert!(c.connect(false).is_err());
    assert!(c.connect(true).is_ok());
    assert!(c.ensure_connected().is_ok());
}

// ============ Enforcement ============

fn step(app: &mut SingleInstanceApp, e: EnforcementEvent) -> EnforcementAction {
    assert!(app.accepts(&e));
    app.advance(e)
}

#[test]
fn enforcement_secondary_on_first_handshake() {
    let mut app = SingleInstanceApp::new("t").with_protocol(ProtocolType::UnixSocket);
    let a = app.begin_enforcement();
    assert!(matches!(a, EnforcementAction::ConnectToPrimary { protocol: ProtocolType::UnixSocket }));
    let a = step(&mut app, EnforcementEvent::Connected);
    assert!(matches!(a, EnforcementAction::Finish { result: Ok(false) }));
    assert!(!app.is_primary());
    assert!(app.endpoint().is_none());
}

#[test]
fn enforcement_primary_path() {
    let mut app = SingleInstanceApp::new("t").with_protocol(ProtocolType::FileBased);
    app.begin_enforcement();
    let a = step(&mut app, EnforcementEvent::ConnectFailed);
    assert!(matches!(a, EnforcementAction::CleanupStale { protocol: ProtocolType::FileBased }));
    let a = step(&mut app, EnforcementEvent::Done);
    assert!(matches!(a, EnforcementAction::StartServer { protocol: ProtocolType::FileBased }));
    let a = step(&mut app, EnforcementEvent::ServerStarted { endpoint: "file:///tmp/t.lock".to_string() });
    assert!(matches!(a, EnforcementAction::RecordPid));
    assert_eq!(app.endpoint(), Some("file:///tmp/t.lock".to_string()));
    assert!(!app.is_primary());
    let a = step(&mut app, EnforcementEvent::Done);
    assert!(matches!(a, EnforcementAction::Finish { result: Ok(true) }));
    assert!(app.is_primary());
}

#[test]
fn enforcement_error_without_fallback() {
    let mut app = SingleInstanceApp::new("t").with_protocol(ProtocolType::UnixSocket).without_fallback();
    app.begin_enforcement();
    step(&mut app, EnforcementEvent::ConnectFailed);
    step(&mut app, EnforcementEvent::Done);
    let a = step(&mut app, EnforcementEvent::ServerFailed { error: CommunicationError::IoError("bind".into()) });
    match a {
        EnforcementAction::Finish { result: Err(CommunicationError::IoError(m)) } => assert_eq!(m, "bind"),
        _ => panic!("expected the start error"),
    }
}

#[test]
fn enforcement_fallback_skips_initial_and_reports_first_error() {
    // default fallbacks: FileBased, InMemory, SharedMemory; initial SharedMemory
    let mut app = SingleInstanceApp::new("t");
    app.begin_enforcement();
    step(&mut app, EnforcementEvent::ConnectFailed);
    step(&mut app, EnforcementEvent::Done);
    let a = step(&mut app, EnforcementEvent::ServerFailed { error: CommunicationError::Timeout("first".into()) });
    assert!(matches!(a, EnforcementAction::ConnectToPrimary { protocol: ProtocolType::FileBased }));
    assert_eq!(app.config().protocol, ProtocolType::FileBased);
    let a = step(&mut app, EnforcementEvent::ConnectFailed);
    assert!(matches!(a, EnforcementAction::StartServer { protocol: ProtocolType::FileBased }));
    let a = step(&mut app, EnforcementEvent::ServerFailed { error: CommunicationError::IoError("second".into()) });
    assert!(matches!(a, EnforcementAction::ConnectToPrimary { protocol: ProtocolType::InMemory }));
    let a = step(&mut app, EnforcementEvent::ConnectFailed);
    assert!(matches!(a, EnforcementAction::StartServer { protocol: ProtocolType::InMemory }));
    let a = step(&mut app, EnforcementEvent::ServerFailed { error: CommunicationError::IoError("third".into()) });
    // SharedMemory is the initial protocol: skipped
    match a {
        EnforcementAction::Finish { result: Err(CommunicationError::Timeout(m)) } => assert_eq!(m, "first"),
        _ => panic!("expected the first start error"),
    }
    assert!(!app.is_primary());
}

#[test]
fn enforcement_fallback_can_succeed() {
    let mut app = SingleInstanceApp::new("t")
        .with_protocol(ProtocolType::UnixSocket)
        .with_fallback_protocols(vec![ProtocolType::UnixSocket, ProtocolType::InMemory]);
    app.begin_enforcement();
    step(&mut app, EnforcementEvent::ConnectFailed);
    step(&mut app, EnforcementEvent::Done);
    let a = step(&mut app, EnforcementEvent::ServerFailed { error: CommunicationError::IoError("x".into()) });
    assert!(matches!(a, EnforcementAction::ConnectToPrimary { protocol: ProtocolType::InMemory }));
    let a = step(&mut app, EnforcementEvent::Connected);
    assert!(matches!(a, EnforcementAction::Finish { result: Ok(false) }));
}

#[test]
fn enforcement_reclaims_a_stale_lock() {
    let mut app = SingleInstanceApp::new("t").with_protocol(ProtocolType::FileBased).without_fallback();
    app.begin_enforcement();
    step(&mut app, EnforcementEvent::ConnectFailed);
    step(&mut app, EnforcementEvent::Done);
    let a = step(&mut app, EnforcementEvent::ServerFailed { error: lock_file_taken() });
    assert!(matches!(a, EnforcementAction::Pause { millis: 50 }));
    let a = step(&mut app, EnforcementEvent::Done);
    assert!(matches!(a, EnforcementAction::ConnectToPrimary { protocol: ProtocolType::FileBased }));
    let a = step(&mut app, EnforcementEvent::ConnectFailed);
    assert!(matches!(a, EnforcementAction::ReadOwnerPid));
    let a = step(&mut app, EnforcementEvent::OwnerPid { text: Some(" 4321\n".to_string()) });
    assert!(matches!(a, EnforcementAction::ProbeProcess { pid: 4321 }));
    let a = step(&mut app, EnforcementEvent::ProcessChecked { alive: true });
    assert!(matches!(a, EnforcementAction::Pause { millis: 500 }));
    let a = step(&mut app, EnforcementEvent::Done);
    assert!(matches!(a, EnforcementAction::ConnectToPrimary { .. }));
    let a = step(&mut app, EnforcementEvent::ConnectFailed);
    assert!(matches!(a, EnforcementAction::CleanupStale { protocol: ProtocolType::FileBased }));
    let a = step(&mut app, EnforcementEvent::Done);
    assert!(matches!(a, EnforcementAction::Pause { millis: 100 }));
    let a = step(&mut app, EnforcementEvent::Done);
    assert!(matches!(a, EnforcementAction::ConnectToPrimary { .. }));
    let a = step(&mut app, EnforcementEvent::ConnectFailed);
    assert!(matches!(a, EnforcementAction::StartServer { protocol: ProtocolType::FileBased }));
    let a = step(&mut app, EnforcementEvent::ServerStarted { endpoint: "e".to_string() });
    assert!(matches!(a, EnforcementAction::RecordPid));
    let a = step(&mut app, EnforcementEvent::Done);
    assert!(matches!(a, EnforcementAction::Finish { result: Ok(true) }));
}

#[test]
fn enforcement_reclaim_with_unreadable_pid_then_failure() {
    let mut app = SingleInstanceApp::new("t").with_protocol(ProtocolType::FileBased).without_fallback();
    app.begin_enforcement();
    step(&mut app, EnforcementEvent::ConnectFailed);
    step(&mut app, EnforcementEvent::Done);
    step(&mut app, EnforcementEvent::ServerFailed { error: lock_file_taken() });
    step(&mut app, EnforcementEvent::Done);
    step(&mut app, EnforcementEvent::ConnectFailed);
    let a = step(&mut app, EnforcementEvent::OwnerPid { text: Some("garbage".to_string()) });
    assert!(matches!(a, EnforcementAction::CleanupStale { .. }));
    step(&mut app, EnforcementEvent::Done);
    step(&mut app, EnforcementEvent::Done);
    step(&mut app, EnforcementEvent::ConnectFailed);
    let a = step(&mut app, EnforcementEvent::ServerFailed { error: CommunicationError::IoError("again".into()) });
    match a {
        EnforcementAction::Finish { result: Err(e) } => assert!(lock_conflict(&e)),
        _ => panic!("expected the lock error"),
    }
    assert!(!app.accepts(&EnforcementEvent::Done));
}

// ============ Stale cleanup ============

fn cstep(c: &mut StaleCleanup, e: CleanupEvent) -> CleanupAction {
    assert!(c.accepts(&e));
    c.advance(e)
}

#[test]
fn cleanup_of_file_based_files() {
    let mut c = StaleCleanup::new(ProtocolType::FileBased, ProtocolType::FileBased, "/tmp", "app");
    assert!(matches!(c.first_action(), CleanupAction::CheckExists { path } if path == "/tmp/app.lock"));
    let a = cstep(&mut c, CleanupEvent::Exists { present: true });
    assert!(matches!(a, CleanupAction::Pause { millis: 50 }));
    let a = cstep(&mut c, CleanupEvent::Done);
    assert!(matches!(a, CleanupAction::Handshake { protocol: ProtocolType::FileBased }));
    let a = cstep(&mut c, CleanupEvent::ConnectFailed);
    assert!(matches!(a, CleanupAction::ReadOwnerPid));
    let a = cstep(&mut c, CleanupEvent::OwnerPid { text: None });
    assert!(matches!(a, CleanupAction::RemoveFile { path } if path == "/tmp/app.lock"));
    let a = cstep(&mut c, CleanupEvent::Done);
    assert!(matches!(a, CleanupAction::RemoveFile { path } if path == "/tmp/app.msg"));
    let a = cstep(&mut c, CleanupEvent::Done);
    assert!(matches!(a, CleanupAction::RemoveFile { path } if path == "/tmp/app.pid"));
    let a = cstep(&mut c, CleanupEvent::Done);
    assert!(matches!(a, CleanupAction::RemoveFile { path } if path == "/tmp/app.msg.response"));
    let a = cstep(&mut c, CleanupEvent::Done);
    assert!(matches!(a, CleanupAction::Finish));
}

#[test]
fn cleanup_keeps_files_of_a_live_owner() {
    let mut c = StaleCleanup::new(ProtocolType::FileBased, ProtocolType::FileBased, "/tmp", "app");
    cstep(&mut c, CleanupEvent::Exists { present: false });
    let a = cstep(&mut c, CleanupEvent::OwnerPid { text: Some("77".to_string()) });
    assert!(matches!(a, CleanupAction::ProbeProcess { pid: 77 }));
    let a = cstep(&mut c, CleanupEvent::ProcessChecked { alive: true });
    assert!(matches!(a, CleanupAction::Pause { millis: 200 }));
    cstep(&mut c, CleanupEvent::Done);
    let a = cstep(&mut c, CleanupEvent::ConnectFailed);
    assert!(matches!(a, CleanupAction::Pause { millis: 500 }));
    cstep(&mut c, CleanupEvent::Done);
    let a = cstep(&mut c, CleanupEvent::Connected);
    assert!(matches!(a, CleanupAction::Finish));
}

#[test]
fn cleanup_of_socket_and_shared_memory() {
    let mut c = StaleCleanup::new(ProtocolType::UnixSocket, ProtocolType::UnixSocket, "/var/tmp", "app");
    assert!(matches!(c.first_action(), CleanupAction::CheckExists { path } if path == "/tmp/app.sock"));
    cstep(&mut c, CleanupEvent::Exists { present: true });
    let a = cstep(&mut c, CleanupEvent::Done);
    assert!(matches!(a, CleanupAction::ProbeConnect { protocol: ProtocolType::UnixSocket }));
    let a = cstep(&mut c, CleanupEvent::ConnectFailed);
    assert!(matches!(a, CleanupAction::RemoveFile { path } if path == "/tmp/app.sock"));

    let mut c = StaleCleanup::new(ProtocolType::SharedMemory, ProtocolType::SharedMemory, "/tmp", "app");
    cstep(&mut c, CleanupEvent::Exists { present: true });
    let a = cstep(&mut c, CleanupEvent::Done);
    assert!(matches!(a, CleanupAction::RemoveFile { path } if path == "/tmp/app.shm"));

    let c = StaleCleanup::new(ProtocolType::InMemory, ProtocolType::InMemory, "/tmp", "app");
    assert!(matches!(c.first_action(), CleanupAction::Finish));
}

#[test]
fn timestamp_keeps_low_bits_of_the_reading() {
    assert_eq!(timestamp_from_millis(1_700_000_000_123), 1_700_000_000_123);
    assert_eq!(timestamp_from_millis((1u128 << 64) + 5), 5);
    assert_eq!(timestamp_from_millis(u64::MAX as u128), u64::MAX);
}

#[test]
fn clock_before_the_epoch_gives_zero() {
    assert_eq!(timestamp_of_reading(None), 0);
    assert_eq!(timestamp_of_reading(Some(42)), 42);
    assert_eq!(timestamp_of_reading(Some((1u128 << 64) + 7)), 7);
}

#[test]
fn handshake_read_back_is_not_an_answer() {
    let request = CommunicationMessage::command_line_args(vec!["a".to_string()]);
    let mut echo = CommunicationMessage::command_line_args(vec!["a".to_string()]);
    echo.id = request.id.clone();
    assert!(is_echo(&request, &echo));
    assert!(matches!(handshake_outcome(&request, &echo),
        Err(CommunicationError::ConnectionFailed(m)) if m == "Handshake not answered"));
    let reply = reply_to_request(&request, None);
    assert!(!is_echo(&request, &reply));
    assert_eq!(handshake_outcome(&request, &reply).unwrap(), "Received");
    let answer = CommunicationMessage::response("hello".to_string());
    assert_eq!(handshake_outcome(&request, &answer).unwrap(), "hello");
}

#[test]
fn waits_and_retries() {
    assert!(!wait_expired(1999, 2000));
    assert!(wait_expired(2000, 2000));
    assert!(wait_expired(5000, 0));
    assert_eq!(WRITE_ATTEMPTS, 5);
    assert_eq!(retry_pause(0, WRITE_ATTEMPTS, 20), Some(20));
    assert_eq!(retry_pause(3, WRITE_ATTEMPTS, 20), Some(20));
    assert_eq!(retry_pause(4, WRITE_ATTEMPTS, 20), None);
    assert_eq!(retry_pause(0, 0, 20), None);
    assert!(matches!(no_message_received(), CommunicationError::Timeout(m) if m == "No message received"));
    assert!(matches!(no_response_received(), CommunicationError::Timeout(m) if m == "No response received"));
}

#[test]
fn broadcasts_are_delivered_in_file_order() {
    let mut config = CommunicationConfig::default();
    config.identifier = "app".to_string();
    let mut c = FileBasedClient::new(&config, "/tmp").unwrap();
    assert!(c.connect(true).is_ok());
    assert_eq!(c.broadcast_resume(60), Some(0));
    let lines = vec![("a".to_string(), 20u64), ("b".to_string(), 40u64), ("c".to_string(), 60u64)];
    assert_eq!(c.take_first_new_broadcast(&lines, 60), Some(0));
    assert_eq!(c.broadcast_resume(60), Some(20));
    assert_eq!(c.take_first_new_broadcast(&lines, 60), Some(1));
    assert_eq!(c.take_first_new_broadcast(&lines, 60), Some(2));
    assert_eq!(c.take_first_new_broadcast(&lines, 60), None);
    assert_eq!(c.broadcast_resume(60), None);
    // a line seen before is passed over for the next new one
    let more = vec![("b".to_string(), 80u64), ("d".to_string(), 100u64)];
    assert_eq!(c.take_first_new_broadcast(&more, 100), Some(1));
    assert_eq!(c.broadcast_resume(100), None);
}

#[test]
fn probe_targets() {
    assert_eq!(probe_target(0), None);
    assert_eq!(probe_target(1), Some(1));
    assert_eq!(probe_target(4242), Some(4242));
    assert_eq!(probe_target(0x7fff_ffff), Some(i32::MAX));
    assert_eq!(probe_target(0x8000_0000), None);
    assert_eq!(probe_target(u32::MAX), None);
}

#[test]
fn message_from_bytes_and_reading() {
    let m = CommunicationMessage::new_from("ping", JsonValue::Null, [0u8; 16], Some(1234));
    assert_eq!(m.id, "00000000-0000-4000-8000-000000000000");
    assert_eq!(m.timestamp, 1234);
    assert_eq!(m.message_type, "ping");
    assert_eq!(m.source_id, "unknown");
    assert_eq!(m.reply_to, None);
    let early = CommunicationMessage::new_from("ping", JsonValue::Null, [0xffu8; 16], None);
    assert_eq!(early.timestamp, 0);
    assert_eq!(early.id, "ffffffff-ffff-4fff-bfff-ffffffffffff");
}

#[test]
fn broadcasts_across_calls_follow_the_file() {
    // file lines a, b, c; the first call reads them all, later calls resume
    // after the line they delivered
    let mut config = CommunicationConfig::default();
    config.identifier = "app".to_string();
    let mut c = FileBasedClient::new(&config, "/tmp").unwrap();
    let file = vec![("a".to_string(), 10u64), ("b".to_string(), 20u64), ("a".to_string(), 30u64), ("c".to_string(), 40u64)];
    let mut delivered = Vec::new();
    loop {
        let from = match c.broadcast_resume(40) {
            Some(off) => off,
            None => break,
        };
        let rest: Vec<(String, u64)> = file.iter().filter(|(_, e)| *e > from).cloned().collect();
        match c.take_first_new_broadcast(&rest, 40) {
            Some(i) => delivered.push(rest[i].clone()),
            None => {}
        }
    }
    assert_eq!(delivered, vec![("a".to_string(), 10), ("b".to_string(), 20), ("c".to_string(), 40)]);
}
