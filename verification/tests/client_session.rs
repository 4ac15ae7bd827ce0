use zetta_chat::network::{
    is_keepalive, keepalive_frame, keepalive_period_secs, local_bind_addr, payload_text,
    server_addr_from_args, ClientSession, NetEvent, SessionAction,
    SessionEvent, SessionPhase, UiCommand,
};

fn status(a: &SessionAction) -> Option<&str> {
    match a {
        SessionAction::Notify(NetEvent::StatusChanged(s)) => Some(s.as_str()),
        _ => None,
    }
}

fn error(a: &SessionAction) -> Option<&str> {
    match a {
        SessionAction::Notify(NetEvent::Error(s)) => Some(s.as_str()),
        _ => None,
    }
}

fn streaming() -> ClientSession {
    let mut s = ClientSession::new("127.0.0.1:8080".to_string());
    s.step(SessionEvent::Resume);
    s.step(SessionEvent::Bound);
    s.step(SessionEvent::Connected);
    s.step(SessionEvent::StreamOpened);
    assert_eq!(s.phase(), SessionPhase::Streaming);
    s
}

#[test]
fn session_sets_up_a_stream() {
    let mut s = ClientSession::new("127.0.0.1:8080".to_string());
    assert_eq!(s.phase(), SessionPhase::Waiting);
    let a = s.step(SessionEvent::Resume);
    assert_eq!(a.len(), 2);
    assert_eq!(status(&a[0]), Some("Binding local endpoint..."));
    assert!(matches!(a[1], SessionAction::Bind));
    assert_eq!(s.phase(), SessionPhase::Binding);
    let a = s.step(SessionEvent::Bound);
    assert_eq!(status(&a[0]), Some("Connecting to 127.0.0.1:8080..."));
    assert!(matches!(a[1], SessionAction::Connect));
    let a = s.step(SessionEvent::Connected);
    assert_eq!(status(&a[0]), Some("Connected to 127.0.0.1:8080"));
    assert!(matches!(a[1], SessionAction::OpenStream));
    let a = s.step(SessionEvent::StreamOpened);
    assert!(a.is_empty());
    assert_eq!(s.phase(), SessionPhase::Streaming);
    assert!(!s.is_finished());
}

#[test]
fn failed_bind_reports_and_backs_off() {
    let mut s = ClientSession::new("h:1".to_string());
    s.step(SessionEvent::Resume);
    let a = s.step(SessionEvent::BindFailed("Io(denied)".to_string()));
    assert_eq!(a.len(), 2);
    assert_eq!(error(&a[0]), Some("Bind failed: Io(denied)"));
    assert!(matches!(a[1], SessionAction::Sleep(3)));
    assert_eq!(s.phase(), SessionPhase::Waiting);
    let a = s.step(SessionEvent::Resume);
    assert!(matches!(a[1], SessionAction::Bind));
}

#[test]
fn failed_connect_and_stream_report_and_back_off() {
    let mut s = ClientSession::new("h:1".to_string());
    s.step(SessionEvent::Resume);
    s.step(SessionEvent::Bound);
    let a = s.step(SessionEvent::ConnectFailed("Timeout".to_string()));
    assert_eq!(error(&a[0]), Some("Connection failed: Timeout"));
    assert!(matches!(a[1], SessionAction::Sleep(3)));
    s.step(SessionEvent::Resume);
    s.step(SessionEvent::Bound);
    s.step(SessionEvent::Connected);
    let a = s.step(SessionEvent::StreamFailed("Closed".to_string()));
    assert_eq!(error(&a[0]), Some("Failed to open stream: Closed"));
    assert!(matches!(a[1], SessionAction::Sleep(3)));
    assert_eq!(s.phase(), SessionPhase::Waiting);
}

#[test]
fn keepalive_frames_are_not_shown() {
    let mut s = streaming();
    assert!(s.step(SessionEvent::Received(vec![0u8])).is_empty());
    assert_eq!(s.phase(), SessionPhase::Streaming);
}

#[test]
fn received_text_is_reported() {
    let mut s = streaming();
    let a = s.step(SessionEvent::Received(b"[System]: User 2 joined the chat!".to_vec()));
    assert_eq!(a.len(), 1);
    match &a[0] {
        SessionAction::Notify(NetEvent::MessageReceived(m)) => {
            assert_eq!(m, "[System]: User 2 joined the chat!")
        }
        other => panic!("unexpected {:?}", other),
    }
}

#[test]
fn invalid_utf8_is_replaced() {
    let mut s = streaming();
    let a = s.step(SessionEvent::Received(vec![b'a', 0xff, b'b']));
    match &a[0] {
        SessionAction::Notify(NetEvent::MessageReceived(m)) => assert_eq!(m, "a\u{FFFD}b"),
        other => panic!("unexpected {:?}", other),
    }
}

#[test]
fn typed_message_is_written_as_utf8() {
    let mut s = streaming();
    let a = s.step(SessionEvent::Command(UiCommand::SendMessage("héllo".to_string())));
    assert_eq!(a.len(), 1);
    match &a[0] {
        SessionAction::Write(b) => assert_eq!(b.as_slice(), "héllo".as_bytes()),
        other => panic!("unexpected {:?}", other),
    }
    let a = s.step(SessionEvent::SendFailed("BrokenPipe".to_string()));
    assert_eq!(error(&a[0]), Some("Send failed: BrokenPipe"));
    assert_eq!(s.phase(), SessionPhase::Streaming);
}

#[test]
fn keepalive_timer_writes_the_frame() {
    let mut s = streaming();
    let a = s.step(SessionEvent::KeepaliveDue);
    assert_eq!(a.len(), 1);
    match &a[0] {
        SessionAction::WriteKeepalive(b) => assert_eq!(b, &vec![0u8]),
        other => panic!("unexpected {:?}", other),
    }
    let a = s.step(SessionEvent::KeepaliveFailed);
    assert_eq!(a.len(), 1);
    assert!(matches!(a[0], SessionAction::Sleep(2)));
    assert_eq!(s.phase(), SessionPhase::Waiting);
}

#[test]
fn lost_stream_reconnects() {
    let mut s = streaming();
    let a = s.step(SessionEvent::ReadEnded);
    assert_eq!(status(&a[0]), Some("Disconnected (Stream closed). Reconnecting..."));
    assert!(matches!(a[1], SessionAction::Sleep(2)));
    assert_eq!(s.phase(), SessionPhase::Waiting);
    let mut s = streaming();
    let a = s.step(SessionEvent::ReadFailed);
    assert_eq!(status(&a[0]), Some("Disconnected (Read error). Reconnecting..."));
    assert!(matches!(a[1], SessionAction::Sleep(2)));
    let a = s.step(SessionEvent::Resume);
    assert_eq!(status(&a[0]), Some("Binding local endpoint..."));
}

#[test]
fn quit_shuts_down_and_finishes() {
    let mut s = streaming();
    let a = s.step(SessionEvent::Command(UiCommand::Quit));
    assert_eq!(a.len(), 1);
    assert!(matches!(a[0], SessionAction::Shutdown));
    assert!(s.is_finished());
    assert!(s.step(SessionEvent::Resume).is_empty());
    assert!(s.step(SessionEvent::ReadFailed).is_empty());
    assert_eq!(s.phase(), SessionPhase::Finished);
}

#[test]
fn closed_ui_finishes_quietly() {
    let mut s = streaming();
    assert!(s.step(SessionEvent::CommandsClosed).is_empty());
    assert!(s.is_finished());
}

#[test]
fn out_of_phase_events_are_ignored() {
    let mut s = ClientSession::new("h:1".to_string());
    assert!(s.step(SessionEvent::Bound).is_empty());
    assert!(s.step(SessionEvent::Received(b"x".to_vec())).is_empty());
    assert_eq!(s.phase(), SessionPhase::Waiting);
}

#[test]
fn keepalive_helpers_agree() {
    let f = keepalive_frame();
    assert_eq!(f, vec![0u8]);
    assert!(is_keepalive(&f));
    assert!(!is_keepalive(&[0u8, 0u8]));
    assert!(!is_keepalive(b""));
    assert_eq!(payload_text("ça".as_bytes()), "ça");
}

#[test]
fn client_settings() {
    assert_eq!(keepalive_period_secs(), 15);
    assert_eq!(local_bind_addr(), "0.0.0.0:0");
    let none = vec!["zetta-chat".to_string()];
    assert_eq!(server_addr_from_args(&none), "127.0.0.1:8080");
    let some = vec!["zetta-chat".to_string(), "20.204.47.105:8080".to_string(), "x".to_string()];
    assert_eq!(server_addr_from_args(&some), "20.204.47.105:8080");
}
