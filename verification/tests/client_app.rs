use tokio::sync::mpsc;
use zetta_chat::app::{viewport, App, InputArea, InputViewport, KeyInput};
use zetta_chat::network::{NetEvent, UiCommand};

fn fresh() -> (App, mpsc::Receiver<UiCommand>) {
    let (tx, rx) = mpsc::channel(100);
    (App::new(tx), rx)
}

#[test]
fn new_app_starts_empty_and_initializing() {
    let (app, mut rx) = fresh();
    assert_eq!(app.input, "");
    assert!(app.messages.is_empty());
    assert_eq!(app.status, "Initializing...");
    assert!(matches!(rx.try_recv(), Err(mpsc::error::TryRecvError::Empty)));
}

#[test]
fn reports_offer_nothing() {
    let (mut app, mut rx) = fresh();
    app.handle_net_event(NetEvent::StatusChanged("Connected to h".to_string()));
    app.handle_net_event(NetEvent::MessageReceived("m".to_string()));
    app.handle_net_event(NetEvent::Error("e".to_string()));
    assert!(matches!(rx.try_recv(), Err(mpsc::error::TryRecvError::Empty)));
}

#[test]
fn second_submit_offers_nothing() {
    let (mut app, mut rx) = fresh();
    app.input = "hi".to_string();
    app.submit_message();
    app.submit_message();
    assert!(matches!(rx.try_recv(), Ok(UiCommand::SendMessage(ref m)) if m == "hi"));
    assert!(matches!(rx.try_recv(), Err(mpsc::error::TryRecvError::Empty)));
    assert_eq!(app.messages, vec!["You: hi".to_string()]);
}

#[test]
fn full_channel_drops_the_command_without_retry() {
    let (tx, mut rx) = mpsc::channel(1);
    let mut app = App::new(tx);
    app.send_quit();
    app.input = "lost".to_string();
    app.submit_message();
    assert_eq!(app.input, "");
    assert_eq!(app.messages, vec!["You: lost".to_string()]);
    assert!(matches!(rx.try_recv(), Ok(UiCommand::Quit)));
    assert!(matches!(rx.try_recv(), Err(mpsc::error::TryRecvError::Empty)));
}

#[test]
fn status_report_replaces_status_only() {
    let (mut app, _rx) = fresh();
    app.handle_net_event(NetEvent::StatusChanged("Connected to 1.2.3.4:8080".to_string()));
    assert_eq!(app.status, "Connected to 1.2.3.4:8080");
    assert!(app.messages.is_empty());
}

#[test]
fn received_message_is_appended() {
    let (mut app, _rx) = fresh();
    app.handle_net_event(NetEvent::MessageReceived("User 2: hi".to_string()));
    app.handle_net_event(NetEvent::MessageReceived("User 3: yo".to_string()));
    assert_eq!(app.messages, vec!["User 2: hi".to_string(), "User 3: yo".to_string()]);
    assert_eq!(app.status, "Initializing...");
}

#[test]
fn error_report_is_marked() {
    let (mut app, _rx) = fresh();
    app.handle_net_event(NetEvent::Error("Bind failed: boom".to_string()));
    assert_eq!(app.messages, vec!["ERROR: Bind failed: boom".to_string()]);
}

#[test]
fn empty_line_is_not_sent() {
    let (mut app, mut rx) = fresh();
    app.submit_message();
    assert!(app.messages.is_empty());
    assert!(rx.try_recv().is_err());
}

#[test]
fn typed_line_is_sent_recorded_and_cleared() {
    let (mut app, mut rx) = fresh();
    app.input = "hello".to_string();
    app.submit_message();
    assert_eq!(app.input, "");
    assert_eq!(app.messages, vec!["You: hello".to_string()]);
    match rx.try_recv() {
        Ok(UiCommand::SendMessage(m)) => assert_eq!(m, "hello"),
        other => panic!("unexpected {:?}", other),
    }
}

#[test]
fn take_submission_returns_the_command() {
    let (mut app, _rx) = fresh();
    app.input = "abc".to_string();
    match app.take_submission() {
        Some(UiCommand::SendMessage(m)) => assert_eq!(m, "abc"),
        other => panic!("unexpected {:?}", other),
    }
    assert!(app.take_submission().is_none());
}

#[test]
fn keys_edit_the_line() {
    let (mut app, mut rx) = fresh();
    assert!(!app.handle_key(KeyInput::Char('h')));
    assert!(!app.handle_key(KeyInput::Char('é')));
    assert_eq!(app.input, "hé");
    assert!(!app.handle_key(KeyInput::Backspace));
    assert_eq!(app.input, "h");
    assert!(!app.handle_key(KeyInput::Backspace));
    assert!(!app.handle_key(KeyInput::Backspace));
    assert_eq!(app.input, "");
    assert!(!app.handle_key(KeyInput::Other));
    app.handle_key(KeyInput::Char('x'));
    assert!(!app.handle_key(KeyInput::Enter));
    assert_eq!(app.messages, vec!["You: x".to_string()]);
    assert!(matches!(rx.try_recv(), Ok(UiCommand::SendMessage(ref m)) if m == "x"));
}

#[test]
fn backspace_undoes_typing() {
    let (mut app, mut rx) = fresh();
    app.input = "ab".to_string();
    app.handle_key(KeyInput::Char('😀'));
    app.handle_key(KeyInput::Backspace);
    assert_eq!(app.input, "ab");
    assert!(app.messages.is_empty());
    assert!(matches!(rx.try_recv(), Err(mpsc::error::TryRecvError::Empty)));
}

#[test]
fn esc_quits_and_tells_the_network() {
    let (mut app, mut rx) = fresh();
    assert!(app.handle_key(KeyInput::Esc));
    assert!(matches!(rx.try_recv(), Ok(UiCommand::Quit)));
}

#[test]
fn send_quit_offers_quit() {
    let (mut app, mut rx) = fresh();
    app.send_quit();
    assert!(matches!(rx.try_recv(), Ok(UiCommand::Quit)));
    assert!(matches!(rx.try_recv(), Err(mpsc::error::TryRecvError::Empty)));
}

#[test]
fn connected_status_is_recognized() {
    let (mut app, _rx) = fresh();
    assert!(!app.status_is_connected());
    app.status = "Connecting to 1.2.3.4:8080...".to_string();
    assert!(!app.status_is_connected());
    app.status = "Connected to 1.2.3.4:8080".to_string();
    assert!(app.status_is_connected());
    app.status = "Disconnected (Stream closed). Reconnecting...".to_string();
    assert!(!app.status_is_connected());
}

#[test]
fn status_line_is_framed() {
    let (app, _rx) = fresh();
    assert_eq!(app.status_line(), " Status: Initializing... ");
}

#[test]
fn short_line_does_not_scroll() {
    let area = InputArea { x: 2, y: 10, width: 20 };
    assert_eq!(viewport(5, area), InputViewport { scroll: 0, cursor_x: 8, cursor_y: 11 });
}

#[test]
fn long_line_scrolls_to_keep_its_end_in_view() {
    let area = InputArea { x: 2, y: 10, width: 20 };
    // 17 columns are visible: 30 columns scroll by 13, the cursor sits at the box's end.
    assert_eq!(viewport(30, area), InputViewport { scroll: 13, cursor_x: 20, cursor_y: 11 });
    assert_eq!(viewport(17, area), InputViewport { scroll: 0, cursor_x: 20, cursor_y: 11 });
}

#[test]
fn narrow_box_shows_nothing() {
    let area = InputArea { x: 4, y: 0, width: 2 };
    assert_eq!(viewport(9, area), InputViewport { scroll: 9, cursor_x: 5, cursor_y: 1 });
}

#[test]
fn wide_characters_count_by_display_width() {
    let (mut app, _rx) = fresh();
    let area = InputArea { x: 0, y: 0, width: 8 };
    app.input = "😀😀😀".to_string();
    // Each emoji takes two columns: six columns in a box that shows five.
    assert_eq!(
        app.input_viewport(area),
        Some(InputViewport { scroll: 1, cursor_x: 6, cursor_y: 1 })
    );
    app.input = "abc".to_string();
    assert_eq!(
        app.input_viewport(area),
        Some(InputViewport { scroll: 0, cursor_x: 4, cursor_y: 1 })
    );
}

#[test]
fn cursor_outside_the_screen_is_refused() {
    let (mut app, _rx) = fresh();
    app.input = "abc".to_string();
    assert_eq!(app.input_viewport(InputArea { x: 65535, y: 0, width: 2 }), None);
    assert_eq!(app.input_viewport(InputArea { x: 0, y: 65535, width: 10 }), None);
    assert_eq!(
        app.input_viewport(InputArea { x: 65533, y: 0, width: 0 }),
        Some(InputViewport { scroll: 3, cursor_x: 65534, cursor_y: 1 })
    );
}
