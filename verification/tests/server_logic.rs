use zetta_chat::server::{
    algorithm_from_name, delivery_for, join_notice, leave_notice, looks_like_option,
    message_from, parse_server_args, peer_reaction, ArgError, CcAlgorithm, ChatMessage,
    PeerEvent,
};

fn args(list: &[&str]) -> Vec<String> {
    list.iter().map(|s| s.to_string()).collect()
}

#[test]
fn no_arguments_give_the_defaults() {
    let c = parse_server_args(&args(&["server"])).unwrap();
    assert_eq!(c.addr, "0.0.0.0:8080");
    assert_eq!(c.cc_algo, CcAlgorithm::Cubic);
}

#[test]
fn address_and_algorithm_are_read() {
    let c = parse_server_args(&args(&["server", "127.0.0.1:9000", "--cc", "reno"])).unwrap();
    assert_eq!(c.addr, "127.0.0.1:9000");
    assert_eq!(c.cc_algo, CcAlgorithm::Reno);
    let c = parse_server_args(&args(&["server", "--cc", "RENO", "a:1", "b:2"])).unwrap();
    assert_eq!(c.addr, "b:2");
    assert_eq!(c.cc_algo, CcAlgorithm::Reno);
    let c = parse_server_args(&args(&["server", "--cc", "reno", "--cc", "Cubic"])).unwrap();
    assert_eq!(c.cc_algo, CcAlgorithm::Cubic);
}

#[test]
fn unknown_algorithm_is_refused() {
    match parse_server_args(&args(&["server", "--cc", "BBR"])) {
        Err(e @ ArgError::UnknownAlgorithm(_)) => {
            assert_eq!(e.message(), "Unknown congestion control algorithm: bbr")
        }
        other => panic!("unexpected {:?}", other),
    }
}

#[test]
fn unknown_option_is_refused() {
    match parse_server_args(&args(&["server", "-v"])) {
        Err(e @ ArgError::UnknownOption(_)) => assert_eq!(e.message(), "Unknown option: -v"),
        other => panic!("unexpected {:?}", other),
    }
    // `--cc` with nothing after it is no option the server knows.
    match parse_server_args(&args(&["server", "x:1", "--cc"])) {
        Err(ArgError::UnknownOption(a)) => assert_eq!(a, "--cc"),
        other => panic!("unexpected {:?}", other),
    }
}

#[test]
fn names_and_options_are_recognized() {
    assert_eq!(algorithm_from_name("reno"), Some(CcAlgorithm::Reno));
    assert_eq!(algorithm_from_name("cubic"), Some(CcAlgorithm::Cubic));
    assert_eq!(algorithm_from_name("Reno"), None);
    assert!(looks_like_option("-x"));
    assert!(!looks_like_option("x-"));
    assert!(!looks_like_option(""));
}

#[test]
fn announcements_name_the_user() {
    let j = join_notice(7);
    assert_eq!(j.sender_id, 0);
    assert_eq!(j.content, "User 7 joined the chat!");
    let l = leave_notice(1234567);
    assert_eq!(l.sender_id, 0);
    assert_eq!(l.content, "User 1234567 left the chat.");
    assert_eq!(join_notice(10).content, "User 10 joined the chat!");
    assert_eq!(join_notice(0).content, "User 0 joined the chat!");
}

#[test]
fn reads_publish_messages_but_not_keepalives() {
    assert!(message_from(3, &[0u8]).is_none());
    let m = message_from(3, "hi there".as_bytes()).unwrap();
    assert_eq!(m.sender_id, 3);
    assert_eq!(m.content, "hi there");
}

#[test]
fn deliveries_are_formatted_per_reader() {
    let own = ChatMessage { sender_id: 4, content: "mine".to_string() };
    assert_eq!(delivery_for(4, &own), None);
    assert_eq!(delivery_for(5, &own), Some("User 4: mine".to_string()));
    let sys = ChatMessage { sender_id: 0, content: "User 9 left the chat.".to_string() };
    assert_eq!(delivery_for(5, &sys), Some("[System]: User 9 left the chat.".to_string()));
}

#[test]
fn peer_reactions_follow_the_stream() {
    let r = peer_reaction(2, PeerEvent::Read(b"hello".to_vec()));
    assert!(!r.stop);
    assert!(r.deliver.is_none());
    let p = r.publish.unwrap();
    assert_eq!((p.sender_id, p.content.as_str()), (2, "hello"));

    let r = peer_reaction(2, PeerEvent::Read(vec![0u8]));
    assert!(r.publish.is_none() && r.deliver.is_none() && !r.stop);

    let r = peer_reaction(2, PeerEvent::ReadEnded);
    assert!(r.stop);
    assert_eq!(r.publish.unwrap().content, "User 2 left the chat.");
    let r = peer_reaction(2, PeerEvent::ReadFailed);
    assert!(r.stop);
    assert_eq!(r.publish.unwrap().sender_id, 0);

    let msg = ChatMessage { sender_id: 3, content: "héy".to_string() };
    let r = peer_reaction(2, PeerEvent::Published(msg.clone()));
    assert_eq!(r.deliver.unwrap(), "User 3: héy".as_bytes().to_vec());
    assert!(!r.stop);
    let r = peer_reaction(3, PeerEvent::Published(msg));
    assert!(r.deliver.is_none() && !r.stop);

    let r = peer_reaction(2, PeerEvent::Lagged);
    assert!(r.publish.is_none() && r.deliver.is_none() && !r.stop);
    assert!(peer_reaction(2, PeerEvent::PublishingClosed).stop);
    assert!(peer_reaction(2, PeerEvent::WriteFailed).stop);
}

#[test]
fn message_reaches_other_users_unchanged() {
    // What one client writes, the server publishes and hands on to another.
    let written = "ça va?".as_bytes().to_vec();
    let published = message_from(6, &written).unwrap();
    let r = peer_reaction(8, PeerEvent::Published(published));
    assert_eq!(String::from_utf8(r.deliver.unwrap()).unwrap(), "User 6: ça va?");
}
