//! The life of a node, the chat window, the errors, and the identity.

use p2p_walkie_talkie::address::IpAddress;
use p2p_walkie_talkie::error::WalkieTalkieError;
use p2p_walkie_talkie::gui::WalkieTalkieApp;
use p2p_walkie_talkie::lifecycle::{handle_signals, shutdown, Activity, NodeAction, NodeEvent, NodeState};
use p2p_walkie_talkie::peer::PeerInfo;
use p2p_walkie_talkie::peer::NetworkMessage;
use p2p_walkie_talkie::walkie_talkie::{WalkieTalkie, DEFAULT_PORT};

const EVENTS: [NodeEvent; 6] = [
    NodeEvent::Started,
    NodeEvent::QuitRequested,
    NodeEvent::SignalReceived,
    NodeEvent::ExitNotified,
    NodeEvent::ActivityEnded { activity: Activity::TcpListener, failed: true },
    NodeEvent::ActivityEnded { activity: Activity::CommandLoop, failed: false },
];

const STATES: [NodeState; 4] = [NodeState::Starting, NodeState::Running, NodeState::Terminating, NodeState::Stopped];

#[test]
fn a_node_quits_through_the_exit_notice() {
    let state = NodeState::new();
    assert_eq!(state, NodeState::Starting);
    let (state, action) = state.step(NodeEvent::Started);
    assert_eq!((state, action), (NodeState::Running, NodeAction::Nothing));
    let (state, action) = state.step(NodeEvent::QuitRequested);
    assert_eq!((state, action), (NodeState::Terminating, NodeAction::NotifyExit));
    let (state, action) = state.step(NodeEvent::ExitNotified);
    assert_eq!((state, action), (NodeState::Stopped, NodeAction::Halt(0)));
}

#[test]
fn a_signal_is_handled_as_a_quit_request() {
    for state in STATES {
        assert_eq!(state.step(NodeEvent::SignalReceived), state.step(NodeEvent::QuitRequested));
    }
    assert_eq!(NodeState::Running.step(NodeEvent::SignalReceived), (NodeState::Terminating, NodeAction::NotifyExit));
}

#[test]
fn both_ways_of_leaving_send_the_same_notice() {
    let mut wt = WalkieTalkie::with_identity("me".to_string(), "Me".to_string(), 9000);
    wt.peers.upsert(PeerInfo { id: "p1".to_string(), name: "Al".to_string(), ip: IpAddress::V4(10, 0, 0, 2), port: 8080 });
    for leave in [shutdown, handle_signals] {
        let (state, notice) = leave(&wt, NodeState::Running);
        assert_eq!(state, NodeState::Terminating);
        let run = notice.expect("a running node owes its peers a notice");
        assert!(matches!(run.envelope(), NetworkMessage::Exit(id) if id == "me"));
        assert_eq!(run.current().map(|p| p.id.clone()), Some("p1".to_string()));
        assert_eq!(run.attempted(), 0);
        for state in [NodeState::Starting, NodeState::Terminating, NodeState::Stopped] {
            let (next, notice) = leave(&wt, state);
            assert_eq!(next, state);
            assert!(notice.is_none());
        }
    }
}

#[test]
fn terminating_is_entered_from_running_only() {
    for state in STATES {
        for event in EVENTS {
            let (next, action) = state.step(event);
            let leaves = matches!(event, NodeEvent::QuitRequested | NodeEvent::SignalReceived);
            if next == NodeState::Terminating && state != NodeState::Terminating {
                assert!(state == NodeState::Running && leaves);
            }
            assert_eq!(action == NodeAction::NotifyExit, state == NodeState::Running && leaves);
        }
    }
}

#[test]
fn the_end_of_an_activity_ends_the_node() {
    let failed = NodeEvent::ActivityEnded { activity: Activity::TcpListener, failed: true };
    let ended = NodeEvent::ActivityEnded { activity: Activity::MessageDisplay, failed: false };
    assert_eq!(NodeState::Starting.step(failed), (NodeState::Stopped, NodeAction::Halt(1)));
    assert_eq!(NodeState::Running.step(failed), (NodeState::Stopped, NodeAction::Halt(1)));
    assert_eq!(NodeState::Running.step(ended), (NodeState::Stopped, NodeAction::Halt(0)));
    assert_eq!(NodeState::Terminating.step(failed), (NodeState::Terminating, NodeAction::Nothing));
}

#[test]
fn a_stopped_node_stays_stopped() {
    for event in EVENTS {
        assert_eq!(NodeState::Stopped.step(event), (NodeState::Stopped, NodeAction::Nothing));
    }
    assert_eq!(NodeState::Starting.step(NodeEvent::QuitRequested), (NodeState::Starting, NodeAction::Nothing));
    assert_eq!(NodeState::Running.step(NodeEvent::Started), (NodeState::Running, NodeAction::Nothing));
    assert_eq!(NodeState::Running.step(NodeEvent::ExitNotified), (NodeState::Running, NodeAction::Nothing));
}

#[test]
fn the_window_enters_lines_that_are_not_blank() {
    let mut app = WalkieTalkieApp::default();
    assert_eq!(app.current_input(), "");
    assert!(app.entered().is_empty());
    assert!(!app.submit());
    app.set_input("   ".to_string());
    assert!(!app.submit());
    assert_eq!(app.current_input(), "   ");
    assert!(app.entered().is_empty());
    app.set_input(" hello ".to_string());
    assert!(app.submit());
    assert_eq!(app.current_input(), "");
    assert_eq!(app.entered(), &vec![" hello ".to_string()]);
    app.set_input("again".to_string());
    assert!(app.submit());
    assert_eq!(app.entered(), &vec![" hello ".to_string(), "again".to_string()]);
}

#[test]
fn errors_are_shown_with_their_kind() {
    assert_eq!(WalkieTalkieError::Network("refused".to_string()).to_string(), "Network error: refused");
    assert_eq!(WalkieTalkieError::Serialization("eof".to_string()).to_string(), "Serialization error: eof");
    assert_eq!(WalkieTalkieError::Unknown("".to_string()).to_string(), "Unknown error: ");
}

#[test]
fn an_error_of_the_system_is_a_network_error() {
    let e = std::io::Error::new(std::io::ErrorKind::AddrInUse, "port taken");
    match WalkieTalkieError::from(e) {
        WalkieTalkieError::Network(text) => assert_eq!(text, "port taken"),
        other => panic!("not a network error: {:?}", other),
    }
}

#[test]
fn an_error_of_the_codec_is_a_serialization_error() {
    let e = serde_json::from_str::<u8>("{").unwrap_err();
    let text = e.to_string();
    match WalkieTalkieError::from(e) {
        WalkieTalkieError::Serialization(got) => assert_eq!(got, text),
        other => panic!("not a serialization error: {:?}", other),
    }
}

#[test]
fn a_new_node_has_an_identity_of_its_own() {
    let a = WalkieTalkie::new("Al".to_string(), 9000);
    let b = WalkieTalkie::new("Al".to_string(), 9000);
    assert_ne!(a.peer_id, b.peer_id);
    for id in [&a.peer_id, &b.peer_id] {
        assert_eq!(id.len(), 36);
        for (i, c) in id.chars().enumerate() {
            if [8, 13, 18, 23].contains(&i) {
                assert_eq!(c, '-');
            } else {
                assert!(c.is_ascii_digit() || ('a'..='f').contains(&c), "{}", id);
            }
        }
        assert_eq!(id.as_bytes()[14], b'4');
    }
    assert!(a.list().is_empty());
    assert_eq!(a.peers.owner(), &a.peer_id);
}

#[test]
fn name_and_port_are_settled_at_creation() {
    assert_eq!(DEFAULT_PORT, 8080);
    let wt = WalkieTalkie::new("  Tester \n".to_string(), 0);
    assert_eq!(wt.name, "Tester");
    assert_eq!(wt.port, 8080);
    assert_eq!(WalkieTalkie::new("".to_string(), 1).name, "Anonymous");
    assert_eq!(WalkieTalkie::new(" \t ".to_string(), 1).name, "Anonymous");
    assert_eq!(WalkieTalkie::new("n".repeat(65), 1).name, "Anonymous");
    assert_eq!(WalkieTalkie::new("n".repeat(64), 1).name, "n".repeat(64));
    assert_eq!(WalkieTalkie::new(format!(" {} ", "n".repeat(64)), 1).name, "n".repeat(64));
    assert_eq!(WalkieTalkie::new("\u{e9}".repeat(32), 1).name, "\u{e9}".repeat(32));
    assert_eq!(WalkieTalkie::new("\u{e9}".repeat(33), 1).name, "Anonymous");
    let wt = WalkieTalkie::with_identity("fixed".to_string(), "Al".to_string(), 65535);
    assert_eq!(wt.peer_id, "fixed");
    assert_eq!(wt.port, 65535);
    assert!(wt.own_record(IpAddress::V4(10, 0, 0, 2)).is_valid());
}

#[test]
fn the_envelopes_of_a_node() {
    let wt = WalkieTalkie::with_identity("me".to_string(), "Me".to_string(), 9000);
    assert!(matches!(wt.heartbeat_message(), NetworkMessage::Heartbeat(ref id) if id == "me"));
    assert!(matches!(wt.exit_message(), NetworkMessage::Exit(ref id) if id == "me"));
    match wt.chat_message("hi", 3) {
        NetworkMessage::Chat(m) => assert_eq!((m.from_id, m.from_name, m.content, m.timestamp), ("me".to_string(), "Me".to_string(), "hi".to_string(), 3)),
        other => panic!("not a chat message: {:?}", other),
    }
    match wt.discovery_message(IpAddress::V4(10, 0, 0, 2)) {
        NetworkMessage::Discovery(p) => assert_eq!((p.id, p.name, p.ip, p.port), ("me".to_string(), "Me".to_string(), IpAddress::V4(10, 0, 0, 2), 9000)),
        other => panic!("not an announcement: {:?}", other),
    }
}
