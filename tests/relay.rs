use chatrs::relay::{Relay, RelayAction, RelayEvent};
use chatrs::{ClientMessage, DecodeError, ServerMessage};

fn chat(content: &str) -> Vec<u8> {
    ClientMessage::Message { content: content.to_owned() }.serialize()
}

fn nick(n: &str) -> Vec<u8> {
    ClientMessage::Nick { nick: n.to_owned() }.serialize()
}

fn connected(ids: &[u64]) -> Relay {
    let mut relay = Relay::new();
    for &e in ids {
        assert!(matches!(relay.handle_event(RelayEvent::Connected(e)), RelayAction::Nothing));
    }
    relay
}

fn expect_broadcast(action: RelayAction) -> (Vec<u64>, String, String) {
    match action {
        RelayAction::Broadcast { mut recipients, data } => {
            recipients.sort();
            match ServerMessage::deserialize(&data).unwrap() {
                ServerMessage::Message { nick, content } => (recipients, nick, content),
            }
        }
        _ => panic!("expected a broadcast"),
    }
}

#[test]
fn broadcast_reaches_every_session_including_sender() {
    let mut relay = connected(&[1, 2, 3]);
    let (to, nick, content) = expect_broadcast(relay.handle_event(RelayEvent::Message(1, chat("hi"))));
    assert_eq!(to, vec![1, 2, 3]);
    assert_eq!(nick, "anonymous");
    assert_eq!(content, "hi");
}

#[test]
fn broadcast_uses_senders_nickname() {
    let mut relay = connected(&[1, 2, 3]);
    assert!(matches!(relay.handle_event(RelayEvent::Message(1, nick("alice"))), RelayAction::Nothing));
    let (to, n, content) = expect_broadcast(relay.handle_event(RelayEvent::Message(1, chat("hi"))));
    assert_eq!(to, vec![1, 2, 3]);
    assert_eq!(n, "alice");
    assert_eq!(content, "hi");
    let (_, n2, _) = expect_broadcast(relay.handle_event(RelayEvent::Message(2, chat("yo"))));
    assert_eq!(n2, "anonymous");
}

#[test]
fn nick_change_is_not_broadcast() {
    let mut relay = connected(&[1, 2]);
    assert!(matches!(relay.handle_event(RelayEvent::Message(2, nick("bob"))), RelayAction::Nothing));
    assert_eq!(relay.registry().lookup(2), "bob");
}

#[test]
fn malformed_bytes_are_rejected_and_sessions_kept() {
    let mut relay = connected(&[1]);
    match relay.handle_event(RelayEvent::Message(1, vec![7, 0, 0, 0])) {
        RelayAction::Rejected(e) => assert_eq!(e, DecodeError::UnknownVariant),
        _ => panic!("expected a rejection"),
    }
    match relay.handle_event(RelayEvent::Message(1, vec![0, 0])) {
        RelayAction::Rejected(e) => assert_eq!(e, DecodeError::Truncated),
        _ => panic!("expected a rejection"),
    }
    assert!(relay.registry().contains(1));
}

#[test]
fn events_of_unknown_endpoints_are_ignored() {
    let mut relay = connected(&[1]);
    assert!(matches!(relay.handle_event(RelayEvent::Disconnected(1)), RelayAction::Nothing));
    assert!(matches!(relay.handle_event(RelayEvent::Message(1, chat("late"))), RelayAction::Nothing));
    assert!(matches!(relay.handle_event(RelayEvent::Message(1, nick("ghost"))), RelayAction::Nothing));
    assert!(matches!(relay.handle_event(RelayEvent::Disconnected(9)), RelayAction::Nothing));
    assert!(relay.registry().all_endpoints().is_empty());
}

#[test]
fn disconnected_session_gets_no_broadcast() {
    let mut relay = connected(&[1, 2, 3]);
    relay.handle_event(RelayEvent::Disconnected(2));
    let (to, _, _) = expect_broadcast(relay.handle_event(RelayEvent::Message(3, chat("x"))));
    assert_eq!(to, vec![1, 3]);
}
