//! End-to-end and unit tests for the broadcast hub core, exercised through
//! the public API with simulated sinks standing in for the transport.

use chat_hub::driver::{step, SessionAction, SessionEvent, SessionState};
use chat_hub::room::label_for;
use chat_hub::wire::encode_ws_message;
use chat_hub::{ChatMessage, ChatRoom, ClientState, IdAllocator, Timestamp, WebSocketMessage};

fn ts(year: i32, month: u32, day: u32, hour: u32, minute: u32, second: u32) -> Timestamp {
    Timestamp { year, month, day, hour, minute, second }
}

/// Delivers `payload` to each recipient's sink; a `None` sink simulates a
/// broken connection whose sends fail and are swallowed.
fn deliver(sinks: &mut Vec<Option<Vec<Vec<u8>>>>, recipients: &[usize], payload: &[u8]) {
    for &id in recipients {
        if let Some(slot) = sinks.get_mut(id) {
            if let Some(sink) = slot.as_mut() {
                sink.push(payload.to_vec());
            }
        }
    }
}

fn labels_as_strings(room: &ChatRoom) -> Vec<String> {
    room.snapshot_labels()
        .into_iter()
        .map(|l| String::from_utf8(l).unwrap())
        .collect()
}

#[test]
fn allocator_issues_distinct_increasing_ids() {
    let mut alloc = IdAllocator::new();
    let mut seen = Vec::new();
    for _ in 0..5 {
        let id = alloc.next();
        assert!(!seen.contains(&id), "identity reused: {}", id);
        if let Some(&last) = seen.last() {
            assert!(id > last, "identities not increasing");
        }
        seen.push(id);
    }
    assert_eq!(seen, vec![1, 2, 3, 4, 5]);
}

#[test]
fn label_formatting() {
    assert_eq!(String::from_utf8(label_for(0)).unwrap(), "User #0");
    assert_eq!(String::from_utf8(label_for(7)).unwrap(), "User #7");
    assert_eq!(String::from_utf8(label_for(10)).unwrap(), "User #10");
    assert_eq!(String::from_utf8(label_for(90210)).unwrap(), "User #90210");
}

#[test]
fn snapshot_completeness_after_join_and_leave() {
    let mut room = ChatRoom::new();
    room.add(1);
    room.add(2);
    room.add(3);
    room.remove(2);
    assert_eq!(labels_as_strings(&room), vec!["User #1", "User #3"]);
    assert_eq!(room.len(), 2);
}

#[test]
fn deregister_twice_same_as_once() {
    let mut room = ChatRoom::new();
    room.add(1);
    room.add(2);
    room.add(3);
    room.remove(2);
    let after_first = labels_as_strings(&room);
    room.remove(2);
    let after_second = labels_as_strings(&room);
    assert_eq!(after_first, after_second);
    assert_eq!(after_second, vec!["User #1", "User #3"]);
}

#[test]
fn remove_absent_id_is_noop() {
    let mut room = ChatRoom::new();
    room.add(5);
    room.remove(42);
    assert_eq!(labels_as_strings(&room), vec!["User #5"]);
}

#[test]
fn add_keeps_labels_in_identity_order() {
    let mut room = ChatRoom::new();
    room.add(3);
    room.add(1);
    room.add(2);
    assert_eq!(labels_as_strings(&room), vec!["User #1", "User #2", "User #3"]);
}

#[test]
fn encode_new_message_exact() {
    let msg = WebSocketMessage::NewMessage(ChatMessage {
        message: b"hello".to_vec(),
        author: b"User #1".to_vec(),
        created_at: ts(2024, 1, 2, 3, 4, 5),
    });
    let encoded = String::from_utf8(encode_ws_message(&msg)).unwrap();
    assert_eq!(
        encoded,
        "{\"message_type\":\"NewMessage\",\"message\":{\"message\":\"hello\",\
         \"author\":\"User #1\",\"created_at\":\"2024-01-02T03:04:05\"},\
         \"users\":null,\"username\":null}"
    );
}

#[test]
fn encode_users_list_exact() {
    let msg = WebSocketMessage::UsersList(vec![b"User #1".to_vec(), b"User #7".to_vec()]);
    let encoded = String::from_utf8(encode_ws_message(&msg)).unwrap();
    assert_eq!(
        encoded,
        "{\"message_type\":\"UsersList\",\"message\":null,\
         \"users\":[\"User #1\",\"User #7\"],\"username\":null}"
    );
}

#[test]
fn encode_empty_users_list() {
    let msg = WebSocketMessage::UsersList(vec![]);
    let encoded = String::from_utf8(encode_ws_message(&msg)).unwrap();
    assert_eq!(
        encoded,
        "{\"message_type\":\"UsersList\",\"message\":null,\"users\":[],\"username\":null}"
    );
}

#[test]
fn encode_username_change_exact() {
    let msg = WebSocketMessage::UsernameChange(b"alice".to_vec());
    let encoded = String::from_utf8(encode_ws_message(&msg)).unwrap();
    assert_eq!(
        encoded,
        "{\"message_type\":\"UsernameChange\",\"message\":null,\"users\":null,\
         \"username\":\"alice\"}"
    );
}

#[test]
fn json_escaping_of_message_text() {
    let msg = WebSocketMessage::UsernameChange(b"a\"b\\c\nd\x01".to_vec());
    let encoded = String::from_utf8(encode_ws_message(&msg)).unwrap();
    assert_eq!(
        encoded,
        "{\"message_type\":\"UsernameChange\",\"message\":null,\"users\":null,\
         \"username\":\"a\\\"b\\\\c\\u000ad\\u0001\"}"
    );
}

#[test]
fn timestamp_rendering_pads_fields() {
    let msg = WebSocketMessage::NewMessage(ChatMessage {
        message: b"x".to_vec(),
        author: b"User #2".to_vec(),
        created_at: ts(987, 12, 31, 23, 59, 9),
    });
    let encoded = String::from_utf8(encode_ws_message(&msg)).unwrap();
    assert!(encoded.contains("\"created_at\":\"0987-12-31T23:59:09\""), "{}", encoded);
}

#[test]
fn clock_reads_a_well_formed_timestamp() {
    let now = Timestamp::now();
    assert!((1..=12).contains(&now.month));
    assert!((1..=31).contains(&now.day));
    assert!(now.hour <= 23);
    assert!(now.minute <= 59);
    assert!(now.second <= 59);
    assert!(now.year >= 2024);
}

#[test]
fn broadcast_message_stamps_current_time() {
    let mut room = ChatRoom::new();
    room.add(1);
    let (payload, recipients) = room.broadcast_message(b"tick".to_vec(), 1);
    let encoded = String::from_utf8(payload).unwrap();
    assert!(encoded.starts_with("{\"message_type\":\"NewMessage\",\"message\":{\"message\":\"tick\",\"author\":\"User #1\",\"created_at\":\""));
    assert!(encoded.ends_with("\"},\"users\":null,\"username\":null}"));
    // The timestamp between the fixed pieces has the ISO shape.
    let start = encoded.find("\"created_at\":\"").unwrap() + "\"created_at\":\"".len();
    let rest = &encoded[start..];
    let end = rest.find('"').unwrap();
    let stamp = &rest[..end];
    assert_eq!(stamp.len(), 19, "unexpected timestamp: {}", stamp);
    assert_eq!(&stamp[4..5], "-");
    assert_eq!(&stamp[7..8], "-");
    assert_eq!(&stamp[10..11], "T");
    assert_eq!(&stamp[13..14], ":");
    assert_eq!(&stamp[16..17], ":");
    assert_eq!(recipients, vec![1]);
}

#[test]
fn broadcast_echo_includes_sender() {
    let mut room = ChatRoom::new();
    room.add(1);
    room.add(2);
    let (payload, recipients) = room.broadcast_message_at(b"hi".to_vec(), 1, ts(2024, 6, 1, 12, 0, 0));
    assert_eq!(recipients, vec![1, 2], "sender must be among the recipients");
    let mut sinks: Vec<Option<Vec<Vec<u8>>>> = vec![None, Some(vec![]), Some(vec![])];
    deliver(&mut sinks, &recipients, &payload);
    let a_inbox = sinks[1].as_ref().unwrap();
    let b_inbox = sinks[2].as_ref().unwrap();
    assert_eq!(a_inbox.len(), 1);
    assert_eq!(b_inbox.len(), 1);
    let got = String::from_utf8(a_inbox[0].clone()).unwrap();
    assert!(got.contains("\"author\":\"User #1\""));
    assert!(got.contains("\"message\":\"hi\""));
}

#[test]
fn fault_isolation_broken_sink_does_not_block_others() {
    let mut room = ChatRoom::new();
    room.add(1);
    room.add(2);
    room.add(3);
    let (payload, recipients) = room.broadcast_message_at(b"all".to_vec(), 3, ts(2024, 6, 1, 12, 0, 0));
    assert_eq!(recipients, vec![1, 2, 3]);
    // Session 2's sink is broken: its send fails and is swallowed.
    let mut sinks: Vec<Option<Vec<Vec<u8>>>> = vec![None, Some(vec![]), None, Some(vec![])];
    deliver(&mut sinks, &recipients, &payload);
    assert_eq!(sinks[1].as_ref().unwrap().len(), 1, "session 1 must still receive");
    assert_eq!(sinks[3].as_ref().unwrap().len(), 1, "session 3 must still receive");
    // The broken session stays registered: only its own read failure closes it.
    assert_eq!(room.len(), 3);
}

#[test]
fn broadcast_reaches_membership_at_that_instant() {
    let mut room = ChatRoom::new();
    room.add(1);
    room.add(2);
    room.remove(1);
    let (_, recipients) = room.broadcast_user_list();
    room.add(9);
    assert_eq!(recipients, vec![2], "deregistered before: out; registered after: out");
}

#[test]
fn empty_room_broadcast_has_no_recipients() {
    let room = ChatRoom::new();
    let (payload, recipients) = room.broadcast_user_list();
    assert!(recipients.is_empty());
    assert_eq!(
        String::from_utf8(payload).unwrap(),
        "{\"message_type\":\"UsersList\",\"message\":null,\"users\":[],\"username\":null}"
    );
}

#[test]
fn label_for_largest_identity() {
    assert_eq!(
        String::from_utf8(label_for(usize::MAX)).unwrap(),
        format!("User #{}", usize::MAX)
    );
}

#[test]
fn driver_lifecycle_transitions() {
    // Handshake: register, then announce presence when enabled.
    let (s1, actions) = step(
        SessionState::Connecting,
        SessionEvent::HandshakeComplete { id: 4 },
        true,
    );
    assert_eq!(s1, SessionState::Registered { id: 4 });
    assert_eq!(
        actions,
        vec![SessionAction::Register { id: 4 }, SessionAction::BroadcastPresence]
    );
    // First inbound frame moves to streaming and broadcasts it.
    let (s2, actions) = step(s1, SessionEvent::Inbound { text: b"hey".to_vec() }, true);
    assert_eq!(s2, SessionState::Streaming { id: 4 });
    assert_eq!(
        actions,
        vec![SessionAction::Broadcast { text: b"hey".to_vec(), author_id: 4 }]
    );
    // Stream end closes, deregisters, announces presence.
    let (s3, actions) = step(s2, SessionEvent::StreamEnded, true);
    assert_eq!(s3, SessionState::Closed);
    assert_eq!(
        actions,
        vec![SessionAction::Deregister { id: 4 }, SessionAction::BroadcastPresence]
    );
    // Closed is terminal.
    let (s4, actions) = step(s3, SessionEvent::Inbound { text: b"late".to_vec() }, true);
    assert_eq!(s4, SessionState::Closed);
    assert!(actions.is_empty());
}

#[test]
fn driver_without_presence_broadcasts() {
    let (s1, actions) = step(
        SessionState::Connecting,
        SessionEvent::HandshakeComplete { id: 1 },
        false,
    );
    assert_eq!(s1, SessionState::Registered { id: 1 });
    assert_eq!(actions, vec![SessionAction::Register { id: 1 }]);
    let (s2, actions) = step(s1, SessionEvent::StreamEnded, false);
    assert_eq!(s2, SessionState::Closed);
    assert_eq!(actions, vec![SessionAction::Deregister { id: 1 }]);
}

#[test]
fn client_applies_envelopes() {
    let mut client = ClientState::new();
    client.apply(WebSocketMessage::UsersList(vec![b"User #1".to_vec(), b"User #2".to_vec()]));
    assert_eq!(client.users, vec![b"User #1".to_vec(), b"User #2".to_vec()]);
    let cm = ChatMessage {
        message: b"hi".to_vec(),
        author: b"User #1".to_vec(),
        created_at: ts(2024, 1, 1, 0, 0, 0),
    };
    client.apply(WebSocketMessage::NewMessage(cm.clone()));
    assert_eq!(client.messages, vec![cm]);
    // A later snapshot replaces the previous one whole.
    client.apply(WebSocketMessage::UsersList(vec![b"User #2".to_vec()]));
    assert_eq!(client.users, vec![b"User #2".to_vec()]);
    client.apply(WebSocketMessage::UsernameChange(b"alice".to_vec()));
    assert_eq!(client.username, b"alice".to_vec());
    assert_eq!(client.messages.len(), 1);
}

#[test]
fn end_to_end_join_chat_leave() {
    let mut alloc = IdAllocator::new();
    let mut room = ChatRoom::new();
    let mut sinks: Vec<Option<Vec<Vec<u8>>>> = vec![None, Some(vec![]), Some(vec![])];

    // A connects.
    let a_id = alloc.next();
    assert_eq!(a_id, 1);
    let (a_state, actions) = step(
        SessionState::Connecting,
        SessionEvent::HandshakeComplete { id: a_id },
        true,
    );
    for action in actions {
        match action {
            SessionAction::Register { id } => room.add(id),
            SessionAction::BroadcastPresence => {
                let (payload, recipients) = room.broadcast_user_list();
                deliver(&mut sinks, &recipients, &payload);
            }
            _ => panic!("unexpected action on join"),
        }
    }

    // B connects.
    let b_id = alloc.next();
    assert_eq!(b_id, 2);
    let (b_state, actions) = step(
        SessionState::Connecting,
        SessionEvent::HandshakeComplete { id: b_id },
        true,
    );
    for action in actions {
        match action {
            SessionAction::Register { id } => room.add(id),
            SessionAction::BroadcastPresence => {
                let (payload, recipients) = room.broadcast_user_list();
                deliver(&mut sinks, &recipients, &payload);
            }
            _ => panic!("unexpected action on join"),
        }
    }

    // Both now hold a UsersList with labels for 1 and 2.
    let expected_both = "{\"message_type\":\"UsersList\",\"message\":null,\
         \"users\":[\"User #1\",\"User #2\"],\"username\":null}";
    let a_inbox = sinks[1].as_ref().unwrap();
    let b_inbox = sinks[2].as_ref().unwrap();
    assert_eq!(String::from_utf8(a_inbox.last().unwrap().clone()).unwrap(), expected_both);
    assert_eq!(String::from_utf8(b_inbox.last().unwrap().clone()).unwrap(), expected_both);

    // A sends "hello": both receive the NewMessage with A's label.
    let (a_state, actions) = step(a_state, SessionEvent::Inbound { text: b"hello".to_vec() }, true);
    for action in actions {
        match action {
            SessionAction::Broadcast { text, author_id } => {
                let (payload, recipients) =
                    room.broadcast_message_at(text, author_id, ts(2024, 5, 6, 7, 8, 9));
                assert_eq!(recipients, vec![1, 2]);
                deliver(&mut sinks, &recipients, &payload);
            }
            _ => panic!("unexpected action on inbound"),
        }
    }
    let expected_msg = "{\"message_type\":\"NewMessage\",\"message\":{\"message\":\"hello\",\
         \"author\":\"User #1\",\"created_at\":\"2024-05-06T07:08:09\"},\
         \"users\":null,\"username\":null}";
    assert_eq!(
        String::from_utf8(sinks[1].as_ref().unwrap().last().unwrap().clone()).unwrap(),
        expected_msg
    );
    assert_eq!(
        String::from_utf8(sinks[2].as_ref().unwrap().last().unwrap().clone()).unwrap(),
        expected_msg
    );
    assert_eq!(a_state, SessionState::Streaming { id: 1 });

    // B disconnects: A receives the updated presence snapshot alone.
    let (b_state, actions) = step(b_state, SessionEvent::StreamEnded, true);
    assert_eq!(b_state, SessionState::Closed);
    for action in actions {
        match action {
            SessionAction::Deregister { id } => room.remove(id),
            SessionAction::BroadcastPresence => {
                let (payload, recipients) = room.broadcast_user_list();
                assert_eq!(recipients, vec![1]);
                deliver(&mut sinks, &recipients, &payload);
            }
            _ => panic!("unexpected action on leave"),
        }
    }
    let expected_one = "{\"message_type\":\"UsersList\",\"message\":null,\
         \"users\":[\"User #1\"],\"username\":null}";
    assert_eq!(
        String::from_utf8(sinks[1].as_ref().unwrap().last().unwrap().clone()).unwrap(),
        expected_one
    );
}
