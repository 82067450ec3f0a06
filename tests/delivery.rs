use chat_delivery::conversation::Conversation;
use chat_delivery::dispatch::{chat_dispatch, signal_dispatch, StoreLookup};
use chat_delivery::frame::{
    assemble_chat_push, chat_push_frame, classify_frame, classify_members, InboundFrame, JsonMember,
};
use chat_delivery::ingest::{
    admit_message, check_sender, complete_send, message_record, prepare_message,
    CreateMessagePayload, IngestError,
};
use chat_delivery::outbox::Outbox;
use chat_delivery::registry::SessionRegistry;
use chat_delivery::session::{SessionState, SocketSession};

fn s(x: &str) -> String {
    x.to_string()
}

fn conversation(id: &str, participants: &[&str]) -> Conversation {
    Conversation {
        id_chat: s(id),
        participants: participants.iter().map(|p| s(p)).collect(),
        is_group: participants.len() > 2,
        group_name: None,
        created_at: 1_000,
        last_message_at: 1_000,
    }
}

fn sorted(mut v: Vec<u64>) -> Vec<u64> {
    v.sort();
    v
}

#[test]
fn direct_delivery_pushes_to_the_other_participant_only() {
    let mut reg = SessionRegistry::new();
    assert!(reg.register(&s("u1"), 1));
    assert!(reg.register(&s("u2"), 2));
    let payload = CreateMessagePayload { sender_id: s("u1"), content: s("hi") };
    assert_eq!(check_sender(&Some(s("u1")), &payload.sender_id), Ok(()));
    let conv = admit_message(StoreLookup::Found(conversation("c1", &["u1", "u2"])), &payload.sender_id)
        .ok()
        .unwrap();
    let msg = message_record(s("m1"), &conv, &payload.sender_id, &payload.content, &None, 2_000);
    assert_eq!(msg.id, "m1");
    assert_eq!(msg.id_chat, "c1");
    assert_eq!(msg.sender_id, "u1");
    assert_eq!(msg.content, "hi");
    assert_eq!(msg.msg_type, "text");
    assert_eq!(msg.created_at, 2_000);
    let d = complete_send(true, &reg, &conv, &msg).ok().unwrap();
    assert_eq!(d.endpoints, vec![2]);
    assert_eq!(d.frame, r#"{"chat_id":"c1","sender_id":"u1","content":"hi"}"#);
}

#[test]
fn multi_device_user_gets_one_push_per_socket() {
    let mut reg = SessionRegistry::new();
    reg.register(&s("u1"), 1);
    reg.register(&s("u2"), 10);
    reg.register(&s("u2"), 11);
    let conv = conversation("c1", &["u1", "u2"]);
    let d = chat_dispatch(&reg, &conv, &s("u1"), &s("hi"));
    assert_eq!(sorted(d.endpoints.clone()), vec![10, 11]);
    let mut out = Outbox::new();
    out.enqueue(&d);
    let pushes = out.drain();
    assert_eq!(pushes.len(), 2);
    assert_eq!(pushes[0].frame, pushes[1].frame);
}

#[test]
fn non_member_socket_send_is_rejected() {
    let mut reg = SessionRegistry::new();
    reg.register(&s("u1"), 1);
    reg.register(&s("u2"), 2);
    reg.register(&s("u3"), 3);
    let mut session = SocketSession::open(s("u2"), 20);
    session.start(&mut reg);
    let frame = session.receive(&s(r#"{"chat_id":"c2","content":"x"}"#));
    let (chat_id, content) = match frame {
        InboundFrame::Chat { chat_id, content } => (chat_id, content),
        _ => panic!("expected a chat frame"),
    };
    assert_eq!(chat_id, "c2");
    assert_eq!(content, "x");
    let r = admit_message(StoreLookup::Found(conversation("c2", &["u1", "u3"])), &s("u2"));
    assert!(matches!(r, Err(IngestError::NotParticipant)));
}

#[test]
fn serial_posts_reach_the_recipient_in_order() {
    let mut reg = SessionRegistry::new();
    reg.register(&s("u1"), 1);
    reg.register(&s("u2"), 2);
    let conv = conversation("c1", &["u1", "u2"]);
    let mut out = Outbox::new();
    let a = message_record(s("ma"), &conv, &s("u1"), &s("A"), &None, 5);
    out.enqueue(&complete_send(true, &reg, &conv, &a).ok().unwrap());
    let b = message_record(s("mb"), &conv, &s("u1"), &s("B"), &None, 6);
    out.enqueue(&complete_send(true, &reg, &conv, &b).ok().unwrap());
    let to_u2: Vec<String> = out.drain().into_iter().filter(|p| p.endpoint == 2).map(|p| p.frame).collect();
    assert_eq!(
        to_u2,
        vec![
            s(r#"{"chat_id":"c1","sender_id":"u1","content":"A"}"#),
            s(r#"{"chat_id":"c1","sender_id":"u1","content":"B"}"#),
        ]
    );
}

#[test]
fn signal_is_relayed_verbatim_to_other_participants() {
    let mut reg = SessionRegistry::new();
    reg.register(&s("u1"), 1);
    reg.register(&s("u2"), 2);
    reg.register(&s("u3"), 3);
    reg.register(&s("u4"), 4);
    let text = s(r#"{"signalType":"offer","chat_id":"c3","sdp":"..."}"#);
    let (chat_id, payload) = match classify_frame(&text) {
        InboundFrame::Signal { chat_id, payload } => (chat_id, payload),
        _ => panic!("expected a signal"),
    };
    assert_eq!(chat_id, "c3");
    assert_eq!(payload, text);
    let conv = StoreLookup::Found(conversation("c3", &["u1", "u2", "u3"]));
    let d = signal_dispatch(&reg, &s("u1"), &chat_id, &conv, &payload).unwrap();
    assert_eq!(sorted(d.endpoints.clone()), vec![2, 3]);
    assert_eq!(d.frame, text);
}

#[test]
fn disconnect_cleans_up_the_registry() {
    let mut reg = SessionRegistry::new();
    reg.register(&s("u1"), 1);
    let mut session = SocketSession::open(s("u2"), 2);
    session.start(&mut reg);
    assert_eq!(session.state(), SessionState::Live);
    assert_eq!(reg.lookup_endpoints(&s("u2")), vec![2]);
    session.close();
    assert_eq!(session.state(), SessionState::Closing);
    session.finish(&mut reg);
    assert_eq!(session.state(), SessionState::Closed);
    assert!(reg.lookup_endpoints(&s("u2")).is_empty());
    assert_eq!(reg.lookup_endpoints(&s("u1")), vec![1]);
    let conv = conversation("c1", &["u1", "u2"]);
    let msg = message_record(s("m"), &conv, &s("u1"), &s("hi"), &None, 7);
    let d = complete_send(true, &reg, &conv, &msg).ok().unwrap();
    assert!(d.endpoints.is_empty());
}

#[test]
fn finishing_twice_deregisters_once() {
    let mut reg = SessionRegistry::new();
    let mut a = SocketSession::open(s("u2"), 1);
    let mut b = SocketSession::open(s("u2"), 2);
    a.start(&mut reg);
    b.start(&mut reg);
    a.close();
    a.finish(&mut reg);
    a.finish(&mut reg);
    assert_eq!(reg.lookup_endpoints(&s("u2")), vec![2]);
}

#[test]
fn registering_twice_is_idempotent() {
    let mut reg = SessionRegistry::new();
    assert!(reg.register(&s("u2"), 5));
    assert!(reg.register(&s("u2"), 5));
    assert_eq!(reg.lookup_endpoints(&s("u2")), vec![5]);
    let conv = conversation("c1", &["u1", "u2"]);
    let d = chat_dispatch(&reg, &conv, &s("u1"), &s("x"));
    assert_eq!(d.endpoints, vec![5]);
}

#[test]
fn endpoint_of_another_user_is_refused() {
    let mut reg = SessionRegistry::new();
    assert!(reg.register(&s("u1"), 5));
    assert!(!reg.register(&s("u2"), 5));
    assert!(reg.lookup_endpoints(&s("u2")).is_empty());
    let mut session = SocketSession::open(s("u2"), 5);
    session.start(&mut reg);
    assert_eq!(session.state(), SessionState::Closed);
    assert_eq!(reg.lookup_endpoints(&s("u1")), vec![5]);
}

#[test]
fn deregistering_absent_or_foreign_endpoint_changes_nothing() {
    let mut reg = SessionRegistry::new();
    reg.register(&s("u1"), 1);
    reg.deregister(&s("u1"), 9);
    reg.deregister(&s("u2"), 1);
    assert_eq!(reg.lookup_endpoints(&s("u1")), vec![1]);
}

#[test]
fn originator_is_never_pushed() {
    let mut reg = SessionRegistry::new();
    reg.register(&s("u1"), 1);
    reg.register(&s("u1"), 2);
    reg.register(&s("u2"), 3);
    let conv = conversation("c1", &["u1", "u2"]);
    let d = chat_dispatch(&reg, &conv, &s("u1"), &s("x"));
    assert_eq!(d.endpoints, vec![3]);
    let d = chat_dispatch(&reg, &conv, &s("u2"), &s("x"));
    assert_eq!(sorted(d.endpoints), vec![1, 2]);
}

#[test]
fn offline_user_receives_nothing() {
    let mut reg = SessionRegistry::new();
    reg.register(&s("u1"), 1);
    assert!(reg.lookup_endpoints(&s("u3")).is_empty());
    let conv = conversation("c1", &["u1", "u3"]);
    let d = chat_dispatch(&reg, &conv, &s("u1"), &s("x"));
    assert!(d.endpoints.is_empty());
}

#[test]
fn signal_without_conversation_is_broadcast() {
    let mut reg = SessionRegistry::new();
    reg.register(&s("u1"), 1);
    reg.register(&s("u2"), 2);
    reg.register(&s("u9"), 9);
    let text = s(r#"{"signalType":"ice"}"#);
    let chat_id = match classify_frame(&text) {
        InboundFrame::Signal { chat_id, .. } => chat_id,
        _ => panic!("expected a signal"),
    };
    assert_eq!(chat_id, "");
    let d = signal_dispatch(&reg, &s("u1"), &chat_id, &StoreLookup::Absent, &text).unwrap();
    assert_eq!(sorted(d.endpoints), vec![2, 9]);
    let d = signal_dispatch(&reg, &s("u1"), &s("gone"), &StoreLookup::Absent, &text).unwrap();
    assert_eq!(sorted(d.endpoints), vec![2, 9]);
    assert!(signal_dispatch(&reg, &s("u1"), &s("c1"), &StoreLookup::Failed, &text).is_none());
}

#[test]
fn signal_type_wins_over_content() {
    let text = s(r#"{"signalType":"offer","chat_id":"c1","content":"x"}"#);
    assert!(matches!(classify_frame(&text), InboundFrame::Signal { .. }));
}

#[test]
fn malformed_or_incomplete_frames_are_ignored() {
    assert!(matches!(classify_frame(&s("not json")), InboundFrame::Ignored));
    assert!(matches!(classify_frame(&s(r#"["c1","x"]"#)), InboundFrame::Ignored));
    assert!(matches!(classify_frame(&s(r#"{"chat_id":"c1"}"#)), InboundFrame::Ignored));
    assert!(matches!(classify_frame(&s(r#"{"chat_id":"c1","content":5}"#)), InboundFrame::Ignored));
}

#[test]
fn chat_push_escapes_its_strings() {
    let f = chat_push_frame(&s("c\"1"), &s("u1"), &s("a\nb"));
    assert_eq!(f, "{\"chat_id\":\"c\\\"1\",\"sender_id\":\"u1\",\"content\":\"a\\nb\"}");
}

#[test]
fn ingest_errors_map_to_statuses() {
    assert_eq!(check_sender(&None, &s("u1")), Err(IngestError::Unauthenticated));
    assert_eq!(check_sender(&Some(s("u2")), &s("u1")), Err(IngestError::Unauthenticated));
    assert!(matches!(admit_message(StoreLookup::Absent, &s("u1")), Err(IngestError::ConversationAbsent)));
    assert!(matches!(admit_message(StoreLookup::Failed, &s("u1")), Err(IngestError::StoreUnavailable)));
    assert_eq!(IngestError::Unauthenticated.status_code(), 401);
    assert_eq!(IngestError::NotParticipant.status_code(), 400);
    assert_eq!(IngestError::ConversationAbsent.status_code(), 404);
    assert_eq!(IngestError::StoreUnavailable.status_code(), 500);
}

#[test]
fn failed_append_pushes_nothing() {
    let mut reg = SessionRegistry::new();
    reg.register(&s("u2"), 2);
    let conv = conversation("c1", &["u1", "u2"]);
    let msg = message_record(s("m"), &conv, &s("u1"), &s("hi"), &None, 7);
    assert!(matches!(complete_send(false, &reg, &conv, &msg), Err(IngestError::StoreUnavailable)));
}

#[test]
fn message_time_never_goes_back() {
    let mut conv = conversation("c1", &["u1", "u2"]);
    conv.last_message_at = 9_000;
    let msg = message_record(s("m"), &conv, &s("u1"), &s("hi"), &Some(s("file.png")), 8_000);
    assert_eq!(msg.created_at, 9_001);
    let same = message_record(s("m"), &conv, &s("u1"), &s("hi"), &None, 9_000);
    assert_eq!(same.created_at, 9_001);
    let later = message_record(s("m"), &conv, &s("u1"), &s("hi"), &None, 9_500);
    assert_eq!(later.created_at, 9_500);
    conv.last_message_at = i64::MAX;
    let end = message_record(s("m"), &conv, &s("u1"), &s("hi"), &None, 0);
    assert_eq!(end.created_at, i64::MAX);
    conv.last_message_at = 9_000;
    assert_eq!(msg.attachments, Some(s("file.png")));
    let fresh = prepare_message(&conv, &s("u1"), &s("hi"), &None);
    assert_eq!(fresh.id.len(), 36);
    assert!(fresh.created_at > 9_000);
}

#[test]
fn signal_from_non_participant_is_dropped() {
    let mut reg = SessionRegistry::new();
    reg.register(&s("u1"), 1);
    reg.register(&s("u2"), 2);
    let text = s(r#"{"signalType":"offer","chat_id":"c3"}"#);
    let conv = StoreLookup::Found(conversation("c3", &["u1", "u2"]));
    assert!(signal_dispatch(&reg, &s("u9"), &s("c3"), &conv, &text).is_none());
}

#[test]
fn chat_push_layout_from_literals() {
    let f = assemble_chat_push(&s("\"c\""), &s("\"u\""), &s("7"));
    assert_eq!(f, r#"{"chat_id":"c","sender_id":"u","content":7}"#);
}

fn member(key: &str, text: Option<&str>) -> JsonMember {
    JsonMember { key: s(key), text: text.map(s) }
}

#[test]
fn frame_grammar_on_members() {
    let text = s("raw");
    let ms = vec![member("content", Some("hi")), member("chat_id", Some("c1"))];
    match classify_members(&ms, &text) {
        InboundFrame::Chat { chat_id, content } => {
            assert_eq!(chat_id, "c1");
            assert_eq!(content, "hi");
        }
        _ => panic!("expected a chat frame"),
    }
    let ms = vec![member("chat_id", Some("c1")), member("signalType", None)];
    match classify_members(&ms, &text) {
        InboundFrame::Signal { chat_id, payload } => {
            assert_eq!(chat_id, "c1");
            assert_eq!(payload, "raw");
        }
        _ => panic!("expected a signal"),
    }
    let ms = vec![member("chat_id", None), member("content", Some("hi"))];
    assert!(matches!(classify_members(&ms, &text), InboundFrame::Ignored));
    assert!(matches!(classify_members(&vec![], &text), InboundFrame::Ignored));
}
