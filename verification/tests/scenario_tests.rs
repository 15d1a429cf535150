use pulse_server::connection::{Session, SessionEvent};
use pulse_server::messages::{parse, WsMessage};
use pulse_server::state::ServerState;
use tokio::sync::mpsc::{self, UnboundedReceiver};

fn open(state: &mut ServerState) -> (Session, UnboundedReceiver<String>) {
    let (tx, rx) = mpsc::unbounded_channel();
    (Session::new(tx), rx)
}

fn connect(state: &mut ServerState, user_id: &str) -> (Session, UnboundedReceiver<String>) {
    let (session, rx) = open(state);
    let frame = format!("{{\"type\":\"connect\",\"user_id\":\"{}\"}}", user_id);
    let session = session.advance(&SessionEvent::Text(frame), state, "", 0);
    assert_eq!(session.user_id().map(|u| u.as_str()), Some(user_id));
    (session, rx)
}

fn send(session: Session, state: &mut ServerState, frame: &str) -> Session {
    session.advance(&SessionEvent::Text(frame.to_string()), state, "", 0)
}

fn drop_socket(session: Session, rx: UnboundedReceiver<String>, state: &mut ServerState, now: i64) -> Session {
    drop(rx);
    session.advance(&SessionEvent::StreamEnded, state, "", now)
}

fn received(rx: &mut UnboundedReceiver<String>) -> Vec<WsMessage> {
    let mut frames = Vec::new();
    while let Ok(text) = rx.try_recv() {
        frames.push(parse(&text).unwrap());
    }
    frames
}

fn welcome() -> WsMessage {
    WsMessage::AuthResponse { success: true, message: "Connected to server".to_string() }
}

fn online(user_id: &str) -> WsMessage {
    WsMessage::Presence { user_id: user_id.to_string(), is_online: true, last_seen: None }
}

fn chat(id: &str, sender_id: &str, recipient_id: &str) -> String {
    format!(
        "{{\"type\":\"message\",\"id\":\"{}\",\"chat_id\":\"c\",\"sender_id\":\"{}\",\"sender_name\":\"A\",\"recipient_id\":\"{}\",\"content\":\"hi\",\"timestamp\":1}}",
        id, sender_id, recipient_id
    )
}

#[test]
fn auth_handshake_is_answered_with_welcome() {
    let mut state = ServerState::new();
    let (session, mut rx) = open(&mut state);
    let session = send(session, &mut state, r#"{"type":"connect","user_id":"alice"}"#);

    assert_eq!(session.user_id().map(|u| u.as_str()), Some("alice"));
    assert!(state.is_online("alice"));
    let text = rx.try_recv().unwrap();
    let expected: serde_json::Value =
        serde_json::from_str(r#"{"type":"auth_response","success":true,"message":"Connected to server"}"#).unwrap();
    assert_eq!(serde_json::from_str::<serde_json::Value>(&text).unwrap(), expected);
    assert!(rx.try_recv().is_err());
}

#[test]
fn presence_is_announced_on_attach_and_detach() {
    let mut state = ServerState::new();
    let (_alice, mut alice_rx) = connect(&mut state, "alice");
    assert_eq!(received(&mut alice_rx), vec![welcome()]);

    let (bob, mut bob_rx) = connect(&mut state, "bob");
    let text = alice_rx.try_recv().unwrap();
    let expected: serde_json::Value =
        serde_json::from_str(r#"{"type":"presence","user_id":"bob","is_online":true,"last_seen":null}"#).unwrap();
    assert_eq!(serde_json::from_str::<serde_json::Value>(&text).unwrap(), expected);
    assert!(alice_rx.try_recv().is_err());
    assert_eq!(received(&mut bob_rx), vec![welcome(), online("alice")]);

    let bob = drop_socket(bob, bob_rx, &mut state, 1_700_000_000_123);
    assert!(bob.is_closed());
    assert!(!state.is_online("bob"));
    assert_eq!(
        received(&mut alice_rx),
        vec![WsMessage::Presence {
            user_id: "bob".to_string(),
            is_online: false,
            last_seen: Some(1_700_000_000_123),
        }]
    );
}

#[test]
fn unicast_overwrites_a_spoofed_sender() {
    let mut state = ServerState::new();
    let (alice, mut alice_rx) = connect(&mut state, "alice");
    let (_bob, mut bob_rx) = connect(&mut state, "bob");
    received(&mut alice_rx);
    received(&mut bob_rx);

    let alice = send(
        alice,
        &mut state,
        r#"{"type":"message","id":"m1","chat_id":"c","sender_id":"MALLORY","sender_name":"A","recipient_id":"bob","content":"hi","timestamp":1}"#,
    );

    assert_eq!(alice.user_id().map(|u| u.as_str()), Some("alice"));
    assert_eq!(
        received(&mut bob_rx),
        vec![WsMessage::ChatMessage {
            id: "m1".to_string(),
            chat_id: "c".to_string(),
            sender_id: "alice".to_string(),
            sender_name: "A".to_string(),
            recipient_id: "bob".to_string(),
            content: "hi".to_string(),
            timestamp: 1,
        }]
    );
    assert!(received(&mut alice_rx).is_empty());
    assert_eq!(state.pending_count("bob"), 0);
}

#[test]
fn offline_queue_is_drained_in_order() {
    let mut state = ServerState::new();
    let (mut alice, mut alice_rx) = connect(&mut state, "alice");
    for id in ["m1", "m2", "m3", "m4", "m5"] {
        alice = send(alice, &mut state, &chat(id, "alice", "bob"));
    }
    assert_eq!(state.pending_count("bob"), 5);

    let (_bob, mut bob_rx) = connect(&mut state, "bob");
    assert_eq!(state.pending_count("bob"), 0);

    let frames = received(&mut bob_rx);
    let ids: Vec<String> = frames
        .iter()
        .filter_map(|frame| match frame {
            WsMessage::ChatMessage { id, .. } => Some(id.clone()),
            _ => None,
        })
        .collect();
    assert_eq!(ids, vec!["m1", "m2", "m3", "m4", "m5"]);
    assert_eq!(frames[0], welcome());
    assert!(frames.contains(&online("alice")));
    assert_eq!(frames.len(), 7);
    assert_eq!(received(&mut alice_rx), vec![welcome(), online("bob")]);
}

#[test]
fn typing_is_not_queued() {
    let mut state = ServerState::new();
    let (alice, _alice_rx) = connect(&mut state, "alice");
    let _alice = send(alice, &mut state, r#"{"type":"typing","chat_id":"c","user_id":"alice","is_typing":true}"#);
    assert_eq!(state.pending_count("bob"), 0);

    let (_bob, mut bob_rx) = connect(&mut state, "bob");
    let frames = received(&mut bob_rx);
    assert_eq!(frames, vec![welcome(), online("alice")]);
}

#[test]
fn receipt_is_routed_to_the_original_sender() {
    let mut state = ServerState::new();
    let (_alice, mut alice_rx) = connect(&mut state, "alice");
    let (bob, mut bob_rx) = connect(&mut state, "bob");
    received(&mut alice_rx);
    received(&mut bob_rx);

    let _bob = send(
        bob,
        &mut state,
        r#"{"type":"delivery_receipt","message_id":"m1","chat_id":"c","sender_id":"alice","delivered_to":"WRONG"}"#,
    );

    assert_eq!(
        received(&mut alice_rx),
        vec![WsMessage::DeliveryReceipt {
            message_id: "m1".to_string(),
            chat_id: "c".to_string(),
            sender_id: "alice".to_string(),
            delivered_to: "bob".to_string(),
        }]
    );
    assert!(received(&mut bob_rx).is_empty());
}

#[test]
fn broadcast_kinds_skip_every_session_of_the_sender() {
    let mut state = ServerState::new();
    let (alice, mut alice_rx) = connect(&mut state, "alice");
    let (_alice_too, mut alice_too_rx) = connect(&mut state, "alice");
    let (_bob, mut bob_rx) = connect(&mut state, "bob");
    received(&mut alice_rx);
    received(&mut alice_too_rx);
    received(&mut bob_rx);

    let alice = send(alice, &mut state, r#"{"type":"typing","chat_id":"c","user_id":"bob","is_typing":true}"#);
    let alice = send(alice, &mut state, r#"{"type":"presence","user_id":"bob","is_online":false,"last_seen":7}"#);
    let _alice = send(alice, &mut state, r#"{"type":"profile_update","user_id":"bob","name":"Al"}"#);

    assert!(received(&mut alice_rx).is_empty());
    assert!(received(&mut alice_too_rx).is_empty());
    assert_eq!(
        received(&mut bob_rx),
        vec![
            WsMessage::Typing { chat_id: "c".to_string(), user_id: "alice".to_string(), is_typing: true },
            WsMessage::Presence { user_id: "alice".to_string(), is_online: false, last_seen: Some(7) },
            WsMessage::ProfileUpdate {
                user_id: "alice".to_string(),
                name: "Al".to_string(),
                phone: None,
                avatar_url: None,
                about: None,
                avatar_data: None,
            },
        ]
    );
}

#[test]
fn two_sessions_of_one_user_close_one_after_the_other() {
    let mut state = ServerState::new();
    let (first, first_rx) = connect(&mut state, "u");
    let (second, mut second_rx) = connect(&mut state, "u");
    assert_eq!(state.online_users(), vec!["u".to_string()]);

    let first = drop_socket(first, first_rx, &mut state, 5);
    assert!(first.is_closed());
    assert!(state.is_online("u"));
    assert!(state.send_to_user("u", "still here"));
    let texts: Vec<String> = std::iter::from_fn(|| second_rx.try_recv().ok()).collect();
    assert_eq!(texts.last().map(|t| t.as_str()), Some("still here"));

    let second = drop_socket(second, second_rx, &mut state, 6);
    assert!(second.is_closed());
    assert!(!state.is_online("u"));
    assert!(state.online_users().is_empty());
    assert!(state.clients.is_empty());
}
