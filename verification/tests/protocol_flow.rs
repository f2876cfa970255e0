//! Live-socket protocol flow: the per-connection state machine, push
//! delivery over real channels, and presence broadcast fan-out.

use relay_core::frames::{ClientFrame, ServerFrame};
use relay_core::models::{EncryptedMessage, RegisterRequest};
use relay_core::signaling::{get_pending_messages, register_user};
use relay_core::protocol::{handle_disconnect, handle_frame, SessionState};
use relay_core::state::AppState;
use tokio::sync::mpsc::error::TryRecvError;
use tokio::sync::mpsc::{unbounded_channel, UnboundedReceiver, UnboundedSender};

struct Conn {
    session: SessionState,
    tx: UnboundedSender<ServerFrame>,
    rx: UnboundedReceiver<ServerFrame>,
}

fn conn() -> Conn {
    let (tx, rx) = unbounded_channel();
    Conn { session: SessionState::Unauthenticated, tx, rx }
}

fn register(state: &mut AppState, c: &mut Conn, name: &str) -> Vec<ServerFrame> {
    handle_frame(
        state,
        &mut c.session,
        &c.tx,
        ClientFrame::Register {
            username: name.to_string(),
            public_key: format!("pk-{name}"),
        },
    )
}

fn drain(rx: &mut UnboundedReceiver<ServerFrame>) -> Vec<ServerFrame> {
    let mut out = Vec::new();
    loop {
        match rx.try_recv() {
            Ok(f) => out.push(f),
            Err(TryRecvError::Empty) => return out,
            Err(TryRecvError::Disconnected) => return out,
        }
    }
}

fn names_of(frame: &ServerFrame) -> Vec<String> {
    match frame {
        ServerFrame::OnlineUsers { users } => users.clone(),
        other => panic!("expected an online-users frame, got {other:?}"),
    }
}

#[test]
fn check_username_frame_round_trip() {
    let mut state = AppState::new();
    let mut c = conn();
    let replies = handle_frame(
        &mut state,
        &mut c.session,
        &c.tx,
        ClientFrame::CheckUsername { username: "alice".to_string() },
    );
    assert_eq!(replies.len(), 1);
    match &replies[0] {
        ServerFrame::UsernameAvailable { available, message } => {
            assert!(*available);
            assert_eq!(message.as_str(), "Username is available");
        }
        _ => panic!("expected availability reply"),
    }
}

#[test]
fn register_replies_confirmation_then_snapshot() {
    let mut state = AppState::new();
    let mut c = conn();
    let replies = register(&mut state, &mut c, "alice");
    assert_eq!(replies.len(), 2);
    match &replies[0] {
        ServerFrame::Registered { user_id, username } => {
            assert_eq!(username.as_str(), "alice");
            assert_eq!(user_id.len(), 36);
        }
        _ => panic!("expected registration confirmation first"),
    }
    assert_eq!(names_of(&replies[1]), vec!["alice".to_string()]);
    assert!(matches!(c.session, SessionState::Active { .. }));
    // The new identity's own channel got the presence broadcast too.
    let broadcasts = drain(&mut c.rx);
    assert_eq!(broadcasts.len(), 1);
    assert_eq!(names_of(&broadcasts[0]), vec!["alice".to_string()]);
}

#[test]
fn register_taken_name_is_refused_and_replaces_nothing() {
    let mut state = AppState::new();
    let mut c1 = conn();
    let mut c2 = conn();
    register(&mut state, &mut c1, "alice");
    drain(&mut c1.rx);
    let replies = register(&mut state, &mut c2, "alice");
    assert_eq!(replies.len(), 1);
    match &replies[0] {
        ServerFrame::Error { message } => {
            assert_eq!(message.as_str(), "Username already exists. Please choose a different username.");
        }
        _ => panic!("expected an error reply"),
    }
    assert!(matches!(c2.session, SessionState::Unauthenticated));
    // The first connection still owns the name: a message routed to
    // "alice" still lands on the first connection's channel.
    let mut c3 = conn();
    register(&mut state, &mut c3, "bob");
    handle_frame(
        &mut state,
        &mut c3.session,
        &c3.tx,
        ClientFrame::SendMessage {
            to: "alice".to_string(),
            encrypted: EncryptedMessage {
                ciphertext: "c".to_string(),
                nonce: "n".to_string(),
                public_key: "p".to_string(),
            },
        },
    );
    let got = drain(&mut c1.rx);
    assert!(
        got.iter().any(|f| matches!(f, ServerFrame::Message { .. })),
        "first connection must still receive messages for its name",
    );
    assert!(drain(&mut c2.rx).iter().all(|f| !matches!(f, ServerFrame::Message { .. })));
}

#[test]
fn second_register_on_same_connection_is_refused() {
    let mut state = AppState::new();
    let mut c = conn();
    register(&mut state, &mut c, "alice");
    let replies = register(&mut state, &mut c, "carol");
    assert_eq!(replies.len(), 1);
    match &replies[0] {
        ServerFrame::Error { message } => assert_eq!(message.as_str(), "Already registered"),
        _ => panic!("expected an error reply"),
    }
    assert!(matches!(&c.session, SessionState::Active { username } if username.as_str() == "alice"));
}

#[test]
fn send_before_register_is_refused() {
    let mut state = AppState::new();
    let mut c = conn();
    let replies = handle_frame(
        &mut state,
        &mut c.session,
        &c.tx,
        ClientFrame::SendMessage {
            to: "bob".to_string(),
            encrypted: EncryptedMessage {
                ciphertext: "c".to_string(),
                nonce: "n".to_string(),
                public_key: "p".to_string(),
            },
        },
    );
    assert_eq!(replies.len(), 1);
    match &replies[0] {
        ServerFrame::Error { message } => {
            assert_eq!(message.as_str(), "Not authenticated. Please register first.");
        }
        _ => panic!("expected an error reply"),
    }
}

#[test]
fn send_to_unknown_recipient_reports_offline_and_mutates_nothing() {
    let mut state = AppState::new();
    let mut a = conn();
    let mut b = conn();
    register(&mut state, &mut a, "alice");
    register(&mut state, &mut b, "bob");
    drain(&mut a.rx);
    drain(&mut b.rx);
    let replies = handle_frame(
        &mut state,
        &mut a.session,
        &a.tx,
        ClientFrame::SendMessage {
            to: "ghost".to_string(),
            encrypted: EncryptedMessage {
                ciphertext: "c".to_string(),
                nonce: "n".to_string(),
                public_key: "p".to_string(),
            },
        },
    );
    assert_eq!(replies.len(), 1);
    match &replies[0] {
        ServerFrame::Error { message } => assert_eq!(message.as_str(), "Recipient not found or offline"),
        _ => panic!("expected an error reply"),
    }
    // Nobody else saw anything.
    assert!(drain(&mut a.rx).is_empty());
    assert!(drain(&mut b.rx).is_empty());
}

#[test]
fn malformed_frame_is_dropped_silently() {
    let mut state = AppState::new();
    let mut c = conn();
    register(&mut state, &mut c, "alice");
    drain(&mut c.rx);
    let replies = handle_frame(&mut state, &mut c.session, &c.tx, ClientFrame::Malformed);
    assert!(replies.is_empty());
    assert!(drain(&mut c.rx).is_empty());
    assert!(matches!(&c.session, SessionState::Active { username } if username.as_str() == "alice"));
}

#[test]
fn presence_broadcast_fans_out_to_everyone() {
    let mut state = AppState::new();
    let mut conns = vec![conn(), conn(), conn()];
    for (c, name) in conns.iter_mut().zip(["a", "b", "c"]) {
        register(&mut state, c, name);
    }
    for c in conns.iter_mut() {
        drain(&mut c.rx);
    }
    let mut d = conn();
    register(&mut state, &mut d, "d");
    let expected = vec!["a".to_string(), "b".to_string(), "c".to_string(), "d".to_string()];
    for c in conns.iter_mut() {
        let got = drain(&mut c.rx);
        assert_eq!(got.len(), 1);
        assert_eq!(names_of(&got[0]), expected, "every live connection sees the full snapshot");
    }
    assert_eq!(names_of(&drain(&mut d.rx)[0]), expected);
}

#[test]
fn end_to_end_register_send_disconnect() {
    let mut state = AppState::new();
    let mut alice = conn();
    let mut bob = conn();

    let r1 = register(&mut state, &mut alice, "alice");
    let u1 = match &r1[0] {
        ServerFrame::Registered { user_id, username } => {
            assert_eq!(username.as_str(), "alice");
            user_id.clone()
        }
        _ => panic!("expected registration confirmation"),
    };
    let r2 = register(&mut state, &mut bob, "bob");
    let u2 = match &r2[0] {
        ServerFrame::Registered { user_id, username } => {
            assert_eq!(username.as_str(), "bob");
            user_id.clone()
        }
        _ => panic!("expected registration confirmation"),
    };
    assert_ne!(u1, u2);
    assert_eq!(names_of(&r2[1]), vec!["alice".to_string(), "bob".to_string()]);
    drain(&mut alice.rx);
    drain(&mut bob.rx);

    let replies = handle_frame(
        &mut state,
        &mut alice.session,
        &alice.tx,
        ClientFrame::SendMessage {
            to: "bob".to_string(),
            encrypted: EncryptedMessage {
                ciphertext: "c1".to_string(),
                nonce: "n1".to_string(),
                public_key: "pk1".to_string(),
            },
        },
    );
    assert!(replies.is_empty(), "successful relay sends no reply to the sender");
    let got = drain(&mut bob.rx);
    assert_eq!(got.len(), 1);
    match &got[0] {
        ServerFrame::Message { id, from, to, encrypted, timestamp } => {
            assert_eq!(from.as_str(), "alice");
            assert_eq!(to.as_str(), "bob");
            assert_eq!(encrypted.ciphertext.as_str(), "c1");
            assert_eq!(encrypted.nonce.as_str(), "n1");
            assert_eq!(encrypted.public_key.as_str(), "pk1");
            assert_eq!(id.len(), 36);
            assert!(*timestamp > 0);
        }
        _ => panic!("expected the routed message"),
    }

    handle_disconnect(&mut state, &mut alice.session);
    assert!(matches!(alice.session, SessionState::Closed));
    let after = drain(&mut bob.rx);
    assert_eq!(after.len(), 1);
    assert_eq!(names_of(&after[0]), vec!["bob".to_string()]);
    // Alice is gone: a message to her now fails.
    let replies = handle_frame(
        &mut state,
        &mut bob.session,
        &bob.tx,
        ClientFrame::SendMessage {
            to: "alice".to_string(),
            encrypted: EncryptedMessage {
                ciphertext: "c2".to_string(),
                nonce: "n2".to_string(),
                public_key: "pk2".to_string(),
            },
        },
    );
    assert_eq!(replies.len(), 1);
    assert!(matches!(&replies[0], ServerFrame::Error { message } if message.as_str() == "Recipient not found or offline"));
}

#[test]
fn send_to_poll_delivery_identity_lands_in_its_mailbox() {
    let mut state = AppState::new();
    let mut alice = conn();
    register(&mut state, &mut alice, "alice");
    // Bob registers over the poll transport: online, but no live channel.
    register_user(
        &mut state,
        RegisterRequest { username: "bob".to_string(), public_key: "pk-bob".to_string() },
    )
    .unwrap();
    let replies = handle_frame(
        &mut state,
        &mut alice.session,
        &alice.tx,
        ClientFrame::SendMessage {
            to: "bob".to_string(),
            encrypted: EncryptedMessage {
                ciphertext: "c1".to_string(),
                nonce: "n1".to_string(),
                public_key: "pk1".to_string(),
            },
        },
    );
    assert!(replies.is_empty(), "parking in the mailbox is a success");
    let msgs = get_pending_messages(&mut state, "bob".to_string());
    assert_eq!(msgs.len(), 1);
    assert_eq!(msgs[0].from, "alice");
    assert_eq!(msgs[0].to, "bob");
    assert_eq!(msgs[0].message_type, "message");
    assert_eq!(msgs[0].data, "c1\nn1\npk1");
}

#[test]
fn send_over_dead_channel_disconnects_the_recipient() {
    let mut state = AppState::new();
    let mut alice = conn();
    let mut bob = conn();
    register(&mut state, &mut alice, "alice");
    register(&mut state, &mut bob, "bob");
    drain(&mut alice.rx);
    drop(bob.rx);
    let replies = handle_frame(
        &mut state,
        &mut alice.session,
        &alice.tx,
        ClientFrame::SendMessage {
            to: "bob".to_string(),
            encrypted: EncryptedMessage {
                ciphertext: "c".to_string(),
                nonce: "n".to_string(),
                public_key: "p".to_string(),
            },
        },
    );
    // The sender learns only that the recipient is gone.
    assert_eq!(replies.len(), 1);
    assert!(matches!(&replies[0], ServerFrame::Error { message } if message.as_str() == "Recipient not found or offline"));
    // The dead identity was implicitly disconnected and the survivors
    // were told: alice's channel got the shrunken snapshot.
    assert_eq!(
        relay_core::signaling::get_online_users(&state).users,
        vec!["alice".to_string()],
    );
    let got = drain(&mut alice.rx);
    assert_eq!(got.len(), 1);
    assert_eq!(names_of(&got[0]), vec!["alice".to_string()]);
    // The freed name may register again.
    let mut bob2 = conn();
    let r = register(&mut state, &mut bob2, "bob");
    assert!(matches!(&r[0], ServerFrame::Registered { .. }));
}

#[test]
fn broadcast_returns_the_snapshot_it_published() {
    let mut state = AppState::new();
    let mut a = conn();
    let mut b = conn();
    register(&mut state, &mut a, "alice");
    register(&mut state, &mut b, "bob");
    drain(&mut a.rx);
    drain(&mut b.rx);
    let frame = relay_core::protocol::broadcast_user_list(&state);
    let expected = vec!["alice".to_string(), "bob".to_string()];
    assert_eq!(names_of(&frame), expected);
    // Every live channel was handed that same snapshot.
    assert_eq!(names_of(&drain(&mut a.rx)[0]), expected);
    assert_eq!(names_of(&drain(&mut b.rx)[0]), expected);
}
