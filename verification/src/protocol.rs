//! Relay protocol handler for the live-socket transport: the
//! per-connection state machine that validates each inbound frame
//! against the registry, drives the delivery channel table, and
//! produces the replies owed to the requesting connection.
//!
//! The surrounding read loop — awaiting frames, parsing them, and
//! enqueueing the returned replies to this connection's own channel —
//! is transport plumbing and lives outside the library.

use vstd::prelude::*;

use crate::connection_manager::clone_sender;
use crate::frames::{
    is_error, is_online_users, is_registered, is_username_available, routed_frame, ClientFrame,
    ServerFrame,
};
use crate::ids::{fresh_uuid, now_millis};
use crate::models::{
    CheckUsernameRequest, EncryptedMessage, EncryptedMessageView, PendingSignalingMessage,
    PendingSignalingMessageView, UserDataView,
};
use crate::signaling::check_username;
use crate::state::AppState;

verus! {

/// Protocol state of one connection: `Unauthenticated` until its one
/// successful registration, `Active` afterwards, `Closed` on
/// disconnect.
pub enum SessionState {
    Unauthenticated,
    Active { username: String },
    Closed,
}

/// Why a payload was not pushed to its recipient.
#[derive(Clone, Copy, Debug, PartialEq, Eq, Structural)]
pub enum ForwardError {
    RecipientNotFound,
    DeliveryFailed,
}

impl ForwardError {
    /// The reply text shown to the sender: a failed delivery is never
    /// surfaced beyond an opaque recipient-offline message.
    pub fn message(&self) -> (r: String)
        ensures
            r@ == "Recipient not found or offline"@,
    {
        match self {
            ForwardError::RecipientNotFound => "Recipient not found or offline".to_string(),
            ForwardError::DeliveryFailed => "Recipient not found or offline".to_string(),
        }
    }
}

/// The single opaque string under which a pushed payload is parked in
/// the mailbox: its three base64 parts separated by line breaks.
/// Base64 text never contains a line break, so the frame is
/// unambiguous for the payloads the protocol carries; a payload that
/// is not base64 would not be splittable downstream.
pub open spec fn framed_payload(e: EncryptedMessageView) -> Seq<char> {
    e.ciphertext + "\n"@ + e.nonce + "\n"@ + e.public_key
}

/// Route one opaque payload to `to`. An online recipient with a live
/// channel gets it pushed as a routed message frame — the payload
/// unchanged and uninspected, under a freshly minted id and the
/// current timestamp; an online recipient without one uses poll
/// delivery, so the payload is parked in its mailbox instead.
/// `RecipientNotFound` exactly when `to` is not online. A failed
/// enqueue means the channel's connection is already gone: the
/// recipient is treated as implicitly disconnected — taken fully
/// offline, with a fresh presence snapshot broadcast — and the sender
/// sees only `DeliveryFailed`, surfaced as an opaque recipient-offline
/// reply.
pub fn forward_message(state: &mut AppState, from: String, to: String, encrypted: EncryptedMessage) -> (r:
    Result<(), ForwardError>)
    requires
        old(state).wf(),
    ensures
        final(state).wf(),
        (r == Result::<(), ForwardError>::Err(ForwardError::RecipientNotFound)) == !old(state).users.has(to@),
        !old(state).users.has(to@) ==> *final(state) == *old(state),
        old(state).users.has(to@) && !old(state).connection_manager.bound(to@) ==> r == Result::<
            (),
            ForwardError,
        >::Ok(()) && final(state).users == old(state).users && final(state).signaling == old(state).signaling
            && final(state).connection_manager == old(state).connection_manager && final(state).pending_messages.pending(to@) == old(state).pending_messages.pending(to@).push(
            PendingSignalingMessageView {
                from: from@,
                to: to@,
                message_type: "message"@,
                data: framed_payload(encrypted@),
            },
        ) && (forall|n: Seq<char>|
            n != to@ ==> #[trigger] final(state).pending_messages.pending(n) == old(state).pending_messages.pending(n)),
        old(state).users.has(to@) && old(state).connection_manager.bound(to@) ==> {
            &&& final(state).pending_messages == old(state).pending_messages
            &&& (r == Result::<(), ForwardError>::Ok(()) || r == Result::<(), ForwardError>::Err(
                ForwardError::DeliveryFailed,
            ))
            &&& r == Result::<(), ForwardError>::Ok(()) ==> *final(state) == *old(state)
            &&& r == Result::<(), ForwardError>::Err(ForwardError::DeliveryFailed) ==> !final(state).users.has(to@)
                && !final(state).connection_manager.bound(to@) && (forall|n: Seq<char>|
                #![trigger final(state).users.has(n)]
                n != to@ ==> final(state).users.has(n) == old(state).users.has(n)) && (forall|
                n: Seq<char>,
            |
                #![trigger final(state).connection_manager.bound(n)]
                n != to@ ==> final(state).connection_manager.bound(n) == old(state).connection_manager.bound(n))
        },
{
    if !state.users.contains_name(&to) {
        return Err(ForwardError::RecipientNotFound);
    }
    if state.connection_manager.is_bound(&to) {
        let id = fresh_uuid();
        let timestamp = now_millis();
        let frame = routed_frame(id, from, to.clone(), encrypted, timestamp);
        match state.connection_manager.send_to_user(&to, &frame) {
            Ok(_) => Ok(()),
            Err(_) => {
                // The channel's connection is gone: the recipient is
                // implicitly disconnected, so drive the cleanup and
                // tell the remaining connections.
                state.remove_identity(&to);
                broadcast_user_list(state);
                Err(ForwardError::DeliveryFailed)
            },
        }
    } else {
        let mut data = encrypted.ciphertext;
        data.append("\n");
        data.append(encrypted.nonce.as_str());
        data.append("\n");
        data.append(encrypted.public_key.as_str());
        state.pending_messages.push(
            PendingSignalingMessage { from, to, message_type: "message".to_string(), data },
        );
        Ok(())
    }
}

/// Publish the current presence snapshot to every live channel, and
/// return the frame that every channel was handed: the registry's
/// names, each once and in order. The snapshot is recomputed here,
/// never cached; enqueue failures are skipped per recipient and
/// nothing is mutated.
pub fn broadcast_user_list(state: &AppState) -> (f: ServerFrame)
    ensures
        is_online_users(f, state.users.names()),
{
    let users = state.users.list_names();
    proof {
        assert forall|i: int| 0 <= i < state.users.names().len() implies users@[i]@
            == state.users.names()[i] by {
            assert(state.users.names()[i] == state.users.records()[i].username);
            assert(state.users.records()[i] == state.users.users@[i]@);
        }
    }
    let frame = ServerFrame::OnlineUsers { users };
    state.connection_manager.broadcast(&frame);
    frame
}

/// Process one inbound frame of a connection whose protocol state is
/// `session` and whose outbound channel is `tx`. Returns the replies
/// owed to this connection, in order; pushes to other identities go
/// through the delivery channel table directly.
pub fn handle_frame(
    state: &mut AppState,
    session: &mut SessionState,
    tx: &tokio::sync::mpsc::UnboundedSender<ServerFrame>,
    frame: ClientFrame,
) -> (replies: Vec<ServerFrame>)
    requires
        old(state).wf(),
        !(*old(session) is Closed),
    ensures
        final(state).wf(),
        !(*final(session) is Closed),
        // Availability checks are read-only.
        frame matches ClientFrame::CheckUsername { username } ==> *final(state) == *old(state)
            && *final(session) == *old(session) && replies@.len() == 1 && is_username_available(
            replies@[0],
            !old(state).users.has(username@),
            if !old(state).users.has(username@) {
                "Username is available"@
            } else {
                "Username already exists"@
            },
        ),
        // Registration: at most one may succeed per connection, a taken
        // name is a terminal conflict that replaces nothing, and a
        // success stores the record, binds this connection's channel,
        // activates the session, and replies the confirmation followed
        // by the current presence snapshot.
        frame matches ClientFrame::Register { username, public_key } ==> {
            &&& *old(session) is Active ==> *final(state) == *old(state) && *final(session) == *old(session) && replies@.len() == 1 && is_error(replies@[0], "Already registered"@)
            &&& (*old(session) is Unauthenticated && old(state).users.has(username@)) ==> *final(state) == *old(state) && *final(session) == *old(session) && replies@.len() == 1 && is_error(
                replies@[0],
                "Username already exists. Please choose a different username."@,
            )
            &&& (*old(session) is Unauthenticated && !old(state).users.has(username@)) ==> final(state).users.has(username@) && *final(session) == (SessionState::Active { username })
                && (exists|id: Seq<char>, t: u64|
                id.len() == 36 && final(state).users.records() == old(state).users.records().push(
                    UserDataView {
                        user_id: id,
                        username: username@,
                        public_key: public_key@,
                        last_seen: t,
                    },
                ) && replies@.len() == 2 && is_registered(replies@[0], id, username@))
                && is_online_users(replies@[1], final(state).users.names()) && (forall|n: Seq<char>|
                #![trigger final(state).connection_manager.bound(n)]
                final(state).connection_manager.bound(n) == (old(state).connection_manager.bound(n)
                    || n == username@)) && final(state).pending_messages == old(state).pending_messages
        },
        // Relaying: refused without prior registration. Otherwise the
        // payload reaches the recipient's channel, or its mailbox when
        // it polls; a recipient whose channel is already dead is taken
        // offline, and the sender sees only an opaque offline reply.
        frame matches ClientFrame::SendMessage { to, encrypted } ==> {
            &&& *old(session) is Unauthenticated ==> *final(state) == *old(state) && *final(session)
                == *old(session) && replies@.len() == 1 && is_error(
                replies@[0],
                "Not authenticated. Please register first."@,
            )
            &&& *old(session) matches SessionState::Active { username } ==> {
                &&& *final(session) == *old(session)
                &&& !old(state).users.has(to@) ==> *final(state) == *old(state) && replies@.len()
                    == 1 && is_error(replies@[0], "Recipient not found or offline"@)
                &&& (old(state).users.has(to@) && !old(state).connection_manager.bound(to@))
                    ==> replies@.len() == 0 && final(state).users == old(state).users && final(state).signaling
                    == old(state).signaling && final(state).connection_manager == old(state).connection_manager
                    && final(state).pending_messages.pending(to@) == old(state).pending_messages.pending(to@).push(
                    PendingSignalingMessageView {
                        from: username@,
                        to: to@,
                        message_type: "message"@,
                        data: framed_payload(encrypted@),
                    },
                ) && (forall|n: Seq<char>|
                    n != to@ ==> #[trigger] final(state).pending_messages.pending(n) == old(state).pending_messages.pending(n))
                &&& (old(state).users.has(to@) && old(state).connection_manager.bound(to@)) ==> final(state).pending_messages == old(state).pending_messages && {
                    ||| replies@.len() == 0 && *final(state) == *old(state)
                    ||| replies@.len() == 1 && is_error(
                        replies@[0],
                        "Recipient not found or offline"@,
                    ) && !final(state).users.has(to@) && !final(state).connection_manager.bound(to@)
                        && (forall|n: Seq<char>| #![trigger final(state).users.has(n)]
                        n != to@ ==> final(state).users.has(n) == old(state).users.has(n)) && (
                    forall|n: Seq<char>|
                        #![trigger final(state).connection_manager.bound(n)]
                        n != to@ ==> final(state).connection_manager.bound(n) == old(state).connection_manager.bound(n))
                }
            }
        },
        // Unparseable frames are dropped without any effect.
        frame is Malformed ==> *final(state) == *old(state) && *final(session) == *old(session)
            && replies@.len() == 0,
{
    let mut replies: Vec<ServerFrame> = Vec::new();
    match frame {
        ClientFrame::CheckUsername { username } => {
            let resp = check_username(state, CheckUsernameRequest { username });
            replies.push(
                ServerFrame::UsernameAvailable { available: resp.available, message: resp.message },
            );
        },
        ClientFrame::Register { username, public_key } => {
            match &*session {
                SessionState::Active { .. } => {
                    replies.push(ServerFrame::Error { message: "Already registered".to_string() });
                },
                SessionState::Closed => {},
                SessionState::Unauthenticated => {
                    if state.users.contains_name(&username) {
                        replies.push(
                            ServerFrame::Error {
                                message:
                                    "Username already exists. Please choose a different username.".to_string(),
                            },
                        );
                    } else {
                        let user_id = fresh_uuid();
                        let now = now_millis();
                        state.register_identity(
                            username.clone(),
                            public_key,
                            user_id.clone(),
                            now,
                        );
                        let ghost mid = *state;
                        state.connection_manager.register(username.clone(), clone_sender(tx));
                        proof {
                            assert forall|n: Seq<char>| #[trigger] state.connection_manager.bound(
                                n,
                            ) implies state.users.has(n) by {
                                if n != username@ {
                                    assert(mid.connection_manager.bound(n));
                                }
                            }
                        }
                        replies.push(
                            ServerFrame::Registered {
                                user_id,
                                username: username.clone(),
                            },
                        );
                        let users_list = state.users.list_names();
                        proof {
                            assert forall|i: int| 0 <= i < state.users.names().len() implies users_list@[i]@
                                == state.users.names()[i] by {
                                assert(state.users.names()[i] == state.users.records()[i].username);
                                assert(state.users.records()[i] == state.users.users@[i]@);
                            }
                        }
                        replies.push(ServerFrame::OnlineUsers { users: users_list });
                        *session = SessionState::Active { username };
                        broadcast_user_list(state);
                    }
                },
            }
        },
        ClientFrame::SendMessage { to, encrypted } => {
            let from_opt: Option<String> = match &*session {
                SessionState::Active { username } => Some(username.clone()),
                _ => None,
            };
            match from_opt {
                Some(from) => {
                    match forward_message(state, from, to, encrypted) {
                        Ok(_) => {},
                        Err(e) => {
                            replies.push(ServerFrame::Error { message: e.message() });
                        },
                    }
                },
                None => {
                    replies.push(
                        ServerFrame::Error {
                            message: "Not authenticated. Please register first.".to_string(),
                        },
                    );
                },
            }
        },
        ClientFrame::Malformed => {},
    }
    replies
}

/// Tear one connection down: if it held an identity, that identity
/// goes fully offline (registry record, directory mirror, and channel
/// binding all removed), the remaining connections get a fresh
/// presence snapshot, and the session is `Closed`. Nothing else moves,
/// and the mailbox keeps every queue.
pub fn handle_disconnect(state: &mut AppState, session: &mut SessionState)
    requires
        old(state).wf(),
    ensures
        final(state).wf(),
        *final(session) == SessionState::Closed,
        *old(session) matches SessionState::Active { username } ==> !final(state).users.has(
            username@,
        ) && !final(state).connection_manager.bound(username@) && (forall|n: Seq<char>|
            #![trigger final(state).users.has(n)]
            n != username@ ==> final(state).users.has(n) == old(state).users.has(n)) && (forall|
            n: Seq<char>,
        |
            #![trigger final(state).connection_manager.bound(n)]
            n != username@ ==> final(state).connection_manager.bound(n) == old(state).connection_manager.bound(n)) && final(state).pending_messages == old(state).pending_messages,
        !(*old(session) is Active) ==> *final(state) == *old(state),
{
    let name_opt: Option<String> = match &*session {
        SessionState::Active { username } => Some(username.clone()),
        _ => None,
    };
    *session = SessionState::Closed;
    match name_opt {
        Some(name) => {
            state.remove_identity(&name);
            broadcast_user_list(state);
        },
        None => {},
    }
}

} // verus!
