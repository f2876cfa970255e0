//! Tagged frames of the live-socket transport: the closed set of
//! inbound client requests and outbound server replies.

use vstd::prelude::*;

use crate::models::EncryptedMessage;

verus! {

/// Inbound frame from a client. A frame the transport could not parse
/// arrives as `Malformed`: it is dropped without closing the connection.
pub enum ClientFrame {
    CheckUsername { username: String },
    Register { username: String, public_key: String },
    SendMessage { to: String, encrypted: EncryptedMessage },
    Malformed,
}

/// Outbound frame to a client.
#[derive(Clone, Debug)]
pub enum ServerFrame {
    UsernameAvailable { available: bool, message: String },
    Registered { user_id: String, username: String },
    OnlineUsers { users: Vec<String> },
    Message { id: String, from: String, to: String, encrypted: EncryptedMessage, timestamp: u64 },
    Error { message: String },
}

/// `f` reports availability `avail` with text `msg`.
pub open spec fn is_username_available(f: ServerFrame, avail: bool, msg: Seq<char>) -> bool {
    match f {
        ServerFrame::UsernameAvailable { available, message } => available == avail && message@
            == msg,
        _ => false,
    }
}

/// `f` confirms registration of `name` under the token `id`.
pub open spec fn is_registered(f: ServerFrame, id: Seq<char>, name: Seq<char>) -> bool {
    match f {
        ServerFrame::Registered { user_id, username } => user_id@ == id && username@ == name,
        _ => false,
    }
}

/// `f` carries the presence snapshot `names`, in order.
pub open spec fn is_online_users(f: ServerFrame, names: Seq<Seq<char>>) -> bool {
    match f {
        ServerFrame::OnlineUsers { users } => users@.len() == names.len() && forall|i: int|
            0 <= i < names.len() ==> users@[i]@ == names[i],
        _ => false,
    }
}

/// Build the routed message frame exactly as it is delivered: the
/// opaque payload unchanged, under the given id, endpoints, and
/// timestamp.
pub fn routed_frame(
    id: String,
    from: String,
    to: String,
    encrypted: EncryptedMessage,
    timestamp: u64,
) -> (f: ServerFrame)
    ensures
        f == (ServerFrame::Message { id, from, to, encrypted, timestamp }),
{
    ServerFrame::Message { id, from, to, encrypted, timestamp }
}

/// `f` is an error reply with text `msg`.
pub open spec fn is_error(f: ServerFrame, msg: Seq<char>) -> bool {
    match f {
        ServerFrame::Error { message } => message@ == msg,
        _ => false,
    }
}

} // verus!
