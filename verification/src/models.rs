//! Data model: identity records, mailbox entries, and the plain
//! request/response value types of both transport bindings.

use vstd::prelude::*;

verus! {

/// Identity record stored in memory while a client is online.
/// `username` is the routing key and must be unique among online
/// identities; `user_id` is an opaque token minted at registration.
#[derive(Debug)]
pub struct UserData {
    pub user_id: String,
    pub username: String,
    pub public_key: String,
    pub last_seen: u64,
}

/// Mathematical image of a `UserData` record.
pub struct UserDataView {
    pub user_id: Seq<char>,
    pub username: Seq<char>,
    pub public_key: Seq<char>,
    pub last_seen: u64,
}

impl View for UserData {
    type V = UserDataView;

    open spec fn view(&self) -> UserDataView {
        UserDataView {
            user_id: self.user_id@,
            username: self.username@,
            public_key: self.public_key@,
            last_seen: self.last_seen,
        }
    }
}

/// Session-negotiation directory record, mirrored from the identity
/// registry entry of the same name.
#[derive(Debug)]
pub struct SignalingData {
    pub username: String,
    pub public_key: String,
    pub last_seen: u64,
}

/// Mathematical image of a `SignalingData` record.
pub struct SignalingDataView {
    pub username: Seq<char>,
    pub public_key: Seq<char>,
    pub last_seen: u64,
}

impl View for SignalingData {
    type V = SignalingDataView;

    open spec fn view(&self) -> SignalingDataView {
        SignalingDataView {
            username: self.username@,
            public_key: self.public_key@,
            last_seen: self.last_seen,
        }
    }
}

/// One mailbox entry: an opaque session-negotiation payload addressed
/// to `to`, waiting until that identity polls for its messages.
#[derive(Debug)]
pub struct PendingSignalingMessage {
    pub from: String,
    pub to: String,
    pub message_type: String,
    pub data: String,
}

/// Mathematical image of a `PendingSignalingMessage`.
pub struct PendingSignalingMessageView {
    pub from: Seq<char>,
    pub to: Seq<char>,
    pub message_type: Seq<char>,
    pub data: Seq<char>,
}

impl View for PendingSignalingMessage {
    type V = PendingSignalingMessageView;

    open spec fn view(&self) -> PendingSignalingMessageView {
        PendingSignalingMessageView {
            from: self.from@,
            to: self.to@,
            message_type: self.message_type@,
            data: self.data@,
        }
    }
}

impl PendingSignalingMessage {
    /// A field-wise copy, equal to `*self`.
    pub fn duplicate(&self) -> (r: PendingSignalingMessage)
        ensures
            r == *self,
    {
        PendingSignalingMessage {
            from: self.from.clone(),
            to: self.to.clone(),
            message_type: self.message_type.clone(),
            data: self.data.clone(),
        }
    }
}

/// Opaque end-to-end encrypted payload; the server stores and forwards
/// it without ever interpreting the contents.
#[derive(Clone, Debug)]
pub struct EncryptedMessage {
    pub ciphertext: String,
    pub nonce: String,
    pub public_key: String,
}

/// Mathematical image of an `EncryptedMessage`.
pub struct EncryptedMessageView {
    pub ciphertext: Seq<char>,
    pub nonce: Seq<char>,
    pub public_key: Seq<char>,
}

impl View for EncryptedMessage {
    type V = EncryptedMessageView;

    open spec fn view(&self) -> EncryptedMessageView {
        EncryptedMessageView {
            ciphertext: self.ciphertext@,
            nonce: self.nonce@,
            public_key: self.public_key@,
        }
    }
}

/// Request to look up a user's public key.
#[derive(Debug)]
pub struct GetPublicKeyRequest {
    pub username: String,
}

/// Reply carrying a user's public key.
#[derive(Debug)]
pub struct PublicKeyResponse {
    pub public_key: String,
}

/// Generic error reply.
#[derive(Debug)]
pub struct ErrorResponse {
    pub error: String,
}

/// Registration request.
#[derive(Debug)]
pub struct RegisterRequest {
    pub username: String,
    pub public_key: String,
}

/// Successful registration reply.
#[derive(Debug)]
pub struct RegisterResponse {
    pub user_id: String,
    pub username: String,
}

/// Availability query for a display name.
#[derive(Debug)]
pub struct CheckUsernameRequest {
    pub username: String,
}

/// Availability reply for a display name.
#[derive(Debug)]
pub struct CheckUsernameResponse {
    pub available: bool,
    pub message: String,
}

/// Session offer addressed to another online identity.
#[derive(Debug)]
pub struct OfferRequest {
    pub from: String,
    pub to: String,
    pub offer: String,
}

/// Session answer addressed to another online identity.
#[derive(Debug)]
pub struct AnswerRequest {
    pub from: String,
    pub to: String,
    pub answer: String,
}

/// Connectivity-candidate exchange addressed to another online identity.
#[derive(Debug)]
pub struct IceCandidateRequest {
    pub from: String,
    pub to: String,
    pub candidate: String,
}

/// Outcome reply of a session-negotiation operation.
#[derive(Debug)]
pub struct SignalingResponse {
    pub success: bool,
    pub message: String,
}

/// Reply listing the currently online display names.
#[derive(Debug)]
pub struct OnlineUsersResponse {
    pub users: Vec<String>,
}

/// A rejected session-negotiation operation: the transport status to
/// report and the reply body explaining it.
#[derive(Debug)]
pub struct SignalingRejection {
    pub status: u16,
    pub response: SignalingResponse,
}

} // verus!
