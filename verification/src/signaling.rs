//! Poll-transport operations: discrete request/response registration,
//! availability checks, presence listing, payload queueing into the
//! pending mailbox, and the mailbox drain.

use vstd::prelude::*;

use crate::ids::{fresh_uuid, now_millis};
use crate::mailbox::drain_transition;
use crate::models::{
    AnswerRequest, CheckUsernameRequest, CheckUsernameResponse, IceCandidateRequest, OfferRequest,
    OnlineUsersResponse, PendingSignalingMessage, PendingSignalingMessageView, RegisterRequest,
    RegisterResponse, SignalingDataView, SignalingRejection, SignalingResponse, UserDataView,
};
use crate::state::AppState;

verus! {

/// Register a new identity. Succeeds with a freshly minted token
/// exactly when the display name is not yet online; a name collision
/// is a terminal conflict that leaves every stored record untouched.
pub fn register_user(state: &mut AppState, request: RegisterRequest) -> (r: Result<
    RegisterResponse,
    SignalingRejection,
>)
    requires
        old(state).wf(),
    ensures
        final(state).wf(),
        final(state).pending_messages == old(state).pending_messages,
        final(state).connection_manager == old(state).connection_manager,
        match r {
            Ok(resp) => !old(state).users.has(request.username@) && resp.username@
                == request.username@ && resp.user_id@.len() == 36 && final(state).users.has(request.username@) && exists|t: u64|
                final(state).users.records() == old(state).users.records().push(
                    UserDataView {
                        user_id: resp.user_id@,
                        username: request.username@,
                        public_key: request.public_key@,
                        last_seen: t,
                    },
                ) && final(state).directory() == old(state).directory().push(
                    SignalingDataView {
                        username: request.username@,
                        public_key: request.public_key@,
                        last_seen: t,
                    },
                ),
            Err(rej) => old(state).users.has(request.username@) && *final(state) == *old(state)
                && rej.status == 409 && !rej.response.success && rej.response.message@
                == "Username already exists"@,
        },
{
    if state.users.contains_name(&request.username) {
        return Err(
            SignalingRejection {
                status: 409,
                response: SignalingResponse {
                    success: false,
                    message: "Username already exists".to_string(),
                },
            },
        );
    }
    let user_id = fresh_uuid();
    let now = now_millis();
    let ok = state.register_identity(
        request.username.clone(),
        request.public_key.clone(),
        user_id.clone(),
        now,
    );
    proof {
        assert(state.users.records() == old(state).users.records().push(
            UserDataView {
                user_id: user_id@,
                username: request.username@,
                public_key: request.public_key@,
                last_seen: now,
            },
        ));
    }
    Ok(RegisterResponse { user_id, username: request.username })
}

/// Read-only availability check for a display name.
pub fn check_username(state: &AppState, request: CheckUsernameRequest) -> (r:
    CheckUsernameResponse)
    ensures
        r.available == !state.users.has(request.username@),
        r.available ==> r.message@ == "Username is available"@,
        !r.available ==> r.message@ == "Username already exists"@,
{
    let is_available = !state.users.contains_name(&request.username);
    CheckUsernameResponse {
        available: is_available,
        message: if is_available {
            "Username is available".to_string()
        } else {
            "Username already exists".to_string()
        },
    }
}

/// The current presence snapshot: every online display name.
pub fn get_online_users(state: &AppState) -> (r: OnlineUsersResponse)
    ensures
        r.users@.len() == state.users.users@.len(),
        forall|i: int| 0 <= i < r.users@.len() ==> r.users@[i]@ == state.users.users@[i]@.username,
{
    OnlineUsersResponse { users: state.users.list_names() }
}

/// Queue a session offer for the recipient to poll. Both endpoints
/// must be online; a rejected request changes nothing.
pub fn handle_offer(state: &mut AppState, request: OfferRequest) -> (r: Result<
    SignalingResponse,
    SignalingRejection,
>)
    requires
        old(state).wf(),
    ensures
        final(state).wf(),
        final(state).users == old(state).users,
        final(state).signaling == old(state).signaling,
        final(state).connection_manager == old(state).connection_manager,
        match r {
            Ok(resp) => old(state).users.has(request.from@) && old(state).users.has(request.to@)
                && resp.success && resp.message@ == "Offer received"@ && final(state).pending_messages.pending(request.to@) == old(state).pending_messages.pending(
                request.to@,
            ).push(
                PendingSignalingMessageView {
                    from: request.from@,
                    to: request.to@,
                    message_type: "offer"@,
                    data: request.offer@,
                },
            ) && forall|n: Seq<char>|
                n != request.to@ ==> #[trigger] final(state).pending_messages.pending(n) == old(state).pending_messages.pending(n),
            Err(rej) => *final(state) == *old(state) && !rej.response.success && (if !old(state).users.has(request.from@) {
                rej.status == 401 && rej.response.message@ == "Sender not registered"@
            } else {
                !old(state).users.has(request.to@) && rej.status == 404 && rej.response.message@
                    == "Recipient not found or offline"@
            }),
        },
{
    if !state.users.contains_name(&request.from) {
        return Err(
            SignalingRejection {
                status: 401,
                response: SignalingResponse {
                    success: false,
                    message: "Sender not registered".to_string(),
                },
            },
        );
    }
    if !state.users.contains_name(&request.to) {
        return Err(
            SignalingRejection {
                status: 404,
                response: SignalingResponse {
                    success: false,
                    message: "Recipient not found or offline".to_string(),
                },
            },
        );
    }
    state.pending_messages.push(
        PendingSignalingMessage {
            from: request.from,
            to: request.to,
            message_type: "offer".to_string(),
            data: request.offer,
        },
    );
    Ok(SignalingResponse { success: true, message: "Offer received".to_string() })
}

/// Queue a session answer for the recipient to poll. Both endpoints
/// must be online; a rejected request changes nothing.
pub fn handle_answer(state: &mut AppState, request: AnswerRequest) -> (r: Result<
    SignalingResponse,
    SignalingRejection,
>)
    requires
        old(state).wf(),
    ensures
        final(state).wf(),
        final(state).users == old(state).users,
        final(state).signaling == old(state).signaling,
        final(state).connection_manager == old(state).connection_manager,
        match r {
            Ok(resp) => old(state).users.has(request.from@) && old(state).users.has(request.to@)
                && resp.success && resp.message@ == "Answer received"@ && final(state).pending_messages.pending(request.to@) == old(state).pending_messages.pending(
                request.to@,
            ).push(
                PendingSignalingMessageView {
                    from: request.from@,
                    to: request.to@,
                    message_type: "answer"@,
                    data: request.answer@,
                },
            ) && forall|n: Seq<char>|
                n != request.to@ ==> #[trigger] final(state).pending_messages.pending(n) == old(state).pending_messages.pending(n),
            Err(rej) => *final(state) == *old(state) && !rej.response.success && rej.status == 404
                && rej.response.message@ == "User not found"@ && (!old(state).users.has(request.from@) || !old(state).users.has(request.to@)),
        },
{
    if !state.users.contains_name(&request.from) || !state.users.contains_name(&request.to) {
        return Err(
            SignalingRejection {
                status: 404,
                response: SignalingResponse {
                    success: false,
                    message: "User not found".to_string(),
                },
            },
        );
    }
    state.pending_messages.push(
        PendingSignalingMessage {
            from: request.from,
            to: request.to,
            message_type: "answer".to_string(),
            data: request.answer,
        },
    );
    Ok(SignalingResponse { success: true, message: "Answer received".to_string() })
}

/// Queue a connectivity candidate for the recipient to poll. Both
/// endpoints must be online; a rejected request changes nothing.
pub fn handle_ice_candidate(state: &mut AppState, request: IceCandidateRequest) -> (r: Result<
    SignalingResponse,
    SignalingRejection,
>)
    requires
        old(state).wf(),
    ensures
        final(state).wf(),
        final(state).users == old(state).users,
        final(state).signaling == old(state).signaling,
        final(state).connection_manager == old(state).connection_manager,
        match r {
            Ok(resp) => old(state).users.has(request.from@) && old(state).users.has(request.to@)
                && resp.success && resp.message@ == "ICE candidate received"@ && final(state).pending_messages.pending(request.to@) == old(state).pending_messages.pending(
                request.to@,
            ).push(
                PendingSignalingMessageView {
                    from: request.from@,
                    to: request.to@,
                    message_type: "ice-candidate"@,
                    data: request.candidate@,
                },
            ) && forall|n: Seq<char>|
                n != request.to@ ==> #[trigger] final(state).pending_messages.pending(n) == old(state).pending_messages.pending(n),
            Err(rej) => *final(state) == *old(state) && !rej.response.success && rej.status == 404
                && rej.response.message@ == "User not found"@ && (!old(state).users.has(request.from@) || !old(state).users.has(request.to@)),
        },
{
    if !state.users.contains_name(&request.from) || !state.users.contains_name(&request.to) {
        return Err(
            SignalingRejection {
                status: 404,
                response: SignalingResponse {
                    success: false,
                    message: "User not found".to_string(),
                },
            },
        );
    }
    state.pending_messages.push(
        PendingSignalingMessage {
            from: request.from,
            to: request.to,
            message_type: "ice-candidate".to_string(),
            data: request.candidate,
        },
    );
    Ok(SignalingResponse { success: true, message: "ICE candidate received".to_string() })
}

/// Atomically drain and return everything queued for `username`; the
/// queue is empty afterwards, and every other queue is untouched.
pub fn get_pending_messages(state: &mut AppState, username: String) -> (r: Vec<
    PendingSignalingMessage,
>)
    requires
        old(state).wf(),
    ensures
        final(state).wf(),
        final(state).users == old(state).users,
        final(state).signaling == old(state).signaling,
        final(state).connection_manager == old(state).connection_manager,
        drain_transition(
            old(state).pending_messages,
            final(state).pending_messages,
            username@,
            r@.map_values(|m: PendingSignalingMessage| m@),
        ),
{
    state.pending_messages.drain(&username)
}

/// Take an identity offline on disconnect: idempotent (an absent name
/// is a complete no-op), and it removes only that identity's registry
/// record, directory record, and channel binding — every other
/// identity's records and binding, and the whole mailbox, stay put.
pub fn disconnect_user(state: &mut AppState, username: String)
    requires
        old(state).wf(),
    ensures
        final(state).wf(),
        !final(state).users.has(username@),
        !final(state).connection_manager.bound(username@),
        !old(state).users.has(username@) ==> *final(state) == *old(state),
        old(state).users.has(username@) ==> exists|i: int|
            0 <= i < old(state).users.users@.len() && old(state).users.users@[i]@.username
                == username@ && final(state).users.users@ == old(state).users.users@.remove(i)
                && final(state).directory() == old(state).directory().remove(i),
        forall|n: Seq<char>| #![trigger final(state).users.has(n)]
            n != username@ ==> final(state).users.has(n) == old(state).users.has(n),
        forall|n: Seq<char>| #![trigger final(state).connection_manager.bound(n)]
            n != username@ ==> final(state).connection_manager.bound(n) == old(state).connection_manager.bound(n),
        final(state).pending_messages == old(state).pending_messages,
{
    state.remove_identity(&username);
}

} // verus!
