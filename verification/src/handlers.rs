//! Key directory lookup: hand out the public key an identity
//! registered with, so peers can encrypt for it.

use vstd::prelude::*;

use crate::models::{ErrorResponse, GetPublicKeyRequest, PublicKeyResponse};
use crate::state::AppState;

verus! {

/// Look up the public key registered under a display name. Succeeds
/// exactly when the name is online, and returns the key of its stored
/// record.
pub fn get_public_key(state: &AppState, request: GetPublicKeyRequest) -> (r: Result<
    PublicKeyResponse,
    ErrorResponse,
>)
    ensures
        match r {
            Ok(resp) => state.users.has(request.username@) && exists|i: int|
                0 <= i < state.users.users@.len() && state.users.users@[i]@.username
                    == request.username@ && state.users.users@[i]@.public_key
                    == resp.public_key@,
            Err(err) => !state.users.has(request.username@) && err.error@
                == "User not found or offline"@,
        },
{
    match state.users.lookup(&request.username) {
        Some(user) => Ok(PublicKeyResponse { public_key: user.public_key.clone() }),
        None => Err(ErrorResponse { error: "User not found or offline".to_string() }),
    }
}

} // verus!
