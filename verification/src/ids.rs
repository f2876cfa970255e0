//! Freshly minted tokens and timestamps, from the outside world.

use vstd::prelude::*;

verus! {

/// Relies on uuid's `Uuid::new_v4` and its `Display` form: a randomly
/// drawn identifier rendered in the 36-character hyphenated format.
/// The identifier is random, so nothing beyond its length is promised.
/// Aborts only if the operating system's randomness source fails — an
/// environmental fault, independent of any input.
#[verifier::external_body]
pub(crate) fn fresh_uuid() -> (r: String)
    ensures
        r@.len() == 36,
{
    uuid::Uuid::new_v4().to_string()
}

/// Relies on chrono's `Utc::now` and `timestamp_millis`: the current
/// wall-clock time in milliseconds since the epoch. The clock decides
/// the value, so nothing is promised about it. Aborts only if the
/// system clock reads before the epoch — an environmental fault,
/// independent of any input.
#[verifier::external_body]
pub(crate) fn now_millis() -> u64 {
    chrono::Utc::now().timestamp_millis() as u64
}

} // verus!
