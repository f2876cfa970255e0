//! Laws of the relay core that relate several operations, proved once
//! over the models the operation contracts are stated in.

use vstd::prelude::*;

use crate::mailbox::{drain_transition, Mailbox};
use crate::models::PendingSignalingMessageView;
use crate::registry::Registry;
use crate::state::AppState;

verus! {

/// Uniqueness: no two simultaneously online identities share a display
/// name — any two distinct records of a well-formed registry carry
/// different names.
pub proof fn lemma_registry_uniqueness(r: Registry, i: int, j: int)
    requires
        r.wf(),
        0 <= i < r.users@.len(),
        0 <= j < r.users@.len(),
        i != j,
    ensures
        r.users@[i]@.username != r.users@[j]@.username,
{
}

/// Presence follows the registry: a name stands in the snapshot
/// exactly when it is online. So every connected identity sees itself
/// in any snapshot taken while it is registered, and a snapshot taken
/// after a disconnect excludes exactly the removed name.
pub proof fn lemma_snapshot_matches_registry(r: Registry, name: Seq<char>)
    ensures
        r.names().contains(name) == r.has(name),
{
    if r.names().contains(name) {
        let i = choose|i: int| 0 <= i < r.names().len() && r.names()[i] == name;
        assert(r.names()[i] == r.records()[i].username);
        assert(r.records()[i] == r.users@[i]@);
    }
    if r.has(name) {
        let i = choose|i: int| 0 <= i < r.users@.len() && r.users@[i]@.username == name;
        assert(r.names()[i] == r.records()[i].username);
        assert(r.records()[i] == r.users@[i]@);
        assert(r.names().contains(name));
    }
}

/// No live connection is missing from a presence snapshot: in a
/// well-formed state every bound identity is online, so the snapshot —
/// the registry's names, which is exactly what a presence broadcast
/// carries — contains it. No identity observes a snapshot missing
/// itself while connected.
pub proof fn lemma_bound_identity_in_snapshot(state: AppState, name: Seq<char>)
    requires
        state.wf(),
        state.connection_manager.bound(name),
    ensures
        state.users.names().contains(name),
{
    lemma_snapshot_matches_registry(state.users, name);
}

/// At-most-once delivery of the mailbox: after one drain of `name`,
/// an immediately following drain of the same name hands out nothing,
/// and leaves every queue exactly as the first drain left it.
pub proof fn lemma_drain_at_most_once(
    m0: Mailbox,
    m1: Mailbox,
    m2: Mailbox,
    name: Seq<char>,
    out1: Seq<PendingSignalingMessageView>,
    out2: Seq<PendingSignalingMessageView>,
)
    requires
        drain_transition(m0, m1, name, out1),
        drain_transition(m1, m2, name, out2),
    ensures
        out2 == Seq::<PendingSignalingMessageView>::empty(),
        forall|n: Seq<char>| #[trigger] m2.pending(n) == m1.pending(n),
{
    assert forall|n: Seq<char>| #[trigger] m2.pending(n) == m1.pending(n) by {
        if n != name {
            assert(m2.pending(n) == m1.pending(n));
        }
    }
}

} // verus!
