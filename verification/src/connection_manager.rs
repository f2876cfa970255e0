//! Delivery channel table: maps each online identity to the live
//! outbound channel of its connection. The channel itself belongs to
//! tokio; the table, its uniqueness invariant, and the routing
//! decisions around it are verified.

use vstd::prelude::*;

use crate::frames::ServerFrame;

verus! {

/// The sending half of a tokio unbounded channel, declared so that the
/// table can hold it; its inside stays opaque to the verifier.
#[verifier::external_type_specification]
#[verifier::external_body]
#[verifier::reject_recursive_types(T)]
pub struct ExUnboundedSender<T>(tokio::sync::mpsc::UnboundedSender<T>);

/// Relies on tokio's `UnboundedSender::send`: enqueueing never blocks,
/// succeeds unless the receiving half was dropped or closed, and fails
/// (losing the value) exactly in that case. Which of the two happens
/// depends on the peer connection, so nothing is promised about the
/// returned flag.
#[verifier::external_body]
fn enqueue_frame(sender: &tokio::sync::mpsc::UnboundedSender<ServerFrame>, frame: &ServerFrame) -> bool {
    sender.send(frame.clone()).is_ok()
}

/// Relies on `Clone` for tokio's `UnboundedSender`: the clone is one
/// more sending handle to the same channel.
#[verifier::external_body]
pub(crate) fn clone_sender(
    sender: &tokio::sync::mpsc::UnboundedSender<ServerFrame>,
) -> tokio::sync::mpsc::UnboundedSender<ServerFrame> {
    sender.clone()
}

/// Why a push delivery did not happen: the identity has no live
/// channel, or its channel's connection is already gone.
#[derive(Clone, Copy, Debug, PartialEq, Eq, Structural)]
pub enum SendError {
    NotBound,
    SendFailed,
}

/// Maps each online identity to the single live outbound channel of
/// its connection. Well-formedness (`wf`) says no name is bound twice.
pub struct ConnectionManager {
    pub connections: Vec<(String, tokio::sync::mpsc::UnboundedSender<ServerFrame>)>,
}

impl ConnectionManager {
    /// The bound display names, in insertion order.
    pub open spec fn names(self) -> Seq<Seq<char>> {
        self.connections@.map_values(|c: (String, tokio::sync::mpsc::UnboundedSender<ServerFrame>)| c.0@)
    }

    /// Whether `name` currently has a live channel.
    pub open spec fn bound(self, name: Seq<char>) -> bool {
        exists|i: int| 0 <= i < self.connections@.len() && self.connections@[i].0@ == name
    }

    /// At most one delivery handle per identity.
    pub open spec fn wf(self) -> bool {
        forall|i: int, j: int|
            0 <= i < j < self.connections@.len() ==> self.connections@[i].0@
                != self.connections@[j].0@
    }

    /// An empty table: nobody is reachable by push.
    pub fn new() -> (r: ConnectionManager)
        ensures
            r.connections@.len() == 0,
            r.wf(),
            forall|n: Seq<char>| !r.bound(n),
    {
        ConnectionManager { connections: Vec::new() }
    }

    /// Bind a channel to a name. Refused (`false`, table untouched) if
    /// the name already has one: a live handle is never overwritten.
    pub fn register(
        &mut self,
        username: String,
        sender: tokio::sync::mpsc::UnboundedSender<ServerFrame>,
    ) -> (r: bool)
        requires
            old(self).wf(),
        ensures
            final(self).wf(),
            r == !old(self).bound(username@),
            !r ==> *final(self) == *old(self),
            r ==> final(self).connections@ == old(self).connections@.push((username, sender)),
            forall|n: Seq<char>| #![trigger final(self).bound(n)]
                final(self).bound(n) == (old(self).bound(n) || (r && n == username@)),
    {
        if self.is_bound(&username) {
            return false;
        }
        self.connections.push((username, sender));
        proof {
            let ii = self.connections@.len() - 1;
            assert(self.connections@[ii].0@ == username@);
            assert forall|n: Seq<char>| true implies #[trigger] self.bound(n) == (old(self).bound(n)
                || n == username@) by {
                if self.bound(n) {
                    let k = choose|k: int|
                        0 <= k < self.connections@.len() && self.connections@[k].0@ == n;
                    if k < ii {
                        assert(old(self).connections@[k].0@ == n);
                    }
                }
                if old(self).bound(n) {
                    let k = choose|k: int|
                        0 <= k < old(self).connections@.len() && old(self).connections@[k].0@ == n;
                    assert(self.connections@[k].0@ == n);
                }
            }
        }
        true
    }

    /// Whether `name` currently has a live channel.
    pub fn is_bound(&self, name: &String) -> (r: bool)
        ensures
            r == self.bound(name@),
    {
        let mut i: usize = 0;
        while i < self.connections.len()
            invariant
                i <= self.connections@.len(),
                forall|k: int| 0 <= k < i ==> self.connections@[k].0@ != name@,
            decreases self.connections@.len() - i,
        {
            if self.connections[i].0 == *name {
                return true;
            }
            i = i + 1;
        }
        false
    }

    /// Drop the channel bound to `name`, if any; absent names are a
    /// no-op. Every surviving binding keeps its own channel: the final
    /// table is the old one with exactly that entry taken out.
    pub fn remove(&mut self, name: &String)
        requires
            old(self).wf(),
        ensures
            final(self).wf(),
            !final(self).bound(name@),
            !old(self).bound(name@) ==> *final(self) == *old(self),
            old(self).bound(name@) ==> exists|i: int|
                0 <= i < old(self).connections@.len() && old(self).connections@[i].0@ == name@
                    && final(self).connections@ == old(self).connections@.remove(i),
            forall|n: Seq<char>| #![trigger final(self).bound(n)]
                n != name@ ==> final(self).bound(n) == old(self).bound(n),
    {
        let ghost pre = *self;
        let mut i: usize = 0;
        while i < self.connections.len()
            invariant
                *self == pre,
                pre == *old(self),
                pre.wf(),
                i <= self.connections@.len(),
                forall|k: int| 0 <= k < i ==> self.connections@[k].0@ != name@,
            decreases self.connections@.len() - i,
        {
            if self.connections[i].0 == *name {
                self.connections.remove(i);
                proof {
                    let s = pre.connections@;
                    let ii = i as int;
                    s.remove_ensures(ii);
                    assert(self.connections@ == s.remove(ii));
                    assert forall|k: int| 0 <= k < self.connections@.len() implies self.connections@[k].0@
                        != name@ by {
                        if k < ii {
                            assert(self.connections@[k] == s[k]);
                        } else {
                            assert(self.connections@[k] == s[k + 1]);
                        }
                    }
                    assert forall|a: int, b: int| 0 <= a < b < self.connections@.len() implies self.connections@[a].0@
                        != self.connections@[b].0@ by {
                        let pa: int = if a < ii { a } else { a + 1 };
                        let pb: int = if b < ii { b } else { b + 1 };
                        assert(self.connections@[a] == s[pa]);
                        assert(self.connections@[b] == s[pb]);
                    }
                    assert forall|n: Seq<char>| n != name@ implies #[trigger] self.bound(n)
                        == pre.bound(n) by {
                        if self.bound(n) {
                            let k = choose|k: int|
                                0 <= k < self.connections@.len() && self.connections@[k].0@ == n;
                            if k < ii {
                                assert(s[k].0@ == n);
                            } else {
                                assert(s[k + 1].0@ == n);
                            }
                        }
                        if pre.bound(n) {
                            let k = choose|k: int| 0 <= k < s.len() && s[k].0@ == n;
                            if k < ii {
                                assert(self.connections@[k].0@ == n);
                            } else {
                                assert(k > ii);
                                assert(self.connections@[k - 1].0@ == n);
                            }
                        }
                    }
                }
                return;
            }
            i = i + 1;
        }
    }

    /// Push one frame to the identity's channel. `NotBound` exactly
    /// when no channel is bound to `username`; `SendFailed` when the
    /// bound channel's connection is already gone — the caller should
    /// then treat the identity as disconnected. The table never
    /// changes.
    pub fn send_to_user(&self, username: &String, frame: &ServerFrame) -> (r: Result<
        (),
        SendError,
    >)
        ensures
            (r == Result::<(), SendError>::Err(SendError::NotBound)) == !self.bound(username@),
    {
        let mut i: usize = 0;
        while i < self.connections.len()
            invariant
                i <= self.connections@.len(),
                forall|k: int| 0 <= k < i ==> self.connections@[k].0@ != username@,
            decreases self.connections@.len() - i,
        {
            if self.connections[i].0 == *username {
                if enqueue_frame(&self.connections[i].1, frame) {
                    return Ok(());
                } else {
                    return Err(SendError::SendFailed);
                }
            }
            i = i + 1;
        }
        Err(SendError::NotBound)
    }

    /// Enqueue the same frame to every bound channel; a failed enqueue
    /// (a connection already gone) is skipped, never aborts the rest of
    /// the fan-out. The table itself never changes.
    pub fn broadcast(&self, frame: &ServerFrame)
    {
        let mut i: usize = 0;
        while i < self.connections.len()
            invariant
                i <= self.connections@.len(),
            decreases self.connections@.len() - i,
        {
            let _delivered = enqueue_frame(&self.connections[i].1, frame);
            i = i + 1;
        }
    }

    /// The display names currently reachable by push, in table order.
    pub fn get_connected_users(&self) -> (r: Vec<String>)
        ensures
            r@.len() == self.connections@.len(),
            forall|i: int| 0 <= i < r@.len() ==> r@[i]@ == self.connections@[i].0@,
    {
        let mut out: Vec<String> = Vec::new();
        let mut i: usize = 0;
        while i < self.connections.len()
            invariant
                i <= self.connections@.len(),
                out@.len() == i,
                forall|k: int| 0 <= k < i ==> out@[k]@ == self.connections@[k].0@,
            decreases self.connections@.len() - i,
        {
            out.push(self.connections[i].0.clone());
            i = i + 1;
        }
        out
    }
}

} // verus!
