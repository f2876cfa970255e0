//! Pending mailbox: per-recipient queues of opaque payloads for
//! identities that poll for delivery instead of holding a live channel.

use vstd::prelude::*;

use crate::models::{PendingSignalingMessage, PendingSignalingMessageView};

verus! {

/// The messages of `s` addressed to `to`, in arrival order.
pub open spec fn pending_of(s: Seq<PendingSignalingMessage>, to: Seq<char>) -> Seq<
    PendingSignalingMessageView,
>
    decreases s.len(),
{
    if s.len() == 0 {
        Seq::empty()
    } else {
        let rest = pending_of(s.drop_last(), to);
        if s.last()@.to == to {
            rest.push(s.last()@)
        } else {
            rest
        }
    }
}

/// One complete drain step: `out` is everything `pre` held for `to`, in
/// arrival order; afterwards `to`'s queue is empty and every other
/// recipient's queue is exactly what it was.
pub open spec fn drain_transition(
    pre: Mailbox,
    post: Mailbox,
    to: Seq<char>,
    out: Seq<PendingSignalingMessageView>,
) -> bool {
    &&& out == pre.pending(to)
    &&& post.pending(to) == Seq::<PendingSignalingMessageView>::empty()
    &&& forall|n: Seq<char>| n != to ==> #[trigger] post.pending(n) == pre.pending(n)
}

/// Accumulates payloads addressed to identities until each identity
/// polls; one global log in arrival order.
pub struct Mailbox {
    pub entries: Vec<PendingSignalingMessage>,
}

impl Mailbox {
    /// The queue currently waiting for recipient `to`, in arrival order.
    pub open spec fn pending(self, to: Seq<char>) -> Seq<PendingSignalingMessageView> {
        pending_of(self.entries@, to)
    }

    /// An empty mailbox: nothing waits for anyone.
    pub fn new() -> (r: Mailbox)
        ensures
            r.entries@.len() == 0,
            forall|n: Seq<char>| #[trigger] r.pending(n) == Seq::<PendingSignalingMessageView>::empty(),
    {
        Mailbox { entries: Vec::new() }
    }

    /// Append one payload to its recipient's queue; no other queue moves.
    pub fn push(&mut self, msg: PendingSignalingMessage)
        ensures
            final(self).pending(msg.to@) == old(self).pending(msg.to@).push(msg@),
            forall|n: Seq<char>|
                n != msg.to@ ==> #[trigger] final(self).pending(n) == old(self).pending(n),
            final(self).entries@ == old(self).entries@.push(msg),
    {
        let ghost pre = self.entries@;
        self.entries.push(msg);
        proof {
            assert(self.entries@.drop_last() =~= pre);
            assert forall|n: Seq<char>| n != msg.to@ implies #[trigger] self.pending(n) == pending_of(
                pre,
                n,
            ) by {
                assert(self.entries@.drop_last() =~= pre);
            }
        }
    }

    /// Atomically hand out everything waiting for `to` and clear that
    /// queue; a second drain right after returns nothing.
    pub fn drain(&mut self, to: &String) -> (out: Vec<PendingSignalingMessage>)
        ensures
            drain_transition(*old(self), *final(self), to@, out@.map_values(
                |m: PendingSignalingMessage| m@,
            )),
    {
        let ghost pre = self.entries@;
        let mut out: Vec<PendingSignalingMessage> = Vec::new();
        let mut kept: Vec<PendingSignalingMessage> = Vec::new();
        let mut i: usize = 0;
        while i < self.entries.len()
            invariant
                self.entries@ == pre,
                i <= pre.len(),
                out@.map_values(|m: PendingSignalingMessage| m@) == pending_of(
                    pre.take(i as int),
                    to@,
                ),
                pending_of(kept@, to@) == Seq::<PendingSignalingMessageView>::empty(),
                forall|n: Seq<char>|
                    n != to@ ==> #[trigger] pending_of(kept@, n) == pending_of(
                        pre.take(i as int),
                        n,
                    ),
            decreases pre.len() - i,
        {
            let ghost out_pre = out@;
            let ghost kept_pre = kept@;
            let entry = self.entries[i].duplicate();
            if entry.to == *to {
                out.push(entry);
            } else {
                kept.push(entry);
            }
            i = i + 1;
            proof {
                assert(pre.take(i as int).drop_last() =~= pre.take(i as int - 1));
                assert(pre.take(i as int).last() == pre[i as int - 1]);
                assert(out@.map_values(|m: PendingSignalingMessage| m@) == pending_of(
                    pre.take(i as int),
                    to@,
                )) by {
                    if pre[i as int - 1]@.to == to@ {
                        assert(out@ == out_pre.push(pre[i as int - 1]));
                        assert(out@.map_values(|m: PendingSignalingMessage| m@)
                            =~= out_pre.map_values(|m: PendingSignalingMessage| m@).push(
                            pre[i as int - 1]@,
                        ));
                    } else {
                        assert(out@ == out_pre);
                    }
                }
                if pre[i as int - 1]@.to != to@ {
                    assert(kept@ == kept_pre.push(pre[i as int - 1]));
                    assert(kept@.drop_last() =~= kept_pre);
                    assert(pending_of(kept@, to@) == Seq::<PendingSignalingMessageView>::empty());
                }
                assert forall|n: Seq<char>| n != to@ implies #[trigger] pending_of(kept@, n)
                    == pending_of(pre.take(i as int), n) by {
                    let e = pre[i as int - 1];
                    assert(pending_of(kept_pre, n) == pending_of(pre.take(i as int - 1), n));
                    if e@.to == to@ {
                        assert(kept@ == kept_pre);
                        assert(pending_of(pre.take(i as int), n) == pending_of(
                            pre.take(i as int - 1),
                            n,
                        ));
                    } else {
                        assert(kept@ == kept_pre.push(e));
                        assert(kept@.drop_last() =~= kept_pre);
                        assert(kept@.last() == e);
                        assert(pending_of(kept@, n) == (if e@.to == n {
                            pending_of(kept_pre, n).push(e@)
                        } else {
                            pending_of(kept_pre, n)
                        }));
                        assert(pending_of(pre.take(i as int), n) == (if e@.to == n {
                            pending_of(pre.take(i as int - 1), n).push(e@)
                        } else {
                            pending_of(pre.take(i as int - 1), n)
                        }));
                    }
                }
            }
        }
        proof {
            assert(pre.take(pre.len() as int) =~= pre);
        }
        self.entries = kept;
        out
    }
}

} // verus!
