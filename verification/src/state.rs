//! Process-wide relay state: the identity registry, its session
//! directory mirror, the pending mailbox, and the delivery channel
//! table, owned by one service object built once at startup.

use vstd::prelude::*;

use crate::connection_manager::ConnectionManager;
use crate::mailbox::Mailbox;
use crate::models::{SignalingData, SignalingDataView, UserDataView};
use crate::registry::Registry;

verus! {

/// Everything the relay tracks while running. Nothing here outlives
/// the process.
pub struct AppState {
    pub users: Registry,
    pub signaling: Vec<SignalingData>,
    pub pending_messages: Mailbox,
    pub connection_manager: ConnectionManager,
}

impl AppState {
    /// The state invariant: unique names in registry and channel
    /// table, the session directory mirroring the registry record for
    /// record, and a channel only ever bound to an online identity.
    pub open spec fn wf(self) -> bool {
        &&& self.users.wf()
        &&& self.connection_manager.wf()
        &&& self.signaling@.len() == self.users.users@.len()
        &&& forall|i: int|
            0 <= i < self.signaling@.len() ==> #[trigger] self.signaling@[i]@.username
                == self.users.users@[i]@.username
        &&& forall|n: Seq<char>|
            #[trigger] self.connection_manager.bound(n) ==> self.users.has(n)
    }

    /// The session directory's records, as mathematical values, in
    /// storage order.
    pub open spec fn directory(self) -> Seq<SignalingDataView> {
        self.signaling@.map_values(|s: SignalingData| s@)
    }

    /// Fresh state: nobody online, nothing pending, nothing bound.
    pub fn new() -> (r: AppState)
        ensures
            r.wf(),
            r.users.users@.len() == 0,
            forall|n: Seq<char>| !r.users.has(n),
            forall|n: Seq<char>| !r.connection_manager.bound(n),
            forall|n: Seq<char>| #[trigger] r.pending_messages.pending(n) == Seq::<
                crate::models::PendingSignalingMessageView,
            >::empty(),
    {
        AppState {
            users: Registry::new(),
            signaling: Vec::new(),
            pending_messages: Mailbox::new(),
            connection_manager: ConnectionManager::new(),
        }
    }

    /// Bring one identity online: store its registry record and the
    /// mirrored session-directory record. Rejected (`false`, nothing
    /// changed) exactly when the display name is already online.
    pub fn register_identity(
        &mut self,
        username: String,
        public_key: String,
        user_id: String,
        now: u64,
    ) -> (r: bool)
        requires
            old(self).wf(),
        ensures
            final(self).wf(),
            r == !old(self).users.has(username@),
            !r ==> *final(self) == *old(self),
            r ==> final(self).users.records() == old(self).users.records().push(
                UserDataView {
                    user_id: user_id@,
                    username: username@,
                    public_key: public_key@,
                    last_seen: now,
                },
            ),
            r ==> final(self).directory() == old(self).directory().push(
                SignalingDataView { username: username@, public_key: public_key@, last_seen: now },
            ),
            forall|n: Seq<char>| #![trigger final(self).users.has(n)]
                final(self).users.has(n) == (old(self).users.has(n) || (r && n == username@)),
            final(self).pending_messages == old(self).pending_messages,
            final(self).connection_manager == old(self).connection_manager,
    {
        let sig = SignalingData {
            username: username.clone(),
            public_key: public_key.clone(),
            last_seen: now,
        };
        let ghost rec = UserDataView {
            user_id: user_id@,
            username: username@,
            public_key: public_key@,
            last_seen: now,
        };
        let ok = self.users.register(username, public_key, user_id, now);
        if ok {
            self.signaling.push(sig);
            proof {
                assert(self.users.records() =~= old(self).users.records().push(rec));
                assert(self.directory() =~= old(self).directory().push(
                    SignalingDataView {
                        username: username@,
                        public_key: public_key@,
                        last_seen: now,
                    },
                ));
                assert forall|n: Seq<char>| #[trigger] self.connection_manager.bound(n) implies self.users.has(
                    n,
                ) by {
                    assert(old(self).users.has(n));
                }
            }
        }
        ok
    }

    /// Take one identity fully offline: unbind its delivery channel and
    /// delete its registry and session-directory records. An absent
    /// name is a complete no-op; otherwise exactly one record leaves
    /// each of the registry and the directory, every other identity's
    /// record and binding stays put, and the mailbox is untouched.
    pub fn remove_identity(&mut self, name: &String)
        requires
            old(self).wf(),
        ensures
            final(self).wf(),
            !final(self).users.has(name@),
            !final(self).connection_manager.bound(name@),
            !old(self).users.has(name@) ==> *final(self) == *old(self),
            old(self).users.has(name@) ==> exists|i: int|
                0 <= i < old(self).users.users@.len() && old(self).users.users@[i]@.username
                    == name@ && final(self).users.users@ == old(self).users.users@.remove(i)
                    && final(self).directory() == old(self).directory().remove(i),
            forall|n: Seq<char>| #![trigger final(self).users.has(n)]
                n != name@ ==> final(self).users.has(n) == old(self).users.has(n),
            forall|n: Seq<char>| #![trigger final(self).connection_manager.bound(n)]
                n != name@ ==> final(self).connection_manager.bound(n) == old(
                    self,
                ).connection_manager.bound(n),
            final(self).pending_messages == old(self).pending_messages,
    {
        proof {
            if !old(self).users.has(name@) {
                assert(!old(self).connection_manager.bound(name@));
            }
        }
        self.connection_manager.remove(name);
        let ghost mid = *self;
        let removed = self.users.remove(name);
        match removed {
            Some(i) => {
                self.signaling.remove(i);
                proof {
                    let ii = i as int;
                    assert(mid.signaling@ == old(self).signaling@);
                    mid.users.users@.remove_ensures(ii);
                    mid.signaling@.remove_ensures(ii);
                    old(self).directory().remove_ensures(ii);
                    assert(self.signaling@ == mid.signaling@.remove(ii));
                    assert forall|k: int| 0 <= k < self.directory().len() implies self.directory()[k]
                        == old(self).directory().remove(ii)[k] by {
                        if k < ii {
                            assert(self.signaling@[k] == mid.signaling@[k]);
                            assert(old(self).directory().remove(ii)[k] == old(self).directory()[k]);
                            assert(old(self).directory()[k] == old(self).signaling@[k]@);
                        } else {
                            assert(self.signaling@[k] == mid.signaling@[k + 1]);
                            assert(old(self).directory().remove(ii)[k] == old(self).directory()[k
                                + 1]);
                            assert(old(self).directory()[k + 1] == old(self).signaling@[k + 1]@);
                        }
                    }
                    assert(self.directory().len() == old(self).directory().remove(ii).len());
                    assert(self.directory() =~= old(self).directory().remove(ii));
                    assert forall|k: int| 0 <= k < self.signaling@.len() implies #[trigger] self.signaling@[k]@.username
                        == self.users.users@[k]@.username by {
                        if k < ii {
                            assert(self.signaling@[k] == mid.signaling@[k]);
                            assert(self.users.users@[k] == mid.users.users@[k]);
                        } else {
                            assert(self.signaling@[k] == mid.signaling@[k + 1]);
                            assert(self.users.users@[k] == mid.users.users@[k + 1]);
                        }
                    }
                    assert forall|n: Seq<char>| #[trigger] self.connection_manager.bound(n) implies self.users.has(
                        n,
                    ) by {
                        assert(old(self).connection_manager.bound(n));
                        assert(n != name@);
                        assert(old(self).users.has(n));
                    }
                }
            },
            None => {},
        }
    }
}

} // verus!
