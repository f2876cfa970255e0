//! Identity registry: the set of currently online identities, keyed by
//! display name, with the uniqueness invariant over names.

use vstd::prelude::*;

use crate::models::{UserData, UserDataView};

verus! {

/// Directory of the identities that are online right now.
///
/// Well-formedness (`wf`) says that no two stored records share a
/// display name; every operation preserves it.
pub struct Registry {
    pub users: Vec<UserData>,
}

impl Registry {
    /// The stored records, as mathematical values, in insertion order.
    pub open spec fn records(self) -> Seq<UserDataView> {
        self.users@.map_values(|u: UserData| u@)
    }

    /// The display names currently online, in insertion order.
    pub open spec fn names(self) -> Seq<Seq<char>> {
        self.records().map_values(|r: UserDataView| r.username)
    }

    /// Whether some record carries the display name `name`.
    pub open spec fn has(self, name: Seq<char>) -> bool {
        exists|i: int| 0 <= i < self.users@.len() && self.users@[i]@.username == name
    }

    /// Uniqueness invariant: no two records share a display name.
    pub open spec fn wf(self) -> bool {
        forall|i: int, j: int|
            0 <= i < j < self.users@.len() ==> self.users@[i]@.username != self.users@[j]@.username
    }

    /// An empty registry: nobody is online.
    pub fn new() -> (r: Registry)
        ensures
            r.users@.len() == 0,
            r.wf(),
            forall|n: Seq<char>| !r.has(n),
    {
        Registry { users: Vec::new() }
    }

    /// Whether `name` is currently registered.
    pub fn contains_name(&self, name: &String) -> (r: bool)
        ensures
            r == self.has(name@),
    {
        let mut i: usize = 0;
        while i < self.users.len()
            invariant
                i <= self.users@.len(),
                forall|k: int| 0 <= k < i ==> self.users@[k]@.username != name@,
            decreases self.users@.len() - i,
        {
            if self.users[i].username == *name {
                return true;
            }
            i = i + 1;
        }
        false
    }

    /// Insert a fresh record, unless the display name is already taken.
    /// Returns `true` exactly when the record was inserted; a name
    /// collision leaves the registry untouched.
    pub fn register(&mut self, username: String, public_key: String, user_id: String, now: u64) -> (r: bool)
        requires
            old(self).wf(),
        ensures
            final(self).wf(),
            r == !old(self).has(username@),
            r ==> final(self).users@ =~= old(self).users@.push(
                UserData { user_id, username, public_key, last_seen: now },
            ),
            !r ==> *final(self) == *old(self),
            final(self).has(username@),
            forall|n: Seq<char>| #![trigger final(self).has(n)]
                final(self).has(n) == (old(self).has(n) || (r && n == username@)),
    {
        if self.contains_name(&username) {
            return false;
        }
        let record = UserData { user_id, username, public_key, last_seen: now };
        self.users.push(record);
        proof {
            let ii = self.users@.len() - 1;
            assert(self.users@[ii]@.username == old(self).users@.push(
                UserData { user_id, username, public_key, last_seen: now },
            )[ii]@.username);
            assert forall|n: Seq<char>| true implies #[trigger] self.has(n) == (old(self).has(n)
                || n == username@) by {
                if self.has(n) {
                    let k = choose|k: int| 0 <= k < self.users@.len() && self.users@[k]@.username == n;
                    if k < ii {
                        assert(old(self).users@[k]@.username == n);
                    }
                }
                if old(self).has(n) {
                    let k = choose|k: int|
                        0 <= k < old(self).users@.len() && old(self).users@[k]@.username == n;
                    assert(self.users@[k]@.username == n);
                }
            }
        }
        true
    }

    /// Look a record up by display name. Returns the stored record
    /// exactly when the name is online.
    pub fn lookup(&self, name: &String) -> (r: Option<&UserData>)
        ensures
            match r {
                Some(u) => self.has(name@) && u@.username == name@ && exists|i: int|
                    0 <= i < self.users@.len() && self.users@[i] == *u,
                None => !self.has(name@),
            },
    {
        let mut i: usize = 0;
        while i < self.users.len()
            invariant
                i <= self.users@.len(),
                forall|k: int| 0 <= k < i ==> self.users@[k]@.username != name@,
            decreases self.users@.len() - i,
        {
            if self.users[i].username == *name {
                return Some(&self.users[i]);
            }
            i = i + 1;
        }
        None
    }

    /// Remove the record named `name`, if any; removing an absent name
    /// is a no-op. Returns the index the record stood at, and every
    /// other record stays exactly where it was.
    pub fn remove(&mut self, name: &String) -> (r: Option<usize>)
        requires
            old(self).wf(),
        ensures
            final(self).wf(),
            !final(self).has(name@),
            match r {
                Some(i) => 0 <= i < old(self).users@.len() && old(self).users@[i as int]@.username
                    == name@ && final(self).users@ == old(self).users@.remove(i as int) && old(
                    self,
                ).has(name@),
                None => !old(self).has(name@) && *final(self) == *old(self),
            },
            forall|n: Seq<char>| #![trigger final(self).has(n)]
                n != name@ ==> final(self).has(n) == old(self).has(n),
    {
        let ghost pre = *self;
        let mut i: usize = 0;
        while i < self.users.len()
            invariant
                *self == pre,
                pre == *old(self),
                pre.wf(),
                i <= self.users@.len(),
                forall|k: int| 0 <= k < i ==> self.users@[k]@.username != name@,
            decreases self.users@.len() - i,
        {
            if self.users[i].username == *name {
                self.users.remove(i);
                proof {
                    let s = pre.users@;
                    let ii = i as int;
                    s.remove_ensures(ii);
                    assert(self.users@ == s.remove(ii));
                    assert forall|k: int| 0 <= k < self.users@.len() implies self.users@[k]@.username
                        != name@ by {
                        if k < ii {
                            assert(self.users@[k] == s[k]);
                        } else {
                            assert(self.users@[k] == s[k + 1]);
                        }
                    }
                    assert forall|a: int, b: int| 0 <= a < b < self.users@.len() implies self.users@[a]@.username
                        != self.users@[b]@.username by {
                        let pa: int = if a < ii { a } else { a + 1 };
                        let pb: int = if b < ii { b } else { b + 1 };
                        assert(self.users@[a] == s[pa]);
                        assert(self.users@[b] == s[pb]);
                    }
                    assert forall|n: Seq<char>| n != name@ implies #[trigger] self.has(n)
                        == pre.has(n) by {
                        lemma_remove_keeps_name(pre.users@, ii, n);
                    }
                }
                return Some(i);
            }
            i = i + 1;
        }
        None
    }

    /// The current presence snapshot: every online display name, in
    /// storage order.
    pub fn list_names(&self) -> (r: Vec<String>)
        ensures
            r@.len() == self.users@.len(),
            forall|i: int| 0 <= i < r@.len() ==> r@[i]@ == self.users@[i]@.username,
    {
        let mut out: Vec<String> = Vec::new();
        let mut i: usize = 0;
        while i < self.users.len()
            invariant
                i <= self.users@.len(),
                out@.len() == i,
                forall|k: int| 0 <= k < i ==> out@[k]@ == self.users@[k]@.username,
            decreases self.users@.len() - i,
        {
            out.push(self.users[i].username.clone());
            i = i + 1;
        }
        out
    }
}

/// Deleting index `i` from a record sequence neither adds nor removes a
/// display name different from the one stored at `i`.
proof fn lemma_remove_keeps_name(s: Seq<UserData>, i: int, n: Seq<char>)
    requires
        0 <= i < s.len(),
        s[i]@.username != n,
    ensures
        (exists|k: int| 0 <= k < s.remove(i).len() && s.remove(i)[k]@.username == n)
            == (exists|k: int| 0 <= k < s.len() && s[k]@.username == n),
{
    s.remove_ensures(i);
    if exists|k: int| 0 <= k < s.remove(i).len() && s.remove(i)[k]@.username == n {
        let k = choose|k: int| 0 <= k < s.remove(i).len() && s.remove(i)[k]@.username == n;
        if k < i {
            assert(s[k]@.username == n);
        } else {
            assert(s[k + 1]@.username == n);
        }
    }
    if exists|k: int| 0 <= k < s.len() && s[k]@.username == n {
        let k = choose|k: int| 0 <= k < s.len() && s[k]@.username == n;
        if k < i {
            assert(s.remove(i)[k]@.username == n);
        } else {
            assert(k > i);
            assert(s.remove(i)[k - 1]@.username == n);
        }
    }
}

} // verus!
