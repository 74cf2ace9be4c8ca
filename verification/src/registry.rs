//! The supervisor's table of running group processes, one entry per group.

use vstd::prelude::*;
use crate::messages::EnsureGroupResponse;

verus! {

/// One registered group process. `handle` is whatever the supervisor uses to
/// reach the process itself.
pub struct GroupEntry<H> {
    pub group_id: String,
    pub port: u16,
    pub pid: Option<u32>,
    pub handle: H,
}

/// What the table records of one group.
pub ghost struct GroupSlot<H> {
    pub group_id: Seq<char>,
    pub port: u16,
    pub pid: Option<u32>,
    pub handle: H,
}

pub open spec fn slot_of<H>(e: GroupEntry<H>) -> GroupSlot<H> {
    GroupSlot { group_id: e.group_id@, port: e.port, pid: e.pid, handle: e.handle }
}

/// No group appears twice.
pub open spec fn unique_ids<H>(v: Seq<GroupSlot<H>>) -> bool {
    forall|i: int, j: int|
        0 <= i < v.len() && 0 <= j < v.len() && i != j ==> #[trigger] v[i].group_id != #[trigger] v[j].group_id
}

/// The position of the group `id`, if it is registered.
pub open spec fn position_of<H>(v: Seq<GroupSlot<H>>, id: Seq<char>) -> Option<int> {
    if exists|i: int| 0 <= i < v.len() && v[i].group_id == id {
        Some(choose|i: int| 0 <= i < v.len() && v[i].group_id == id)
    } else {
        None
    }
}

/// What the table records of the group `id`, if anything.
pub open spec fn lookup<H>(v: Seq<GroupSlot<H>>, id: Seq<char>) -> Option<GroupSlot<H>> {
    match position_of(v, id) {
        Some(i) => Some(v[i]),
        None => None,
    }
}

/// The entries whose flag in `alive` is set, in their order.
pub open spec fn keep_alive<T>(s: Seq<T>, alive: Seq<bool>) -> Seq<T>
    recommends
        s.len() == alive.len(),
    decreases s.len(),
{
    if s.len() == 0 || alive.len() == 0 {
        Seq::empty()
    } else if alive.last() {
        keep_alive(s.drop_last(), alive.drop_last()).push(s.last())
    } else {
        keep_alive(s.drop_last(), alive.drop_last())
    }
}

/// The table after registering `s`: it replaces the entry of its group, or is
/// added after the others.
pub open spec fn after_insert<H>(v: Seq<GroupSlot<H>>, s: GroupSlot<H>) -> Seq<GroupSlot<H>> {
    match position_of(v, s.group_id) {
        Some(i) => v.update(i, s),
        None => v.push(s),
    }
}

/// The table after taking the group `id` out.
pub open spec fn after_remove<H>(v: Seq<GroupSlot<H>>, id: Seq<char>) -> Seq<GroupSlot<H>> {
    match position_of(v, id) {
        Some(i) => v.remove(i),
        None => v,
    }
}

/// The answer that describes a registered group.
pub open spec fn describes<H>(r: EnsureGroupResponse, s: GroupSlot<H>) -> bool {
    r.group_id@ == s.group_id && r.port == s.port && r.pid == s.pid
}

pub struct GroupRegistry<H> {
    entries: Vec<GroupEntry<H>>,
}

impl<H> View for GroupRegistry<H> {
    type V = Seq<GroupSlot<H>>;

    closed spec fn view(&self) -> Seq<GroupSlot<H>> {
        self.entries@.map_values(|e: GroupEntry<H>| slot_of(e))
    }
}

/// In a table without repeated groups, each registered group sits at exactly one
/// position.
pub proof fn lemma_position_unique<H>(v: Seq<GroupSlot<H>>, i: int)
    requires
        unique_ids(v),
        0 <= i < v.len(),
    ensures
        position_of(v, v[i].group_id) == Some(i),
        lookup(v, v[i].group_id) == Some(v[i]),
{
    let id = v[i].group_id;
    assert(exists|k: int| 0 <= k < v.len() && v[k].group_id == id);
    let k = choose|k: int| 0 <= k < v.len() && v[k].group_id == id;
    assert(k == i);
}

/// A group that sits at no position is not registered.
pub proof fn lemma_position_absent<H>(v: Seq<GroupSlot<H>>, id: Seq<char>)
    requires
        forall|i: int| 0 <= i < v.len() ==> v[i].group_id != id,
    ensures
        position_of(v, id) is None,
        lookup(v, id) is None,
{
}

proof fn lemma_keep_alive_subset<T>(s: Seq<T>, alive: Seq<bool>)
    requires
        s.len() == alive.len(),
    ensures
        keep_alive(s, alive).len() <= s.len(),
        forall|j: int|
            0 <= j < keep_alive(s, alive).len() ==> exists|i: int|
                0 <= i < s.len() && alive[i] && #[trigger] keep_alive(s, alive)[j] == s[i],
    decreases s.len(),
{
    if s.len() > 0 {
        lemma_keep_alive_subset(s.drop_last(), alive.drop_last());
        let k = keep_alive(s, alive);
        let k0 = keep_alive(s.drop_last(), alive.drop_last());
        assert forall|j: int| 0 <= j < k.len() implies exists|i: int|
            0 <= i < s.len() && alive[i] && #[trigger] k[j] == s[i] by {
            if j < k0.len() {
                let i = choose|i: int|
                    0 <= i < s.drop_last().len() && alive.drop_last()[i] && k0[j] == s.drop_last()[i];
                assert(k[j] == s[i]);
            } else {
                assert(k[j] == s[s.len() - 1]);
            }
        }
    }
}

/// Keeping the live entries of a table without repeated groups gives a table
/// without repeated groups, holding exactly the live groups.
pub proof fn lemma_keep_alive_lookup<H>(v: Seq<GroupSlot<H>>, alive: Seq<bool>)
    requires
        unique_ids(v),
        v.len() == alive.len(),
    ensures
        unique_ids(keep_alive(v, alive)),
        forall|i: int|
            0 <= i < v.len() ==> #[trigger] lookup(keep_alive(v, alive), v[i].group_id) == (if alive[i] {
                Some(v[i])
            } else {
                None::<GroupSlot<H>>
            }),
        forall|id: Seq<char>| lookup(v, id) is None ==> #[trigger] lookup(keep_alive(v, alive), id) is None,
    decreases v.len(),
{
    if v.len() > 0 {
        let v0 = v.drop_last();
        let a0 = alive.drop_last();
        assert(unique_ids(v0));
        lemma_keep_alive_lookup(v0, a0);
        lemma_keep_alive_subset(v0, a0);
        let k0 = keep_alive(v0, a0);
        let k = keep_alive(v, alive);
        let last = v.last();
        assert forall|j: int| 0 <= j < k0.len() implies (#[trigger] k0[j]).group_id != last.group_id by {
            let i = choose|i: int| 0 <= i < v0.len() && a0[i] && k0[j] == v0[i];
            assert(v[i] == v0[i]);
        }
        if alive.last() {
            assert(unique_ids(k));
        }
        assert forall|i: int| 0 <= i < v.len() implies #[trigger] lookup(k, v[i].group_id) == (if alive[i] {
            Some(v[i])
        } else {
            None::<GroupSlot<H>>
        }) by {
            if i < v.len() - 1 {
                assert(v0[i] == v[i]);
                assert(a0[i] == alive[i]);
                assert(lookup(k0, v0[i].group_id) == (if a0[i] { Some(v0[i]) } else { None::<GroupSlot<H>> }));
                if alive.last() {
                    if alive[i] {
                        lemma_position_unique(k0, position_of(k0, v[i].group_id)->0);
                        let p = position_of(k0, v[i].group_id)->0;
                        assert(k[p] == k0[p]);
                        lemma_position_unique(k, p);
                    } else {
                        assert forall|q: int| 0 <= q < k.len() implies k[q].group_id != v[i].group_id by {
                            if q < k0.len() {
                                assert(k[q] == k0[q]);
                                if k0[q].group_id == v[i].group_id {
                                    assert(position_of(k0, v[i].group_id) is Some);
                                }
                            } else {
                                assert(k[q] == last);
                            }
                        }
                        lemma_position_absent(k, v[i].group_id);
                    }
                } else {
                }
            } else {
                if alive[i] {
                    assert(k[k.len() - 1] == v[i]);
                    lemma_position_unique(k, k.len() - 1);
                } else {
                    assert forall|q: int| 0 <= q < k.len() implies k[q].group_id != v[i].group_id by {
                        assert(k[q].group_id != last.group_id);
                    }
                    lemma_position_absent(k, v[i].group_id);
                }
            }
        }
        assert forall|id: Seq<char>| lookup(v, id) is None implies #[trigger] lookup(k, id) is None by {
            assert forall|q: int| 0 <= q < k.len() implies k[q].group_id != id by {
                lemma_keep_alive_subset(v, alive);
                let i = choose|i: int| 0 <= i < v.len() && alive[i] && k[q] == v[i];
                if k[q].group_id == id {
                    assert(exists|i: int| 0 <= i < v.len() && v[i].group_id == id);
                }
            }
            lemma_position_absent(k, id);
        }
    }
}

/// Registering a group makes it found with exactly what was registered, leaves
/// every other group as it was, and keeps groups unrepeated.
pub proof fn law_insert_then_lookup<H>(v: Seq<GroupSlot<H>>, s: GroupSlot<H>, other: Seq<char>)
    requires
        unique_ids(v),
        other != s.group_id,
    ensures
        unique_ids(after_insert(v, s)),
        lookup(after_insert(v, s), s.group_id) == Some(s),
        lookup(after_insert(v, s), other) == lookup(v, other),
{
    let w = after_insert(v, s);
    match position_of(v, s.group_id) {
        Some(i) => {
            lemma_position_unique(v, i);
            assert forall|a: int, b: int|
                0 <= a < w.len() && 0 <= b < w.len() && a != b implies #[trigger] w[a].group_id
                != #[trigger] w[b].group_id by {
            }
            lemma_position_unique(w, i);
        },
        None => {
            assert forall|a: int, b: int|
                0 <= a < w.len() && 0 <= b < w.len() && a != b implies #[trigger] w[a].group_id
                != #[trigger] w[b].group_id by {
                if a == v.len() as int {
                    assert(v[b].group_id != s.group_id);
                } else if b == v.len() as int {
                    assert(v[a].group_id != s.group_id);
                }
            }
            lemma_position_unique(w, v.len() as int);
        },
    }
    match position_of(v, other) {
        Some(j) => {
            lemma_position_unique(v, j);
            assert(w[j] == v[j]);
            lemma_position_unique(w, j);
        },
        None => {
            assert forall|q: int| 0 <= q < w.len() implies w[q].group_id != other by {
                if q < v.len() && w[q] == v[q] && v[q].group_id == other {
                    assert(exists|k: int| 0 <= k < v.len() && v[k].group_id == other);
                }
            }
            lemma_position_absent(w, other);
        },
    }
}

/// Taking a group out makes it unknown, leaves every other group as it was, and
/// keeps groups unrepeated.
pub proof fn law_remove_then_lookup<H>(v: Seq<GroupSlot<H>>, id: Seq<char>, other: Seq<char>)
    requires
        unique_ids(v),
        other != id,
    ensures
        unique_ids(after_remove(v, id)),
        lookup(after_remove(v, id), id) is None,
        lookup(after_remove(v, id), other) == lookup(v, other),
{
    let w = after_remove(v, id);
    match position_of(v, id) {
        Some(i) => {
            lemma_position_unique(v, i);
            assert forall|a: int, b: int|
                0 <= a < w.len() && 0 <= b < w.len() && a != b implies #[trigger] w[a].group_id
                != #[trigger] w[b].group_id by {
                let a0 = if a < i { a } else { a + 1 };
                let b0 = if b < i { b } else { b + 1 };
                assert(w[a] == v[a0]);
                assert(w[b] == v[b0]);
            }
            assert forall|q: int| 0 <= q < w.len() implies w[q].group_id != id by {
                let q0 = if q < i { q } else { q + 1 };
                assert(w[q] == v[q0]);
            }
            lemma_position_absent(w, id);
            match position_of(v, other) {
                Some(j) => {
                    lemma_position_unique(v, j);
                    let j1 = if j < i { j } else { j - 1 };
                    assert(w[j1] == v[j]);
                    lemma_position_unique(w, j1);
                },
                None => {
                    assert forall|q: int| 0 <= q < w.len() implies w[q].group_id != other by {
                        let q0 = if q < i { q } else { q + 1 };
                        assert(w[q] == v[q0]);
                    }
                    lemma_position_absent(w, other);
                },
            }
        },
        None => {
            lemma_position_absent(v, id);
        },
    }
}

impl<H> GroupRegistry<H> {
    /// An empty table.
    pub fn new() -> (r: Self)
        ensures
            r@ == Seq::<GroupSlot<H>>::empty(),
    {
        let r = GroupRegistry { entries: Vec::new() };
        assert(r@ =~= Seq::<GroupSlot<H>>::empty());
        r
    }

    /// The number of registered groups.
    pub fn len(&self) -> (n: usize)
        ensures
            n == self@.len(),
    {
        self.entries.len()
    }

    /// Where the group `id` is registered, if it is.
    pub fn find(&self, id: &str) -> (r: Option<usize>)
        requires
            unique_ids(self@),
        ensures
            match r {
                Some(i) => i < self@.len() && position_of(self@, id@) == Some(i as int),
                None => position_of(self@, id@) is None,
            },
    {
        let key = String::from_str(id);
        let n = self.entries.len();
        let mut i: usize = 0;
        while i < n
            invariant
                n == self.entries@.len(),
                n == self@.len(),
                i <= n,
                key@ == id@,
                unique_ids(self@),
                forall|j: int| 0 <= j < i ==> (#[trigger] self@[j]).group_id != id@,
            decreases n - i,
        {
            assert(self@[i as int] == slot_of(self.entries@[i as int]));
            if self.entries[i].group_id == key {
                proof {
                    lemma_position_unique(self@, i as int);
                }
                return Some(i);
            }
            i = i + 1;
        }
        proof {
            lemma_position_absent(self@, id@);
        }
        None
    }

    /// The handle of the group at `index`.
    pub fn handle(&self, index: usize) -> (h: &H)
        requires
            index < self@.len(),
        ensures
            *h == self@[index as int].handle,
    {
        &self.entries[index].handle
    }

    /// The answer describing the group at `index`.
    pub fn describe(&self, index: usize) -> (r: EnsureGroupResponse)
        requires
            index < self@.len(),
        ensures
            describes(r, self@[index as int]),
    {
        let e = &self.entries[index];
        EnsureGroupResponse { group_id: e.group_id.clone(), port: e.port, pid: e.pid }
    }

    /// Takes the group `id` out of the table, handing back its entry.
    pub fn remove(&mut self, id: &str) -> (r: Option<GroupEntry<H>>)
        requires
            unique_ids(old(self)@),
        ensures
            unique_ids(final(self)@),
            final(self)@ == after_remove(old(self)@, id@),
            match position_of(old(self)@, id@) {
                Some(i) => r is Some && slot_of(r->0) == old(self)@[i],
                None => r is None,
            },
    {
        match self.find(id) {
            Some(i) => {
                let e = self.entries.remove(i);
                assert(self@ =~= old(self)@.remove(i as int));
                assert(unique_ids(self@)) by {
                    assert forall|a: int, b: int|
                        0 <= a < self@.len() && 0 <= b < self@.len() && a != b implies #[trigger] self@[a].group_id
                        != #[trigger] self@[b].group_id by {
                        let a0 = if a < i { a } else { a + 1 };
                        let b0 = if b < i { b } else { b + 1 };
                        assert(self@[a] == old(self)@[a0]);
                        assert(self@[b] == old(self)@[b0]);
                    }
                }
                Some(e)
            },
            None => None,
        }
    }

    /// Registers a group: its entry replaces the one the group had, or is added
    /// after the others.
    pub fn insert(&mut self, group_id: String, port: u16, pid: Option<u32>, handle: H)
        requires
            unique_ids(old(self)@),
        ensures
            unique_ids(final(self)@),
            final(self)@ == after_insert(old(self)@, GroupSlot { group_id: group_id@, port, pid, handle }),
    {
        let ghost s = GroupSlot { group_id: group_id@, port, pid, handle };
        match self.find(group_id.as_str()) {
            Some(i) => {
                let ghost before = self@;
                self.entries.set(i, GroupEntry { group_id, port, pid, handle });
                assert(self@ =~= before.update(i as int, s));
                assert(unique_ids(self@)) by {
                    assert forall|a: int, b: int|
                        0 <= a < self@.len() && 0 <= b < self@.len() && a != b implies #[trigger] self@[a].group_id
                        != #[trigger] self@[b].group_id by {
                        assert(before[i as int].group_id == s.group_id);
                    }
                }
            },
            None => {
                let ghost before = self@;
                self.entries.push(GroupEntry { group_id, port, pid, handle });
                assert(self@ =~= before.push(s));
                assert(unique_ids(self@)) by {
                    assert forall|a: int, b: int|
                        0 <= a < self@.len() && 0 <= b < self@.len() && a != b implies #[trigger] self@[a].group_id
                        != #[trigger] self@[b].group_id by {
                        if a < before.len() && b < before.len() {
                        } else if a < before.len() {
                            assert(before[a].group_id != s.group_id);
                        } else {
                            assert(before[b].group_id != s.group_id);
                        }
                    }
                }
            },
        }
    }

    /// Drops every group whose flag in `alive` is unset (flags follow the table's
    /// order) and describes the remaining ones, in order.
    pub fn sweep(&mut self, alive: &Vec<bool>) -> (listed: Vec<EnsureGroupResponse>)
        requires
            unique_ids(old(self)@),
            alive@.len() == old(self)@.len(),
        ensures
            unique_ids(final(self)@),
            final(self)@ == keep_alive(old(self)@, alive@),
            listed@.len() == final(self)@.len(),
            forall|j: int| 0 <= j < listed@.len() ==> describes(#[trigger] listed@[j], final(self)@[j]),
    {
        let ghost orig = self@;
        let mut rest: Vec<GroupEntry<H>> = Vec::new();
        std::mem::swap(&mut rest, &mut self.entries);
        let ghost orig_entries = rest@;
        assert(orig =~= orig_entries.map_values(|e: GroupEntry<H>| slot_of(e)));
        let n = rest.len();
        let mut kept: Vec<GroupEntry<H>> = Vec::new();
        let mut listed: Vec<EnsureGroupResponse> = Vec::new();
        let mut i: usize = 0;
        while i < n
            invariant
                n == orig.len(),
                n == alive@.len(),
                i <= n,
                orig =~= orig_entries.map_values(|e: GroupEntry<H>| slot_of(e)),
                rest@ =~= orig_entries.subrange(i as int, n as int),
                kept@.map_values(|e: GroupEntry<H>| slot_of(e)) =~= keep_alive(orig.take(i as int), alive@.take(i as int)),
                listed@.len() == kept@.len(),
                forall|j: int| 0 <= j < listed@.len() ==> describes(#[trigger] listed@[j], slot_of(kept@[j])),
            decreases n - i,
        {
            let e = rest.remove(0);
            assert(e == orig_entries[i as int]);
            assert(orig.take(i + 1).drop_last() =~= orig.take(i as int));
            assert(alive@.take(i + 1).drop_last() =~= alive@.take(i as int));
            assert(orig.take(i + 1).last() == slot_of(e));
            if alive[i] {
                listed.push(EnsureGroupResponse { group_id: e.group_id.clone(), port: e.port, pid: e.pid });
                kept.push(e);
            }
            i = i + 1;
        }
        assert(orig.take(n as int) =~= orig);
        assert(alive@.take(n as int) =~= alive@);
        self.entries = kept;
        proof {
            lemma_keep_alive_lookup(orig, alive@);
        }
        listed
    }
}

} // verus!
