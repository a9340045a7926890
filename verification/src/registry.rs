//! The connection registry: the authoritative map from kernel flow identity
//! to userspace connection state.
//!
//! At most one [`Connection`] exists per identity at any time. Inserting an
//! already-present identity overwrites it (kernel identities are
//! address-based and are legitimately reused once freed); lookups and
//! removals of absent identities report "not found" rather than an error.
//! The registry also keeps the identities in insertion order, so that the
//! set of live flows can be listed deterministically.
//!
//! The registry itself is a sequential structure; the surrounding process
//! shares one instance across its consumer threads behind a single
//! reader/writer lock and holds it only for the bounded, in-memory update
//! each operation performs.

use vstd::prelude::*;
use std::collections::HashMap;
use crate::connection::Connection;

verus! {

broadcast use vstd::std_specs::hash::group_hash_axioms;

/// Index of the first occurrence of `id` in `ids`.
fn find_first(ids: &Vec<u64>, id: u64) -> (r: usize)
    requires
        ids@.contains(id),
    ensures
        r < ids@.len(),
        ids@[r as int] == id,
        forall|j: int| 0 <= j < r ==> ids@[j] != id,
{
    let n = ids.len();
    let mut i: usize = 0;
    loop
        invariant
            n == ids@.len(),
            ids@.contains(id),
            i <= n,
            forall|j: int| 0 <= j < i ==> ids@[j] != id,
        decreases n - i,
    {
        proof {
            if i >= ids@.len() {
                let w = choose|w: int| 0 <= w < ids@.len() && ids@[w] == id;
                assert(ids@[w] != id);
            }
        }
        if ids[i] == id {
            return i;
        }
        i = i + 1;
    }
}

/// Map from flow identity to connection state, with the identities also
/// kept in insertion order. Viewed as a `Map<u64, Connection>`.
pub struct Registry {
    table: HashMap<u64, Connection>,
    ids: Vec<u64>,
}

impl View for Registry {
    type V = Map<u64, Connection>;

    closed spec fn view(&self) -> Map<u64, Connection> {
        self.table@
    }
}

impl Registry {
    /// The registry's internal consistency: the ordered identity list holds
    /// exactly the registered identities, each once.
    pub closed spec fn wf(&self) -> bool {
        &&& self.ids@.no_duplicates()
        &&& forall|k: u64| #![auto] self.ids@.contains(k) <==> self.table@.dom().contains(k)
    }

    /// The identities in insertion order.
    pub closed spec fn spec_ids(&self) -> Seq<u64> {
        self.ids@
    }

    /// An empty registry.
    pub fn new() -> (r: Registry)
        ensures
            r.wf(),
            r@ == Map::<u64, Connection>::empty(),
            r.spec_ids() == Seq::<u64>::empty(),
    {
        Registry { table: HashMap::new(), ids: Vec::new() }
    }

    /// Number of registered connections.
    pub fn len(&self) -> (n: usize)
        requires
            self.wf(),
        ensures
            n == self@.dom().len(),
            n == self.spec_ids().len(),
    {
        proof {
            self.ids@.unique_seq_to_set();
            assert(self.ids@.to_set() =~= self.table@.dom());
        }
        self.ids.len()
    }

    /// Whether `id` is registered.
    pub fn contains(&self, id: u64) -> (b: bool)
        ensures
            b <==> self@.dom().contains(id),
    {
        self.table.contains_key(&id)
    }

    /// Read-only lookup; `None` exactly when `id` is not registered.
    pub fn get(&self, id: u64) -> (r: Option<&Connection>)
        ensures
            match r {
                Some(c) => self@.dom().contains(id) && *c == self@[id],
                None => !self@.dom().contains(id),
            },
    {
        self.table.get(&id)
    }

    /// Registers `conn` under `id`, overwriting any previous entry for the
    /// same identity.
    pub fn insert(&mut self, id: u64, conn: Connection)
        requires
            old(self).wf(),
        ensures
            final(self).wf(),
            final(self)@ == old(self)@.insert(id, conn),
            final(self).spec_ids() == if old(self)@.dom().contains(id) {
                old(self).spec_ids()
            } else {
                old(self).spec_ids().push(id)
            },
    {
        let had = self.table.insert(id, conn);
        if had.is_none() {
            self.ids.push(id);
            proof {
                assert forall|k: u64| #![auto]
                    self.ids@.contains(k) <==> self.table@.dom().contains(k) by {
                    assert(self.ids@ == old(self).ids@.push(id));
                    if self.ids@.contains(k) {
                        let i = choose|i: int| 0 <= i < self.ids@.len() && self.ids@[i] == k;
                        if i < old(self).ids@.len() {
                            assert(old(self).ids@.contains(k));
                        }
                    }
                    if self.table@.dom().contains(k) {
                        if k == id {
                            assert(self.ids@[self.ids@.len() - 1] == k);
                        } else {
                            assert(old(self).table@.dom().contains(k));
                            let i = choose|i: int|
                                0 <= i < old(self).ids@.len() && old(self).ids@[i] == k;
                            assert(self.ids@[i] == k);
                        }
                    }
                }
                assert forall|i: int, j: int|
                    0 <= i < self.ids@.len() && 0 <= j < self.ids@.len() && i != j
                        implies self.ids@[i] != self.ids@[j] by {
                    if i == self.ids@.len() - 1 || j == self.ids@.len() - 1 {
                        assert(!old(self).ids@.contains(id));
                    }
                }
            }
        } else {
            proof {
                assert(old(self).table@.dom().contains(id));
                assert(self.table@.dom() =~= old(self).table@.dom());
            }
        }
    }

    /// Unregisters `id`, returning its state; `None` exactly when `id` was
    /// not registered, in which case nothing changes.
    pub fn remove(&mut self, id: u64) -> (r: Option<Connection>)
        requires
            old(self).wf(),
        ensures
            final(self).wf(),
            final(self)@ == old(self)@.remove(id),
            r == if old(self)@.dom().contains(id) {
                Some(old(self)@[id])
            } else {
                None::<Connection>
            },
            final(self).spec_ids() == old(self).spec_ids().remove_value(id),
    {
        let removed = self.table.remove(&id);
        if removed.is_some() {
            proof {
                assert(old(self).ids@.contains(id));
                old(self).ids@.index_of_first_ensures(id);
            }
            let target = find_first(&self.ids, id);
            self.ids.remove(target);
            proof {
                let pre = old(self).ids@;
                assert(pre.index_of_first(id) == Some(target as int)) by {
                    let s = pre.index_of_first(id).unwrap();
                    if s < target as int {
                        assert(pre[s] != id);
                    }
                    if s > target as int {
                        assert(pre[target as int] != id);
                    }
                }
                pre.remove_ensures(target as int);
                assert(self.ids@ == pre.remove(target as int));
                assert forall|i2: int, j2: int|
                    0 <= i2 < self.ids@.len() && 0 <= j2 < self.ids@.len() && i2 != j2
                        implies self.ids@[i2] != self.ids@[j2] by {
                    let pi = if i2 < target { i2 } else { i2 + 1 };
                    let pj = if j2 < target { j2 } else { j2 + 1 };
                    assert(self.ids@[i2] == pre[pi]);
                    assert(self.ids@[j2] == pre[pj]);
                }
                assert forall|k: u64| #![auto]
                    self.ids@.contains(k) <==> self.table@.dom().contains(k) by {
                    if self.ids@.contains(k) {
                        let i2 = choose|i2: int|
                            0 <= i2 < self.ids@.len() && self.ids@[i2] == k;
                        let pi = if i2 < target { i2 } else { i2 + 1 };
                        assert(pre[pi] == k);
                        assert(k != id);
                        assert(pre.contains(k));
                    }
                    if self.table@.dom().contains(k) {
                        assert(k != id);
                        assert(old(self).table@.dom().contains(k));
                        assert(pre.contains(k));
                        let pi = choose|pi: int| 0 <= pi < pre.len() && pre[pi] == k;
                        assert(pre[pi] == k && pi != target as int);
                        let i2 = if pi < target as int { pi } else { pi - 1 };
                        assert(pre.remove(target as int)[i2] == k);
                        assert(self.ids@[i2] == k);
                    }
                }
            }
        } else {
            proof {
                assert(self.table@ =~= old(self)@.remove(id));
                assert(!old(self).ids@.contains(id));
                old(self).ids@.index_of_first_ensures(id);
            }
        }
        removed
    }

    /// The registered identities, in insertion order and without
    /// duplicates: exactly the keys of the registry.
    pub fn all_identities(&self) -> (r: Vec<u64>)
        requires
            self.wf(),
        ensures
            r@ == self.spec_ids(),
            r@.no_duplicates(),
            forall|k: u64| #![auto] r@.contains(k) <==> self@.dom().contains(k),
            r@.len() == self@.dom().len(),
    {
        proof {
            self.ids@.unique_seq_to_set();
            assert(self.ids@.to_set() =~= self.table@.dom());
        }
        let mut out: Vec<u64> = Vec::new();
        let mut i: usize = 0;
        while i < self.ids.len()
            invariant
                0 <= i <= self.ids@.len(),
                out@ == self.ids@.subrange(0, i as int),
            decreases self.ids@.len() - i,
        {
            out.push(self.ids[i]);
            i = i + 1;
        }
        proof {
            assert(out@ =~= self.ids@);
        }
        out
    }
}

} // verus!
