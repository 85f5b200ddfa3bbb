//! The tenant registry: mappings from tenant identifier to its control object
//! and to its assigned port.
//!
//! Two independent tables back the gateway. The worker table owns each
//! tenant's `ScriptWorkerThread` exclusively; the port table is the separate,
//! more coarsely lockable structure that the reverse proxy's hot path reads,
//! so that routing never contends with slow worker lifecycle mutations. The
//! surrounding application wraps each in its own lock, held only for the
//! structural change, never across a slow operation.

use vstd::prelude::*;

use crate::worker_util::ScriptWorkerId;
use crate::worker_util::ScriptWorkerThread;
use crate::worker_util::WorkerPort;

verus! {

/// Lookup in an association list keyed by tenant identifier: the value of the
/// first entry whose key is `k`, if any.
pub open spec fn assoc_get<V>(s: Seq<(ScriptWorkerId, V)>, k: Seq<char>) -> Option<V>
    decreases s.len(),
{
    if s.len() == 0 {
        None
    } else if s[0].0@ == k {
        Some(s[0].1)
    } else {
        assoc_get(s.drop_first(), k)
    }
}

/// When every key of `s` differs from `k`, the lookup misses.
proof fn lemma_assoc_get_absent<V>(s: Seq<(ScriptWorkerId, V)>, k: Seq<char>)
    requires
        forall|i: int| 0 <= i < s.len() ==> (#[trigger] s[i]).0@ != k,
    ensures
        assoc_get(s, k) is None,
    decreases s.len(),
{
    if s.len() > 0 {
        lemma_assoc_get_absent(s.drop_first(), k);
    }
}

/// With pairwise-distinct keys, the lookup of the key at position `i` yields
/// the value at position `i`.
proof fn lemma_assoc_get_present<V>(s: Seq<(ScriptWorkerId, V)>, k: Seq<char>, i: int)
    requires
        forall|x: int, y: int| 0 <= x < y < s.len() ==> (#[trigger] s[x]).0@ != (#[trigger] s[y]).0@,
        0 <= i < s.len(),
        s[i].0@ == k,
    ensures
        assoc_get(s, k) == Some(s[i].1),
    decreases s.len(),
{
    if i > 0 {
        lemma_assoc_get_present(s.drop_first(), k, i - 1);
    }
}

/// Appending an entry does not change the lookup of any other key.
proof fn lemma_assoc_get_push<V>(s: Seq<(ScriptWorkerId, V)>, e: (ScriptWorkerId, V), k: Seq<char>)
    requires
        k != e.0@,
    ensures
        assoc_get(s.push(e), k) == assoc_get(s, k),
    decreases s.len(),
{
    if s.len() == 0 {
        assert(s.push(e)[0] == e);
        assert(s.push(e).drop_first() =~= Seq::<(ScriptWorkerId, V)>::empty());
        assert(assoc_get(Seq::<(ScriptWorkerId, V)>::empty(), k) is None);
    } else {
        assert(s.push(e)[0] == s[0]);
        assert(s.push(e).drop_first() =~= s.drop_first().push(e));
        lemma_assoc_get_push(s.drop_first(), e, k);
    }
}

/// Replacing the value at position `i`, its key kept, does not change the
/// lookup of any other key.
proof fn lemma_assoc_get_update<V>(
    s: Seq<(ScriptWorkerId, V)>,
    i: int,
    e: (ScriptWorkerId, V),
    k: Seq<char>,
)
    requires
        0 <= i < s.len(),
        e.0@ == s[i].0@,
        k != s[i].0@,
    ensures
        assoc_get(s.update(i, e), k) == assoc_get(s, k),
    decreases s.len(),
{
    if i == 0 {
        assert(s.update(0, e)[0] == e);
        assert(s.update(0, e).drop_first() =~= s.drop_first());
    } else {
        assert(s.update(i, e)[0] == s[0]);
        assert(s.update(i, e).drop_first() =~= s.drop_first().update(i - 1, e));
        lemma_assoc_get_update(s.drop_first(), i - 1, e, k);
    }
}

/// Removing the entry at position `i` does not change the lookup of any key
/// other than the removed one.
proof fn lemma_assoc_get_remove<V>(s: Seq<(ScriptWorkerId, V)>, i: int, k: Seq<char>)
    requires
        0 <= i < s.len(),
        k != s[i].0@,
    ensures
        assoc_get(s.remove(i), k) == assoc_get(s, k),
    decreases s.len(),
{
    if i == 0 {
        assert(s.remove(0) =~= s.drop_first());
    } else {
        assert(s.remove(i)[0] == s[0]);
        assert(s.remove(i).drop_first() =~= s.drop_first().remove(i - 1));
        lemma_assoc_get_remove(s.drop_first(), i - 1, k);
    }
}

/// A mapping from tenant identifier to `V`, one entry per tenant.
pub struct TenantMap<V> {
    entries: Vec<(ScriptWorkerId, V)>,
}

impl<V> TenantMap<V> {
    /// The raw entries, in insertion order.
    pub closed spec fn entries_seq(self) -> Seq<(ScriptWorkerId, V)> {
        self.entries@
    }

    /// Keys are pairwise distinct.
    pub open spec fn wf(self) -> bool {
        forall|x: int, y: int|
            0 <= x < y < self.entries_seq().len() ==> (#[trigger] self.entries_seq()[x]).0@ != (
            #[trigger] self.entries_seq()[y]).0@
    }

    /// The value mapped to tenant `k`, if any.
    pub open spec fn spec_get(self, k: Seq<char>) -> Option<V> {
        assoc_get(self.entries_seq(), k)
    }

    /// Whether tenant `k` has an entry.
    pub open spec fn contains_key(self, k: Seq<char>) -> bool {
        self.spec_get(k) is Some
    }

    /// Number of tenants in the table.
    pub open spec fn spec_len(self) -> nat {
        self.entries_seq().len()
    }

    /// The empty table.
    pub fn new() -> (m: TenantMap<V>)
        ensures
            m.wf(),
            m.spec_len() == 0,
            forall|k: Seq<char>| !(#[trigger] m.contains_key(k)),
    {
        TenantMap { entries: Vec::new() }
    }

    /// Number of tenants in the table.
    pub fn len(&self) -> (n: usize)
        ensures
            n == self.spec_len(),
    {
        self.entries.len()
    }

    /// Position of tenant `id`'s entry, if any.
    fn find_index(&self, id: &ScriptWorkerId) -> (r: Option<usize>)
        requires
            self.wf(),
        ensures
            r matches Some(i) ==> i < self.entries_seq().len() && self.entries_seq()[i as int].0@
                == id@ && self.spec_get(id@) == Some(self.entries_seq()[i as int].1),
            r is None ==> !self.contains_key(id@) && (forall|j: int|
                0 <= j < self.entries_seq().len() ==> (#[trigger] self.entries_seq()[j]).0@ != id@),
    {
        let n = self.entries.len();
        let mut i: usize = 0;
        while i < n
            invariant
                n == self.entries_seq().len(),
                i <= n,
                self.wf(),
                forall|j: int| 0 <= j < i ==> (#[trigger] self.entries_seq()[j]).0@ != id@,
            decreases n - i,
        {
            if self.entries[i].0.0 == id.0 {
                proof {
                    lemma_assoc_get_present(self.entries_seq(), id@, i as int);
                }
                return Some(i);
            }
            i = i + 1;
        }
        proof {
            lemma_assoc_get_absent(self.entries_seq(), id@);
        }
        None
    }

    /// Shared access to tenant `id`'s value.
    pub fn get(&self, id: &ScriptWorkerId) -> (r: Option<&V>)
        requires
            self.wf(),
        ensures
            r matches Some(v) ==> self.spec_get(id@) == Some(*v),
            r is None ==> !self.contains_key(id@),
    {
        match self.find_index(id) {
            Some(i) => Some(&self.entries[i].1),
            None => None,
        }
    }

    /// Whether tenant `id` has an entry.
    pub fn contains(&self, id: &ScriptWorkerId) -> (r: bool)
        requires
            self.wf(),
        ensures
            r == self.contains_key(id@),
    {
        self.find_index(id).is_some()
    }

    /// Map tenant `id` to `v`, replacing any previous value.
    pub fn insert(&mut self, id: ScriptWorkerId, v: V)
        requires
            old(self).wf(),
        ensures
            final(self).wf(),
            final(self).spec_get(id@) == Some(v),
            forall|k: Seq<char>|
                k != id@ ==> #[trigger] final(self).spec_get(k) == old(self).spec_get(k),
            final(self).spec_len() == old(self).spec_len() + (
            if old(self).contains_key(id@) {
                0int
            } else {
                1int
            }),
    {
        let ghost pre = self.entries@;
        let ghost key = id@;
        match self.find_index(&id) {
            Some(i) => {
                self.entries[i] = (id, v);
                proof {
                    let post = self.entries@;
                    assert(post =~= pre.update(i as int, post[i as int]));
                    assert forall|x: int, y: int|
                        0 <= x < y < post.len() implies (#[trigger] post[x]).0@ != (
                    #[trigger] post[y]).0@ by {
                        assert(pre[x].0@ != pre[y].0@);
                    }
                    lemma_assoc_get_present(post, key, i as int);
                    assert forall|k: Seq<char>| k != key implies #[trigger] assoc_get(post, k)
                        == assoc_get(pre, k) by {
                        lemma_assoc_get_update(pre, i as int, post[i as int], k);
                    }
                }
            },
            None => {
                self.entries.push((id, v));
                proof {
                    let post = self.entries@;
                    let e = post[pre.len() as int];
                    assert(post =~= pre.push(e));
                    assert(e.0@ == key);
                    assert forall|x: int, y: int|
                        0 <= x < y < post.len() implies (#[trigger] post[x]).0@ != (
                    #[trigger] post[y]).0@ by {
                        if y < pre.len() {
                            assert(pre[x].0@ != pre[y].0@);
                        } else {
                            assert(post[x] == pre[x]);
                            assert(pre[x].0@ != key);
                        }
                    }
                    lemma_assoc_get_present(post, key, pre.len() as int);
                    assert forall|k: Seq<char>| k != key implies #[trigger] assoc_get(post, k)
                        == assoc_get(pre, k) by {
                        lemma_assoc_get_push(pre, e, k);
                    }
                }
            },
        }
    }

    /// Remove tenant `id`'s entry and hand its value back.
    pub fn remove(&mut self, id: &ScriptWorkerId) -> (r: Option<V>)
        requires
            old(self).wf(),
        ensures
            final(self).wf(),
            r == old(self).spec_get(id@),
            r is None ==> *final(self) == *old(self),
            !final(self).contains_key(id@),
            forall|k: Seq<char>|
                k != id@ ==> #[trigger] final(self).spec_get(k) == old(self).spec_get(k),
            final(self).spec_len() == old(self).spec_len() - (
            if old(self).contains_key(id@) {
                1int
            } else {
                0int
            }),
    {
        let ghost pre = self.entries@;
        let ghost key = id@;
        match self.find_index(id) {
            Some(i) => {
                let (_, v) = self.entries.remove(i);
                proof {
                    let post = self.entries@;
                    assert(post =~= pre.remove(i as int));
                    assert forall|x: int, y: int|
                        0 <= x < y < post.len() implies (#[trigger] post[x]).0@ != (
                    #[trigger] post[y]).0@ by {
                        let px = if x < i { x } else { x + 1 };
                        let py = if y < i { y } else { y + 1 };
                        assert(post[x] == pre[px]);
                        assert(post[y] == pre[py]);
                        assert(pre[px].0@ != pre[py].0@);
                    }
                    assert forall|j: int| 0 <= j < post.len() implies (#[trigger] post[j]).0@ != key
                        by {
                        let pj = if j < i { j } else { j + 1 };
                        assert(post[j] == pre[pj]);
                    }
                    lemma_assoc_get_absent(post, key);
                    assert forall|k: Seq<char>| k != key implies #[trigger] assoc_get(post, k)
                        == assoc_get(pre, k) by {
                        lemma_assoc_get_remove(pre, i as int, k);
                    }
                }
                Some(v)
            },
            None => None,
        }
    }
}

/// The worker table: tenant identifier to control object, one worker per
/// tenant at a time, exclusively owned by the table.
pub type WorkerTable = TenantMap<ScriptWorkerThread>;

/// The port table: tenant identifier to assigned port. An entry exists iff a
/// listener loop is currently bound and alive for that tenant.
pub type PortTable = TenantMap<WorkerPort>;

/// The gateway's shared state, explicitly constructed and handed to every
/// handler rather than kept in ambient singletons: the port allocator's
/// cursor, the worker table, and the port table. The application wraps the
/// three in their own locks; the port table gets its own so that the reverse
/// proxy's reads never contend with worker lifecycle operations.
pub struct GatewayState {
    /// The port allocator's cursor: the port assigned last.
    pub cursor: WorkerPort,
    /// Tenant identifier to worker control object.
    pub workers: WorkerTable,
    /// Tenant identifier to assigned port.
    pub ports: PortTable,
}

impl GatewayState {
    /// What must hold of a tenant present in the worker table: its worker is
    /// live, keyed by its own identifier, and the port table maps the tenant
    /// to the worker's port.
    pub open spec fn worker_entry_ok(self, k: Seq<char>) -> bool {
        match self.workers.spec_get(k) {
            Some(w) => w.live() && w.id@ == k && self.ports.spec_get(k) == Some(w.port),
            None => false,
        }
    }

    /// What must hold of a tenant present in the port table: its port was
    /// handed out by the allocator, so it does not lie above the cursor.
    pub open spec fn port_entry_ok(self, k: Seq<char>) -> bool {
        match self.ports.spec_get(k) {
            Some(p) => p.0 <= self.cursor.0,
            None => false,
        }
    }

    /// Well-formedness: both tables are well-formed, every registered worker
    /// is live and consistent with the port table, the port table has no
    /// entry without a worker (an entry exists exactly while the tenant's
    /// listener loop is bound and alive), every assigned port lies at or
    /// below the allocator's cursor, and no two tenants share a port.
    pub open spec fn wf(self) -> bool {
        &&& self.workers.wf()
        &&& self.ports.wf()
        &&& forall|k: Seq<char>| #[trigger] self.workers.contains_key(k) ==> self.worker_entry_ok(k)
        &&& forall|k: Seq<char>|
            #[trigger] self.ports.contains_key(k) ==> self.workers.contains_key(k)
        &&& forall|k: Seq<char>| #[trigger] self.ports.contains_key(k) ==> self.port_entry_ok(k)
        &&& forall|k1: Seq<char>, k2: Seq<char>|
            k1 != k2 && #[trigger] self.ports.contains_key(k1) && #[trigger] self.ports.contains_key(
                k2,
            ) ==> self.ports.spec_get(k1) != self.ports.spec_get(k2)
    }

    /// Port uniqueness at the gateway: two registered tenants never hold the
    /// same port.
    pub proof fn lemma_registered_ports_distinct(self, k1: Seq<char>, k2: Seq<char>)
        requires
            self.wf(),
            k1 != k2,
            self.ports.contains_key(k1),
            self.ports.contains_key(k2),
        ensures
            self.ports.spec_get(k1) != self.ports.spec_get(k2),
    {
    }

    /// Well-formedness survives taking one tenant's worker out, operating on
    /// it, and putting it back: the reinserted worker is live and keeps its
    /// identifier and port, every other tenant's entry is untouched, and the
    /// port table is as it was.
    pub proof fn lemma_wf_after_reinsert(
        pre: GatewayState,
        post: GatewayState,
        k: Seq<char>,
        w0: ScriptWorkerThread,
        w1: ScriptWorkerThread,
    )
        requires
            pre.wf(),
            pre.workers.spec_get(k) == Some(w0),
            post.workers.wf(),
            post.workers.spec_get(k) == Some(w1),
            w1.live(),
            w1.id@ == w0.id@,
            w1.port == w0.port,
            forall|k2: Seq<char>|
                k2 != k ==> #[trigger] post.workers.spec_get(k2) == pre.workers.spec_get(k2),
            post.ports == pre.ports,
            post.cursor == pre.cursor,
        ensures
            post.wf(),
    {
        assert(pre.workers.contains_key(k));
        assert(pre.worker_entry_ok(k));
        assert forall|k2: Seq<char>| #[trigger] post.workers.contains_key(k2)
            implies post.worker_entry_ok(k2) by {
            if k2 == k {
            } else {
                assert(pre.workers.contains_key(k2));
                assert(pre.worker_entry_ok(k2));
            }
        }
        assert forall|k2: Seq<char>| #[trigger] post.ports.contains_key(k2)
            implies post.workers.contains_key(k2) by {
            assert(pre.ports.contains_key(k2));
            if k2 != k {
                assert(pre.workers.contains_key(k2));
            }
        }
        assert forall|k2: Seq<char>| #[trigger] post.ports.contains_key(k2)
            implies post.port_entry_ok(k2) by {
            assert(pre.ports.contains_key(k2));
            assert(pre.port_entry_ok(k2));
        }
        assert forall|k1: Seq<char>, k2: Seq<char>|
            k1 != k2 && #[trigger] post.ports.contains_key(k1) && #[trigger] post.ports.contains_key(
                k2,
            ) implies post.ports.spec_get(k1) != post.ports.spec_get(k2) by {
            assert(pre.ports.contains_key(k1));
            assert(pre.ports.contains_key(k2));
        }
    }

    /// Well-formedness survives registering a brand-new tenant: the fresh
    /// worker is live, keyed by the tenant identifier, its port — freshly
    /// assigned strictly above the old cursor, which now sits on it —
    /// recorded in the port table, and every other tenant's entries are
    /// untouched. The fresh port lies above every previously assigned one,
    /// so ports stay pairwise distinct.
    pub proof fn lemma_wf_after_create(
        pre: GatewayState,
        post: GatewayState,
        k: Seq<char>,
        w: ScriptWorkerThread,
    )
        requires
            pre.wf(),
            !pre.workers.contains_key(k),
            post.workers.wf(),
            post.ports.wf(),
            post.workers.spec_get(k) == Some(w),
            post.ports.spec_get(k) == Some(w.port),
            w.live(),
            w.id@ == k,
            pre.cursor.0 < w.port.0,
            post.cursor == w.port,
            forall|k2: Seq<char>|
                k2 != k ==> #[trigger] post.workers.spec_get(k2) == pre.workers.spec_get(k2),
            forall|k2: Seq<char>|
                k2 != k ==> #[trigger] post.ports.spec_get(k2) == pre.ports.spec_get(k2),
        ensures
            post.wf(),
    {
        assert forall|k2: Seq<char>| #[trigger] post.workers.contains_key(k2)
            implies post.worker_entry_ok(k2) by {
            if k2 == k {
            } else {
                assert(pre.workers.contains_key(k2));
                assert(pre.worker_entry_ok(k2));
            }
        }
        assert forall|k2: Seq<char>| #[trigger] post.ports.contains_key(k2)
            implies post.workers.contains_key(k2) by {
            if k2 != k {
                assert(pre.ports.contains_key(k2));
                assert(pre.workers.contains_key(k2));
            }
        }
        assert forall|k2: Seq<char>| #[trigger] post.ports.contains_key(k2)
            implies post.port_entry_ok(k2) by {
            if k2 != k {
                assert(pre.ports.contains_key(k2));
                assert(pre.port_entry_ok(k2));
            }
        }
        assert forall|k1: Seq<char>, k2: Seq<char>|
            k1 != k2 && #[trigger] post.ports.contains_key(k1) && #[trigger] post.ports.contains_key(
                k2,
            ) implies post.ports.spec_get(k1) != post.ports.spec_get(k2) by {
            if k1 != k && k2 != k {
                assert(pre.ports.contains_key(k1));
                assert(pre.ports.contains_key(k2));
            } else if k1 == k {
                assert(pre.ports.contains_key(k2));
                assert(pre.port_entry_ok(k2));
            } else {
                assert(pre.ports.contains_key(k1));
                assert(pre.port_entry_ok(k1));
            }
        }
    }

    /// Well-formedness survives destroying one tenant: its entries leave both
    /// tables, everything else is untouched.
    pub proof fn lemma_wf_after_exit(pre: GatewayState, post: GatewayState, k: Seq<char>)
        requires
            pre.wf(),
            post.workers.wf(),
            post.ports.wf(),
            !post.workers.contains_key(k),
            !post.ports.contains_key(k),
            forall|k2: Seq<char>|
                k2 != k ==> #[trigger] post.workers.spec_get(k2) == pre.workers.spec_get(k2),
            forall|k2: Seq<char>|
                k2 != k ==> #[trigger] post.ports.spec_get(k2) == pre.ports.spec_get(k2),
            post.cursor == pre.cursor,
        ensures
            post.wf(),
    {
        assert forall|k2: Seq<char>| #[trigger] post.workers.contains_key(k2)
            implies post.worker_entry_ok(k2) by {
            assert(k2 != k);
            assert(pre.workers.contains_key(k2));
            assert(pre.worker_entry_ok(k2));
        }
        assert forall|k2: Seq<char>| #[trigger] post.ports.contains_key(k2)
            implies post.workers.contains_key(k2) by {
            assert(k2 != k);
            assert(pre.ports.contains_key(k2));
            assert(pre.workers.contains_key(k2));
        }
        assert forall|k2: Seq<char>| #[trigger] post.ports.contains_key(k2)
            implies post.port_entry_ok(k2) by {
            assert(k2 != k);
            assert(pre.ports.contains_key(k2));
            assert(pre.port_entry_ok(k2));
        }
        assert forall|k1: Seq<char>, k2: Seq<char>|
            k1 != k2 && #[trigger] post.ports.contains_key(k1) && #[trigger] post.ports.contains_key(
                k2,
            ) implies post.ports.spec_get(k1) != post.ports.spec_get(k2) by {
            assert(pre.ports.contains_key(k1));
            assert(pre.ports.contains_key(k2));
        }
    }

    /// The router sees exactly the live tenants: in a well-formed gateway a
    /// port-table entry exists precisely for the tenants with a registered
    /// worker, and it carries that worker's own port while the worker's
    /// listener loop is alive.
    pub proof fn lemma_ports_track_live_workers(self, k: Seq<char>)
        requires
            self.wf(),
        ensures
            self.ports.contains_key(k) <==> self.workers.contains_key(k),
            self.workers.spec_get(k) matches Some(w) ==> self.ports.spec_get(k) == Some(w.port)
                && w.live(),
    {
        if self.workers.contains_key(k) {
            assert(self.worker_entry_ok(k));
        }
    }

    /// A fresh gateway: no tenants, the allocator cursor on its fixed base.
    pub fn new() -> (s: GatewayState)
        ensures
            s.wf(),
            s.cursor == WorkerPort(3000),
            s.workers.spec_len() == 0,
            s.ports.spec_len() == 0,
            forall|k: Seq<char>| !(#[trigger] s.workers.contains_key(k)),
            forall|k: Seq<char>| !(#[trigger] s.ports.contains_key(k)),
    {
        GatewayState { cursor: WorkerPort(3000), workers: TenantMap::new(), ports: TenantMap::new() }
    }
}

} // verus!
