//! Resource ownership chain: native-handle lifetime made correct without
//! explicit teardown ordering.
//!
//! Every object that wraps a native handle is a node in an arena; a node
//! created from other nodes records them as dependencies, exactly as a
//! wrapper object holds a counted reference to the inner state of
//! everything it was built from. A node's reference count is the number of
//! caller-visible handles on it plus the number of live nodes depending on
//! it, and its native resources are released — `freed` — exactly when that
//! count reaches zero. Dropping a handle on a dependency while a dependent
//! is alive can therefore never free it: destruction happens strictly from
//! dependents down to dependencies, never by ordered teardown code.

use vstd::prelude::*;

verus! {

/// One resource: how many caller-visible handles exist on it, which
/// earlier nodes it was constructed from, and whether its native handle
/// has been released.
#[derive(Debug)]
pub struct ResourceNode {
    pub handle_refs: u64,
    pub deps: Vec<usize>,
    pub freed: bool,
}

/// The arena of device-dependent resources. Nodes only ever depend on
/// nodes created before them, so the dependency graph is acyclic by
/// construction.
#[derive(Debug)]
pub struct ResourceArena {
    pub nodes: Vec<ResourceNode>,
}

/// Whether a node keeps `q` alive: it is live and depends on `q`.
pub open spec fn counts_as_dependent(n: ResourceNode, q: usize) -> bool {
    !n.freed && n.deps@.contains(q)
}

/// Number of live dependents of `q` among the first `k` nodes.
pub open spec fn dependents_upto(nodes: Seq<ResourceNode>, q: usize, k: int) -> nat
    decreases k,
{
    if k <= 0 {
        0
    } else {
        dependents_upto(nodes, q, k - 1) + if counts_as_dependent(nodes[k - 1], q) {
            1nat
        } else {
            0nat
        }
    }
}

/// Number of live dependents of `q`.
pub open spec fn dependents_of(nodes: Seq<ResourceNode>, q: usize) -> nat {
    dependents_upto(nodes, q, nodes.len() as int)
}

/// A node's dependencies all lie strictly below it.
pub open spec fn deps_below(nodes: Seq<ResourceNode>, i: int) -> bool {
    forall|d: int| 0 <= d < nodes[i].deps@.len() ==> (#[trigger] nodes[i].deps@[d]) < i
}

/// Counting dependents is insensitive to anything but liveness and
/// dependency lists.
proof fn lemma_dependents_upto_agree(
    n1: Seq<ResourceNode>,
    n2: Seq<ResourceNode>,
    q: usize,
    k: int,
)
    requires
        0 <= k <= n1.len(),
        k <= n2.len(),
        forall|i: int| 0 <= i < k
            ==> (#[trigger] n2[i]).freed == n1[i].freed && n2[i].deps == n1[i].deps,
    ensures
        dependents_upto(n1, q, k) == dependents_upto(n2, q, k),
    decreases k,
{
    if k > 0 {
        lemma_dependents_upto_agree(n1, n2, q, k - 1);
    }
}

/// Changing one node changes a dependent count by exactly that node's own
/// contribution.
proof fn lemma_dependents_upto_update(
    n1: Seq<ResourceNode>,
    n2: Seq<ResourceNode>,
    q: usize,
    k: int,
    p: int,
)
    requires
        n1.len() == n2.len(),
        0 <= p < n1.len(),
        0 <= k <= n1.len(),
        forall|i: int| 0 <= i < n1.len() && i != p
            ==> (#[trigger] n2[i]).freed == n1[i].freed && n2[i].deps == n1[i].deps,
    ensures
        dependents_upto(n2, q, k) as int == dependents_upto(n1, q, k) as int + if p < k {
            (if counts_as_dependent(n2[p], q) {
                1int
            } else {
                0int
            }) - (if counts_as_dependent(n1[p], q) {
                1int
            } else {
                0int
            })
        } else {
            0int
        },
    decreases k,
{
    if k > 0 {
        lemma_dependents_upto_update(n1, n2, q, k - 1, p);
    }
}

/// One live dependent makes the count positive.
proof fn lemma_live_dependent_counts(nodes: Seq<ResourceNode>, q: usize, c: int, k: int)
    requires
        0 <= c < k <= nodes.len(),
        counts_as_dependent(nodes[c], q),
    ensures
        dependents_upto(nodes, q, k) >= 1,
    decreases k,
{
    if c < k - 1 {
        lemma_live_dependent_counts(nodes, q, c, k - 1);
    }
}

/// Whether the list holds the identity.
fn contains_id(v: &Vec<usize>, x: usize) -> (r: bool)
    ensures
        r == v@.contains(x),
{
    let mut i: usize = 0;
    while i < v.len()
        invariant
            i <= v@.len(),
            forall|j: int| 0 <= j < i ==> (#[trigger] v@[j]) != x,
        decreases v@.len() - i,
    {
        if v[i] == x {
            return true;
        }
        i = i + 1;
    }
    false
}

impl ResourceArena {
    /// Well-formedness of one node: dependencies lie below it; a freed
    /// node has no handles and no live dependents; a live node is held by
    /// at least one handle or one live dependent.
    pub open spec fn node_wf(&self, i: int) -> bool {
        &&& deps_below(self.nodes@, i)
        &&& self.nodes@[i].freed ==> self.nodes@[i].handle_refs == 0 && dependents_of(
            self.nodes@,
            i as usize,
        ) == 0
        &&& !self.nodes@[i].freed ==> self.nodes@[i].handle_refs >= 1 || dependents_of(
            self.nodes@,
            i as usize,
        ) >= 1
    }

    /// Arena invariant: every node is well-formed. In particular a node's
    /// native resources are released exactly when its reference count —
    /// handles plus live dependents — is zero.
    pub open spec fn wf(&self) -> bool {
        forall|i: int| 0 <= i < self.nodes@.len() ==> #[trigger] self.node_wf(i)
    }

    /// The node exists and its native handle has not been released.
    pub open spec fn live(&self, id: usize) -> bool {
        id < self.nodes@.len() && !self.nodes@[id as int].freed
    }

    pub fn new() -> (r: ResourceArena)
        ensures
            r.wf(),
            r.nodes@.len() == 0,
    {
        ResourceArena { nodes: Vec::new() }
    }

    /// Number of nodes ever created.
    pub fn len(&self) -> (r: usize)
        ensures
            r == self.nodes@.len(),
    {
        self.nodes.len()
    }

    /// Whether the node's native handle has been released.
    pub fn is_freed(&self, id: usize) -> (r: bool)
        requires
            id < self.nodes@.len(),
        ensures
            r == self.nodes@[id as int].freed,
    {
        self.nodes[id].freed
    }

    /// Number of caller-visible handles on the node.
    pub fn handle_count(&self, id: usize) -> (r: u64)
        requires
            id < self.nodes@.len(),
        ensures
            r == self.nodes@[id as int].handle_refs,
    {
        self.nodes[id].handle_refs
    }

    /// Number of live nodes depending on `id`.
    pub fn dependent_count(&self, id: usize) -> (r: usize)
        ensures
            r as nat == dependents_of(self.nodes@, id),
    {
        let mut r: usize = 0;
        let mut c: usize = 0;
        while c < self.nodes.len()
            invariant
                c <= self.nodes@.len(),
                r <= c,
                r as nat == dependents_upto(self.nodes@, id, c as int),
            decreases self.nodes@.len() - c,
        {
            if !self.nodes[c].freed && contains_id(&self.nodes[c].deps, id) {
                r = r + 1;
            }
            c = c + 1;
        }
        r
    }

    /// Creates a resource constructed from the given live nodes, holding a
    /// counted reference to each, and hands the caller one handle on it.
    pub fn create(&mut self, deps: Vec<usize>) -> (id: usize)
        requires
            old(self).wf(),
            old(self).nodes@.len() < usize::MAX,
            forall|d: int| 0 <= d < deps@.len() ==> old(self).live(#[trigger] deps@[d]),
        ensures
            final(self).wf(),
            id == old(self).nodes@.len(),
            final(self).nodes@.len() == old(self).nodes@.len() + 1,
            forall|i: int| 0 <= i < old(self).nodes@.len()
                ==> final(self).nodes@[i] == old(self).nodes@[i],
            final(self).nodes@[id as int].handle_refs == 1,
            !final(self).nodes@[id as int].freed,
            final(self).nodes@[id as int].deps@ == deps@,
    {
        let id = self.nodes.len();
        self.nodes.push(ResourceNode { handle_refs: 1, deps, freed: false });
        proof {
            vstd::std_specs::vec::axiom_spec_len(&self.nodes);
            let pre = old(self).nodes@;
            let post = self.nodes@;
            assert forall|i: int| 0 <= i < post.len() implies #[trigger] self.node_wf(i) by {
                if i < id {
                    assert(old(self).node_wf(i));
                    lemma_dependents_upto_agree(pre, post, i as usize, id as int);
                    let delta_term = counts_as_dependent(post[id as int], i as usize);
                    if delta_term {
                        // The new node depends on i, so i was required live.
                        let d = choose|d: int|
                            0 <= d < post[id as int].deps@.len()
                                && post[id as int].deps@[d] == i as usize;
                        assert(old(self).live(post[id as int].deps@[d]));
                    }
                    assert(dependents_of(post, i as usize) == dependents_upto(post, i as usize, id as int)
                        + if counts_as_dependent(post[id as int], i as usize) { 1nat } else { 0nat });
                } else {
                    assert forall|d: int| 0 <= d < post[i].deps@.len()
                        implies (#[trigger] post[i].deps@[d]) < i by {
                        assert(old(self).live(post[i].deps@[d]));
                    };
                }
            };
        }
        id
    }

    /// Clones a handle on a live node.
    pub fn retain(&mut self, id: usize)
        requires
            old(self).wf(),
            old(self).live(id),
            old(self).nodes@[id as int].handle_refs < u64::MAX,
        ensures
            final(self).wf(),
            final(self).nodes@.len() == old(self).nodes@.len(),
            forall|i: int| 0 <= i < old(self).nodes@.len() && i != id
                ==> final(self).nodes@[i] == old(self).nodes@[i],
            final(self).nodes@[id as int].handle_refs
                == old(self).nodes@[id as int].handle_refs + 1,
            final(self).nodes@[id as int].freed == old(self).nodes@[id as int].freed,
            final(self).nodes@[id as int].deps == old(self).nodes@[id as int].deps,
    {
        let refs = self.nodes[id].handle_refs;
        self.nodes[id].handle_refs = refs + 1;
        proof {
            vstd::std_specs::vec::axiom_spec_len(&self.nodes);
            let pre = old(self).nodes@;
            let post = self.nodes@;
            assert forall|i: int| 0 <= i < post.len() implies #[trigger] self.node_wf(i) by {
                assert(old(self).node_wf(i));
                lemma_dependents_upto_agree(pre, post, i as usize, pre.len() as int);
            };
        }
    }

    /// Releases one handle on the node. If that was the last reference —
    /// no handle and no live dependent — the node's native resources are
    /// released, its references on its dependencies are dropped, and the
    /// release cascades down the chain. Afterwards a node is freed exactly
    /// when its reference count is zero: dependencies of anything live are
    /// never freed, and nothing unreferenced is kept.
    pub fn release(&mut self, id: usize)
        requires
            old(self).wf(),
            id < old(self).nodes@.len(),
            old(self).nodes@[id as int].handle_refs >= 1,
        ensures
            final(self).wf(),
            final(self).nodes@.len() == old(self).nodes@.len(),
            forall|i: int| 0 <= i < old(self).nodes@.len() ==> {
                &&& (#[trigger] final(self).nodes@[i]).deps == old(self).nodes@[i].deps
                &&& final(self).nodes@[i].handle_refs == if i == id {
                    (old(self).nodes@[i].handle_refs - 1) as u64
                } else {
                    old(self).nodes@[i].handle_refs
                }
                &&& (old(self).nodes@[i].freed ==> final(self).nodes@[i].freed)
            },
            forall|i: int| 0 <= i < final(self).nodes@.len()
                ==> ((#[trigger] final(self).nodes@[i]).freed <==> (
                    final(self).nodes@[i].handle_refs == 0 && dependents_of(
                        final(self).nodes@,
                        i as usize,
                    ) == 0)),
    {
        let refs = self.nodes[id].handle_refs;
        self.nodes[id].handle_refs = refs - 1;
        let ghost base = *self;
        proof {
            vstd::std_specs::vec::axiom_spec_len(&self.nodes);
            let pre = old(self).nodes@;
            let post = self.nodes@;
            assert(!pre[id as int].freed) by {
                assert(old(self).node_wf(id as int));
            };
            assert forall|i: int| 0 <= i < post.len() && (#[trigger] post[i]).freed
                implies post[i].handle_refs == 0 && dependents_of(post, i as usize) == 0 by {
                assert(old(self).node_wf(i));
                lemma_dependents_upto_agree(pre, post, i as usize, pre.len() as int);
            };
            assert forall|i: int| 0 <= i < post.len() implies deps_below(post, i) by {
                assert(old(self).node_wf(i));
            };
        }
        let mut p: usize = self.nodes.len();
        while p > 0
            invariant
                p <= self.nodes@.len(),
                self.nodes@.len() == base.nodes@.len(),
                forall|i: int| 0 <= i < self.nodes@.len() ==> {
                    &&& (#[trigger] self.nodes@[i]).deps == base.nodes@[i].deps
                    &&& self.nodes@[i].handle_refs == base.nodes@[i].handle_refs
                    &&& (base.nodes@[i].freed ==> self.nodes@[i].freed)
                },
                forall|i: int| 0 <= i < self.nodes@.len() ==> deps_below(self.nodes@, i),
                forall|i: int| 0 <= i < self.nodes@.len() && (#[trigger] self.nodes@[i]).freed
                    ==> self.nodes@[i].handle_refs == 0 && dependents_of(
                        self.nodes@,
                        i as usize,
                    ) == 0,
                forall|i: int| p <= i < self.nodes@.len() && !(#[trigger] self.nodes@[i]).freed
                    ==> self.nodes@[i].handle_refs >= 1 || dependents_of(
                        self.nodes@,
                        i as usize,
                    ) >= 1,
            decreases p,
        {
            p = p - 1;
            let is_live = !self.nodes[p].freed;
            let h = self.nodes[p].handle_refs;
            if is_live && h == 0 {
                let dc = self.dependent_count(p);
                if dc == 0 {
                    let ghost before = self.nodes@;
                    self.nodes[p].freed = true;
                    proof {
                        vstd::std_specs::vec::axiom_spec_len(&self.nodes);
                        let post = self.nodes@;
                        let n = post.len() as int;
                        // The freed node depends only on lower nodes, so
                        // counts of everything at or above it are
                        // untouched, and counts elsewhere only shrink.
                        assert forall|i: int| 0 <= i < n && (#[trigger] post[i]).freed
                            implies post[i].handle_refs == 0 && dependents_of(post, i as usize)
                                == 0 by {
                            lemma_dependents_upto_update(before, post, i as usize, n, p as int);
                            if i == p {
                                assert(!before[p as int].deps@.contains(p as usize)) by {
                                    if before[p as int].deps@.contains(p as usize) {
                                        let d = choose|d: int|
                                            0 <= d < before[p as int].deps@.len()
                                                && before[p as int].deps@[d] == p as usize;
                                        assert(deps_below(before, p as int));
                                        assert(before[p as int].deps@[d] < p);
                                    }
                                };
                            } else {
                                if before[p as int].deps@.contains(i as usize)
                                    && !before[p as int].freed {
                                    lemma_live_dependent_counts(before, i as usize, p as int, n);
                                }
                            }
                        };
                        assert forall|i: int| p <= i < n && !(#[trigger] post[i]).freed
                            implies post[i].handle_refs >= 1 || dependents_of(post, i as usize)
                                >= 1 by {
                            assert(i != p);
                            lemma_dependents_upto_update(before, post, i as usize, n, p as int);
                            assert(!before[p as int].deps@.contains(i as usize)) by {
                                if before[p as int].deps@.contains(i as usize) {
                                    let d = choose|d: int|
                                        0 <= d < before[p as int].deps@.len()
                                            && before[p as int].deps@[d] == i as usize;
                                    assert(deps_below(before, p as int));
                                    assert(before[p as int].deps@[d] < p);
                                }
                            };
                        };
                        assert forall|i: int| 0 <= i < n implies deps_below(post, i) by {
                            assert(deps_below(before, i));
                        };
                    }
                }
            }
        }
        proof {
            vstd::std_specs::vec::axiom_spec_len(&self.nodes);
            assert forall|i: int| 0 <= i < self.nodes@.len() implies #[trigger] self.node_wf(i)
                by {};
        }
    }
}

/// Law (destruction order): while any node built on `q` is live, `q`'s
/// native resources have not been released. Dropping caller-visible
/// handles on a dependency — a device under an allocator, an allocator
/// under an image — can therefore never free it while a dependent exists;
/// its count reaches zero only after every dependent is gone.
pub proof fn lemma_dependency_outlives(a: ResourceArena, c: int, q: usize)
    requires
        a.wf(),
        0 <= c < a.nodes@.len(),
        !a.nodes@[c].freed,
        a.nodes@[c].deps@.contains(q),
    ensures
        (q as int) < c,
        !a.nodes@[q as int].freed,
{
    assert(a.node_wf(c));
    let d = choose|d: int| 0 <= d < a.nodes@[c].deps@.len() && a.nodes@[c].deps@[d] == q;
    assert(a.nodes@[c].deps@[d] < c);
    if a.nodes@[q as int].freed {
        assert(a.node_wf(q as int));
        lemma_live_dependent_counts(a.nodes@, q, c, a.nodes@.len() as int);
    }
}

} // verus!
