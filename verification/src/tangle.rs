//! The ledger graph: vertices, reverse edges and the configured roots, kept
//! consistent behind one owner.

use vstd::prelude::*;
use crate::approvers::{approvers_of, lemma_with_approver_lists, with_approver, ApproverIndex};
use crate::hash::{list_contains, TxHash};
use crate::request::Request;
use crate::store::{solid_set, with_solid, VertexStore};
use crate::vertex::{Vertex, VertexView};

verus! {

/// The graph as a mathematical value.
pub struct TangleView {
    /// The stored vertices, by hash.
    pub vertices: Map<TxHash, VertexView>,
    /// For each hash, the approvers registered for it.
    pub approvers: Map<TxHash, Seq<TxHash>>,
    /// The hashes that are solid by definition.
    pub roots: Set<TxHash>,
}

impl TangleView {
    /// A vertex is stored under `hash`.
    pub open spec fn has(self, hash: TxHash) -> bool {
        self.vertices.contains_key(hash)
    }

    /// A vertex is stored under `hash` and its solid flag is set.
    pub open spec fn is_solid(self, hash: TxHash) -> bool {
        self.vertices.contains_key(hash) && self.vertices[hash].solid
    }

    /// `hash` counts as resolved when it is named as a parent: it is a root,
    /// or its stored vertex is solid.
    pub open spec fn is_ancestor_solid(self, hash: TxHash) -> bool {
        self.roots.contains(hash) || self.is_solid(hash)
    }

    /// A vertex is stored under `hash` and both of its parents are resolved:
    /// the condition under which propagation marks it solid.
    pub open spec fn is_ready(self, hash: TxHash) -> bool {
        &&& self.has(hash)
        &&& self.is_ancestor_solid(self.vertices[hash].trunk)
        &&& self.is_ancestor_solid(self.vertices[hash].branch)
    }

    /// The stored vertex `child` names `parent` as its trunk or its branch.
    pub open spec fn approves(self, child: TxHash, parent: TxHash) -> bool {
        self.has(child) && (self.vertices[child].trunk == parent || self.vertices[child].branch == parent)
    }

    /// The approvers registered for `parent`.
    pub open spec fn approvers_of(self, parent: TxHash) -> Seq<TxHash> {
        approvers_of(self.approvers, parent)
    }

    /// `child` is registered as an approver of `parent`.
    pub open spec fn lists(self, parent: TxHash, child: TxHash) -> bool {
        self.approvers_of(parent).contains(child)
    }

    /// The hashes of the solid vertices.
    pub open spec fn solid_set(self) -> Set<TxHash> {
        solid_set(self.vertices)
    }

    /// The graph with the vertex under `hash`, if any, marked solid.
    pub open spec fn solidified(self, hash: TxHash) -> TangleView {
        TangleView { vertices: with_solid(self.vertices, hash), ..self }
    }

    /// The invariant of the graph:
    /// finitely many vertices are stored, each under its own hash;
    /// a solid vertex has both parents resolved;
    /// the approver index holds exactly the edges of the stored vertices;
    /// and no approver is listed twice.
    pub open spec fn wf(self) -> bool {
        &&& self.vertices.dom().finite()
        &&& forall|hash: TxHash| #[trigger] self.has(hash) ==> self.vertices[hash].hash == hash
        &&& forall|hash: TxHash| #[trigger] self.is_solid(hash) ==> self.is_ready(hash)
        &&& forall|parent: TxHash, child: TxHash|
            #![trigger self.lists(parent, child)]
            #![trigger self.approves(child, parent)]
            self.lists(parent, child) <==> self.approves(child, parent)
        &&& forall|parent: TxHash| #[trigger]
            self.approvers.contains_key(parent) ==> self.approvers[parent].no_duplicates()
    }

    /// How a graph may change over time: roots, vertices and edges are only
    /// added; a stored vertex keeps its hash, parents and payload; and a
    /// solid flag, once set, stays set.
    pub open spec fn evolves_to(self, next: TangleView) -> bool {
        &&& self.roots.subset_of(next.roots)
        &&& forall|hash: TxHash| #[trigger]
            self.has(hash) ==> next.has(hash) && next.vertices[hash] == (VertexView {
                solid: next.vertices[hash].solid,
                ..self.vertices[hash]
            }) && (self.vertices[hash].solid ==> next.vertices[hash].solid)
        &&& forall|parent: TxHash, child: TxHash| #[trigger]
            self.lists(parent, child) ==> next.lists(parent, child)
    }
}

/// A vertex with a parent that is neither stored nor a root is not solid.
pub proof fn lemma_unresolved_parent_not_solid(graph: TangleView, hash: TxHash)
    requires
        graph.wf(),
        graph.has(hash),
        !graph.has(graph.vertices[hash].trunk) && !graph.roots.contains(graph.vertices[hash].trunk)
            || !graph.has(graph.vertices[hash].branch) && !graph.roots.contains(graph.vertices[hash].branch),
    ensures
        !graph.is_solid(hash),
{
    if graph.is_solid(hash) {
        assert(graph.is_ready(hash));
    }
}

/// Solidity is monotone: a vertex that is solid stays solid however the
/// graph goes on to change.
pub proof fn lemma_solid_stays_solid(earlier: TangleView, later: TangleView, hash: TxHash)
    requires
        earlier.evolves_to(later),
        earlier.is_solid(hash),
    ensures
        later.is_solid(hash),
{
    assert(earlier.has(hash));
}

/// A vertex whose parents are resolved keeps them resolved: once it can be
/// marked solid, it can be marked at any later time, whatever was inserted
/// or marked in between and in whatever order.
pub proof fn lemma_ready_stays_ready(earlier: TangleView, later: TangleView, hash: TxHash)
    requires
        earlier.evolves_to(later),
        earlier.is_ready(hash),
    ensures
        later.is_ready(hash),
{
    assert(earlier.has(hash));
    let trunk = earlier.vertices[hash].trunk;
    let branch = earlier.vertices[hash].branch;
    if earlier.is_solid(trunk) {
        assert(earlier.has(trunk));
    }
    if earlier.is_solid(branch) {
        assert(earlier.has(branch));
    }
}

/// The number of solid vertices never goes down.
pub proof fn lemma_solid_count_grows(earlier: TangleView, later: TangleView)
    requires
        earlier.evolves_to(later),
        later.vertices.dom().finite(),
    ensures
        earlier.solid_set().len() <= later.solid_set().len(),
{
    assert(later.solid_set().subset_of(later.vertices.dom()));
    vstd::set_lib::lemma_len_subset(later.solid_set(), later.vertices.dom());
    assert(earlier.solid_set().subset_of(later.solid_set())) by {
        assert forall|hash: TxHash| earlier.solid_set().contains(hash) implies later.solid_set().contains(hash) by {
            assert(earlier.has(hash));
        }
    }
    vstd::set_lib::lemma_len_subset(earlier.solid_set(), later.solid_set());
}

/// Changes compose: what holds across each of two successive changes holds
/// across both.
pub proof fn lemma_evolution_composes(first: TangleView, second: TangleView, third: TangleView)
    requires
        first.evolves_to(second),
        second.evolves_to(third),
    ensures
        first.evolves_to(third),
{
    assert forall|hash: TxHash| #[trigger] first.has(hash) implies third.has(hash) && third.vertices[hash] == (
    VertexView { solid: third.vertices[hash].solid, ..first.vertices[hash] }) && (first.vertices[hash].solid
        ==> third.vertices[hash].solid) by {
        assert(second.has(hash));
    }
    assert forall|parent: TxHash, child: TxHash| #[trigger]
        first.lists(parent, child) implies third.lists(parent, child) by {
        assert(second.lists(parent, child));
    }
}

/// The single owner of the graph. Every change goes through its methods,
/// which keep the invariant of [`TangleView::wf`].
pub struct Tangle {
    vertices: VertexStore,
    approvers: ApproverIndex,
    roots: Vec<TxHash>,
}

impl View for Tangle {
    type V = TangleView;

    closed spec fn view(&self) -> TangleView {
        TangleView { vertices: self.vertices@, approvers: self.approvers@, roots: self.roots@.to_set() }
    }
}

impl Tangle {
    /// The counter of solid transitions.
    pub closed spec fn counted(&self) -> nat {
        self.vertices.counted()
    }

    /// The graph is well formed and the counter agrees with it.
    pub closed spec fn inv(&self) -> bool {
        &&& self.vertices.wf()
        &&& self.approvers.wf()
        &&& self@.wf()
    }

    /// What the invariant says in terms of the view.
    pub proof fn lemma_inv(&self)
        requires
            self.inv(),
        ensures
            self@.wf(),
            self.counted() == self@.solid_set().len(),
    {
    }

    /// An empty graph without roots.
    pub fn new() -> (tangle: Tangle)
        ensures
            tangle.inv(),
            tangle@.vertices == Map::<TxHash, VertexView>::empty(),
            tangle@.approvers == Map::<TxHash, Seq<TxHash>>::empty(),
            tangle@.roots == Set::<TxHash>::empty(),
    {
        let tangle = Tangle { vertices: VertexStore::new(), approvers: ApproverIndex::new(), roots: Vec::new() };
        assert(tangle@.roots =~= Set::<TxHash>::empty());
        tangle
    }

    /// Declares `hash` a root: from now on it counts as resolved wherever it
    /// is named as a parent, whether or not a vertex is stored under it.
    /// Vertices that are stored already are not marked by this; those that
    /// name the root as a parent wait for a propagation request.
    pub fn add_root(&mut self, hash: TxHash)
        requires
            old(self).inv(),
        ensures
            final(self).inv(),
            final(self)@ == (TangleView { roots: old(self)@.roots.insert(hash), ..old(self)@ }),
            old(self)@.evolves_to(final(self)@),
    {
        if !list_contains(&self.roots, &hash) {
            self.roots.push(hash);
            proof {
                assert forall|h: TxHash| self.roots@.contains(h) <==> old(self).roots@.contains(h) || h == hash by {
                    vstd::seq_lib::lemma_seq_contains_after_push(old(self).roots@, hash, h);
                }
            }
        }
        proof {
            assert(self@.roots =~= old(self)@.roots.insert(hash));
            let before = old(self)@;
            let after = self@;
            assert forall|h: TxHash| #[trigger] after.is_solid(h) implies after.is_ready(h) by {
                assert(before.is_solid(h));
            }
            assert forall|p: TxHash, c: TxHash|
                #![trigger after.lists(p, c)]
                #![trigger after.approves(c, p)]
                after.lists(p, c) <==> after.approves(c, p) by {
                assert(before.lists(p, c) <==> before.approves(c, p));
            }
        }
    }

    /// Whether `hash` was declared a root.
    pub fn is_root(&self, hash: &TxHash) -> (root: bool)
        ensures
            root == self@.roots.contains(*hash),
    {
        list_contains(&self.roots, hash)
    }

    /// Stores the vertex `hash` with parents `trunk` and `branch`, registers
    /// it as an approver of both, and hands back the stored vertex together
    /// with the propagation request that the caller must enqueue.
    ///
    /// The first insertion of a hash wins: when `hash` is already stored the
    /// graph is left exactly as it is, whatever the other arguments say.
    pub fn insert(&mut self, hash: TxHash, trunk: TxHash, branch: TxHash, payload: Vec<u8>) -> (inserted: (Vertex, Request))
        requires
            old(self).inv(),
        ensures
            final(self).inv(),
            inserted.1 == Request::Work(hash),
            final(self)@.has(hash) && inserted.0@ == final(self)@.vertices[hash],
            old(self)@.has(hash) ==> final(self)@ == old(self)@,
            !old(self)@.has(hash) ==> final(self)@ == (TangleView {
                vertices: old(self)@.vertices.insert(
                    hash,
                    VertexView { hash, trunk, branch, solid: false, payload: payload@ },
                ),
                approvers: with_approver(with_approver(old(self)@.approvers, trunk, hash), branch, hash),
                roots: old(self)@.roots,
            }),
            old(self)@.evolves_to(final(self)@),
    {
        match self.vertices.get(&hash) {
            Some(existing) => (existing, Request::Work(hash)),
            None => {
                let vertex = self.vertices.insert_or_get(hash, trunk, branch, payload);
                self.approvers.add_approver(trunk, hash);
                self.approvers.add_approver(branch, hash);
                proof {
                    let before = old(self)@;
                    let after = self@;
                    let middle = with_approver(before.approvers, trunk, hash);
                    assert forall|p: TxHash, c: TxHash|
                        after.lists(p, c) <==> before.lists(p, c) || (c == hash && (p == trunk || p == branch)) by {
                        lemma_with_approver_lists(before.approvers, trunk, hash, p, c);
                        lemma_with_approver_lists(middle, branch, hash, p, c);
                    }
                    assert forall|h: TxHash| #[trigger] after.is_solid(h) implies after.is_ready(h) by {
                        assert(before.is_solid(h));
                        assert(before.is_ready(h));
                    }
                    assert forall|p: TxHash, c: TxHash|
                        #![trigger after.lists(p, c)]
                        #![trigger after.approves(c, p)]
                        after.lists(p, c) <==> after.approves(c, p) by {
                        assert(before.lists(p, c) <==> before.approves(c, p));
                    }
                }
                (vertex, Request::Work(hash))
            },
        }
    }

    /// The vertex store, for reading.
    pub fn vertices(&self) -> (store: &VertexStore)
        ensures
            store@ == self@.vertices,
            self.inv() ==> store.wf(),
    {
        &self.vertices
    }

    /// The approver index, for reading.
    pub fn approvers(&self) -> (index: &ApproverIndex)
        ensures
            index@ == self@.approvers,
            self.inv() ==> index.wf(),
    {
        &self.approvers
    }

    /// A copy of the vertex stored under `hash`, if there is one.
    pub fn get(&self, hash: &TxHash) -> (found: Option<Vertex>)
        ensures
            match found {
                Some(vertex) => self@.has(*hash) && vertex@ == self@.vertices[*hash],
                None => !self@.has(*hash),
            },
    {
        self.vertices.get(hash)
    }

    /// Whether the vertex stored under `hash` is solid; false when the hash
    /// is unknown.
    pub fn is_solid(&self, hash: &TxHash) -> (solid: bool)
        ensures
            solid == self@.is_solid(*hash),
    {
        self.vertices.is_solid(hash)
    }

    /// Whether `hash` counts as resolved when named as a parent: it is a
    /// root, or its stored vertex is solid.
    pub fn is_ancestor_solid(&self, hash: &TxHash) -> (resolved: bool)
        ensures
            resolved == self@.is_ancestor_solid(*hash),
    {
        self.is_root(hash) || self.vertices.is_solid(hash)
    }

    /// The approvers registered for `hash`, each once; empty when there are
    /// none.
    pub fn get_approvers(&self, hash: &TxHash) -> (approvers: Vec<TxHash>)
        ensures
            approvers@ == self@.approvers_of(*hash),
            self.inv() ==> approvers@.no_duplicates(),
    {
        self.approvers.get_approvers(hash)
    }

    /// Marks the vertex under `hash` solid if it is stored and both of its
    /// parents are resolved, and tells whether it did. Otherwise the graph is
    /// left as it is: an unknown hash or an unresolved parent is no error.
    pub(crate) fn solidify(&mut self, hash: &TxHash) -> (marked: bool)
        requires
            old(self).inv(),
        ensures
            final(self).inv(),
            marked == old(self)@.is_ready(*hash),
            final(self)@ == if marked { old(self)@.solidified(*hash) } else { old(self)@ },
            final(self).counted() == old(self).counted() + if marked && !old(self)@.is_solid(*hash) { 1nat } else { 0nat },
            old(self)@.evolves_to(final(self)@),
    {
        match self.vertices.get(hash) {
            None => false,
            Some(vertex) => {
                let trunk = vertex.trunk();
                let branch = vertex.branch();
                if self.is_ancestor_solid(&trunk) && self.is_ancestor_solid(&branch) {
                    self.vertices.mark_solid(hash);
                    proof {
                        let before = old(self)@;
                        let after = self@;
                        assert forall|h: TxHash| #[trigger] after.is_solid(h) implies after.is_ready(h) by {
                            if h != *hash {
                                assert(before.is_solid(h));
                                assert(before.is_ready(h));
                            }
                        }
                        assert forall|p: TxHash, c: TxHash|
                            #![trigger after.lists(p, c)]
                            #![trigger after.approves(c, p)]
                            after.lists(p, c) <==> after.approves(c, p) by {
                            assert(before.lists(p, c) <==> before.approves(c, p));
                        }
                    }
                    true
                } else {
                    false
                }
            },
        }
    }

    /// The number of vertices stored.
    pub fn len(&self) -> (count: usize)
        ensures
            count == self@.vertices.dom().len(),
    {
        self.vertices.len()
    }

    /// The number of solid transitions so far: how often a vertex went from
    /// not solid to solid. It never decreases, and it equals the number of
    /// solid vertices.
    pub fn solid_transitions(&self) -> (count: usize)
        ensures
            count == self.counted(),
            self.inv() ==> count == self@.solid_set().len(),
    {
        self.vertices.solid_transitions()
    }
}

} // verus!
