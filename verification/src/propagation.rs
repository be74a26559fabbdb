//! What one run of propagation does to the graph, stated without reference
//! to how the run is carried out.

use vstd::prelude::*;
use crate::hash::TxHash;
use crate::tangle::TangleView;

verus! {

impl TangleView {
    /// The graph with every stored vertex whose hash is in `marked` made
    /// solid, and nothing else changed.
    pub open spec fn solidified_all(self, marked: Set<TxHash>) -> TangleView {
        TangleView {
            vertices: Map::new(
                |hash: TxHash| self.has(hash),
                |hash: TxHash|
                    if marked.contains(hash) {
                        self.vertices[hash].solidified()
                    } else {
                        self.vertices[hash]
                    },
            ),
            ..self
        }
    }

    /// One of the first `upto` hashes of `marked` lists `hash` as an
    /// approver.
    pub open spec fn reached(self, marked: Seq<TxHash>, upto: int, hash: TxHash) -> bool {
        exists|j: int| 0 <= j < upto && j < marked.len() && #[trigger] self.lists(marked[j], hash)
    }

    /// `marked` is an order in which propagation from `seed` may mark
    /// vertices of this graph solid: it starts at the seed and names no hash
    /// twice; every later hash is an approver of an earlier one; and each
    /// hash, at its turn, is stored with both parents resolved, given the
    /// vertices that were solid at first and those marked before it.
    pub open spec fn admits_run(self, seed: TxHash, marked: Seq<TxHash>) -> bool {
        &&& marked.no_duplicates()
        &&& marked.len() > 0 ==> marked[0] == seed
        &&& forall|i: int|
            0 <= i < marked.len() ==> (#[trigger] self.solidified_all(marked.take(i).to_set())).is_ready(marked[i])
        &&& forall|i: int| 0 < i < marked.len() ==> self.reached(marked, i, #[trigger] marked[i])
    }

    /// Nothing is left to do after `marked`: the seed was marked if it could
    /// be, and every approver of a marked vertex that has both parents
    /// resolved in the end was marked as well.
    pub open spec fn run_is_complete(self, seed: TxHash, marked: Seq<TxHash>) -> bool {
        let after = self.solidified_all(marked.to_set());
        &&& self.is_ready(seed) ==> marked.contains(seed)
        &&& forall|parent: TxHash, child: TxHash|
            marked.contains(parent) && #[trigger] self.lists(parent, child) && after.is_ready(child)
                ==> marked.contains(child)
    }

    /// The vertex under `hash` could be marked solid and has not been.
    pub open spec fn is_pending(self, hash: TxHash) -> bool {
        self.is_ready(hash) && !self.is_solid(hash)
    }

    /// Nothing is left to mark: every stored vertex with both parents
    /// resolved is solid.
    pub open spec fn is_settled(self) -> bool {
        forall|hash: TxHash| #[trigger] self.is_ready(hash) ==> self.is_solid(hash)
    }

    /// `after` is this graph after propagation from `seed` has marked the
    /// hashes of `marked`, in that order, and run to its end.
    pub open spec fn propagates_to(self, seed: TxHash, marked: Seq<TxHash>, after: TangleView) -> bool {
        &&& self.admits_run(seed, marked)
        &&& self.run_is_complete(seed, marked)
        &&& after == self.solidified_all(marked.to_set())
    }
}

/// Marking nothing changes nothing.
pub proof fn lemma_solidified_none(graph: TangleView)
    ensures
        graph.solidified_all(Set::empty()) == graph,
{
    assert(graph.solidified_all(Set::empty()).vertices =~= graph.vertices);
}

/// Marking the hashes of a set and then one more hash is marking the set
/// with that hash added.
pub proof fn lemma_solidified_one_more(graph: TangleView, marked: Set<TxHash>, hash: TxHash)
    ensures
        graph.solidified_all(marked).solidified(hash) == graph.solidified_all(marked.insert(hash)),
{
    assert(graph.solidified_all(marked).solidified(hash).vertices =~= graph.solidified_all(
        marked.insert(hash),
    ).vertices);
}

/// Marking more vertices never takes readiness away.
pub proof fn lemma_ready_grows(graph: TangleView, fewer: Set<TxHash>, more: Set<TxHash>, hash: TxHash)
    requires
        fewer.subset_of(more),
        graph.solidified_all(fewer).is_ready(hash),
    ensures
        graph.solidified_all(more).is_ready(hash),
{
    let a = graph.solidified_all(fewer);
    let b = graph.solidified_all(more);
    let trunk = graph.vertices[hash].trunk;
    let branch = graph.vertices[hash].branch;
    assert(a.is_ancestor_solid(trunk));
    assert(a.is_ancestor_solid(branch));
    if a.is_solid(trunk) {
        assert(b.is_solid(trunk));
    }
    if a.is_solid(branch) {
        assert(b.is_solid(branch));
    }
}

/// Marking hashes that are all solid already, or not stored at all, leaves
/// the graph as it is.
pub proof fn lemma_marking_solid_is_noop(graph: TangleView, marked: Set<TxHash>)
    requires
        forall|hash: TxHash| marked.contains(hash) && graph.has(hash) ==> graph.is_solid(hash),
    ensures
        graph.solidified_all(marked) == graph,
{
    assert(graph.solidified_all(marked).vertices =~= graph.vertices);
}

/// Propagation only moves a graph forward.
pub proof fn lemma_marking_evolves(graph: TangleView, marked: Set<TxHash>)
    ensures
        graph.evolves_to(graph.solidified_all(marked)),
{
    let after = graph.solidified_all(marked);
    assert forall|parent: TxHash, child: TxHash| #[trigger]
        graph.lists(parent, child) implies after.lists(parent, child) by {}
}

/// Propagation over vertices that are solid already changes nothing: a run
/// that marks only hashes that were solid before it leaves the graph exactly
/// as it found it.
pub proof fn lemma_propagation_over_solid_is_noop(before: TangleView, seed: TxHash, marked: Seq<TxHash>, after: TangleView)
    requires
        before.propagates_to(seed, marked, after),
        forall|i: int| 0 <= i < marked.len() ==> before.is_solid(#[trigger] marked[i]),
    ensures
        after == before,
{
    lemma_marking_solid_is_noop(before, marked.to_set());
}

/// In a second run from the same seed, the first `upto` hashes marked were
/// all marked by the first run.
pub proof fn lemma_second_run_prefix(
    first: TangleView,
    seed: TxHash,
    marked: Seq<TxHash>,
    second: TangleView,
    again: Seq<TxHash>,
    upto: nat,
)
    requires
        first.propagates_to(seed, marked, second),
        second.admits_run(seed, again),
        upto <= again.len(),
    ensures
        forall|k: int| 0 <= k < upto ==> marked.contains(#[trigger] again[k]),
    decreases upto,
{
    if upto > 0 {
        let k = (upto - 1) as int;
        lemma_second_run_prefix(first, seed, marked, second, again, (upto - 1) as nat);
        let earlier = again.take(k).to_set();
        assert forall|hash: TxHash| earlier.contains(hash) && second.has(hash) implies second.is_solid(hash) by {
            let j = choose|j: int| 0 <= j < again.take(k).len() && again.take(k)[j] == hash;
            assert(again[j] == hash);
            assert(marked.contains(again[j]));
        }
        lemma_marking_solid_is_noop(second, earlier);
        assert(second.is_ready(again[k]));
        if k == 0 {
            assert(again[0] == seed);
            if marked.len() == 0 {
                assert(marked.to_set() =~= Set::<TxHash>::empty());
                lemma_solidified_none(first);
            } else {
                assert(marked[0] == seed);
            }
            assert(marked.contains(seed));
        } else {
            assert(second.reached(again, k, again[k]));
            let j = choose|j: int| 0 <= j < k && j < again.len() && #[trigger] second.lists(again[j], again[k]);
            assert(marked.contains(again[j]));
            assert(first.lists(again[j], again[k]));
        }
    }
}

/// Propagation is idempotent: a second run from the same seed, right after
/// the first, marks only what the first run marked and leaves the graph
/// exactly as the first run left it.
pub proof fn lemma_propagation_is_idempotent(
    first: TangleView,
    seed: TxHash,
    marked: Seq<TxHash>,
    second: TangleView,
    again: Seq<TxHash>,
    third: TangleView,
)
    requires
        first.propagates_to(seed, marked, second),
        second.propagates_to(seed, again, third),
    ensures
        third == second,
        forall|k: int| 0 <= k < again.len() ==> marked.contains(#[trigger] again[k]),
{
    lemma_second_run_prefix(first, seed, marked, second, again, again.len());
    assert forall|hash: TxHash| again.to_set().contains(hash) && second.has(hash) implies second.is_solid(hash) by {
        let j = choose|j: int| 0 <= j < again.len() && again[j] == hash;
        assert(marked.contains(again[j]));
    }
    lemma_marking_solid_is_noop(second, again.to_set());
}

/// Of two runs from the same seed over the same graph, the first `upto`
/// hashes marked by the one are all marked by the other.
pub proof fn lemma_other_run_prefix(
    before: TangleView,
    seed: TxHash,
    marked: Seq<TxHash>,
    other: Seq<TxHash>,
    upto: nat,
)
    requires
        before.admits_run(seed, marked),
        before.run_is_complete(seed, marked),
        before.admits_run(seed, other),
        upto <= other.len(),
    ensures
        forall|k: int| 0 <= k < upto ==> marked.contains(#[trigger] other[k]),
    decreases upto,
{
    if upto > 0 {
        let k = (upto - 1) as int;
        lemma_other_run_prefix(before, seed, marked, other, (upto - 1) as nat);
        let earlier = other.take(k).to_set();
        assert(before.solidified_all(earlier).is_ready(other[k]));
        assert(earlier.subset_of(marked.to_set())) by {
            assert forall|hash: TxHash| earlier.contains(hash) implies marked.to_set().contains(hash) by {
                let j = choose|j: int| 0 <= j < other.take(k).len() && other.take(k)[j] == hash;
                assert(other[j] == hash);
                assert(marked.contains(other[j]));
            }
        }
        lemma_ready_grows(before, earlier, marked.to_set(), other[k]);
        if k == 0 {
            assert(earlier =~= Set::<TxHash>::empty());
            lemma_solidified_none(before);
            assert(before.is_ready(seed));
        } else {
            assert(before.reached(other, k, other[k]));
            let j = choose|j: int| 0 <= j < k && j < other.len() && #[trigger] before.lists(other[j], other[k]);
            assert(marked.contains(other[j]));
        }
    }
}

/// The outcome of propagation does not depend on the order in which the
/// candidates are looked at: any two complete runs from the same seed over
/// the same graph mark the same set of hashes and end in the same graph.
pub proof fn lemma_propagation_is_determined(
    before: TangleView,
    seed: TxHash,
    marked: Seq<TxHash>,
    after: TangleView,
    other_marked: Seq<TxHash>,
    other_after: TangleView,
)
    requires
        before.propagates_to(seed, marked, after),
        before.propagates_to(seed, other_marked, other_after),
    ensures
        marked.to_set() == other_marked.to_set(),
        after == other_after,
{
    lemma_other_run_prefix(before, seed, marked, other_marked, other_marked.len());
    lemma_other_run_prefix(before, seed, other_marked, marked, marked.len());
    assert(marked.to_set() =~= other_marked.to_set()) by {
        assert forall|hash: TxHash| marked.to_set().contains(hash) <==> other_marked.to_set().contains(hash) by {
            if marked.contains(hash) {
                let i = choose|i: int| 0 <= i < marked.len() && marked[i] == hash;
                assert(other_marked.contains(marked[i]));
            }
            if other_marked.contains(hash) {
                let i = choose|i: int| 0 <= i < other_marked.len() && other_marked[i] == hash;
                assert(marked.contains(other_marked[i]));
            }
        }
    }
}

/// A run of propagation leaves nothing behind: whatever could be marked
/// after the run could be marked before it already, and is not the seed.
/// So the vertices that wait for a request only ever get fewer by running
/// requests, in whatever order they are run.
pub proof fn lemma_run_clears_pending(
    before: TangleView,
    seed: TxHash,
    marked: Seq<TxHash>,
    after: TangleView,
    hash: TxHash,
)
    requires
        before.wf(),
        before.propagates_to(seed, marked, after),
        after.is_pending(hash),
    ensures
        before.is_pending(hash),
        hash != seed,
{
    lemma_marked_are_solid(before, seed, marked, after);
    let trunk = before.vertices[hash].trunk;
    let branch = before.vertices[hash].branch;
    if !before.is_ready(hash) {
        let parent = if !before.is_ancestor_solid(trunk) {
            trunk
        } else {
            branch
        };
        assert(after.is_solid(parent) && !before.is_solid(parent));
        assert(marked.to_set().contains(parent));
        assert(before.approves(hash, parent));
        assert(before.lists(parent, hash));
        assert(marked.contains(hash));
    }
    if marked.contains(hash) {
        let i = choose|i: int| 0 <= i < marked.len() && marked[i] == hash;
        assert(after.is_solid(marked[i]));
    }
}

/// Insertion followed by its propagation request keeps the graph settled,
/// whatever the order of arrival: if nothing was left to mark before a
/// vertex was inserted, nothing is left to mark once propagation from that
/// vertex has run. A vertex that arrives before its parents stays unsolid
/// until the request of the last missing parent reaches it; a vertex that
/// arrives after them turns solid with its own request.
pub proof fn lemma_request_after_insert_settles(
    before: TangleView,
    inserted: TangleView,
    hash: TxHash,
    marked: Seq<TxHash>,
    after: TangleView,
)
    requires
        before.is_settled(),
        inserted.wf(),
        inserted.roots == before.roots,
        inserted.vertices == before.vertices || (!before.has(hash) && inserted.has(hash)
            && !inserted.vertices[hash].solid && inserted.vertices == before.vertices.insert(
            hash,
            inserted.vertices[hash],
        )),
        inserted.propagates_to(hash, marked, after),
    ensures
        after.is_settled(),
{
    lemma_marked_are_solid(inserted, hash, marked, after);
    assert forall|child: TxHash| #[trigger] after.is_ready(child) implies after.is_solid(child) by {
        let trunk = inserted.vertices[child].trunk;
        let branch = inserted.vertices[child].branch;
        if inserted.is_ready(child) {
            if child == hash {
                assert(marked.contains(hash));
                let i = choose|i: int| 0 <= i < marked.len() && marked[i] == hash;
                assert(after.is_solid(marked[i]));
            } else {
                assert(before.is_ready(child)) by {
                    if inserted.is_solid(trunk) {
                        assert(before.is_solid(trunk));
                    }
                    if inserted.is_solid(branch) {
                        assert(before.is_solid(branch));
                    }
                }
                assert(before.is_solid(child));
            }
        } else {
            let parent = if !inserted.is_ancestor_solid(trunk) {
                trunk
            } else {
                branch
            };
            assert(after.is_solid(parent) && !inserted.is_solid(parent));
            assert(marked.to_set().contains(parent));
            assert(inserted.approves(child, parent));
            assert(inserted.lists(parent, child));
            assert(marked.contains(child));
            let i = choose|i: int| 0 <= i < marked.len() && marked[i] == child;
            assert(after.is_solid(marked[i]));
        }
    }
}

/// A run of propagation visits each vertex at most once, and only vertices
/// that are stored: it marks no more hashes than the graph has vertices.
pub proof fn lemma_run_is_bounded(before: TangleView, seed: TxHash, marked: Seq<TxHash>)
    requires
        before.vertices.dom().finite(),
        before.admits_run(seed, marked),
    ensures
        marked.no_duplicates(),
        forall|i: int| 0 <= i < marked.len() ==> before.has(#[trigger] marked[i]),
        marked.len() <= before.vertices.dom().len(),
{
    assert forall|i: int| 0 <= i < marked.len() implies before.has(#[trigger] marked[i]) by {
        assert(before.solidified_all(marked.take(i).to_set()).is_ready(marked[i]));
    }
    marked.unique_seq_to_set();
    assert(marked.to_set().subset_of(before.vertices.dom())) by {
        assert forall|hash: TxHash| marked.to_set().contains(hash) implies before.vertices.dom().contains(hash) by {
            let i = choose|i: int| 0 <= i < marked.len() && marked[i] == hash;
            assert(before.has(marked[i]));
        }
    }
    vstd::set_lib::lemma_len_subset(marked.to_set(), before.vertices.dom());
}

/// Every hash that a run marks is solid afterwards, and was stored with
/// both parents resolved when the run ended.
pub proof fn lemma_marked_are_solid(before: TangleView, seed: TxHash, marked: Seq<TxHash>, after: TangleView)
    requires
        before.propagates_to(seed, marked, after),
    ensures
        forall|i: int| 0 <= i < marked.len() ==> after.is_solid(#[trigger] marked[i]) && after.is_ready(marked[i]),
{
    assert forall|i: int| 0 <= i < marked.len() implies after.is_solid(#[trigger] marked[i]) && after.is_ready(
        marked[i],
    ) by {
        assert(before.solidified_all(marked.take(i).to_set()).is_ready(marked[i]));
        assert(marked.take(i).to_set().subset_of(marked.to_set())) by {
            assert forall|hash: TxHash| marked.take(i).to_set().contains(hash) implies marked.to_set().contains(
                hash,
            ) by {
                let j = choose|j: int| 0 <= j < marked.take(i).len() && marked.take(i)[j] == hash;
                assert(marked[j] == hash);
            }
        }
        lemma_ready_grows(before, marked.take(i).to_set(), marked.to_set(), marked[i]);
        assert(marked.contains(marked[i]));
    }
}

} // verus!
