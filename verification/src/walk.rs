//! The invariant of the propagation walk, and the proofs that each step of
//! the walk keeps it.

use vstd::prelude::*;
use vstd::set_lib::lemma_len_subset;
use crate::hash::TxHash;
use crate::propagation::{lemma_marking_evolves, lemma_solidified_none, lemma_solidified_one_more};
use crate::tangle::TangleView;

verus! {

/// What holds between two steps of a walk from `seed` over the graph
/// `before`: `visited` are the hashes marked so far, in order, `stack` the
/// candidates still to be looked at, and `graph` the graph as it is now.
pub open spec fn walk_inv(
    before: TangleView,
    seed: TxHash,
    visited: Seq<TxHash>,
    stack: Seq<TxHash>,
    graph: TangleView,
) -> bool {
    &&& before.wf()
    &&& graph == before.solidified_all(visited.to_set())
    &&& visited.no_duplicates()
    &&& forall|i: int| 0 <= i < visited.len() ==> before.has(#[trigger] visited[i])
    &&& visited.len() > 0 ==> visited[0] == seed
    &&& visited.len() == 0 ==> stack =~= seq![seed] || (stack.len() == 0 && !before.is_ready(seed))
    &&& forall|i: int|
        0 <= i < visited.len() ==> (#[trigger] before.solidified_all(visited.take(i).to_set())).is_ready(visited[i])
    &&& forall|i: int| 0 < i < visited.len() ==> before.reached(visited, i, #[trigger] visited[i])
    &&& visited.len() > 0 ==> forall|k: int|
        0 <= k < stack.len() ==> before.reached(visited, visited.len() as int, #[trigger] stack[k])
    &&& forall|parent: TxHash, child: TxHash|
        visited.contains(parent) && #[trigger] before.lists(parent, child) ==> visited.contains(child)
            || stack.contains(child) || !graph.is_ready(child)
}

/// A walk starts with nothing marked and the seed as its only candidate.
pub proof fn lemma_walk_start(before: TangleView, seed: TxHash)
    requires
        before.wf(),
    ensures
        walk_inv(before, seed, Seq::empty(), seq![seed], before),
{
    lemma_solidified_none(before);
    assert(Seq::<TxHash>::empty().to_set() =~= Set::<TxHash>::empty());
}

/// The hashes marked so far are distinct stored hashes, so there are no
/// more of them than there are vertices.
pub proof fn lemma_walk_bound(before: TangleView, seed: TxHash, visited: Seq<TxHash>, stack: Seq<TxHash>, graph: TangleView)
    requires
        walk_inv(before, seed, visited, stack, graph),
    ensures
        visited.len() <= before.vertices.dom().len(),
{
    visited.unique_seq_to_set();
    assert(visited.to_set().subset_of(before.vertices.dom())) by {
        assert forall|hash: TxHash| visited.to_set().contains(hash) implies before.vertices.dom().contains(hash) by {
            let i = choose|i: int| 0 <= i < visited.len() && visited[i] == hash;
            assert(before.has(visited[i]));
        }
    }
    lemma_len_subset(visited.to_set(), before.vertices.dom());
}

/// Dropping a candidate that was marked before, or that cannot be marked
/// now, keeps the invariant.
pub proof fn lemma_walk_skip(
    before: TangleView,
    seed: TxHash,
    visited: Seq<TxHash>,
    stack: Seq<TxHash>,
    candidate: TxHash,
    graph: TangleView,
)
    requires
        walk_inv(before, seed, visited, stack.push(candidate), graph),
        visited.contains(candidate) || !graph.is_ready(candidate),
    ensures
        walk_inv(before, seed, visited, stack, graph),
{
    let full = stack.push(candidate);
    if visited.len() == 0 {
        assert(full =~= seq![seed]);
        assert(full.len() == 1);
        assert(stack.len() == 0);
        assert(full[0] == candidate);
        lemma_solidified_none(before);
        assert(visited.to_set() =~= Set::<TxHash>::empty());
    } else {
        assert forall|k: int| 0 <= k < stack.len() implies before.reached(
            visited,
            visited.len() as int,
            #[trigger] stack[k],
        ) by {
            assert(full[k] == stack[k]);
        }
    }
    assert forall|parent: TxHash, child: TxHash|
        visited.contains(parent) && #[trigger] before.lists(parent, child) implies visited.contains(child)
        || stack.contains(child) || !graph.is_ready(child) by {
        if full.contains(child) {
            vstd::seq_lib::lemma_seq_contains_after_push(stack, candidate, child);
        }
    }
}

/// Marking a candidate that was not marked before and can be marked now,
/// and adding its approvers to the candidates, keeps the invariant.
pub proof fn lemma_walk_mark(
    before: TangleView,
    seed: TxHash,
    visited: Seq<TxHash>,
    stack: Seq<TxHash>,
    candidate: TxHash,
    graph: TangleView,
)
    requires
        walk_inv(before, seed, visited, stack.push(candidate), graph),
        !visited.contains(candidate),
        graph.is_ready(candidate),
    ensures
        walk_inv(
            before,
            seed,
            visited.push(candidate),
            stack + before.approvers_of(candidate),
            graph.solidified(candidate),
        ),
{
    let full = stack.push(candidate);
    let longer = visited.push(candidate);
    let listed = before.approvers_of(candidate);
    let next_stack = stack + listed;
    let next = graph.solidified(candidate);
    let n = visited.len() as int;

    assert(longer.to_set() =~= visited.to_set().insert(candidate)) by {
        assert forall|hash: TxHash| longer.contains(hash) <==> visited.contains(hash) || hash == candidate by {
            vstd::seq_lib::lemma_seq_contains_after_push(visited, candidate, hash);
        }
    }
    lemma_solidified_one_more(before, visited.to_set(), candidate);
    assert(next == before.solidified_all(longer.to_set()));

    assert(longer.no_duplicates());
    assert(before.has(candidate));
    assert forall|i: int| 0 <= i < longer.len() implies before.has(#[trigger] longer[i]) by {
        if i < n {
            assert(longer[i] == visited[i]);
        }
    }
    if n == 0 {
        assert(full =~= seq![seed]);
        assert(full[0] == candidate);
    } else {
        assert(longer[0] == visited[0]);
    }

    assert forall|i: int| 0 <= i < longer.len() implies (#[trigger] before.solidified_all(
        longer.take(i).to_set(),
    )).is_ready(longer[i]) by {
        if i < n {
            assert(longer.take(i) =~= visited.take(i));
            assert(longer[i] == visited[i]);
        } else {
            assert(longer.take(i) =~= visited);
        }
    }

    assert forall|i: int| 0 < i < longer.len() implies before.reached(longer, i, #[trigger] longer[i]) by {
        if i < n {
            assert(before.reached(visited, i, visited[i]));
            let j = choose|j: int| 0 <= j < i && j < visited.len() && #[trigger] before.lists(visited[j], visited[i]);
            assert(before.lists(longer[j], longer[i]));
        } else {
            assert(before.reached(visited, n, full[stack.len() as int]));
            let j = choose|j: int| 0 <= j < n && j < visited.len() && #[trigger] before.lists(visited[j], candidate);
            assert(before.lists(longer[j], longer[i]));
        }
    }

    assert forall|k: int| 0 <= k < next_stack.len() implies before.reached(
        longer,
        longer.len() as int,
        #[trigger] next_stack[k],
    ) by {
        if k < stack.len() {
            assert(next_stack[k] == full[k]);
            assert(n > 0) by {
                if n == 0 {
                    assert(full.len() == 1);
                }
            }
            assert(before.reached(visited, n, full[k]));
            let j = choose|j: int| 0 <= j < n && j < visited.len() && #[trigger] before.lists(visited[j], full[k]);
            assert(before.lists(longer[j], next_stack[k]));
        } else {
            assert(next_stack[k] == listed[k - stack.len()]);
            assert(listed.contains(next_stack[k]));
            assert(before.lists(longer[n], next_stack[k]));
        }
    }

    assert forall|parent: TxHash, child: TxHash|
        longer.contains(parent) && #[trigger] before.lists(parent, child) implies longer.contains(child)
        || next_stack.contains(child) || !next.is_ready(child) by {
        vstd::seq_lib::lemma_seq_contains_after_push(visited, candidate, parent);
        vstd::seq_lib::lemma_seq_contains_after_push(visited, candidate, child);
        if parent == candidate {
            let k = choose|k: int| 0 <= k < listed.len() && listed[k] == child;
            assert(next_stack[stack.len() + k] == child);
        } else {
            if visited.contains(child) {
            } else if full.contains(child) {
                vstd::seq_lib::lemma_seq_contains_after_push(stack, candidate, child);
                if stack.contains(child) {
                    let k = choose|k: int| 0 <= k < stack.len() && stack[k] == child;
                    assert(next_stack[k] == child);
                }
            } else if next.is_ready(child) {
                assert(!graph.is_ready(child));
                assert(before.approves(child, candidate));
                assert(before.lists(candidate, child));
                let k = choose|k: int| 0 <= k < listed.len() && listed[k] == child;
                assert(next_stack[stack.len() + k] == child);
            }
        }
    }
}

/// When no candidate is left the walk has done all that propagation asks
/// for, and the graph has only moved forward.
pub proof fn lemma_walk_end(before: TangleView, seed: TxHash, visited: Seq<TxHash>, graph: TangleView)
    requires
        walk_inv(before, seed, visited, Seq::empty(), graph),
    ensures
        before.propagates_to(seed, visited, graph),
        before.evolves_to(graph),
        before.is_ready(seed) ==> graph.is_solid(seed),
{
    if before.is_ready(seed) {
        assert(visited.len() > 0);
        assert(visited[0] == seed);
        assert(visited.contains(seed));
    }
    lemma_marking_evolves(before, visited.to_set());
}

} // verus!
