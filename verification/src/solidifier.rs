//! The solidification engine: it walks the graph forward from a requested
//! hash and marks solid whatever has become markable.

use vstd::prelude::*;
use crate::hash::{list_contains, TxHash};
use crate::request::Request;
use crate::tangle::Tangle;
use crate::walk::{lemma_walk_bound, lemma_walk_end, lemma_walk_mark, lemma_walk_skip, lemma_walk_start, walk_inv};

verus! {

/// What the loop around the engine has to do after a request was handled.
#[derive(Debug)]
pub enum Control {
    /// The request was carried out and marked these hashes, in this order;
    /// receive the next request.
    Continue(Vec<TxHash>),
    /// The engine has stopped. Receive nothing more: wait at the shutdown
    /// barrier, then exit.
    Shutdown,
}

/// The state of the engine. It starts out running and stops for good when
/// it is handed [`Request::Stop`]; a stopped engine never touches a graph
/// again.
pub struct SolidifierState {
    stopped: bool,
}

impl SolidifierState {
    /// Whether the stop signal has been consumed.
    pub closed spec fn stopped(&self) -> bool {
        self.stopped
    }

    /// A running engine.
    pub fn new() -> (state: SolidifierState)
        ensures
            !state.stopped(),
    {
        SolidifierState { stopped: false }
    }

    /// Whether the stop signal has been consumed.
    pub fn is_stopped(&self) -> (stopped: bool)
        ensures
            stopped == self.stopped(),
    {
        self.stopped
    }

    /// Propagates solidity forward from `hash` and returns the hashes it
    /// marked, in the order in which it marked them.
    ///
    /// The vertex under `hash` is marked if it is stored and both of its
    /// parents are resolved; then so is every approver of a marked vertex of
    /// which the same holds, and so on until nothing more can be marked. An
    /// unknown hash or an unresolved parent ends that branch of the walk and
    /// is no error. No hash is visited twice, so the walk ends even on a
    /// graph that is not acyclic. A stopped engine marks nothing.
    pub fn propagate(&self, tangle: &mut Tangle, hash: TxHash) -> (marked: Vec<TxHash>)
        requires
            old(tangle).inv(),
        ensures
            final(tangle).inv(),
            old(tangle)@.evolves_to(final(tangle)@),
            self.stopped() ==> marked@.len() == 0 && final(tangle)@ == old(tangle)@,
            !self.stopped() ==> old(tangle)@.propagates_to(hash, marked@, final(tangle)@),
            !self.stopped() && old(tangle)@.is_ready(hash) ==> final(tangle)@.is_solid(hash),
            forall|i: int| 0 <= i < marked@.len() ==> old(tangle)@.has(#[trigger] marked@[i]),
            marked@.len() <= old(tangle)@.vertices.dom().len(),
    {
        let mut visited: Vec<TxHash> = Vec::new();
        if self.stopped {
            proof {
                tangle.lemma_inv();
            }
            return visited;
        }
        let mut stack: Vec<TxHash> = Vec::new();
        stack.push(hash);
        let ghost before = tangle@;
        proof {
            tangle.lemma_inv();
            lemma_walk_start(before, hash);
            assert(stack@ =~= seq![hash]);
            assert(visited@ =~= Seq::<TxHash>::empty());
        }
        while stack.len() > 0
            invariant
                tangle.inv(),
                walk_inv(before, hash, visited@, stack@, tangle@),
            decreases before.vertices.dom().len() - visited@.len(), stack@.len(),
        {
            let ghost candidates = stack@;
            let ghost graph = tangle@;
            let current = stack.pop().unwrap();
            assert(candidates =~= stack@.push(current));
            proof {
                lemma_walk_bound(before, hash, visited@, candidates, graph);
            }
            if !list_contains(&visited, &current) && tangle.solidify(&current) {
                proof {
                    lemma_walk_mark(before, hash, visited@, stack@, current, graph);
                    lemma_walk_bound(
                        before,
                        hash,
                        visited@.push(current),
                        stack@ + before.approvers_of(current),
                        graph.solidified(current),
                    );
                }
                visited.push(current);
                let mut approvers = tangle.get_approvers(&current);
                stack.append(&mut approvers);
            } else {
                proof {
                    lemma_walk_skip(before, hash, visited@, stack@, current, graph);
                }
            }
        }
        proof {
            assert(stack@ =~= Seq::<TxHash>::empty());
            lemma_walk_end(before, hash, visited@, tangle@);
            lemma_walk_bound(before, hash, visited@, stack@, tangle@);
        }
        visited
    }

    /// Handles one request from the queue and tells the loop what to do
    /// next. Work is propagated; the stop signal stops the engine for good.
    /// A request that arrives after the stop signal is dropped: the graph
    /// stays as it is.
    pub fn step(&mut self, tangle: &mut Tangle, request: Request) -> (control: Control)
        requires
            old(tangle).inv(),
        ensures
            final(tangle).inv(),
            old(tangle)@.evolves_to(final(tangle)@),
            final(self).stopped() == (old(self).stopped() || request == Request::Stop),
            final(self).stopped() ==> control is Shutdown && final(tangle)@ == old(tangle)@,
            !final(self).stopped() ==> match (request, control) {
                (Request::Work(hash), Control::Continue(marked)) => old(tangle)@.propagates_to(
                    hash,
                    marked@,
                    final(tangle)@,
                ),
                _ => false,
            },
    {
        if self.stopped {
            proof {
                tangle.lemma_inv();
            }
            return Control::Shutdown;
        }
        match request {
            Request::Work(hash) => Control::Continue(self.propagate(tangle, hash)),
            Request::Stop => {
                self.stopped = true;
                proof {
                    tangle.lemma_inv();
                }
                Control::Shutdown
            },
        }
    }
}

} // verus!
