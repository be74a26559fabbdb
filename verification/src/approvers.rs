//! The approver index: for each hash, the hashes of the vertices that name
//! it as a parent.

use vstd::prelude::*;
use dashmap::DashMap;
use crate::dash::{approver_entries, approver_map_get, approver_map_insert, approver_map_new};
use crate::hash::{list_contains, TxHash, HASH_LENGTH};

verus! {

/// The approvers registered for `parent`, in the order in which they were
/// first registered; empty when none were.
pub open spec fn approvers_of(index: Map<TxHash, Seq<TxHash>>, parent: TxHash) -> Seq<TxHash> {
    if index.contains_key(parent) {
        index[parent]
    } else {
        Seq::empty()
    }
}

/// The index after `child` has been registered as an approver of `parent`.
/// Registering a child twice is the same as registering it once.
pub open spec fn with_approver(index: Map<TxHash, Seq<TxHash>>, parent: TxHash, child: TxHash) -> Map<TxHash, Seq<TxHash>> {
    let known = approvers_of(index, parent);
    index.insert(parent, if known.contains(child) { known } else { known.push(child) })
}

/// Registering `child` under `parent` adds exactly that one edge: afterwards
/// `c` is listed under `p` if it was listed before or the pair is the one
/// just registered.
pub proof fn lemma_with_approver_lists(index: Map<TxHash, Seq<TxHash>>, parent: TxHash, child: TxHash, p: TxHash, c: TxHash)
    ensures
        approvers_of(with_approver(index, parent, child), p).contains(c) <==> approvers_of(index, p).contains(c) || (p
            == parent && c == child),
{
    let known = approvers_of(index, parent);
    if p == parent {
        if known.contains(child) {
        } else {
            vstd::seq_lib::lemma_seq_contains_after_push(known, child, c);
        }
    }
}

/// Reverse edges of the graph. The approvers of a hash form a set: no hash
/// is listed twice.
pub struct ApproverIndex {
    approvers: DashMap<[i8; HASH_LENGTH], Vec<TxHash>>,
}

impl View for ApproverIndex {
    type V = Map<TxHash, Seq<TxHash>>;

    closed spec fn view(&self) -> Map<TxHash, Seq<TxHash>> {
        approver_entries(self.approvers)
    }
}

impl ApproverIndex {
    /// No list of approvers names a hash twice.
    pub open spec fn wf(&self) -> bool {
        forall|parent: TxHash| #[trigger] self@.contains_key(parent) ==> self@[parent].no_duplicates()
    }

    /// An index with no entries.
    pub fn new() -> (index: ApproverIndex)
        ensures
            index.wf(),
            index@ == Map::<TxHash, Seq<TxHash>>::empty(),
    {
        ApproverIndex { approvers: approver_map_new() }
    }

    /// Registers `child` as an approver of `parent`. A parent that was never
    /// seen gets its first entry; a child that is already registered is not
    /// added again.
    pub fn add_approver(&mut self, parent: TxHash, child: TxHash)
        requires
            old(self).wf(),
        ensures
            final(self).wf(),
            final(self)@ == with_approver(old(self)@, parent, child),
    {
        let mut known = match approver_map_get(&self.approvers, &parent) {
            Some(known) => known,
            None => Vec::new(),
        };
        assert(known@ == approvers_of(self@, parent));
        if !list_contains(&known, &child) {
            known.push(child);
        }
        approver_map_insert(&mut self.approvers, parent, known);
    }

    /// The approvers registered for `hash`, each once; empty, never a
    /// failure, when there are none.
    pub fn get_approvers(&self, hash: &TxHash) -> (approvers: Vec<TxHash>)
        ensures
            approvers@ == approvers_of(self@, *hash),
            self.wf() ==> approvers@.no_duplicates(),
    {
        match approver_map_get(&self.approvers, hash) {
            Some(approvers) => approvers,
            None => Vec::new(),
        }
    }
}

} // verus!
