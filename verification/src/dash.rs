//! The two concurrent maps of the graph, as `dashmap` provides them.
//!
//! Nothing in this file is proved. Each function below makes one call into
//! `dashmap` and states what that call does to the entries of the map; the
//! rest of the crate is verified against these statements. Every function
//! that changes a map takes it by unique reference, so no other holder can
//! touch the entries while the call runs. The maps are keyed by the trits of
//! a hash, an array of integers, which the standard library compares and
//! hashes element by element.

use vstd::prelude::*;
use dashmap::DashMap;
use crate::hash::{TxHash, HASH_LENGTH};
use crate::vertex::{Vertex, VertexView};

verus! {

/// `dashmap::DashMap`. The verifier sees nothing inside it; what it holds is
/// named by [`vertex_entries`] and [`approver_entries`].
#[verifier::external_type_specification]
#[verifier::external_body]
#[verifier::reject_recursive_types(K)]
#[verifier::reject_recursive_types(V)]
#[verifier::reject_recursive_types(S)]
pub struct ExDashMap<K, V, S>(dashmap::DashMap<K, V, S>);

/// The entries of a vertex map: which hashes it holds, and the vertex stored
/// under each.
pub uninterp spec fn vertex_entries(map: DashMap<[i8; HASH_LENGTH], Vertex>) -> Map<TxHash, VertexView>;

/// The entries of an approver map: which hashes it holds, and the list of
/// approvers stored under each.
pub uninterp spec fn approver_entries(map: DashMap<[i8; HASH_LENGTH], Vec<TxHash>>) -> Map<TxHash, Seq<TxHash>>;

/// `DashMap::new`: a map with no entries.
#[verifier::external_body]
pub(crate) fn vertex_map_new() -> (created: DashMap<[i8; HASH_LENGTH], Vertex>)
    ensures
        vertex_entries(created) == (Map::<TxHash, VertexView>::empty()),
{
    DashMap::new()
}

/// `DashMap::len`: the number of entries.
#[verifier::external_body]
pub(crate) fn vertex_map_len(map: &DashMap<[i8; HASH_LENGTH], Vertex>) -> (count: usize)
    ensures
        count == vertex_entries(*map).dom().len(),
{
    map.len()
}

/// `DashMap::get`, followed by a copy of the value found: the vertex stored
/// under `hash`, or `None` when the map has no entry for it.
#[verifier::external_body]
pub(crate) fn vertex_map_get(map: &DashMap<[i8; HASH_LENGTH], Vertex>, hash: &TxHash) -> (found: Option<Vertex>)
    ensures
        match found {
            Some(vertex) => vertex_entries(*map).contains_key(*hash)
                && vertex@ == vertex_entries(*map)[*hash],
            None => !vertex_entries(*map).contains_key(*hash),
        },
{
    map.get(&hash.0).map(|entry| entry.value().clone())
}

/// `DashMap::insert`: afterwards `hash` maps to `vertex`, whether or not it
/// had an entry before, and every other entry is as it was.
#[verifier::external_body]
pub(crate) fn vertex_map_insert(map: &mut DashMap<[i8; HASH_LENGTH], Vertex>, hash: TxHash, vertex: Vertex)
    ensures
        vertex_entries(*final(map)) == vertex_entries(*old(map)).insert(hash, vertex@),
{
    map.insert(hash.0, vertex);
}

/// `DashMap::new`: a map with no entries.
#[verifier::external_body]
pub(crate) fn approver_map_new() -> (created: DashMap<[i8; HASH_LENGTH], Vec<TxHash>>)
    ensures
        approver_entries(created) == (Map::<TxHash, Seq<TxHash>>::empty()),
{
    DashMap::new()
}

/// `DashMap::get`, followed by a copy of the value found: the list stored
/// under `hash`, or `None` when the map has no entry for it.
#[verifier::external_body]
pub(crate) fn approver_map_get(map: &DashMap<[i8; HASH_LENGTH], Vec<TxHash>>, hash: &TxHash) -> (found: Option<Vec<TxHash>>)
    ensures
        match found {
            Some(approvers) => approver_entries(*map).contains_key(*hash)
                && approvers@ == approver_entries(*map)[*hash],
            None => !approver_entries(*map).contains_key(*hash),
        },
{
    map.get(&hash.0).map(|entry| entry.value().clone())
}

/// `DashMap::insert`: afterwards `hash` maps to `approvers`, whether or not
/// it had an entry before, and every other entry is as it was.
#[verifier::external_body]
pub(crate) fn approver_map_insert(map: &mut DashMap<[i8; HASH_LENGTH], Vec<TxHash>>, hash: TxHash, approvers: Vec<TxHash>)
    ensures
        approver_entries(*final(map)) == approver_entries(*old(map)).insert(hash, approvers@),
{
    map.insert(hash.0, approvers);
}

} // verus!
