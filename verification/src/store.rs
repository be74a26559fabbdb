//! The vertex store: the map from hash to vertex record, and the owner of
//! the solid flag.

use vstd::prelude::*;
use vstd::set_lib::lemma_len_subset;
use dashmap::DashMap;
use crate::dash::{vertex_entries, vertex_map_get, vertex_map_insert, vertex_map_len, vertex_map_new};
use crate::hash::{TxHash, HASH_LENGTH};
use crate::vertex::{Vertex, VertexView};

verus! {

/// The hashes whose stored vertex is solid.
pub open spec fn solid_set(vertices: Map<TxHash, VertexView>) -> Set<TxHash> {
    Set::new(|hash: TxHash| vertices.contains_key(hash) && vertices[hash].solid)
}

/// The vertices after the one stored under `hash`, if any, has been marked
/// solid.
pub open spec fn with_solid(vertices: Map<TxHash, VertexView>, hash: TxHash) -> Map<TxHash, VertexView> {
    if vertices.contains_key(hash) {
        vertices.insert(hash, vertices[hash].solidified())
    } else {
        vertices
    }
}

/// Map from hash to vertex. A vertex, once stored, is never replaced or
/// removed; the only thing that changes about it is its solid flag, and
/// that only from false to true.
pub struct VertexStore {
    vertices: DashMap<[i8; HASH_LENGTH], Vertex>,
    solid_count: usize,
}

impl View for VertexStore {
    type V = Map<TxHash, VertexView>;

    closed spec fn view(&self) -> Map<TxHash, VertexView> {
        vertex_entries(self.vertices)
    }
}

impl VertexStore {
    /// The value of the counter of solid transitions.
    pub closed spec fn counted(&self) -> nat {
        self.solid_count as nat
    }

    /// The store holds finitely many vertices, each under its own hash, and
    /// its counter has counted every vertex that is solid.
    pub open spec fn wf(&self) -> bool {
        &&& self@.dom().finite()
        &&& forall|hash: TxHash| #[trigger] self@.contains_key(hash) ==> self@[hash].hash == hash
        &&& self.counted() == solid_set(self@).len()
    }

    /// An empty store.
    pub fn new() -> (store: VertexStore)
        ensures
            store.wf(),
            store@ == Map::<TxHash, VertexView>::empty(),
            store.counted() == 0,
    {
        let store = VertexStore { vertices: vertex_map_new(), solid_count: 0 };
        assert(solid_set(store@) =~= Set::<TxHash>::empty());
        store
    }

    /// The vertex stored under `hash`, creating it first if there is none.
    /// The first insertion wins: when `hash` is already present the store is
    /// left as it is and the stored vertex is returned, whatever `trunk`,
    /// `branch` and `payload` say. A vertex created here is not solid.
    pub fn insert_or_get(&mut self, hash: TxHash, trunk: TxHash, branch: TxHash, payload: Vec<u8>) -> (vertex: Vertex)
        requires
            old(self).wf(),
        ensures
            final(self).wf(),
            final(self).counted() == old(self).counted(),
            old(self)@.contains_key(hash) ==> final(self)@ == old(self)@ && vertex@ == old(self)@[hash],
            !old(self)@.contains_key(hash) ==> vertex@ == (VertexView {
                hash,
                trunk,
                branch,
                solid: false,
                payload: payload@,
            }) && final(self)@ == old(self)@.insert(hash, vertex@),
    {
        match vertex_map_get(&self.vertices, &hash) {
            Some(existing) => existing,
            None => {
                let vertex = Vertex::new(hash, trunk, branch, payload);
                vertex_map_insert(&mut self.vertices, hash, vertex.clone());
                assert(solid_set(self@) =~= solid_set(old(self)@));
                vertex
            },
        }
    }

    /// A copy of the vertex stored under `hash`, if there is one.
    pub fn get(&self, hash: &TxHash) -> (found: Option<Vertex>)
        ensures
            match found {
                Some(vertex) => self@.contains_key(*hash) && vertex@ == self@[*hash],
                None => !self@.contains_key(*hash),
            },
    {
        vertex_map_get(&self.vertices, hash)
    }

    /// Whether a vertex is stored under `hash`.
    pub fn contains(&self, hash: &TxHash) -> (present: bool)
        ensures
            present == self@.contains_key(*hash),
    {
        vertex_map_get(&self.vertices, hash).is_some()
    }

    /// Whether the vertex stored under `hash` is solid; false when there is
    /// no such vertex.
    pub fn is_solid(&self, hash: &TxHash) -> (solid: bool)
        ensures
            solid == solid_set(self@).contains(*hash),
    {
        match vertex_map_get(&self.vertices, hash) {
            Some(vertex) => vertex.is_solid(),
            None => false,
        }
    }

    /// Sets the solid flag of the vertex stored under `hash`. Marking a
    /// vertex that is already solid, or a hash that is not stored, changes
    /// nothing. The result tells whether the flag went from false to true.
    pub fn mark_solid(&mut self, hash: &TxHash) -> (flipped: bool)
        requires
            old(self).wf(),
        ensures
            final(self).wf(),
            final(self)@ == with_solid(old(self)@, *hash),
            flipped == (old(self)@.contains_key(*hash) && !old(self)@[*hash].solid),
            final(self).counted() == old(self).counted() + if flipped { 1nat } else { 0nat },
    {
        match vertex_map_get(&self.vertices, hash) {
            Some(vertex) => {
                if vertex.is_solid() {
                    assert(self@ =~= with_solid(self@, *hash));
                    false
                } else {
                    let mut vertex = vertex;
                    let stored = vertex_map_len(&self.vertices);
                    proof {
                        let before = solid_set(self@);
                        assert(before.subset_of(self@.dom()));
                        lemma_len_subset(before, self@.dom());
                        assert(before.insert(*hash).subset_of(self@.dom()));
                        lemma_len_subset(before.insert(*hash), self@.dom());
                        assert(!before.contains(*hash));
                        assert(before.insert(*hash).len() == before.len() + 1);
                    }
                    vertex.set_solid();
                    vertex_map_insert(&mut self.vertices, *hash, vertex);
                    self.solid_count = self.solid_count + 1;
                    proof {
                        assert(solid_set(self@) =~= solid_set(old(self)@).insert(*hash));
                        assert(self@.dom() =~= old(self)@.dom());
                    }
                    true
                }
            },
            None => false,
        }
    }

    /// The number of vertices stored.
    pub fn len(&self) -> (count: usize)
        ensures
            count == self@.dom().len(),
    {
        vertex_map_len(&self.vertices)
    }

    /// The number of times a vertex of this store went from not solid to
    /// solid. As no vertex ever goes back, this is the number of solid
    /// vertices.
    pub fn solid_transitions(&self) -> (count: usize)
        ensures
            count == self.counted(),
            self.wf() ==> count == solid_set(self@).len(),
    {
        self.solid_count
    }
}

} // verus!
