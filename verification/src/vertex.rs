//! The record that the graph keeps for one transaction.

use vstd::prelude::*;
use crate::hash::TxHash;

verus! {

/// What a vertex is, mathematically: its own hash, the hashes of its two
/// parents, the solid flag and the bytes of the transaction it stands for.
pub struct VertexView {
    pub hash: TxHash,
    pub trunk: TxHash,
    pub branch: TxHash,
    pub solid: bool,
    pub payload: Seq<u8>,
}

impl VertexView {
    /// The same vertex with its solid flag set.
    pub open spec fn solidified(self) -> VertexView {
        VertexView { solid: true, ..self }
    }
}

/// A stored transaction together with its graph metadata.
#[derive(Debug)]
pub struct Vertex {
    hash: TxHash,
    trunk: TxHash,
    branch: TxHash,
    solid: bool,
    payload: Vec<u8>,
}

impl View for Vertex {
    type V = VertexView;

    closed spec fn view(&self) -> VertexView {
        VertexView {
            hash: self.hash,
            trunk: self.trunk,
            branch: self.branch,
            solid: self.solid,
            payload: self.payload@,
        }
    }
}

impl Clone for Vertex {
    fn clone(&self) -> (copy: Vertex)
        ensures
            copy@ == self@,
    {
        let payload = self.payload.clone();
        assert(payload@ =~= self.payload@);
        Vertex {
            hash: self.hash,
            trunk: self.trunk,
            branch: self.branch,
            solid: self.solid,
            payload,
        }
    }
}

impl Vertex {
    /// A fresh vertex. It is not solid: solidity is only ever granted by
    /// propagation.
    pub fn new(hash: TxHash, trunk: TxHash, branch: TxHash, payload: Vec<u8>) -> (vertex: Vertex)
        ensures
            vertex@ == (VertexView { hash, trunk, branch, solid: false, payload: payload@ }),
    {
        Vertex { hash, trunk, branch, solid: false, payload }
    }

    pub fn hash(&self) -> (hash: TxHash)
        ensures
            hash == self@.hash,
    {
        self.hash
    }

    pub fn trunk(&self) -> (trunk: TxHash)
        ensures
            trunk == self@.trunk,
    {
        self.trunk
    }

    pub fn branch(&self) -> (branch: TxHash)
        ensures
            branch == self@.branch,
    {
        self.branch
    }

    pub fn is_solid(&self) -> (solid: bool)
        ensures
            solid == self@.solid,
    {
        self.solid
    }

    pub fn payload(&self) -> (payload: &Vec<u8>)
        ensures
            payload@ == self@.payload,
    {
        &self.payload
    }

    /// Sets the solid flag; nothing else changes. Setting it twice is the
    /// same as setting it once.
    pub fn set_solid(&mut self)
        ensures
            final(self)@ == old(self)@.solidified(),
    {
        self.solid = true;
    }
}

} // verus!
