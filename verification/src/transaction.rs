//! Transactions and the builder that assembles them.

use vstd::prelude::*;
use crate::hash::TxHash;

verus! {

/// What a transaction says: its two parents and its payload.
pub struct TransactionView {
    pub trunk: TxHash,
    pub branch: TxHash,
    pub payload: Seq<u8>,
}

/// A finished transaction.
#[derive(Debug)]
pub struct Transaction {
    trunk: TxHash,
    branch: TxHash,
    payload: Vec<u8>,
}

impl View for Transaction {
    type V = TransactionView;

    closed spec fn view(&self) -> TransactionView {
        TransactionView { trunk: self.trunk, branch: self.branch, payload: self.payload@ }
    }
}

impl Transaction {
    pub fn trunk(&self) -> (trunk: &TxHash)
        ensures
            *trunk == self@.trunk,
    {
        &self.trunk
    }

    pub fn branch(&self) -> (branch: &TxHash)
        ensures
            *branch == self@.branch,
    {
        &self.branch
    }

    pub fn payload(&self) -> (payload: &Vec<u8>)
        ensures
            payload@ == self@.payload,
    {
        &self.payload
    }
}

/// A transaction in the making.
#[derive(Debug)]
pub struct TransactionBuilder {
    trunk: TxHash,
    branch: TxHash,
    payload: Vec<u8>,
}

impl View for TransactionBuilder {
    type V = TransactionView;

    closed spec fn view(&self) -> TransactionView {
        TransactionView { trunk: self.trunk, branch: self.branch, payload: self.payload@ }
    }
}

impl Default for TransactionBuilder {
    /// A builder whose parents are the all-zero hash and whose payload is
    /// empty.
    fn default() -> (builder: TransactionBuilder)
        ensures
            builder@.trunk.is_zero(),
            builder@.branch.is_zero(),
            builder@.payload == Seq::<u8>::empty(),
    {
        TransactionBuilder { trunk: TxHash::zeros(), branch: TxHash::zeros(), payload: Vec::new() }
    }
}

impl TransactionBuilder {
    /// The same builder with `trunk` as its first parent.
    pub fn with_trunk(self, trunk: TxHash) -> (builder: TransactionBuilder)
        ensures
            builder@ == (TransactionView { trunk, ..self@ }),
    {
        TransactionBuilder { trunk, branch: self.branch, payload: self.payload }
    }

    /// The same builder with `branch` as its second parent.
    pub fn with_branch(self, branch: TxHash) -> (builder: TransactionBuilder)
        ensures
            builder@ == (TransactionView { branch, ..self@ }),
    {
        TransactionBuilder { trunk: self.trunk, branch, payload: self.payload }
    }

    /// The same builder with `payload` as its payload.
    pub fn with_payload(self, payload: Vec<u8>) -> (builder: TransactionBuilder)
        ensures
            builder@ == (TransactionView { payload: payload@, ..self@ }),
    {
        TransactionBuilder { trunk: self.trunk, branch: self.branch, payload }
    }

    /// The transaction that the builder describes.
    pub fn build(self) -> (transaction: Transaction)
        ensures
            transaction@ == self@,
    {
        Transaction { trunk: self.trunk, branch: self.branch, payload: self.payload }
    }
}

} // verus!
