//! Bundles of transactions, and the staged builder that takes an outgoing
//! bundle from raw to validated.

use vstd::prelude::*;
use std::marker::PhantomData;
use crate::transaction::{Transaction, TransactionBuilder, TransactionView};

verus! {

/// An ordered collection of transactions.
pub struct Transactions(Vec<Transaction>);

impl View for Transactions {
    type V = Seq<TransactionView>;

    closed spec fn view(&self) -> Seq<TransactionView> {
        Seq::new(self.0@.len(), |i: int| self.0@[i]@)
    }
}

impl Transactions {
    /// No transactions.
    pub fn new() -> (transactions: Transactions)
        ensures
            transactions@ == Seq::<TransactionView>::empty(),
    {
        let transactions = Transactions(Vec::new());
        assert(transactions@ =~= Seq::<TransactionView>::empty());
        transactions
    }

    /// Adds `transaction` at the end.
    pub fn push(&mut self, transaction: Transaction)
        ensures
            final(self)@ == old(self)@.push(transaction@),
    {
        self.0.push(transaction);
        assert(self@ =~= old(self)@.push(transaction@));
    }
}

/// An ordered collection of transaction builders.
pub struct TransactionBuilders(Vec<TransactionBuilder>);

impl View for TransactionBuilders {
    type V = Seq<TransactionView>;

    closed spec fn view(&self) -> Seq<TransactionView> {
        Seq::new(self.0@.len(), |i: int| self.0@[i]@)
    }
}

impl TransactionBuilders {
    /// No builders.
    pub fn new() -> (builders: TransactionBuilders)
        ensures
            builders@ == Seq::<TransactionView>::empty(),
    {
        let builders = TransactionBuilders(Vec::new());
        assert(builders@ =~= Seq::<TransactionView>::empty());
        builders
    }

    /// Adds `transaction_builder` at the end.
    pub fn push(&mut self, transaction_builder: TransactionBuilder)
        ensures
            final(self)@ == old(self)@.push(transaction_builder@),
    {
        self.0.push(transaction_builder);
        assert(self@ =~= old(self)@.push(transaction_builder@));
    }
}

/// A finished bundle.
pub struct Bundle {
    transactions: Transactions,
}

impl View for Bundle {
    type V = Seq<TransactionView>;

    closed spec fn view(&self) -> Seq<TransactionView> {
        self.transactions@
    }
}

impl Bundle {
    /// The transactions of the bundle, in order.
    pub fn transactions(&self) -> (transactions: &Transactions)
        ensures
            transactions@ == self@,
    {
        &self.transactions
    }

    /// The number of transactions in the bundle.
    pub fn len(&self) -> (len: usize)
        ensures
            len == self@.len(),
    {
        self.transactions.0.len()
    }
}

/// Collects the transactions of a bundle as they come in.
pub struct IncomingBundleBuilder {
    builders: TransactionBuilders,
}

impl View for IncomingBundleBuilder {
    type V = Seq<TransactionView>;

    closed spec fn view(&self) -> Seq<TransactionView> {
        self.builders@
    }
}

impl IncomingBundleBuilder {
    /// A builder that has collected nothing yet.
    pub fn new() -> (builder: IncomingBundleBuilder)
        ensures
            builder@ == Seq::<TransactionView>::empty(),
    {
        IncomingBundleBuilder { builders: TransactionBuilders::new() }
    }

    /// Adds `transaction_builder` at the end and hands the builder back, so
    /// that calls can be chained.
    pub fn push(&mut self, transaction_builder: TransactionBuilder) -> (this: &mut Self)
        ensures
            this@ == old(self)@.push(transaction_builder@),
            *final(self) == *final(this),
    {
        self.builders.push(transaction_builder);
        self
    }
}

/// The errors of building an outgoing bundle.
#[derive(Debug)]
pub enum OutgoingBundleBuilderError {
    /// A stage refused the bundle. No stage does so yet: each hands the
    /// transactions on as they are, and says so in its contract.
    Rejected,
}

/// The stages of an outgoing bundle.
pub trait OutgoingBundleBuilderStage {}

/// Transactions are still being added.
pub struct Raw;

impl OutgoingBundleBuilderStage for Raw {}

/// The set of transactions is final.
pub struct Sealed;

impl OutgoingBundleBuilderStage for Sealed {}

/// The transactions are signed.
pub struct Signed;

impl OutgoingBundleBuilderStage for Signed {}

/// The transactions are attached to the graph.
pub struct Attached;

impl OutgoingBundleBuilderStage for Attached {}

/// The bundle has been checked.
pub struct Validated;

impl OutgoingBundleBuilderStage for Validated {}

/// Names the Curl-P-81 sponge as the one a builder is to hash with.
pub struct CurlP81;

/// Builder of an outgoing bundle. The stage `S` is part of the type, so a
/// bundle can only be built from a builder that went through every stage in
/// order. `E` and `H` name the sponges for the essence and for the hash.
pub struct StagedOutgoingBundleBuilder<E, H, S> {
    builders: TransactionBuilders,
    essence_sponge: PhantomData<E>,
    hash_sponge: PhantomData<H>,
    stage: PhantomData<S>,
}

pub type OutgoingBundleBuilderSponge<E, H> = StagedOutgoingBundleBuilder<E, H, Raw>;

pub type OutgoingBundleBuilder = OutgoingBundleBuilderSponge<CurlP81, CurlP81>;

impl<E, H, S> View for StagedOutgoingBundleBuilder<E, H, S> {
    type V = Seq<TransactionView>;

    closed spec fn view(&self) -> Seq<TransactionView> {
        self.builders@
    }
}

impl<E, H> StagedOutgoingBundleBuilder<E, H, Raw> {
    /// A raw builder without transactions.
    pub fn new() -> (builder: Self)
        ensures
            builder@ == Seq::<TransactionView>::empty(),
    {
        StagedOutgoingBundleBuilder {
            builders: TransactionBuilders::new(),
            essence_sponge: PhantomData,
            hash_sponge: PhantomData,
            stage: PhantomData,
        }
    }

    /// Adds `builder` at the end.
    pub fn push(&mut self, builder: TransactionBuilder)
        ensures
            final(self)@ == old(self)@.push(builder@),
    {
        self.builders.push(builder);
    }

    /// Closes the set of transactions. The transactions are carried over
    /// unchanged.
    pub fn seal(self) -> (sealed: Result<StagedOutgoingBundleBuilder<E, H, Sealed>, OutgoingBundleBuilderError>)
        ensures
            sealed is Ok,
            sealed->Ok_0@ == self@,
    {
        Ok(
            StagedOutgoingBundleBuilder::<E, H, Sealed> {
                builders: self.builders,
                essence_sponge: PhantomData,
                hash_sponge: PhantomData,
                stage: PhantomData,
            },
        )
    }
}

impl<E, H> StagedOutgoingBundleBuilder<E, H, Sealed> {
    /// Moves on to the signed stage. The transactions are carried over
    /// unchanged.
    pub fn sign(self) -> (signed: Result<StagedOutgoingBundleBuilder<E, H, Signed>, OutgoingBundleBuilderError>)
        ensures
            signed is Ok,
            signed->Ok_0@ == self@,
    {
        Ok(
            StagedOutgoingBundleBuilder::<E, H, Signed> {
                builders: self.builders,
                essence_sponge: PhantomData,
                hash_sponge: PhantomData,
                stage: PhantomData,
            },
        )
    }
}

impl<E, H> StagedOutgoingBundleBuilder<E, H, Signed> {
    /// Moves on to the attached stage. The transactions are carried over
    /// unchanged.
    pub fn attach(self) -> (attached: Result<StagedOutgoingBundleBuilder<E, H, Attached>, OutgoingBundleBuilderError>)
        ensures
            attached is Ok,
            attached->Ok_0@ == self@,
    {
        Ok(
            StagedOutgoingBundleBuilder::<E, H, Attached> {
                builders: self.builders,
                essence_sponge: PhantomData,
                hash_sponge: PhantomData,
                stage: PhantomData,
            },
        )
    }
}

impl<E, H> StagedOutgoingBundleBuilder<E, H, Attached> {
    /// Moves on to the validated stage. The transactions are carried over
    /// unchanged.
    pub fn validate(self) -> (validated: Result<StagedOutgoingBundleBuilder<E, H, Validated>, OutgoingBundleBuilderError>)
        ensures
            validated is Ok,
            validated->Ok_0@ == self@,
    {
        Ok(
            StagedOutgoingBundleBuilder::<E, H, Validated> {
                builders: self.builders,
                essence_sponge: PhantomData,
                hash_sponge: PhantomData,
                stage: PhantomData,
            },
        )
    }
}

impl<E, H> StagedOutgoingBundleBuilder<E, H, Validated> {
    /// Builds every transaction and puts them, in the order in which their
    /// builders were pushed, into a bundle.
    pub fn build(self) -> (bundle: Result<Bundle, OutgoingBundleBuilderError>)
        ensures
            bundle is Ok,
            bundle->Ok_0@ == self@,
    {
        let mut transactions = Transactions::new();
        let builders = self.builders.0;
        let ghost all = builders@;
        for transaction_builder in iter: builders
            invariant
                iter.seq() == all,
                transactions@ == Seq::new(iter.index() as nat, |i: int| all[i]@),
        {
            transactions.push(transaction_builder.build());
            assert(transactions@ =~= Seq::new((iter.index() + 1) as nat, |i: int| all[i]@));
        }
        assert(transactions@ =~= self@);
        Ok(Bundle { transactions })
    }
}

} // verus!
