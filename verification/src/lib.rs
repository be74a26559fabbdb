//! Core pieces of a node for a DAG-based ledger.
//!
//! The heart of the crate is the in-memory ledger graph with its
//! solidification engine: [`tangle`] owns the graph, built from the vertex
//! store in [`store`] and the approver index in [`approvers`];
//! [`solidifier`] walks it forward and marks vertices solid, and
//! [`propagation`] states what such a walk achieves. Around it stand the
//! small data types that the protocol code exchanges with the graph:
//! transactions and bundles, the transaction broadcast, the state of the
//! proof of work, trits, and the decisions and counters of the node.

pub mod hash;
pub mod vertex;
pub mod dash;
pub mod store;
pub mod approvers;
pub mod request;
pub mod tangle;
pub mod propagation;
mod walk;
pub mod solidifier;
pub mod transaction;
pub mod bundle;
pub mod message;
pub mod curl64;
pub mod input;
pub mod node;
pub mod metrics;
pub mod ternary;
