//! Protocol messages that carry transactions between peers.

use vstd::prelude::*;
use vstd::slice::slice_to_vec;
use std::ops::Range;

verus! {

/// The identifier of a transaction broadcast on the wire.
pub const TRANSACTION_BROADCAST_ID: u8 = 0x04;

/// The smallest number of bytes a transaction broadcast may carry.
pub const TRANSACTION_BROADCAST_VARIABLE_MIN_SIZE: usize = 292;

/// The largest number of bytes a transaction broadcast may carry.
pub const TRANSACTION_BROADCAST_VARIABLE_MAX_SIZE: usize = 1604;

/// Why bytes could not be read as a message.
#[derive(Debug, PartialEq, Eq, Structural)]
pub enum ProtocolMessageError {
    /// The message cannot have this many bytes.
    InvalidMessageLength(usize),
}

/// A message of the protocol: it has an identifier, a range of sizes it may
/// have, and a byte representation.
pub trait Message: Sized {
    /// The identifier of this kind of message.
    fn id() -> u8;

    /// The numbers of bytes that a message of this kind may have.
    fn size_range() -> Range<usize>;

    /// Reads a message from its bytes.
    fn from_bytes(bytes: &[u8]) -> Result<Self, ProtocolMessageError>;

    /// The bytes of the message.
    fn into_bytes(self) -> Vec<u8>;
}

/// Whether a transaction broadcast may carry `length` bytes.
pub open spec fn is_broadcast_length(length: int) -> bool {
    TRANSACTION_BROADCAST_VARIABLE_MIN_SIZE <= length <= TRANSACTION_BROADCAST_VARIABLE_MAX_SIZE
}

/// A transaction sent to a peer, as its bytes.
pub struct TransactionBroadcast {
    transaction: Vec<u8>,
}

impl Clone for TransactionBroadcast {
    fn clone(&self) -> (copy: TransactionBroadcast)
        ensures
            copy@ == self@,
    {
        let transaction = self.transaction.clone();
        assert(transaction@ =~= self.transaction@);
        TransactionBroadcast { transaction }
    }
}

impl View for TransactionBroadcast {
    type V = Seq<u8>;

    closed spec fn view(&self) -> Seq<u8> {
        self.transaction@
    }
}

impl TransactionBroadcast {
    /// A broadcast of the given bytes, whatever their number.
    pub fn new(transaction: &[u8]) -> (message: TransactionBroadcast)
        ensures
            message@ == transaction@,
    {
        TransactionBroadcast { transaction: slice_to_vec(transaction) }
    }

    /// The bytes of the transaction.
    pub fn transaction(&self) -> (transaction: &Vec<u8>)
        ensures
            transaction@ == self@,
    {
        &self.transaction
    }
}

impl Message for TransactionBroadcast {
    fn id() -> (id: u8)
        ensures
            id == TRANSACTION_BROADCAST_ID,
    {
        TRANSACTION_BROADCAST_ID
    }

    fn size_range() -> (range: Range<usize>)
        ensures
            range.start == TRANSACTION_BROADCAST_VARIABLE_MIN_SIZE,
            range.end == TRANSACTION_BROADCAST_VARIABLE_MAX_SIZE + 1,
    {
        (TRANSACTION_BROADCAST_VARIABLE_MIN_SIZE)..(TRANSACTION_BROADCAST_VARIABLE_MAX_SIZE + 1)
    }

    /// Accepts exactly the byte strings whose length lies in the size range,
    /// and keeps them as they are.
    fn from_bytes(bytes: &[u8]) -> (message: Result<TransactionBroadcast, ProtocolMessageError>)
        ensures
            is_broadcast_length(bytes@.len() as int) ==> message is Ok && message->Ok_0@ == bytes@,
            !is_broadcast_length(bytes@.len() as int) ==> message == Err::<TransactionBroadcast, ProtocolMessageError>(
                ProtocolMessageError::InvalidMessageLength(bytes@.len() as usize),
            ),
    {
        if !Self::size_range().contains(&bytes.len()) {
            return Err(ProtocolMessageError::InvalidMessageLength(bytes.len()));
        }
        Ok(TransactionBroadcast { transaction: slice_to_vec(bytes) })
    }

    fn into_bytes(self) -> (bytes: Vec<u8>)
        ensures
            bytes@ == self@,
    {
        self.transaction
    }
}

} // verus!
