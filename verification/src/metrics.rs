//! Counters of what a node has sent.

use vstd::prelude::*;

verus! {

/// The kinds of message that are counted.
#[derive(Clone, Copy, Debug, PartialEq, Eq, Structural)]
pub enum Sent {
    Handshake,
    LegacyGossip,
    MilestoneRequest,
    TransactionBroadcast,
    TransactionRequest,
    Heartbeat,
}

/// Whether a message of this kind carries a transaction.
pub open spec fn carries_transaction(kind: Sent) -> bool {
    kind == Sent::LegacyGossip || kind == Sent::TransactionBroadcast
}

/// The counter after one more event. A counter that has reached the largest
/// value starts again at zero.
pub open spec fn bumped(count: u64) -> u64 {
    if count == u64::MAX {
        0
    } else {
        (count + 1) as u64
    }
}

/// The counters as a mathematical value.
pub struct MetricsView {
    pub handshake_sent: u64,
    pub legacy_gossip_sent: u64,
    pub milestone_request_sent: u64,
    pub transaction_broadcast_sent: u64,
    pub transaction_request_sent: u64,
    pub heartbeat_sent: u64,
    pub transactions_sent: u64,
}

impl MetricsView {
    /// The counter of the messages of `kind`.
    pub open spec fn sent(self, kind: Sent) -> u64 {
        match kind {
            Sent::Handshake => self.handshake_sent,
            Sent::LegacyGossip => self.legacy_gossip_sent,
            Sent::MilestoneRequest => self.milestone_request_sent,
            Sent::TransactionBroadcast => self.transaction_broadcast_sent,
            Sent::TransactionRequest => self.transaction_request_sent,
            Sent::Heartbeat => self.heartbeat_sent,
        }
    }

    /// The counters after one more message of `kind` was sent: the counter
    /// of the kind goes up by one, and so does the counter of transactions
    /// if the message carries one.
    pub open spec fn with_sent(self, kind: Sent) -> MetricsView {
        let counted = match kind {
            Sent::Handshake => MetricsView { handshake_sent: bumped(self.handshake_sent), ..self },
            Sent::LegacyGossip => MetricsView { legacy_gossip_sent: bumped(self.legacy_gossip_sent), ..self },
            Sent::MilestoneRequest => MetricsView {
                milestone_request_sent: bumped(self.milestone_request_sent),
                ..self
            },
            Sent::TransactionBroadcast => MetricsView {
                transaction_broadcast_sent: bumped(self.transaction_broadcast_sent),
                ..self
            },
            Sent::TransactionRequest => MetricsView {
                transaction_request_sent: bumped(self.transaction_request_sent),
                ..self
            },
            Sent::Heartbeat => MetricsView { heartbeat_sent: bumped(self.heartbeat_sent), ..self },
        };
        if carries_transaction(kind) {
            MetricsView { transactions_sent: bumped(self.transactions_sent), ..counted }
        } else {
            counted
        }
    }
}

/// Counters of the messages sent, one for each kind and one for all that
/// carry a transaction.
#[derive(Debug)]
pub struct NodeMetrics {
    handshake_sent: u64,
    legacy_gossip_sent: u64,
    milestone_request_sent: u64,
    transaction_broadcast_sent: u64,
    transaction_request_sent: u64,
    heartbeat_sent: u64,
    transactions_sent: u64,
}

impl View for NodeMetrics {
    type V = MetricsView;

    closed spec fn view(&self) -> MetricsView {
        MetricsView {
            handshake_sent: self.handshake_sent,
            legacy_gossip_sent: self.legacy_gossip_sent,
            milestone_request_sent: self.milestone_request_sent,
            transaction_broadcast_sent: self.transaction_broadcast_sent,
            transaction_request_sent: self.transaction_request_sent,
            heartbeat_sent: self.heartbeat_sent,
            transactions_sent: self.transactions_sent,
        }
    }
}

impl Default for NodeMetrics {
    /// All counters at zero.
    fn default() -> (metrics: NodeMetrics)
        ensures
            forall|kind: Sent| metrics@.sent(kind) == 0,
            metrics@.transactions_sent == 0,
    {
        NodeMetrics {
            handshake_sent: 0,
            legacy_gossip_sent: 0,
            milestone_request_sent: 0,
            transaction_broadcast_sent: 0,
            transaction_request_sent: 0,
            heartbeat_sent: 0,
            transactions_sent: 0,
        }
    }
}

impl NodeMetrics {
    /// The number of messages of `kind` sent.
    pub fn sent(&self, kind: Sent) -> (count: u64)
        ensures
            count == self@.sent(kind),
    {
        match kind {
            Sent::Handshake => self.handshake_sent,
            Sent::LegacyGossip => self.legacy_gossip_sent,
            Sent::MilestoneRequest => self.milestone_request_sent,
            Sent::TransactionBroadcast => self.transaction_broadcast_sent,
            Sent::TransactionRequest => self.transaction_request_sent,
            Sent::Heartbeat => self.heartbeat_sent,
        }
    }

    /// The number of messages sent that carried a transaction.
    pub fn transactions_sent(&self) -> (count: u64)
        ensures
            count == self@.transactions_sent,
    {
        self.transactions_sent
    }

    /// Counts one message of `kind` as sent.
    pub fn sent_inc(&mut self, kind: Sent)
        ensures
            final(self)@ == old(self)@.with_sent(kind),
    {
        match kind {
            Sent::Handshake => {
                self.handshake_sent = self.handshake_sent.wrapping_add(1);
            },
            Sent::LegacyGossip => {
                self.legacy_gossip_sent = self.legacy_gossip_sent.wrapping_add(1);
                self.transactions_sent = self.transactions_sent.wrapping_add(1);
            },
            Sent::MilestoneRequest => {
                self.milestone_request_sent = self.milestone_request_sent.wrapping_add(1);
            },
            Sent::TransactionBroadcast => {
                self.transaction_broadcast_sent = self.transaction_broadcast_sent.wrapping_add(1);
                self.transactions_sent = self.transactions_sent.wrapping_add(1);
            },
            Sent::TransactionRequest => {
                self.transaction_request_sent = self.transaction_request_sent.wrapping_add(1);
            },
            Sent::Heartbeat => {
                self.heartbeat_sent = self.heartbeat_sent.wrapping_add(1);
            },
        }
    }
}

/// Counts a message of `kind` on the neighbor it was sent to and on the
/// node, if it went out; a message that could not be sent is not counted.
pub fn count_sent(neighbor: &mut NodeMetrics, node: &mut NodeMetrics, kind: Sent, delivered: bool)
    ensures
        final(neighbor)@ == if delivered { old(neighbor)@.with_sent(kind) } else { old(neighbor)@ },
        final(node)@ == if delivered { old(node)@.with_sent(kind) } else { old(node)@ },
{
    if delivered {
        neighbor.sent_inc(kind);
        node.sent_inc(kind);
    }
}

} // verus!
