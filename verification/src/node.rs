//! The decisions of the node that sits between the network and its
//! neighbors: which network event concerns which neighbor, and what that
//! neighbor is to be told.

use vstd::prelude::*;
use std::collections::HashSet;

verus! {

broadcast use vstd::std_specs::hash::group_hash_axioms;

/// Identifies a peer.
pub type PeerId = u64;

/// What the network reports.
#[derive(Debug)]
pub enum Event {
    /// A peer was added.
    PeerAdded { peer_id: PeerId },
    /// A peer was removed.
    PeerRemoved { peer_id: PeerId },
    /// A connection to a peer was established.
    PeerConnected { peer_id: PeerId },
    /// The connection to a peer was lost.
    PeerDisconnected { peer_id: PeerId },
    /// A peer sent bytes.
    BytesReceived { from_peer: PeerId, num_bytes: usize, buffer: Vec<u8> },
    /// Anything else.
    Other,
}

/// What a neighbor is told.
#[derive(Debug)]
pub enum NeighborEvent {
    /// The connection is up.
    Connected,
    /// The connection is down.
    Disconnected,
    /// Bytes arrived.
    Message { size: usize, bytes: Vec<u8> },
}

/// A neighbor event as a mathematical value.
pub enum NeighborEventView {
    Connected,
    Disconnected,
    Message { size: usize, bytes: Seq<u8> },
}

impl View for NeighborEvent {
    type V = NeighborEventView;

    open spec fn view(&self) -> NeighborEventView {
        match *self {
            NeighborEvent::Connected => NeighborEventView::Connected,
            NeighborEvent::Disconnected => NeighborEventView::Disconnected,
            NeighborEvent::Message { size, bytes } => NeighborEventView::Message { size, bytes: bytes@ },
        }
    }
}

/// What the loop around the node has to do for an event.
#[derive(Debug)]
pub enum Action {
    /// Open a channel to a new neighbor and start its receiver.
    StartNeighbor { peer_id: PeerId },
    /// Send the event to the neighbor.
    Notify { peer_id: PeerId, event: NeighborEvent },
    /// Nothing.
    Nothing,
}

/// An action as a mathematical value.
pub enum ActionView {
    StartNeighbor { peer_id: PeerId },
    Notify { peer_id: PeerId, event: NeighborEventView },
    Nothing,
}

impl View for Action {
    type V = ActionView;

    open spec fn view(&self) -> ActionView {
        match *self {
            Action::StartNeighbor { peer_id } => ActionView::StartNeighbor { peer_id },
            Action::Notify { peer_id, event } => ActionView::Notify { peer_id, event: event@ },
            Action::Nothing => ActionView::Nothing,
        }
    }
}

/// What is sent to the neighbor `peer_id` if it is known, and nothing
/// otherwise.
pub open spec fn notify_if_known(neighbors: Set<PeerId>, peer_id: PeerId, event: NeighborEventView) -> ActionView {
    if neighbors.contains(peer_id) {
        ActionView::Notify { peer_id, event }
    } else {
        ActionView::Nothing
    }
}

/// The node: it knows which peers are its neighbors.
pub struct Node {
    neighbors: HashSet<PeerId>,
}

impl View for Node {
    type V = Set<PeerId>;

    closed spec fn view(&self) -> Set<PeerId> {
        self.neighbors@
    }
}

impl Node {
    /// A node without neighbors.
    pub fn new() -> (node: Node)
        ensures
            node@ == Set::<PeerId>::empty(),
    {
        Node { neighbors: HashSet::new() }
    }

    /// Whether `peer_id` is a neighbor.
    pub fn is_neighbor(&self, peer_id: PeerId) -> (known: bool)
        ensures
            known == self@.contains(peer_id),
    {
        self.neighbors.contains(&peer_id)
    }

    /// Decides what an event of the network calls for.
    ///
    /// An added peer becomes a neighbor and gets its channel, whether or not
    /// it was a neighbor before. Connections, disconnections and bytes are
    /// passed on to the neighbor they concern, and dropped when the peer is
    /// no neighbor. A removed peer stays a neighbor, and nothing is done for
    /// it or for any other event.
    pub fn handle(&mut self, event: Event) -> (action: Action)
        ensures
            final(self)@ == match event {
                Event::PeerAdded { peer_id } => old(self)@.insert(peer_id),
                _ => old(self)@,
            },
            action@ == match event {
                Event::PeerAdded { peer_id } => ActionView::StartNeighbor { peer_id },
                Event::PeerRemoved { peer_id } => ActionView::Nothing,
                Event::PeerConnected { peer_id } => notify_if_known(
                    old(self)@,
                    peer_id,
                    NeighborEventView::Connected,
                ),
                Event::PeerDisconnected { peer_id } => notify_if_known(
                    old(self)@,
                    peer_id,
                    NeighborEventView::Disconnected,
                ),
                Event::BytesReceived { from_peer, num_bytes, buffer } => notify_if_known(
                    old(self)@,
                    from_peer,
                    NeighborEventView::Message { size: num_bytes, bytes: buffer@ },
                ),
                Event::Other => ActionView::Nothing,
            },
    {
        match event {
            Event::PeerAdded { peer_id } => {
                self.neighbors.insert(peer_id);
                Action::StartNeighbor { peer_id }
            },
            Event::PeerRemoved { peer_id: _ } => Action::Nothing,
            Event::PeerConnected { peer_id } => self.notify(peer_id, NeighborEvent::Connected),
            Event::PeerDisconnected { peer_id } => self.notify(peer_id, NeighborEvent::Disconnected),
            Event::BytesReceived { from_peer, num_bytes, buffer } => self.notify(
                from_peer,
                NeighborEvent::Message { size: num_bytes, bytes: buffer },
            ),
            Event::Other => Action::Nothing,
        }
    }

    fn notify(&self, peer_id: PeerId, event: NeighborEvent) -> (action: Action)
        ensures
            action@ == notify_if_known(self@, peer_id, event@),
    {
        if self.neighbors.contains(&peer_id) {
            Action::Notify { peer_id, event }
        } else {
            Action::Nothing
        }
    }
}

} // verus!
