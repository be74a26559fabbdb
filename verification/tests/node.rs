use bee::input::{InputTrits, TRANSACTION_TRIT_LEN};
use bee::node::{Action, Event, NeighborEvent, Node};

#[test]
fn added_peer_becomes_a_neighbor() {
    let mut node = Node::new();
    assert!(!node.is_neighbor(7));
    match node.handle(Event::PeerAdded { peer_id: 7 }) {
        Action::StartNeighbor { peer_id } => assert_eq!(peer_id, 7),
        other => panic!("unexpected action {:?}", other),
    }
    assert!(node.is_neighbor(7));
    assert!(!node.is_neighbor(8));
    assert!(matches!(node.handle(Event::PeerAdded { peer_id: 7 }), Action::StartNeighbor { peer_id: 7 }));
    assert!(node.is_neighbor(7));
}

#[test]
fn events_of_a_neighbor_are_passed_on() {
    let mut node = Node::new();
    node.handle(Event::PeerAdded { peer_id: 3 });
    assert!(matches!(
        node.handle(Event::PeerConnected { peer_id: 3 }),
        Action::Notify { peer_id: 3, event: NeighborEvent::Connected }
    ));
    assert!(matches!(
        node.handle(Event::PeerDisconnected { peer_id: 3 }),
        Action::Notify { peer_id: 3, event: NeighborEvent::Disconnected }
    ));
    match node.handle(Event::BytesReceived { from_peer: 3, num_bytes: 2, buffer: vec![9, 8, 0, 0] }) {
        Action::Notify { peer_id, event: NeighborEvent::Message { size, bytes } } => {
            assert_eq!(peer_id, 3);
            assert_eq!(size, 2);
            assert_eq!(bytes, vec![9, 8, 0, 0]);
        },
        other => panic!("unexpected action {:?}", other),
    }
}

#[test]
fn events_of_strangers_are_dropped() {
    let mut node = Node::new();
    node.handle(Event::PeerAdded { peer_id: 3 });
    assert!(matches!(node.handle(Event::PeerConnected { peer_id: 4 }), Action::Nothing));
    assert!(matches!(node.handle(Event::PeerDisconnected { peer_id: 4 }), Action::Nothing));
    assert!(matches!(
        node.handle(Event::BytesReceived { from_peer: 4, num_bytes: 1, buffer: vec![1] }),
        Action::Nothing
    ));
    assert!(matches!(node.handle(Event::Other), Action::Nothing));
    assert!(!node.is_neighbor(4));
}

#[test]
fn removed_peer_stays_a_neighbor() {
    let mut node = Node::new();
    node.handle(Event::PeerAdded { peer_id: 3 });
    assert!(matches!(node.handle(Event::PeerRemoved { peer_id: 3 }), Action::Nothing));
    assert!(node.is_neighbor(3));
    assert!(matches!(
        node.handle(Event::PeerConnected { peer_id: 3 }),
        Action::Notify { peer_id: 3, event: NeighborEvent::Connected }
    ));
}

#[test]
fn input_trits_deref_to_the_array() {
    let mut trits = [0i8; TRANSACTION_TRIT_LEN];
    trits[0] = 1;
    trits[TRANSACTION_TRIT_LEN - 1] = -1;
    let input = InputTrits(trits);
    assert_eq!(input.len(), 8019);
    assert_eq!(input[0], 1);
    assert_eq!(input[1], 0);
    assert_eq!(input[8018], -1);
    assert_eq!(*input, trits);
}
