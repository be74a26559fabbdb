use bee::approvers::ApproverIndex;
use bee::hash::{list_contains, TxHash, HASH_LENGTH};
use bee::request::Request;
use bee::solidifier::{Control, SolidifierState};
use bee::store::VertexStore;
use bee::tangle::Tangle;
use bee::vertex::Vertex;

fn hash(first: i8, second: i8) -> TxHash {
    let mut trits = [0i8; HASH_LENGTH];
    trits[0] = first;
    trits[HASH_LENGTH - 1] = second;
    TxHash(trits)
}

fn genesis() -> TxHash {
    hash(1, 1)
}

#[test]
fn hashes_are_compared_trit_by_trit() {
    assert_eq!(hash(1, 0), hash(1, 0));
    assert_ne!(hash(1, 0), hash(1, -1));
    assert_ne!(hash(1, 0), hash(0, 0));
    assert_eq!(TxHash::zeros(), TxHash([0i8; HASH_LENGTH]));
    assert!(list_contains(&vec![hash(0, 1), hash(1, 0)], &hash(1, 0)));
    assert!(!list_contains(&vec![hash(0, 1), hash(1, 0)], &hash(1, 1)));
    assert!(!list_contains(&Vec::new(), &hash(1, 1)));
}

#[test]
fn new_vertex_is_not_solid() {
    let mut vertex = Vertex::new(hash(0, 1), hash(0, -1), genesis(), vec![7, 8, 9]);
    assert_eq!(vertex.hash(), hash(0, 1));
    assert_eq!(vertex.trunk(), hash(0, -1));
    assert_eq!(vertex.branch(), genesis());
    assert_eq!(vertex.payload(), &vec![7, 8, 9]);
    assert!(!vertex.is_solid());
    vertex.set_solid();
    assert!(vertex.is_solid());
    vertex.set_solid();
    assert!(vertex.is_solid());
    let copy = vertex.clone();
    assert_eq!(copy.hash(), hash(0, 1));
    assert_eq!(copy.trunk(), hash(0, -1));
    assert_eq!(copy.branch(), genesis());
    assert_eq!(copy.payload(), &vec![7, 8, 9]);
    assert!(copy.is_solid());
}

#[test]
fn store_keeps_the_first_insertion() {
    let mut store = VertexStore::new();
    assert_eq!(store.len(), 0);
    assert!(store.get(&hash(0, 1)).is_none());
    assert!(!store.contains(&hash(0, 1)));

    let first = store.insert_or_get(hash(0, 1), genesis(), hash(1, 0), vec![1, 2]);
    assert_eq!(first.hash(), hash(0, 1));
    assert_eq!(first.trunk(), genesis());
    assert_eq!(first.branch(), hash(1, 0));
    assert!(!first.is_solid());
    assert_eq!(store.len(), 1);
    assert!(store.contains(&hash(0, 1)));

    let second = store.insert_or_get(hash(0, 1), hash(-1, -1), hash(-1, 0), vec![3]);
    assert_eq!(second.trunk(), genesis());
    assert_eq!(second.branch(), hash(1, 0));
    assert_eq!(second.payload(), &vec![1, 2]);
    assert_eq!(store.len(), 1);

    let stored = store.get(&hash(0, 1)).unwrap();
    assert_eq!(stored.trunk(), genesis());
    assert_eq!(stored.payload(), &vec![1, 2]);

    store.insert_or_get(hash(0, -1), genesis(), genesis(), Vec::new());
    assert_eq!(store.len(), 2);
    assert!(store.get(&hash(1, 0)).is_none());
}

#[test]
fn store_marks_solid_once() {
    let mut store = VertexStore::new();
    store.insert_or_get(hash(0, 1), genesis(), genesis(), Vec::new());
    store.insert_or_get(hash(0, -1), genesis(), genesis(), Vec::new());
    assert!(!store.is_solid(&hash(0, 1)));
    assert_eq!(store.solid_transitions(), 0);

    assert!(store.mark_solid(&hash(0, 1)));
    assert!(store.is_solid(&hash(0, 1)));
    assert!(!store.is_solid(&hash(0, -1)));
    assert_eq!(store.solid_transitions(), 1);
    assert!(store.get(&hash(0, 1)).unwrap().is_solid());

    assert!(!store.mark_solid(&hash(0, 1)));
    assert!(store.is_solid(&hash(0, 1)));
    assert_eq!(store.solid_transitions(), 1);
    assert_eq!(store.len(), 2);
}

#[test]
fn store_ignores_marking_an_unknown_hash() {
    let mut store = VertexStore::new();
    store.insert_or_get(hash(0, 1), genesis(), genesis(), Vec::new());
    assert!(!store.mark_solid(&hash(1, 0)));
    assert!(!store.is_solid(&hash(1, 0)));
    assert!(!store.contains(&hash(1, 0)));
    assert_eq!(store.len(), 1);
    assert_eq!(store.solid_transitions(), 0);
}

#[test]
fn approvers_form_a_set() {
    let mut index = ApproverIndex::new();
    assert!(index.get_approvers(&genesis()).is_empty());

    index.add_approver(genesis(), hash(0, 1));
    assert_eq!(index.get_approvers(&genesis()), vec![hash(0, 1)]);

    index.add_approver(genesis(), hash(0, 1));
    assert_eq!(index.get_approvers(&genesis()), vec![hash(0, 1)]);

    index.add_approver(genesis(), hash(0, -1));
    index.add_approver(hash(0, 1), hash(0, -1));
    assert_eq!(index.get_approvers(&genesis()), vec![hash(0, 1), hash(0, -1)]);
    assert_eq!(index.get_approvers(&hash(0, 1)), vec![hash(0, -1)]);
    assert!(index.get_approvers(&hash(0, -1)).is_empty());
}

#[test]
fn child_of_genesis_becomes_solid() {
    let g = genesis();
    let a = hash(0, 1);
    let mut tangle = Tangle::new();
    let engine = SolidifierState::new();
    tangle.add_root(g);
    assert!(tangle.is_root(&g));
    assert!(tangle.is_ancestor_solid(&g));

    let (vertex, request) = tangle.insert(a, g, g, vec![1]);
    assert_eq!(vertex.hash(), a);
    assert_eq!(request, Request::Work(a));
    assert!(!tangle.is_solid(&a));

    let marked = engine.propagate(&mut tangle, a);
    assert_eq!(marked, vec![a]);
    assert!(tangle.is_solid(&a));
    assert_eq!(tangle.solid_transitions(), 1);
}

#[test]
fn approver_becomes_solid_through_its_parent() {
    let g = genesis();
    let a = hash(0, 1);
    let b = hash(0, -1);
    let mut tangle = Tangle::new();
    let engine = SolidifierState::new();
    tangle.add_root(g);
    tangle.insert(a, g, g, Vec::new());
    engine.propagate(&mut tangle, a);
    assert!(tangle.is_solid(&a));

    tangle.insert(b, a, g, Vec::new());
    assert!(!tangle.is_solid(&b));
    assert_eq!(tangle.get_approvers(&a), vec![b]);

    let marked = engine.propagate(&mut tangle, a);
    assert_eq!(marked, vec![a, b]);
    assert!(tangle.is_solid(&b));
    assert!(tangle.is_solid(&a));
    assert_eq!(tangle.solid_transitions(), 2);
}

#[test]
fn unknown_parent_is_resolved_later() {
    let g = genesis();
    let x = hash(1, 0);
    let c = hash(-1, 0);
    let mut tangle = Tangle::new();
    let engine = SolidifierState::new();
    tangle.add_root(g);

    tangle.insert(c, x, g, Vec::new());
    let marked = engine.propagate(&mut tangle, c);
    assert!(marked.is_empty());
    assert!(!tangle.is_solid(&c));
    assert!(!tangle.is_solid(&x));
    assert!(tangle.get(&x).is_none());

    let (_, request) = tangle.insert(x, g, g, Vec::new());
    assert_eq!(request, Request::Work(x));
    let marked = engine.propagate(&mut tangle, x);
    assert_eq!(marked, vec![x, c]);
    assert!(tangle.is_solid(&x));
    assert!(tangle.is_solid(&c));
}

#[test]
fn vertex_with_absent_parents_is_not_solid() {
    let g = genesis();
    let a = hash(0, 1);
    let mut tangle = Tangle::new();
    let engine = SolidifierState::new();
    tangle.add_root(g);
    tangle.insert(a, hash(1, 0), hash(-1, 0), Vec::new());
    assert!(!tangle.is_solid(&a));
    assert!(engine.propagate(&mut tangle, a).is_empty());
    assert!(!tangle.is_solid(&a));
    assert!(engine.propagate(&mut tangle, g).is_empty());
    assert!(!tangle.is_solid(&a));
    assert!(!tangle.is_solid(&hash(1, 0)));
    assert!(!tangle.is_ancestor_solid(&hash(1, 0)));
    assert_eq!(tangle.solid_transitions(), 0);
}

#[test]
fn one_missing_parent_is_enough_to_stay_unsolid() {
    let g = genesis();
    let a = hash(0, 1);
    let mut tangle = Tangle::new();
    let engine = SolidifierState::new();
    tangle.add_root(g);
    tangle.insert(a, g, hash(-1, 0), Vec::new());
    assert!(engine.propagate(&mut tangle, a).is_empty());
    assert!(!tangle.is_solid(&a));
}

#[test]
fn insertion_order_does_not_matter() {
    let g = genesis();
    let a = hash(0, 1);
    let b = hash(0, -1);
    let c = hash(-1, 0);
    let engine = SolidifierState::new();

    let mut parents_first = Tangle::new();
    parents_first.add_root(g);
    for (h, trunk, branch) in [(a, g, g), (b, a, g), (c, b, a)] {
        let (_, request) = parents_first.insert(h, trunk, branch, Vec::new());
        assert_eq!(request, Request::Work(h));
        engine.propagate(&mut parents_first, h);
    }

    let mut children_first = Tangle::new();
    children_first.add_root(g);
    for (h, trunk, branch) in [(c, b, a), (b, a, g), (a, g, g)] {
        let (_, request) = children_first.insert(h, trunk, branch, Vec::new());
        assert_eq!(request, Request::Work(h));
        engine.propagate(&mut children_first, h);
    }

    for h in [a, b, c] {
        assert!(parents_first.is_solid(&h));
        assert!(children_first.is_solid(&h));
    }
    assert_eq!(parents_first.solid_transitions(), 3);
    assert_eq!(children_first.solid_transitions(), 3);
}

#[test]
fn second_propagation_changes_nothing() {
    let g = genesis();
    let a = hash(0, 1);
    let b = hash(0, -1);
    let c = hash(-1, 0);
    let mut tangle = Tangle::new();
    let engine = SolidifierState::new();
    tangle.add_root(g);
    tangle.insert(a, g, g, Vec::new());
    tangle.insert(b, a, g, Vec::new());
    tangle.insert(c, hash(1, 0), a, Vec::new());

    let first = engine.propagate(&mut tangle, a);
    assert_eq!(first, vec![a, b]);
    assert_eq!(tangle.solid_transitions(), 2);

    let second = engine.propagate(&mut tangle, a);
    assert_eq!(second, vec![a, b]);
    assert_eq!(tangle.solid_transitions(), 2);
    assert!(tangle.is_solid(&a));
    assert!(tangle.is_solid(&b));
    assert!(!tangle.is_solid(&c));
    assert_eq!(tangle.len(), 3);
}

#[test]
fn solid_vertices_stay_solid() {
    let g = genesis();
    let a = hash(0, 1);
    let b = hash(0, -1);
    let mut tangle = Tangle::new();
    let engine = SolidifierState::new();
    tangle.add_root(g);
    tangle.insert(a, g, g, Vec::new());
    engine.propagate(&mut tangle, a);
    assert!(tangle.is_solid(&a));

    tangle.insert(a, hash(1, 0), hash(1, 0), Vec::new());
    assert!(tangle.is_solid(&a));
    tangle.insert(b, hash(1, 0), a, Vec::new());
    assert!(tangle.is_solid(&a));
    engine.propagate(&mut tangle, b);
    assert!(tangle.is_solid(&a));
    tangle.add_root(hash(-1, -1));
    assert!(tangle.is_solid(&a));
    engine.propagate(&mut tangle, hash(1, 0));
    assert!(tangle.is_solid(&a));
    assert!(!tangle.is_solid(&b));
}

#[test]
fn diamond_is_walked_once() {
    let g = genesis();
    let a = hash(0, 1);
    let left = hash(0, -1);
    let right = hash(-1, 0);
    let tip = hash(-1, -1);
    let mut tangle = Tangle::new();
    let engine = SolidifierState::new();
    tangle.add_root(g);
    tangle.insert(tip, left, right, Vec::new());
    tangle.insert(left, a, a, Vec::new());
    tangle.insert(right, a, g, Vec::new());
    tangle.insert(a, g, g, Vec::new());
    assert_eq!(tangle.get_approvers(&a), vec![left, right]);
    assert_eq!(tangle.get_approvers(&left), vec![tip]);
    assert_eq!(tangle.get_approvers(&right), vec![tip]);

    let marked = engine.propagate(&mut tangle, a);
    assert_eq!(marked, vec![a, right, left, tip]);
    for h in [a, left, right, tip] {
        assert!(tangle.is_solid(&h));
    }
    assert_eq!(tangle.solid_transitions(), 4);
    assert_eq!(tangle.len(), 4);
}

#[test]
fn walk_ends_on_a_cycle() {
    let g = genesis();
    let a = hash(0, 1);
    let b = hash(0, -1);
    let mut tangle = Tangle::new();
    let engine = SolidifierState::new();
    tangle.add_root(g);
    tangle.add_root(a);
    tangle.insert(a, b, g, Vec::new());
    tangle.insert(b, a, g, Vec::new());
    let marked = engine.propagate(&mut tangle, b);
    assert_eq!(marked, vec![b, a]);
    assert!(tangle.is_solid(&a));
    assert!(tangle.is_solid(&b));
}

#[test]
fn propagation_from_an_unknown_hash_does_nothing() {
    let mut tangle = Tangle::new();
    let engine = SolidifierState::new();
    tangle.add_root(genesis());
    tangle.insert(hash(0, 1), genesis(), genesis(), Vec::new());
    assert!(engine.propagate(&mut tangle, hash(1, 0)).is_empty());
    assert!(!tangle.is_solid(&hash(0, 1)));
    assert_eq!(tangle.len(), 1);
}

#[test]
fn tangle_keeps_the_first_insertion() {
    let g = genesis();
    let a = hash(0, 1);
    let mut tangle = Tangle::new();
    tangle.add_root(g);
    tangle.insert(a, g, g, vec![1, 2, 3]);
    let (again, request) = tangle.insert(a, hash(1, 0), hash(-1, 0), vec![4]);
    assert_eq!(request, Request::Work(a));
    assert_eq!(again.trunk(), g);
    assert_eq!(again.branch(), g);
    assert_eq!(again.payload(), &vec![1, 2, 3]);
    assert_eq!(tangle.len(), 1);
    assert_eq!(tangle.get_approvers(&g), vec![a]);
    assert!(tangle.get_approvers(&hash(1, 0)).is_empty());
    assert!(tangle.get_approvers(&hash(-1, 0)).is_empty());
    let stored = tangle.get(&a).unwrap();
    assert_eq!(stored.trunk(), g);
    assert!(!stored.is_solid());
}

#[test]
fn components_can_be_read() {
    let g = genesis();
    let a = hash(0, 1);
    let b = hash(0, -1);
    let mut tangle = Tangle::new();
    let engine = SolidifierState::new();
    tangle.add_root(g);
    tangle.insert(a, g, g, vec![5]);
    tangle.insert(b, a, a, Vec::new());
    engine.propagate(&mut tangle, a);

    assert_eq!(tangle.vertices().len(), 2);
    assert!(tangle.vertices().is_solid(&b));
    assert!(tangle.vertices().contains(&a));
    assert!(!tangle.vertices().contains(&g));
    assert_eq!(tangle.vertices().get(&a).unwrap().payload(), &vec![5]);
    assert_eq!(tangle.vertices().solid_transitions(), 2);
    assert_eq!(tangle.approvers().get_approvers(&a), vec![b]);
    assert_eq!(tangle.approvers().get_approvers(&g), vec![a]);
    assert!(tangle.approvers().get_approvers(&b).is_empty());
}

#[test]
fn every_request_leaves_the_graph_settled() {
    let g = genesis();
    let hashes = [hash(0, 1), hash(0, -1), hash(-1, 0), hash(-1, -1), hash(1, 0), hash(1, -1)];
    let parents: [(usize, usize); 6] = [(0, 0), (0, 0), (0, 1), (1, 2), (3, 2), (4, 0)];
    let orders: [[usize; 6]; 4] = [[0, 1, 2, 3, 4, 5], [5, 4, 3, 2, 1, 0], [2, 5, 0, 4, 1, 3], [3, 1, 4, 0, 5, 2]];
    for order in orders {
        let mut tangle = Tangle::new();
        let engine = SolidifierState::new();
        tangle.add_root(g);
        let mut inserted = Vec::new();
        for i in order {
            let (trunk, branch) = if i == 0 { (g, g) } else { (hashes[parents[i].0], hashes[parents[i].1]) };
            let (_, request) = tangle.insert(hashes[i], trunk, branch, Vec::new());
            assert_eq!(request, Request::Work(hashes[i]));
            engine.propagate(&mut tangle, hashes[i]);
            inserted.push(i);
            for &j in &inserted {
                let vertex = tangle.get(&hashes[j]).unwrap();
                let ready = tangle.is_ancestor_solid(&vertex.trunk()) && tangle.is_ancestor_solid(&vertex.branch());
                assert_eq!(tangle.is_solid(&hashes[j]), ready);
            }
        }
        for h in hashes {
            assert!(tangle.is_solid(&h));
        }
        assert_eq!(tangle.solid_transitions(), 6);
    }
}

#[test]
fn roots_need_not_be_stored() {
    let g = genesis();
    let mut tangle = Tangle::new();
    assert!(!tangle.is_root(&g));
    assert!(!tangle.is_ancestor_solid(&g));
    tangle.add_root(g);
    tangle.add_root(g);
    assert!(tangle.is_root(&g));
    assert!(tangle.is_ancestor_solid(&g));
    assert!(!tangle.is_solid(&g));
    assert!(tangle.get(&g).is_none());
    assert_eq!(tangle.len(), 0);
}

#[test]
fn engine_stops_for_good() {
    let g = genesis();
    let a = hash(0, 1);
    let b = hash(0, -1);
    let mut tangle = Tangle::new();
    let mut engine = SolidifierState::new();
    tangle.add_root(g);
    assert!(!engine.is_stopped());

    let (_, request) = tangle.insert(a, g, g, Vec::new());
    match engine.step(&mut tangle, request) {
        Control::Continue(marked) => assert_eq!(marked, vec![a]),
        Control::Shutdown => panic!("the engine was not asked to stop"),
    }
    assert!(tangle.is_solid(&a));
    assert!(!engine.is_stopped());

    assert!(matches!(engine.step(&mut tangle, Request::Stop), Control::Shutdown));
    assert!(engine.is_stopped());

    let (_, request) = tangle.insert(b, a, g, Vec::new());
    assert!(matches!(engine.step(&mut tangle, request), Control::Shutdown));
    assert!(!tangle.is_solid(&b));
    assert!(engine.propagate(&mut tangle, b).is_empty());
    assert!(!tangle.is_solid(&b));
    assert!(matches!(engine.step(&mut tangle, Request::Stop), Control::Shutdown));
    assert!(engine.is_stopped());
    assert_eq!(tangle.solid_transitions(), 1);
}
