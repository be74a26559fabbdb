use bee::curl64::{Curl64State, STATE_LEN};

#[test]
fn new_state_is_filled() {
    let state = Curl64State::new(0xdead_beef);
    assert_eq!(state.get(0), (0xdead_beef, 0xdead_beef));
    assert_eq!(state.get(364), (0xdead_beef, 0xdead_beef));
    assert_eq!(state.get(STATE_LEN - 1), (0xdead_beef, 0xdead_beef));
    assert_eq!(STATE_LEN, 729);
}

#[test]
fn set_writes_one_position() {
    let mut state = Curl64State::new(0);
    state.set(5, 0b1100, 0b1010);
    assert_eq!(state.get(5), (0b1100, 0b1010));
    assert_eq!(state.get(4), (0, 0));
    assert_eq!(state.get(6), (0, 0));
}

#[test]
fn bit_add_moves_and_xors() {
    let mut state = Curl64State::new(0);
    state.set(7, 0b1100, 0b1010);
    assert!(state.bit_add(7));
    assert_eq!(state.get(7), (0b1010, 0b0110));
    assert_eq!(state.get(8), (0, 0));

    state.set(9, 0b0010, 0b0110);
    assert!(!state.bit_add(9));
    assert_eq!(state.get(9), (0b0110, 0b0100));
}

#[test]
fn bit_equal_marks_equal_bits() {
    let mut state = Curl64State::new(0);
    assert_eq!(state.bit_equal(3), u64::MAX);
    state.set(3, 0b1100, 0b1010);
    assert_eq!(state.bit_equal(3), !0b0110u64);
    assert_eq!(state.bit_equal(2), u64::MAX);
}

#[test]
fn clone_is_independent() {
    let mut state = Curl64State::new(1);
    state.set(0, 2, 3);
    let copy = state.clone();
    state.set(0, 4, 5);
    assert_eq!(copy.get(0), (2, 3));
    assert_eq!(copy.get(1), (1, 1));
    assert_eq!(state.get(0), (4, 5));
}
