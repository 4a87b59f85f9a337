use addr_channel::{decode_state, encode_state, State};
use addr_channel::{INIT_STATE, MAX_BUFFER, MAX_CAPACITY, OPEN_MASK};

#[test]
fn initial_state_is_open_and_empty() {
    let st = decode_state(INIT_STATE);
    assert!(st.is_open);
    assert_eq!(st.num_messages, 0);
}

#[test]
fn decode_splits_flag_and_count() {
    let st = decode_state(OPEN_MASK | 42);
    assert!(st.is_open);
    assert_eq!(st.num_messages, 42);

    let st = decode_state(42);
    assert!(!st.is_open);
    assert_eq!(st.num_messages, 42);

    let st = decode_state(MAX_CAPACITY);
    assert!(!st.is_open);
    assert_eq!(st.num_messages, MAX_CAPACITY);
}

#[test]
fn encode_packs_flag_and_count() {
    assert_eq!(encode_state(&State { is_open: true, num_messages: 0 }), OPEN_MASK);
    assert_eq!(encode_state(&State { is_open: false, num_messages: 7 }), 7);
    assert_eq!(encode_state(&State { is_open: true, num_messages: 7 }), OPEN_MASK | 7);
}

#[test]
fn encode_decode_round_trip() {
    for n in [0u64, 1, 2, 1000, MAX_BUFFER, MAX_CAPACITY] {
        for open in [false, true] {
            let st = State { is_open: open, num_messages: n };
            assert_eq!(decode_state(encode_state(&st)), st);
        }
    }
    for num in [0u64, 5, OPEN_MASK - 1, OPEN_MASK, OPEN_MASK + 3, u64::MAX] {
        let st = decode_state(num);
        assert_eq!(encode_state(&st), num);
    }
}

#[test]
fn capacity_constants_are_consistent() {
    assert_eq!(MAX_CAPACITY, !OPEN_MASK);
    assert_eq!(MAX_BUFFER, MAX_CAPACITY >> 1);
    assert_eq!(INIT_STATE, OPEN_MASK);
}
