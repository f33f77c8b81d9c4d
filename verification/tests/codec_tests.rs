use switflake::codec::{encode_id, node_id_of, sequence_of, timestamp_of};

#[test]
fn test_encode_exact_value() {
    // (1 << 23) | (1 << 11) | ((1 << 8) | 2) = 8388608 + 2048 + 258.
    assert_eq!(encode_id(1, 1, 1, 2), 8390914);
    assert_eq!(encode_id(0, 0, 0, 0), 0);
    assert_eq!(
        encode_id(0x1FFFFFFFFFF, 0xFFF, 7, 0xFF),
        (0x1FFFFFFFFFFu64 << 23) | (0xFFFu64 << 11) | 0x7FF
    );
}

#[test]
fn test_decode_recovers_fields() {
    let id = encode_id(123456789, 0xABC, 5, 0x42);
    assert_eq!(timestamp_of(id), 123456789);
    assert_eq!(node_id_of(id), 0xABC);
    assert_eq!(sequence_of(id), (5 << 8) | 0x42);
}

#[test]
fn test_encode_truncates_oversized_inputs() {
    // A timestamp wider than 41 bits keeps only its low 41 bits, and a node
    // identifier wider than 12 bits keeps only its low 12.
    let id = encode_id(u64::MAX, 0x1FFF, 0, 0);
    assert_eq!(timestamp_of(id), 0x1FFFFFFFFFF);
    assert_eq!(node_id_of(id), 0xFFF);
    assert_eq!(sequence_of(id), 0);
}

#[test]
fn test_distinct_counters_give_distinct_ids() {
    // Same millisecond, node and slot: the counter alone separates the ids.
    let a = encode_id(99, 1, 0, 7);
    let b = encode_id(99, 1, 0, 8);
    assert_ne!(a, b);
    // Even across different timestamps the low byte keeps them apart.
    let c = encode_id(100, 1, 0, 7);
    assert_eq!(c & 0xFF, a & 0xFF);
    assert_ne!(c & 0xFF, b & 0xFF);
}

#[test]
fn test_distinct_slots_give_distinct_ids() {
    let a = encode_id(99, 1, 3, 7);
    let b = encode_id(99, 1, 4, 7);
    assert_ne!(a, b);
    assert_ne!(sequence_of(a), sequence_of(b));
}
