use vstd::prelude::*;

verus! {

/// The 11-bit sequence field: the slot identifier in the upper three bits,
/// the generator-local counter in the lower eight.
pub open spec fn spec_sequence(thread_id: u8, counter: u8) -> u64 {
    (((thread_id as u64) << 8) | (counter as u64)) & 0x7FF
}

/// The bit layout of an identifier, most-significant bits first: 41 bits of
/// millisecond timestamp (bits 63 through 23), 12 bits of node identifier
/// (bits 22 through 11), and the 11-bit sequence field (bits 10 through 0).
/// The timestamp and node identifier are truncated to their fields; a slot
/// below 8 and an 8-bit counter always fit theirs exactly.
pub open spec fn spec_encode_id(timestamp: u64, node_id: u64, thread_id: u8, counter: u8) -> u64 {
    ((timestamp & 0x1FFFFFFFFFF) << 23) | ((node_id & 0xFFF) << 11) | spec_sequence(
        thread_id,
        counter,
    )
}

/// Packs a timestamp, node identifier, slot and counter into one identifier.
pub fn encode_id(timestamp: u64, node_id: u64, thread_id: u8, counter: u8) -> (r: u64)
    ensures
        r == spec_encode_id(timestamp, node_id, thread_id, counter),
{
    let ts = timestamp & 0x1FFFFFFFFFF;
    let sequence = ((thread_id as u64) << 8) | (counter as u64);
    (ts << 23) | ((node_id & 0xFFF) << 11) | (sequence & 0x7FF)
}

/// The 41-bit timestamp field of an identifier.
pub fn timestamp_of(id: u64) -> (r: u64)
    ensures
        r == id >> 23,
{
    id >> 23
}

/// The 12-bit node identifier field of an identifier.
pub fn node_id_of(id: u64) -> (r: u64)
    ensures
        r == ((id >> 11) & 0xFFF),
{
    (id >> 11) & 0xFFF
}

/// The 11-bit sequence field of an identifier: slot in the upper three bits,
/// counter in the lower eight.
pub fn sequence_of(id: u64) -> (r: u64)
    ensures
        r == (id & 0x7FF),
{
    id & 0x7FF
}

/// Law: decoding an identifier by the shift-and-mask layout recovers the
/// timestamp, the node identifier, and the sequence field exactly, whenever
/// each input fits its field; the counter alone is the low eight bits.
pub proof fn lemma_round_trip(timestamp: u64, node_id: u64, thread_id: u8, counter: u8)
    requires
        timestamp <= 0x1FFFFFFFFFF,
        node_id <= 0xFFF,
        thread_id < 8,
    ensures
        spec_encode_id(timestamp, node_id, thread_id, counter) >> 23 == timestamp,
        (spec_encode_id(timestamp, node_id, thread_id, counter) >> 11) & 0xFFF == node_id,
        spec_encode_id(timestamp, node_id, thread_id, counter) & 0x7FF == ((
        thread_id as u64) << 8) | (counter as u64),
        spec_encode_id(timestamp, node_id, thread_id, counter) & 0xFF == counter as u64,
{
    assert((spec_encode_id(timestamp, node_id, thread_id, counter) >> 23 == timestamp)
        && ((spec_encode_id(timestamp, node_id, thread_id, counter) >> 11) & 0xFFF == node_id)
        && (spec_encode_id(timestamp, node_id, thread_id, counter) & 0x7FF == ((
    thread_id as u64) << 8) | (counter as u64)) && (spec_encode_id(
        timestamp,
        node_id,
        thread_id,
        counter,
    ) & 0xFF == counter as u64)) by (bit_vector)
        requires
            timestamp <= 0x1FFFFFFFFFF,
            node_id <= 0xFFF,
            thread_id < 8,
    ;
}

/// Law: the low eight bits of every identifier are exactly its counter, so
/// two identifiers minted at different counter values differ, whatever their
/// timestamps, node identifiers and slots. In particular all identifiers one
/// generator mints over its lifetime are pairwise distinct, since its
/// counter strictly increases.
pub proof fn lemma_distinct_counters_distinct_ids(
    ts1: u64,
    node1: u64,
    tid1: u8,
    c1: u8,
    ts2: u64,
    node2: u64,
    tid2: u8,
    c2: u8,
)
    requires
        c1 != c2,
    ensures
        spec_encode_id(ts1, node1, tid1, c1) != spec_encode_id(ts2, node2, tid2, c2),
{
    assert(spec_encode_id(ts1, node1, tid1, c1) != spec_encode_id(ts2, node2, tid2, c2))
        by (bit_vector)
        requires
            c1 != c2,
    ;
}

/// Law: bits 10 through 8 of every identifier are exactly its slot, so two
/// identifiers minted through different slots differ, whatever their
/// timestamps, node identifiers and counters. Together with the pool's
/// guarantee that live generators hold distinct slots, identifiers minted by
/// concurrently live generators never collide.
pub proof fn lemma_distinct_slots_distinct_ids(
    ts1: u64,
    node1: u64,
    tid1: u8,
    c1: u8,
    ts2: u64,
    node2: u64,
    tid2: u8,
    c2: u8,
)
    requires
        tid1 < 8,
        tid2 < 8,
        tid1 != tid2,
    ensures
        spec_encode_id(ts1, node1, tid1, c1) != spec_encode_id(ts2, node2, tid2, c2),
{
    assert(spec_encode_id(ts1, node1, tid1, c1) != spec_encode_id(ts2, node2, tid2, c2))
        by (bit_vector)
        requires
            tid1 < 8,
            tid2 < 8,
            tid1 != tid2,
    ;
}

} // verus!
