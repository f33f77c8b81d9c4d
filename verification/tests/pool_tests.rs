use switflake::pool::{claim_lowest, clear_mask, release_word, word_is_full};
use switflake::{SwitflakeError, ThreadIdPool};

#[test]
fn test_acquire_hands_out_lowest_slots_in_order() {
    let mut pool = ThreadIdPool::new();
    for expected in 0..8u8 {
        assert_eq!(pool.acquire(), Ok(expected));
    }
    assert!(pool.is_full());
    assert_eq!(pool.acquire(), Err(SwitflakeError::PoolFull));
}

#[test]
fn test_release_frees_lowest_slot_for_reuse() {
    let mut pool = ThreadIdPool::new();
    for _ in 0..8 {
        pool.acquire().expect("pool should not be full yet");
    }
    pool.release(5);
    pool.release(2);
    assert!(!pool.is_full());
    assert_eq!(pool.acquire(), Ok(2), "the lowest freed slot should win");
    assert_eq!(pool.acquire(), Ok(5));
    assert_eq!(pool.acquire(), Err(SwitflakeError::PoolFull));
}

#[test]
fn test_release_is_idempotent() {
    let mut pool = ThreadIdPool::new();
    assert_eq!(pool.acquire(), Ok(0));
    pool.release(0);
    pool.release(0);
    assert_eq!(pool.acquire(), Ok(0));
    assert_eq!(pool.acquire(), Ok(1));
}

#[test]
fn test_word_level_helpers() {
    assert_eq!(claim_lowest(0b0000_0000), Some((0, 0b0000_0001)));
    assert_eq!(claim_lowest(0b0000_0111), Some((3, 0b0000_1111)));
    assert_eq!(claim_lowest(0b1111_1110), Some((0, 0b1111_1111)));
    assert_eq!(claim_lowest(0b1111_1111), None);
    assert_eq!(release_word(0b1111_1111, 4), 0b1110_1111);
    assert_eq!(release_word(0b1110_1111, 4), 0b1110_1111);
    assert_eq!(clear_mask(0), 0b1111_1110);
    assert!(word_is_full(0xFF));
    assert!(!word_is_full(0xFE));
}
