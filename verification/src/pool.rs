use vstd::prelude::*;

use crate::SwitflakeError;

verus! {

/// True when `slot` is marked occupied in the occupancy word `word`.
pub open spec fn slot_taken(word: u8, slot: u8) -> bool {
    word & (1u8 << slot) != 0
}

/// True when every one of the eight slots is occupied.
pub open spec fn pool_full(word: u8) -> bool {
    word == 0xFF
}

/// A bounded pool of eight slot identifiers (0 through 7).
///
/// Each live generator must hold exactly one slot, acquired at construction
/// and returned when the generator is done. The occupancy word keeps one bit
/// per slot; a set bit means the slot is held. The word-level helpers
/// (`claim_lowest`, `release_word`, `clear_mask`, `word_is_full`) expose the
/// same decisions on a bare word, so a caller that keeps the word in shared
/// storage can apply them between a load and a compare-and-exchange.
pub struct ThreadIdPool {
    used_ids: u8,
}

impl View for ThreadIdPool {
    type V = u8;

    closed spec fn view(&self) -> u8 {
        self.used_ids
    }
}

/// True exactly when no slot of `word` is free.
pub fn word_is_full(word: u8) -> (r: bool)
    ensures
        r == pool_full(word),
{
    word == 0xFF
}

/// The mask that clears `slot`'s bit from an occupancy word.
pub fn clear_mask(slot: u8) -> (r: u8)
    requires
        slot < 8,
    ensures
        r == !(1u8 << slot),
{
    !(1u8 << slot)
}

/// The occupancy word after `slot` has been released: its bit is cleared,
/// every other slot keeps its state.
pub fn release_word(word: u8, slot: u8) -> (r: u8)
    requires
        slot < 8,
    ensures
        r == (word & !(1u8 << slot)),
        !slot_taken(r, slot),
        forall|j: u8| j < 8 && j != slot ==> slot_taken(r, j) == slot_taken(word, j),
{
    let r = word & clear_mask(slot);
    proof {
        assert(!slot_taken(r, slot) && r == (word & !(1u8 << slot))) by (bit_vector)
            requires
                slot < 8,
                r == (word & !(1u8 << slot)),
        ;
        assert forall|j: u8| j < 8 && j != slot implies slot_taken(r, j) == slot_taken(word, j) by {
            assert(slot_taken(r, j) == slot_taken(word, j)) by (bit_vector)
                requires
                    slot < 8,
                    j < 8,
                    j != slot,
                    r == (word & !(1u8 << slot)),
            ;
        }
    }
    r
}

/// The decision at the heart of acquisition: given an observed occupancy
/// word, pick the lowest free slot and the word that marks it occupied, or
/// report that the word is full. A caller that holds the word in a shared
/// atomic applies this between a load and a compare-and-exchange and retries
/// on contention; the choice of the lowest free index keeps allocation
/// deterministic.
pub fn claim_lowest(word: u8) -> (r: Option<(u8, u8)>)
    ensures
        match r {
            Option::None => pool_full(word),
            Option::Some(p) => {
                &&& p.0 < 8
                &&& !slot_taken(word, p.0)
                &&& forall|j: u8| j < p.0 ==> slot_taken(word, j)
                &&& p.1 == (word | (1u8 << p.0))
                &&& slot_taken(p.1, p.0)
                &&& forall|j: u8| j < 8 && j != p.0 ==> slot_taken(p.1, j) == slot_taken(word, j)
            },
        },
{
    if word == 0xFF {
        return Option::None;
    }
    let mut i: u8 = 0;
    while i < 8
        invariant
            i <= 8,
            word != 0xFF,
            forall|j: u8| j < i ==> slot_taken(word, j),
        decreases 8 - i,
    {
        let mask = 1u8 << i;
        if word & mask == 0 {
            let next = word | mask;
            proof {
                assert(slot_taken(next, i)) by (bit_vector)
                    requires
                        i < 8,
                        next == (word | (1u8 << i)),
                        word & (1u8 << i) == 0,
                ;
                assert forall|j: u8| j < 8 && j != i implies slot_taken(next, j) == slot_taken(
                    word,
                    j,
                ) by {
                    assert(slot_taken(next, j) == slot_taken(word, j)) by (bit_vector)
                        requires
                            i < 8,
                            j < 8,
                            j != i,
                            next == (word | (1u8 << i)),
                    ;
                }
            }
            return Option::Some((i, next));
        }
        i = i + 1;
    }
    proof {
        assert(word == 0xFF) by (bit_vector)
            requires
                slot_taken(word, 0),
                slot_taken(word, 1),
                slot_taken(word, 2),
                slot_taken(word, 3),
                slot_taken(word, 4),
                slot_taken(word, 5),
                slot_taken(word, 6),
                slot_taken(word, 7),
        ;
    }
    Option::None
}

impl ThreadIdPool {
    /// A pool with all eight slots free.
    pub fn new() -> (r: Self)
        ensures
            r@ == 0u8,
    {
        ThreadIdPool { used_ids: 0 }
    }

    /// Point-in-time check of whether every slot is occupied. On a pool held
    /// behind shared storage this is advisory only; the authoritative answer
    /// comes from attempting `acquire`.
    pub fn is_full(&self) -> (r: bool)
        ensures
            r == pool_full(self@),
    {
        word_is_full(self.used_ids)
    }

    /// Hands out the lowest free slot, marking it occupied, or fails with
    /// `PoolFull` when every slot is held.
    pub fn acquire(&mut self) -> (r: Result<u8, SwitflakeError>)
        ensures
            match r {
                Result::Err(e) => {
                    &&& e == SwitflakeError::PoolFull
                    &&& pool_full(old(self)@)
                    &&& final(self)@ == old(self)@
                },
                Result::Ok(s) => {
                    &&& s < 8
                    &&& !slot_taken(old(self)@, s)
                    &&& forall|j: u8| j < s ==> slot_taken(old(self)@, j)
                    &&& final(self)@ == (old(self)@ | (1u8 << s))
                    &&& slot_taken(final(self)@, s)
                    &&& forall|j: u8|
                        j < 8 && j != s ==> slot_taken(final(self)@, j) == slot_taken(
                            old(self)@,
                            j,
                        )
                },
            },
    {
        match claim_lowest(self.used_ids) {
            Option::Some((slot, next)) => {
                self.used_ids = next;
                Result::Ok(slot)
            },
            Option::None => Result::Err(SwitflakeError::PoolFull),
        }
    }

    /// Returns `slot` to the pool. Releasing a slot that is already free
    /// leaves the word unchanged, so the operation is idempotent.
    pub fn release(&mut self, slot: u8)
        requires
            slot < 8,
        ensures
            final(self)@ == (old(self)@ & !(1u8 << slot)),
            !slot_taken(final(self)@, slot),
            forall|j: u8|
                j < 8 && j != slot ==> slot_taken(final(self)@, j) == slot_taken(old(self)@, j),
    {
        self.used_ids = release_word(self.used_ids, slot);
    }
}

/// Law: the pool reports full exactly when each of the eight slots is taken.
pub proof fn lemma_full_iff_all_taken(word: u8)
    ensures
        pool_full(word) <==> (forall|s: u8| s < 8 ==> slot_taken(word, s)),
{
    if pool_full(word) {
        assert forall|s: u8| s < 8 implies slot_taken(word, s) by {
            assert(slot_taken(word, s)) by (bit_vector)
                requires
                    s < 8,
                    word == 0xFF,
            ;
        }
    }
    if forall|s: u8| s < 8 ==> slot_taken(word, s) {
        assert(word == 0xFF) by (bit_vector)
            requires
                slot_taken(word, 0),
                slot_taken(word, 1),
                slot_taken(word, 2),
                slot_taken(word, 3),
                slot_taken(word, 4),
                slot_taken(word, 5),
                slot_taken(word, 6),
                slot_taken(word, 7),
        ;
    }
}

/// Law: releasing any slot leaves the pool with at least one free slot, so
/// the next acquisition attempt is owed a success.
pub proof fn lemma_not_full_after_release(word: u8, slot: u8)
    requires
        slot < 8,
    ensures
        !pool_full(word & !(1u8 << slot)),
{
    assert((word & !(1u8 << slot)) != 0xFF) by (bit_vector)
        requires
            slot < 8,
    ;
}

/// Law: a slot that is occupied and a slot that is free in the same
/// occupancy word are different slots; two live holders therefore never
/// share a slot, since each acquisition takes a slot that was free while
/// every previously acquired one was still marked taken.
pub proof fn lemma_live_slots_distinct(word: u8, held: u8, fresh: u8)
    requires
        slot_taken(word, held),
        !slot_taken(word, fresh),
    ensures
        held != fresh,
{
}

} // verus!
