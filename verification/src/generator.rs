use vstd::prelude::*;

use crate::SwitflakeError;
use crate::codec::{encode_id, spec_encode_id};
use crate::pool::{pool_full, slot_taken, ThreadIdPool};

verus! {

/// Relies on std::time::SystemTime::now and SystemTime::duration_since: the
/// number of whole milliseconds between the Unix epoch and the current
/// system time, or `None` when the clock reads earlier than the epoch. The
/// result depends on the clock, so nothing is promised of its value.
#[verifier::external_body]
fn current_unix_millis() -> (r: Option<u64>) {
    match std::time::SystemTime::now().duration_since(std::time::UNIX_EPOCH) {
        Ok(d) => Some(d.as_millis() as u64),
        Err(_) => None,
    }
}

/// A generator of time-ordered 64-bit identifiers.
///
/// Each instance is bound to a node identifier (truncated to 12 bits), holds
/// one slot of the pool for as long as it lives, and keeps an 8-bit local
/// counter that starts at 0 and only ever increases. The counter is never
/// reset — not per millisecond but per generator lifetime — so one instance
/// mints at most 255 identifiers, at counter values 0 through 254; once the
/// counter stands at 255 every further call fails with `SequenceExhausted`,
/// and minting more requires constructing a new generator.
pub struct Switflake {
    node_id: u64,
    thread_id: u8,
    local_counter: u8,
}

impl Switflake {
    /// The 12-bit node identifier this generator stamps into identifiers.
    pub closed spec fn spec_node_id(&self) -> u64 {
        self.node_id
    }

    /// The pool slot this generator holds.
    pub closed spec fn spec_thread_id(&self) -> u8 {
        self.thread_id
    }

    /// The generator-local counter: the number of identifiers minted so far.
    pub closed spec fn spec_counter(&self) -> u8 {
        self.local_counter
    }

    /// Well-formedness: the node identifier fits its 12-bit field and the
    /// slot is one of the pool's eight.
    pub open spec fn wf(&self) -> bool {
        self.spec_node_id() <= 0xFFF && self.spec_thread_id() < 8
    }

    /// Binds a generator to a slot the caller has already acquired and now
    /// owns exclusively; the counter starts at 0 and only the low 12 bits of
    /// `node_id` are retained. The caller remains responsible for returning
    /// the slot when the generator's life ends.
    pub fn with_slot(node_id: u64, thread_id: u8) -> (r: Switflake)
        requires
            thread_id < 8,
        ensures
            r.wf(),
            r.spec_node_id() == node_id & 0xFFF,
            r.spec_thread_id() == thread_id,
            r.spec_counter() == 0,
    {
        proof {
            assert(node_id & 0xFFF <= 0xFFF) by (bit_vector);
        }
        Switflake { node_id: node_id & 0xFFF, thread_id, local_counter: 0 }
    }

    /// Constructs a generator bound to `node_id`, acquiring the lowest free
    /// slot from `pool`. Only the low 12 bits of `node_id` are retained;
    /// larger values are silently truncated, not rejected. Fails with
    /// `PoolFull` exactly when every slot is held, and then leaves the pool
    /// unchanged.
    pub fn new(node_id: u64, pool: &mut ThreadIdPool) -> (r: Result<Switflake, SwitflakeError>)
        ensures
            match r {
                Result::Err(e) => {
                    &&& e == SwitflakeError::PoolFull
                    &&& pool_full(old(pool)@)
                    &&& final(pool)@ == old(pool)@
                },
                Result::Ok(g) => {
                    &&& g.wf()
                    &&& g.spec_node_id() == node_id & 0xFFF
                    &&& g.spec_counter() == 0
                    &&& !slot_taken(old(pool)@, g.spec_thread_id())
                    &&& forall|j: u8|
                        j < g.spec_thread_id() ==> slot_taken(old(pool)@, j)
                    &&& final(pool)@ == (old(pool)@ | (1u8 << g.spec_thread_id()))
                    &&& slot_taken(final(pool)@, g.spec_thread_id())
                },
            },
    {
        if pool.is_full() {
            return Result::Err(SwitflakeError::PoolFull);
        }
        let thread_id = match pool.acquire() {
            Result::Ok(id) => id,
            Result::Err(e) => {
                return Result::Err(e);
            },
        };
        Result::Ok(Self::with_slot(node_id, thread_id))
    }

    /// Mints one identifier.
    ///
    /// Fails with `SequenceExhausted` once the counter has reached 255 — in
    /// that case nothing is mutated and the clock is not read — and with
    /// `ClockError` when the clock reads earlier than the Unix epoch, again
    /// leaving the generator unchanged. On success the identifier carries
    /// this generator's node identifier, slot, and pre-call counter in the
    /// layout of `spec_encode_id`, under the timestamp the clock supplied,
    /// and the counter advances by exactly 1.
    pub fn generate_id(&mut self) -> (r: Result<u64, SwitflakeError>)
        ensures
            old(self).spec_counter() == 0xFF ==> {
                &&& r == Result::<u64, SwitflakeError>::Err(SwitflakeError::SequenceExhausted)
                &&& *final(self) == *old(self)
            },
            old(self).spec_counter() < 0xFF ==> match r {
                Result::Ok(id) => {
                    &&& exists|ts: u64|
                        id == spec_encode_id(
                            ts,
                            old(self).spec_node_id(),
                            old(self).spec_thread_id(),
                            old(self).spec_counter(),
                        )
                    &&& final(self).spec_counter() == old(self).spec_counter() + 1
                    &&& final(self).spec_node_id() == old(self).spec_node_id()
                    &&& final(self).spec_thread_id() == old(self).spec_thread_id()
                },
                Result::Err(e) => {
                    &&& e == SwitflakeError::ClockError
                    &&& *final(self) == *old(self)
                },
            },
    {
        if self.local_counter == 0xFF {
            return Result::Err(SwitflakeError::SequenceExhausted);
        }
        let timestamp = match current_unix_millis() {
            Option::Some(t) => t,
            Option::None => {
                return Result::Err(SwitflakeError::ClockError);
            },
        };
        let id = encode_id(timestamp, self.node_id, self.thread_id, self.local_counter);
        self.local_counter = self.local_counter + 1;
        proof {
            assert(id == spec_encode_id(
                timestamp,
                old(self).spec_node_id(),
                old(self).spec_thread_id(),
                old(self).spec_counter(),
            ));
        }
        Result::Ok(id)
    }

    /// Ends this generator's life, returning its slot to `pool`. Taking the
    /// generator by value makes a second release of the same slot through it
    /// impossible.
    pub fn release(self, pool: &mut ThreadIdPool)
        requires
            self.wf(),
        ensures
            final(pool)@ == (old(pool)@ & !(1u8 << self.spec_thread_id())),
            !slot_taken(final(pool)@, self.spec_thread_id()),
            forall|j: u8|
                j < 8 && j != self.spec_thread_id() ==> slot_taken(final(pool)@, j) == slot_taken(
                    old(pool)@,
                    j,
                ),
    {
        pool.release(self.thread_id);
    }
}

} // verus!
