use vstd::prelude::*;

pub mod codec;
pub mod generator;
pub mod pool;

pub use generator::Switflake;
pub use pool::ThreadIdPool;

verus! {

/// The ways constructing a generator or minting an identifier can fail.
///
/// Callers are expected to branch on the variant: none of these signals
/// corruption, and each is recoverable by waiting, reconstructing, or
/// correcting the environment.
#[derive(Clone, Copy, Debug, PartialEq, Eq)]
pub enum SwitflakeError {
    /// All eight slots of the pool are occupied by live generators.
    PoolFull,
    /// The generator's local counter has reached its 8-bit maximum; this
    /// generator can mint no further identifiers.
    SequenceExhausted,
    /// The system clock reported a time earlier than the Unix epoch.
    ClockError,
}

} // verus!
