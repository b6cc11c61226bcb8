use vstd::prelude::*;

verus! {

/// Frequency of the core clock in Hz.
pub const SYS_CLOCK: u64 = 40_000_000;

} // verus!
