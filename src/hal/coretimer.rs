use vstd::prelude::*;
use crate::hal::time::Hertz;

verus! {

/// `a / b`, rounded to the nearest integer.
pub fn rounded_div_u32(a: u32, b: u32) -> (r: u32)
    requires
        b > 0,
        a as int + b as int / 2 <= u32::MAX as int,
    ensures
        r == (a as int + b as int / 2) / b as int,
{
    (a + b / 2) / b
}

/// Delay arithmetic for the core timer "count" register, which runs at half
/// the core clock.
pub struct Delay {
    pub ticks_per_us: u32,
    pub nanos_per_tick: u32,
}

/// Longest wait, in ticks, between two reads of the counter.
pub const MAX_CHUNK: u64 = 0xffff_ffff;

impl Delay {
    pub fn new(sysclock: Hertz) -> (r: Self)
        requires
            sysclock.0 > 0,
        ensures
            r.ticks_per_us == sysclock.0 / 1_000_000 / 2,
            r.nanos_per_tick == (2_000_000_000 + sysclock.0 as int / 2) / sysclock.0 as int,
    {
        let ticks_per_us = sysclock.0 / 1_000_000 / 2;
        let nanos_per_tick = rounded_div_u32(2 * 1_000_000_000, sysclock.0);
        Delay { ticks_per_us, nanos_per_tick }
    }

    /// Counter ticks in `us` microseconds.
    pub fn ticks_for_us(&self, us: u32) -> (r: u64)
        ensures
            r == us * self.ticks_per_us,
    {
        proof {
            vstd::arithmetic::mul::lemma_mul_upper_bound(
                us as int,
                u32::MAX as int,
                self.ticks_per_us as int,
                u32::MAX as int,
            );
        }
        us as u64 * self.ticks_per_us as u64
    }

    /// Counter ticks in `us` microseconds, for short delays.
    pub fn ticks_for_us_short(&self, us: u16) -> (r: u32)
        requires
            us * self.ticks_per_us <= u32::MAX,
        ensures
            r == us * self.ticks_per_us,
    {
        us as u32 * self.ticks_per_us
    }

    /// Counter ticks in `ns` nanoseconds.
    pub fn ticks_for_ns(&self, ns: u32) -> (r: u32)
        requires
            self.nanos_per_tick > 0,
        ensures
            r == ns / self.nanos_per_tick,
    {
        ns / self.nanos_per_tick
    }
}

/// Ticks to wait in one pass of a long delay with `total` ticks left: all of
/// them, but no more than the counter can measure.
pub fn next_chunk(total: u64) -> (r: u32)
    ensures
        r == if total <= MAX_CHUNK { total } else { MAX_CHUNK },
{
    if total <= MAX_CHUNK {
        total as u32
    } else {
        0xffff_ffffu32
    }
}

} // verus!
