use vstd::prelude::*;
use crate::sysconfig::SYS_CLOCK;

verus! {

/// Time in ticks of the CP0 counter, extended to 64 bits.
pub type Time = u64;

/// The CP0 counter runs at half the core clock.
pub const TICKS_PER_US: u64 = SYS_CLOCK / 2000000;
pub const TICKS_PER_MS: u64 = TICKS_PER_US * 1000;
pub const TICKS_PER_SECOND: u64 = TICKS_PER_US * 1000000;

/// Number of timer slots.
pub const MAX_TIMERS: usize = 16;

/// Longest delay to the next compare interrupt.
pub const MAX_DELAY: u64 = 0xffff_ffff / 2;

/// Shortest delay to the next compare interrupt, so that the counter cannot
/// pass the compare value before it is written.
pub const MIN_DELAY: u64 = 100;

/// A factor up to `u64::MAX / k` keeps the product with `k` within `u64`.
proof fn lemma_mul_fits(k: u64, a: int)
    requires
        k > 0,
        0 <= a <= u64::MAX / k,
    ensures
        0 <= k * a <= u64::MAX,
{
    assert(k * a <= k * (u64::MAX / k)) by (nonlinear_arith)
        requires
            k > 0,
            a <= u64::MAX / k,
    ;
    assert(k * (u64::MAX / k) <= u64::MAX) by (nonlinear_arith)
        requires
            k > 0,
    ;
    assert(0 <= k * a) by (nonlinear_arith)
        requires
            k > 0,
            0 <= a,
    ;
}

pub fn time_from_micros(us: usize) -> (r: Time)
    requires
        us <= u64::MAX / TICKS_PER_US,
    ensures
        r == TICKS_PER_US * us,
{
    proof {
        lemma_mul_fits(TICKS_PER_US, us as int);
    }
    TICKS_PER_US * us as Time
}

pub fn time_from_millis(ms: usize) -> (r: Time)
    requires
        ms <= u64::MAX / TICKS_PER_MS,
    ensures
        r == TICKS_PER_MS * ms,
{
    proof {
        lemma_mul_fits(TICKS_PER_MS, ms as int);
    }
    TICKS_PER_MS * ms as Time
}

pub fn time_from_secs(seconds: usize) -> (r: Time)
    requires
        seconds <= u64::MAX / TICKS_PER_SECOND,
    ensures
        r == TICKS_PER_SECOND * seconds,
{
    proof {
        lemma_mul_fits(TICKS_PER_SECOND, seconds as int);
    }
    TICKS_PER_SECOND * seconds as Time
}

/// Time for a duration given in whole microseconds.
pub fn time_from_duration(micros: u128) -> (r: Time)
    requires
        micros <= u64::MAX / TICKS_PER_US,
    ensures
        r == TICKS_PER_US * micros,
{
    proof {
        lemma_mul_fits(TICKS_PER_US, micros as int);
    }
    TICKS_PER_US * micros as Time
}

/// Whole seconds in a time.
pub fn secs_of(t: Time) -> (r: u64)
    ensures
        r == t / TICKS_PER_SECOND,
{
    t / TICKS_PER_SECOND
}

/// Whole milliseconds in a time.
pub fn millis_of(t: Time) -> (r: u64)
    ensures
        r == t / TICKS_PER_MS,
{
    t / TICKS_PER_MS
}

/// A scheduled timer: when it is due, and the caller's token that
/// identifies what to do then.
#[derive(Clone, Copy, Debug, PartialEq, Eq, Structural)]
pub struct TimerEntry {
    pub when: Time,
    pub token: usize,
}

/// Earliest due time among the slots `0..n`, or `u64::MAX` if none is used.
pub open spec fn spec_earliest(timers: Seq<Option<TimerEntry>>, n: int) -> u64
    decreases n,
{
    if n <= 0 {
        u64::MAX
    } else {
        let rest = spec_earliest(timers, n - 1);
        match timers[n - 1] {
            Some(t) => if t.when < rest { t.when } else { rest },
            None => rest,
        }
    }
}

/// Delay from `now` to `earliest`, kept within `MIN_DELAY..=MAX_DELAY`.
pub open spec fn spec_clamped_delay(earliest: u64, now: u64) -> u64 {
    let d = if earliest > now { (earliest - now) as u64 } else { 0u64 };
    if d > MAX_DELAY {
        MAX_DELAY
    } else if d < MIN_DELAY {
        MIN_DELAY
    } else {
        d
    }
}

/// Shared state of the CP0 timer: the high word of the extended counter and
/// the timer slots.
pub struct TimerState {
    pub is_initialized: bool,
    pub timer_high: u32,
    pub last_timer_low: u32,
    pub timers: Vec<Option<TimerEntry>>,
}

impl TimerState {
    /// Well-formed: all timer slots are present.
    pub open spec fn wf(&self) -> bool {
        self.timers@.len() == MAX_TIMERS
    }

    /// State before the timer is initialized: no timer is scheduled.
    pub fn new() -> (r: Self)
        ensures
            r.wf(),
            !r.is_initialized,
            r.timer_high == 0,
            r.last_timer_low == 0,
            forall|i: int| 0 <= i < MAX_TIMERS ==> (#[trigger] r.timers@[i]) is None,
    {
        let mut timers: Vec<Option<TimerEntry>> = Vec::new();
        let mut i: usize = 0;
        while i < MAX_TIMERS
            invariant
                i <= MAX_TIMERS,
                timers@.len() == i,
                forall|j: int| 0 <= j < i ==> (#[trigger] timers@[j]) is None,
            decreases MAX_TIMERS - i,
        {
            timers.push(None);
            i = i + 1;
        }
        TimerState { is_initialized: false, timer_high: 0, last_timer_low: 0, timers }
    }

    /// Extend the counter value `timer_low` to 64 bits: a value below the
    /// last one seen means the counter wrapped, and the high word advances
    /// (modulo 2^32).
    pub fn now(&mut self, timer_low: u32) -> (r: Time)
        ensures
            final(self).timer_high == (if timer_low < old(self).last_timer_low {
                (old(self).timer_high + 1) % 0x1_0000_0000
            } else {
                old(self).timer_high as int
            }),
            final(self).last_timer_low == timer_low,
            final(self).timers == old(self).timers,
            final(self).is_initialized == old(self).is_initialized,
            r == final(self).timer_high * 0x1_0000_0000 + timer_low,
    {
        if timer_low < self.last_timer_low {
            self.timer_high = self.timer_high.wrapping_add(1);
        }
        self.last_timer_low = timer_low;
        let high = self.timer_high as u64;
        proof {
            assert((high << 32u64) | (timer_low as u64) == high * 0x1_0000_0000 + timer_low as u64)
                by (bit_vector)
                requires
                    high < 0x1_0000_0000,
            ;
        }
        (high << 32u64) | (timer_low as u64)
    }

    /// Put a timer due at `when` into the first free slot. Fails if all
    /// slots are in use.
    pub fn schedule(&mut self, when: Time, token: usize) -> (r: Result<usize, ()>)
        requires
            old(self).wf(),
        ensures
            final(self).wf(),
            r.is_ok() <==> exists|i: int| 0 <= i < MAX_TIMERS && (#[trigger] old(self).timers@[i]) is None,
            r.is_err() ==> final(self).timers@ == old(self).timers@,
            r matches Ok(i) ==> {
                &&& i < MAX_TIMERS
                &&& old(self).timers@[i as int] is None
                &&& forall|j: int| 0 <= j < i ==> (#[trigger] old(self).timers@[j]) is Some
                &&& final(self).timers@ == old(self).timers@.update(
                    i as int,
                    Some(TimerEntry { when, token }),
                )
            },
            final(self).timer_high == old(self).timer_high,
            final(self).last_timer_low == old(self).last_timer_low,
            final(self).is_initialized == old(self).is_initialized,
    {
        let mut i: usize = 0;
        while i < MAX_TIMERS && self.timers[i].is_some()
            invariant
                self.wf(),
                i <= MAX_TIMERS,
                self.timers@ == old(self).timers@,
                forall|j: int| 0 <= j < i ==> (#[trigger] self.timers@[j]) is Some,
            decreases MAX_TIMERS - i,
        {
            i = i + 1;
        }
        if i >= MAX_TIMERS {
            return Err(());
        }
        self.timers[i] = Some(TimerEntry { when, token });
        Ok(i)
    }

    /// Take the timer out of slot `i` if it is due at `now`.
    pub fn take_expired(&mut self, i: usize, now: Time) -> (r: Option<TimerEntry>)
        requires
            old(self).wf(),
            i < MAX_TIMERS,
        ensures
            final(self).wf(),
            match old(self).timers@[i as int] {
                Some(t) => if t.when <= now {
                    r == Some(t) && final(self).timers@ == old(self).timers@.update(i as int, None)
                } else {
                    r is None && final(self).timers@ == old(self).timers@
                },
                None => r is None && final(self).timers@ == old(self).timers@,
            },
            final(self).timer_high == old(self).timer_high,
            final(self).last_timer_low == old(self).last_timer_low,
            final(self).is_initialized == old(self).is_initialized,
    {
        match self.timers[i] {
            Some(t) => {
                if t.when <= now {
                    self.timers[i] = None;
                    Some(t)
                } else {
                    None
                }
            },
            None => None,
        }
    }

    /// Compare value for the next interrupt at `now`: the earliest due time,
    /// but no sooner than `MIN_DELAY` and no later than `MAX_DELAY` ticks
    /// ahead, reduced to the 32 bits of the counter.
    pub fn next_compare(&self, now: Time) -> (r: u32)
        requires
            self.wf(),
        ensures
            r == (now + spec_clamped_delay(spec_earliest(self.timers@, MAX_TIMERS as int), now))
                % 0x1_0000_0000,
    {
        let mut earliest: u64 = u64::MAX;
        let mut i: usize = 0;
        while i < MAX_TIMERS
            invariant
                self.wf(),
                i <= MAX_TIMERS,
                earliest == spec_earliest(self.timers@, i as int),
            decreases MAX_TIMERS - i,
        {
            match self.timers[i] {
                Some(t) => {
                    if t.when < earliest {
                        earliest = t.when;
                    }
                },
                None => {},
            }
            i = i + 1;
        }
        let mut delay: u64 = if earliest > now {
            earliest - now
        } else {
            0
        };
        if delay > MAX_DELAY {
            delay = MAX_DELAY;
        }
        if delay < MIN_DELAY {
            delay = MIN_DELAY;
        }
        let t = now.wrapping_add(delay);
        proof {
            assert(t & 0xffff_ffffu64 == t % 0x1_0000_0000) by (bit_vector);
        }
        (t & 0xffff_ffff) as u32
    }
}

/// What `TimerState::at` decided.
#[derive(Clone, Copy, Debug, PartialEq, Eq, Structural)]
pub enum AtOutcome {
    /// The time has come already: run the timer's action now.
    Due,
    /// The timer waits in this slot.
    Scheduled(usize),
}

impl TimerState {
    /// First initialization at counter value `timer_low`: returns the
    /// compare value for the first interrupt, `MAX_DELAY` ticks ahead, or
    /// `None` if the timer was initialized before.
    pub fn init(&mut self, timer_low: u32) -> (r: Option<u32>)
        requires
            old(self).wf(),
        ensures
            final(self).wf(),
            final(self).is_initialized,
            final(self).timers == old(self).timers,
            old(self).is_initialized ==> r is None && final(self).timer_high == old(self).timer_high
                && final(self).last_timer_low == old(self).last_timer_low,
            !old(self).is_initialized ==> {
                let now = final(self).timer_high * 0x1_0000_0000 + timer_low;
                &&& final(self).last_timer_low == timer_low
                &&& r == Some(((now + MAX_DELAY) % 0x1_0000_0000) as u32)
            },
    {
        if self.is_initialized {
            return None;
        }
        let now = self.now(timer_low);
        self.is_initialized = true;
        let t = now.wrapping_add(MAX_DELAY);
        proof {
            assert(t & 0xffff_ffffu64 == t % 0x1_0000_0000) by (bit_vector);
        }
        Some((t & 0xffff_ffff) as u32)
    }

    /// Arrange for the timer `token` to run not earlier than at `when`, the
    /// time being `now`: at once if `when` has come, else in a free slot.
    /// Fails if all slots are in use.
    pub fn at(&mut self, when: Time, token: usize, now: Time) -> (r: Result<AtOutcome, ()>)
        requires
            old(self).wf(),
        ensures
            final(self).wf(),
            (when <= now) ==> r == Ok::<AtOutcome, ()>(AtOutcome::Due) && final(self).timers@ == old(
                self,
            ).timers@,
            (when > now) ==> {
                &&& r.is_ok() <==> exists|i: int|
                    0 <= i < MAX_TIMERS && (#[trigger] old(self).timers@[i]) is None
                &&& r.is_err() ==> final(self).timers@ == old(self).timers@
                &&& r is Ok ==> r->Ok_0 is Scheduled
                &&& r is Ok ==> {
                    let i = r->Ok_0->Scheduled_0;
                    &&& i < MAX_TIMERS
                    &&& old(self).timers@[i as int] is None
                    &&& forall|j: int| 0 <= j < i ==> (#[trigger] old(self).timers@[j]) is Some
                    &&& final(self).timers@ == old(self).timers@.update(
                        i as int,
                        Some(TimerEntry { when, token }),
                    )
                }
            },
            final(self).timer_high == old(self).timer_high,
            final(self).last_timer_low == old(self).last_timer_low,
            final(self).is_initialized == old(self).is_initialized,
    {
        if when <= now {
            return Ok(AtOutcome::Due);
        }
        match self.schedule(when, token) {
            Ok(i) => Ok(AtOutcome::Scheduled(i)),
            Err(()) => Err(()),
        }
    }
}

} // verus!
