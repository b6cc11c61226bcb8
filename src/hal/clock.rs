use vstd::prelude::*;
use crate::hal::time::Hertz;

verus! {

/// Clock module errors
#[derive(PartialEq, Eq, Clone, Copy, Debug, Structural)]
pub enum Error {
    /// Operation cannot performed in the current state of the clock module
    InvalidState,
    /// Value is out of range supported by the hardware
    InvalidArgument,
}

/// Oscillator configuration: the core clock frequency that results from the
/// configuration words and, with a crystal, the crystal frequency.
pub struct Osc {
    sysclock: Hertz,
}

/// Selected input clock for reference oscillator
#[derive(PartialEq, Eq, Clone, Copy, Debug, Structural)]
pub enum Source {
    Sysclock,
    Pbclock,
    Posc,
    Frc,
    Lprc,
    Sosc,
    Usbpll,
    Syspll,
    Refclki,
}

impl Source {
    /// Value of the ROSEL field.
    pub open spec fn value(self) -> u8 {
        match self {
            Source::Sysclock => 0,
            Source::Pbclock => 1,
            Source::Posc => 2,
            Source::Frc => 3,
            Source::Lprc => 4,
            Source::Sosc => 5,
            Source::Usbpll => 6,
            Source::Syspll => 7,
            Source::Refclki => 8,
        }
    }

    /// Value of the ROSEL field.
    pub fn bits(self) -> (r: u8)
        ensures
            r == self.value(),
    {
        match self {
            Source::Sysclock => 0,
            Source::Pbclock => 1,
            Source::Posc => 2,
            Source::Frc => 3,
            Source::Lprc => 4,
            Source::Sosc => 5,
            Source::Usbpll => 6,
            Source::Syspll => 7,
            Source::Refclki => 8,
        }
    }
}

/// Reference clock generator singleton
pub struct Refclock {
    _private: (),
}

/// Fractional part (ROTRIM) and integer part (RODIV) of a reference clock
/// divisor.
#[derive(PartialEq, Eq, Clone, Copy, Debug, Structural)]
pub struct RefclockDivisor {
    pub trim: u16,
    pub div: u16,
}

impl Osc {
    pub closed spec fn spec_sysclock(&self) -> Hertz {
        self.sysclock
    }

    /// Create a new `Osc` from the sysclock value.
    pub fn new(sysclock: Hertz) -> (r: Osc)
        ensures
            r.spec_sysclock() == sysclock,
    {
        Osc { sysclock }
    }

    /// Create a new `Osc` and the `Refclock` from the sysclock value.
    pub fn new_with_refclock(sysclock: Hertz) -> (r: (Osc, Refclock))
        ensures
            r.0.spec_sysclock() == sysclock,
    {
        (Osc { sysclock }, Refclock { _private: () })
    }

    /// Get the sysclock
    pub fn sysclock(&self) -> (r: Hertz)
        ensures
            r == self.spec_sysclock(),
    {
        self.sysclock
    }

    /// Peripheral clock frequency for the peripheral clock divider setting
    /// `pbdiv` (OSCCON.PBDIV): the sysclock divided by 2^pbdiv.
    pub fn pb_clock(&self, pbdiv: u8) -> (r: Hertz)
        requires
            pbdiv < 4,
        ensures
            r.0 == self.spec_sysclock().0 >> pbdiv as u32,
    {
        Hertz(self.sysclock.0 >> (pbdiv as u32))
    }
}

impl Refclock {
    /// Value of the ROSEL field that selects source `s`. Fails with
    /// `InvalidState` while the generator is `active`.
    pub fn select_source(&self, s: Source, active: bool) -> (r: Result<u8, Error>)
        ensures
            active ==> r == Err::<u8, Error>(Error::InvalidState),
            !active ==> r == Ok::<u8, Error>(s.value()),
    {
        if active {
            return Err(Error::InvalidState);
        }
        Ok(s.bits())
    }

    /// Divisor fields for `div_q8`, the total divisor in Q16.8 format
    /// (including the fixed division by 2 of the generator): 2 is 0x000200,
    /// 2^16 - 1/256 is 0xffffff. Fails with `InvalidArgument` out of that
    /// range and with `InvalidState` while a divisor change is `ongoing`.
    pub fn set_divisor(&self, div_q8: u32, ongoing: bool) -> (r: Result<RefclockDivisor, Error>)
        ensures
            !(1 <= div_q8 / 512 <= 32767) ==> r == Err::<RefclockDivisor, Error>(
                Error::InvalidArgument,
            ),
            1 <= div_q8 / 512 <= 32767 && ongoing ==> r == Err::<RefclockDivisor, Error>(
                Error::InvalidState,
            ),
            1 <= div_q8 / 512 <= 32767 && !ongoing ==> r == Ok::<RefclockDivisor, Error>(
                RefclockDivisor { trim: (div_q8 % 512) as u16, div: (div_q8 / 512) as u16 },
            ),
    {
        let m = div_q8 & 0x1ff;
        let n = div_q8 >> 9u32;
        proof {
            assert(div_q8 & 0x1ffu32 == div_q8 % 512 && div_q8 >> 9u32 == div_q8 / 512) by (bit_vector);
        }
        if n == 0 || n > 32767 {
            return Err(Error::InvalidArgument);
        }
        if ongoing {
            return Err(Error::InvalidState);
        }
        Ok(RefclockDivisor { trim: m as u16, div: n as u16 })
    }

    /// A divisor change is ongoing while the generator is `active` and the
    /// switch-enable bit `divswen` is set.
    pub fn set_divisor_ongoing(&self, active: bool, divswen: bool) -> (r: bool)
        ensures
            r == (active && divswen),
    {
        active && divswen
    }
}

} // verus!
