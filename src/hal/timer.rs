pub mod timer_a;
pub mod timer_b;

use vstd::prelude::*;

verus! {

/// Clocking Modes
#[derive(Clone, Copy, Debug, PartialEq, Eq, Structural)]
pub enum Clocking {
    /// Internal clock (Pbclock)
    Pbclock,
    /// Internal clock, gated
    PbclockGated,
    /// External clock
    External,
}

impl Clocking {
    /// Values of the TCS and TGATE bits for this mode.
    pub fn tcs_tgate(self) -> (r: (bool, bool))
        ensures
            r.0 == (self == Clocking::External),
            r.1 == (self == Clocking::PbclockGated),
    {
        match self {
            Clocking::Pbclock => (false, false),
            Clocking::PbclockGated => (false, true),
            Clocking::External => (true, false),
        }
    }
}

} // verus!
