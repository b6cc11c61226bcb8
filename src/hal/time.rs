use vstd::prelude::*;

verus! {

/// Bits per second
#[derive(PartialEq, Eq, PartialOrd, Clone, Copy, Debug, Structural)]
pub struct Bps(pub u32);

/// Hertz
#[derive(PartialEq, Eq, PartialOrd, Clone, Copy, Debug, Structural)]
pub struct Hertz(pub u32);

/// Kilohertz
#[derive(PartialEq, Eq, PartialOrd, Clone, Copy, Debug, Structural)]
pub struct KiloHertz(pub u32);

/// Megahertz
#[derive(PartialEq, Eq, PartialOrd, Clone, Copy, Debug, Structural)]
pub struct MegaHertz(pub u32);

/// Time unit
#[derive(PartialEq, Eq, PartialOrd, Clone, Copy, Debug, Structural)]
pub struct MilliSeconds(pub u32);

/// Extension trait that adds convenience methods to the `u32` type
pub trait U32Ext: Sized {
    /// The number that the methods wrap.
    spec fn spec_value(self) -> u32;

    /// Wrap in `Bps`
    fn bps(self) -> (r: Bps)
        ensures
            r.0 == self.spec_value(),
    ;

    /// Wrap in `Hertz`
    fn hz(self) -> (r: Hertz)
        ensures
            r.0 == self.spec_value(),
    ;

    /// Wrap in `KiloHertz`
    fn khz(self) -> (r: KiloHertz)
        ensures
            r.0 == self.spec_value(),
    ;

    /// Wrap in `MegaHertz`
    fn mhz(self) -> (r: MegaHertz)
        ensures
            r.0 == self.spec_value(),
    ;

    /// Wrap in `MilliSeconds`
    fn ms(self) -> (r: MilliSeconds)
        ensures
            r.0 == self.spec_value(),
    ;
}

impl U32Ext for u32 {
    open spec fn spec_value(self) -> u32 {
        self
    }

    fn bps(self) -> (r: Bps) {
        Bps(self)
    }

    fn hz(self) -> (r: Hertz) {
        Hertz(self)
    }

    fn khz(self) -> (r: KiloHertz) {
        KiloHertz(self)
    }

    fn mhz(self) -> (r: MegaHertz) {
        MegaHertz(self)
    }

    fn ms(self) -> (r: MilliSeconds) {
        MilliSeconds(self)
    }
}

impl KiloHertz {
    /// The same frequency in hertz.
    pub fn to_hertz(self) -> (r: Hertz)
        requires
            self.0 * 1_000 <= u32::MAX,
        ensures
            r.0 == self.0 * 1_000,
    {
        Hertz(self.0 * 1_000)
    }
}

impl MegaHertz {
    /// The same frequency in hertz.
    pub fn to_hertz(self) -> (r: Hertz)
        requires
            self.0 * 1_000_000 <= u32::MAX,
        ensures
            r.0 == self.0 * 1_000_000,
    {
        Hertz(self.0 * 1_000_000)
    }

    /// The same frequency in kilohertz.
    pub fn to_kilohertz(self) -> (r: KiloHertz)
        requires
            self.0 * 1_000 <= u32::MAX,
        ensures
            r.0 == self.0 * 1_000,
    {
        KiloHertz(self.0 * 1_000)
    }
}

} // verus!
