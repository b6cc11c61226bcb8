use vstd::prelude::*;

verus! {

/// Invalid numerical priority level
#[derive(Debug, Copy, Clone, PartialEq, Eq, Structural)]
pub struct PriorityConvertError;

/// Interrupt priority level assignable to an interrupt vector
#[derive(Copy, Clone, Debug, PartialEq, Eq, Structural)]
pub struct Ipl(u8);

/// Highest interrupt priority level.
pub const IPL_MAX: u8 = 7;

/// Highest interrupt sub priority level.
pub const ISL_MAX: u8 = 3;

impl Ipl {
    pub closed spec fn view(self) -> u8 {
        self.0
    }

    /// The priority level `ipl`, if it is one (0 to 7).
    pub fn try_from_u8(ipl: u8) -> (r: Result<Ipl, PriorityConvertError>)
        ensures
            r is Ok <==> ipl <= IPL_MAX,
            r matches Ok(p) ==> p@ == ipl,
    {
        <Ipl as core::convert::TryFrom<u8>>::try_from(ipl)
    }

    /// The numerical level.
    pub fn to_u8(self) -> (r: u8)
        ensures
            r == self@,
    {
        self.0
    }
}

impl core::convert::TryFrom<u8> for Ipl {
    type Error = PriorityConvertError;

    fn try_from(ipl: u8) -> Result<Self, Self::Error> {
        if ipl <= IPL_MAX {
            Ok(Ipl(ipl))
        } else {
            Err(PriorityConvertError)
        }
    }
}

impl From<Ipl> for u8 {
    fn from(v: Ipl) -> u8 {
        v.0
    }
}

impl vstd::std_specs::convert::FromSpecImpl<Ipl> for u8 {
    open spec fn obeys_from_spec() -> bool {
        true
    }

    open spec fn from_spec(v: Ipl) -> u8 {
        v@
    }
}

impl vstd::std_specs::convert::TryFromSpecImpl<u8> for Ipl {
    open spec fn obeys_try_from_spec() -> bool {
        true
    }

    closed spec fn try_from_spec(v: u8) -> Result<Self, PriorityConvertError> {
        if v <= IPL_MAX {
            Ok(Ipl(v))
        } else {
            Err(PriorityConvertError)
        }
    }
}

/// Interrupt sub priority levels
#[derive(Copy, Clone, Debug, PartialEq, Eq, Structural)]
pub struct Isl(u8);

impl Isl {
    pub closed spec fn view(self) -> u8 {
        self.0
    }

    /// The sub priority level `isl`, if it is one (0 to 3).
    pub fn try_from_u8(isl: u8) -> (r: Result<Isl, PriorityConvertError>)
        ensures
            r is Ok <==> isl <= ISL_MAX,
            r matches Ok(p) ==> p@ == isl,
    {
        <Isl as core::convert::TryFrom<u8>>::try_from(isl)
    }

    /// The numerical level.
    pub fn to_u8(self) -> (r: u8)
        ensures
            r == self@,
    {
        self.0
    }
}

impl core::convert::TryFrom<u8> for Isl {
    type Error = PriorityConvertError;

    fn try_from(isl: u8) -> Result<Self, Self::Error> {
        if isl <= ISL_MAX {
            Ok(Isl(isl))
        } else {
            Err(PriorityConvertError)
        }
    }
}

impl From<Isl> for u8 {
    fn from(v: Isl) -> u8 {
        v.0
    }
}

impl vstd::std_specs::convert::FromSpecImpl<Isl> for u8 {
    open spec fn obeys_from_spec() -> bool {
        true
    }

    open spec fn from_spec(v: Isl) -> u8 {
        v@
    }
}

impl vstd::std_specs::convert::TryFromSpecImpl<u8> for Isl {
    open spec fn obeys_try_from_spec() -> bool {
        true
    }

    closed spec fn try_from_spec(v: u8) -> Result<Self, PriorityConvertError> {
        if v <= ISL_MAX {
            Ok(Isl(v))
        } else {
            Err(PriorityConvertError)
        }
    }
}

/// Register index (in steps of 0x10 bytes from the first register) and bit
/// mask of interrupt source `s` in the flag and enable registers.
pub fn bitaddr(s: usize) -> (r: (usize, u32))
    ensures
        r.0 == s / 32,
        r.1 == 1u32 << (s % 32) as u32,
{
    let regndx = s / 32;
    let mask: u32 = 1u32 << ((s % 32) as u32);
    (regndx, mask)
}

/// Register index (in steps of 0x10 bytes from the first register) and bit
/// position of the priority byte of interrupt vector `iv`.
pub fn byteaddr(iv: usize) -> (r: (usize, u32))
    ensures
        r.0 == iv / 4,
        r.1 == (iv % 4) * 8,
{
    let regndx = iv / 4;
    let bytepos = ((iv % 4) * 8) as u32;
    (regndx, bytepos)
}

/// Priority register value `reg` with the priority level of the vector at
/// byte position `bytepos` set to `ipl`.
pub fn with_ipl(reg: u32, bytepos: u32, ipl: Ipl) -> (r: u32)
    requires
        bytepos <= 24,
    ensures
        r == (reg & !(7u32 << (bytepos + 2) as u32)) | ((ipl@ as u32) << (bytepos + 2) as u32),
{
    let bitpos = bytepos + 2;
    let mask: u32 = 0x07u32 << bitpos;
    (reg & !mask) | ((ipl.0 as u32) << bitpos)
}

/// Priority level of the vector at byte position `bytepos` in the priority
/// register value `reg`.
pub fn ipl_of(reg: u32, bytepos: u32) -> (r: Ipl)
    requires
        bytepos <= 24,
    ensures
        r@ == ((reg >> (bytepos + 2) as u32) as u8) & 7,
        r@ <= IPL_MAX,
{
    let v: u8 = ((reg >> (bytepos + 2)) as u8) & 0x07;
    proof {
        assert(v & 7u8 <= 7u8) by (bit_vector);
        assert(v == v & 7u8) by (bit_vector)
            requires
                v == ((reg >> (bytepos + 2) as u32) as u8) & 7u8,
        ;
    }
    Ipl(v)
}

/// Priority register value `reg` with the sub priority level of the vector
/// at byte position `bitpos` set to `isl`.
pub fn with_isl(reg: u32, bitpos: u32, isl: Isl) -> (r: u32)
    requires
        bitpos <= 24,
    ensures
        r == (reg & !(3u32 << bitpos)) | ((isl@ as u32) << bitpos),
{
    let mask: u32 = 0x03u32 << bitpos;
    (reg & !mask) | ((isl.0 as u32) << bitpos)
}

/// Sub priority level of the vector at byte position `bitpos` in the
/// priority register value `reg`.
pub fn isl_of(reg: u32, bitpos: u32) -> (r: Isl)
    requires
        bitpos <= 24,
    ensures
        r@ == ((reg >> bitpos) as u8) & 3,
        r@ <= ISL_MAX,
{
    let v: u8 = ((reg >> bitpos) as u8) & 0x03;
    proof {
        assert(v == v & 3u8 && v & 3u8 <= 3u8) by (bit_vector)
            requires
                v == ((reg >> bitpos) as u8) & 3u8,
        ;
    }
    Isl(v)
}

} // verus!
