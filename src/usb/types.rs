use vstd::prelude::*;

verus! {

/// Direction of a USB transfer, as seen from the host.
#[derive(Clone, Copy, Debug, PartialEq, Eq, Structural)]
pub enum UsbDirection {
    /// Host to device.
    Out,
    /// Device to host.
    In,
}

impl UsbDirection {
    /// Index of the direction in per-endpoint tables: 0 for OUT, 1 for IN.
    pub open spec fn spec_slot(self) -> nat {
        match self {
            UsbDirection::Out => 0,
            UsbDirection::In => 1,
        }
    }

    /// The direction bit as it appears in an endpoint address.
    pub open spec fn spec_bits(self) -> u8 {
        match self {
            UsbDirection::Out => 0x00,
            UsbDirection::In => 0x80,
        }
    }

    /// Index of the direction in per-endpoint tables.
    pub fn slot(self) -> (r: usize)
        ensures
            r == self.spec_slot(),
    {
        match self {
            UsbDirection::Out => 0,
            UsbDirection::In => 1,
        }
    }

    pub fn bits(self) -> (r: u8)
        ensures
            r == self.spec_bits(),
    {
        match self {
            UsbDirection::Out => 0x00,
            UsbDirection::In => 0x80,
        }
    }
}

/// Transfer type of an endpoint.
#[derive(Clone, Copy, Debug, PartialEq, Eq, Structural)]
pub enum EndpointType {
    Control,
    Isochronous,
    Bulk,
    Interrupt,
}

/// Errors of the device-side bus operations.
#[derive(Clone, Copy, Debug, PartialEq, Eq, Structural)]
pub enum UsbError {
    /// A packet could not be parsed.
    ParseError,
    /// No capacity or no data right now; try again later.
    WouldBlock,
    /// A buffer is too small, or a transfer exceeds the packet size.
    BufferOverflow,
    /// No free endpoint, or endpoint buffers could not be allocated.
    EndpointOverflow,
    /// Endpoint buffer memory is exhausted.
    EndpointMemoryOverflow,
    /// The endpoint address is inconsistent, out of range or unallocated.
    InvalidEndpoint,
    /// The operation is not supported.
    Unsupported,
    /// The operation is not possible in the current state.
    InvalidState,
}

/// Result of one `poll` of the bus.
#[derive(Clone, Copy, Debug, PartialEq, Eq, Structural)]
pub enum PollResult {
    /// Nothing needs attention.
    NoEvent,
    /// The host reset the bus.
    Reset,
    /// Transactions completed; one bit per endpoint number in each mask.
    Data { ep_out: u16, ep_in_complete: u16, ep_setup: u16 },
    /// The bus was suspended.
    Suspend,
    /// The bus resumed.
    Resume,
}

/// An endpoint address: the endpoint number in the low seven bits and the
/// direction in the top bit.
#[derive(Clone, Copy, Debug, PartialEq, Eq, Structural)]
pub struct EndpointAddress(u8);

impl EndpointAddress {
    pub closed spec fn view(self) -> u8 {
        self.0
    }

    /// Endpoint number.
    pub open spec fn spec_index(self) -> nat {
        (self@ & 0x7f) as nat
    }

    /// Direction encoded in the address.
    pub open spec fn spec_direction(self) -> UsbDirection {
        if self@ & 0x80 != 0 {
            UsbDirection::In
        } else {
            UsbDirection::Out
        }
    }

    /// Build an address from its raw byte.
    pub fn from_byte(b: u8) -> (r: Self)
        ensures
            r@ == b,
    {
        EndpointAddress(b)
    }

    /// The raw byte of the address.
    pub fn to_byte(&self) -> (r: u8)
        ensures
            r == self@,
    {
        self.0
    }

    /// Build an address from an endpoint number and a direction.
    pub fn from_parts(index: usize, dir: UsbDirection) -> (r: Self)
        requires
            index < 128,
        ensures
            r.spec_index() == index,
            r.spec_direction() == dir,
    {
        let i: u8 = index as u8;
        let b: u8 = i | dir.bits();
        proof {
            if dir == UsbDirection::In {
                assert(i < 128 ==> (i | 0x80u8) & 0x7fu8 == i && (i | 0x80u8) & 0x80u8 != 0) by (bit_vector);
            } else {
                assert(i < 128 ==> (i | 0u8) & 0x7fu8 == i && (i | 0u8) & 0x80u8 == 0) by (bit_vector);
            }
        }
        EndpointAddress(b)
    }

    /// Endpoint number.
    pub fn index(&self) -> (r: usize)
        ensures
            r == self.spec_index(),
            r < 128,
    {
        proof {
            assert(forall|x: u8| #[trigger] (x & 0x7fu8) < 128) by (bit_vector);
        }
        (self.0 & 0x7f) as usize
    }

    /// Direction encoded in the address.
    pub fn direction(&self) -> (r: UsbDirection)
        ensures
            r == self.spec_direction(),
    {
        if self.0 & 0x80 != 0 {
            UsbDirection::In
        } else {
            UsbDirection::Out
        }
    }

    /// True for an IN (device to host) address.
    pub fn is_in(&self) -> (r: bool)
        ensures
            r == (self.spec_direction() == UsbDirection::In),
    {
        self.0 & 0x80 != 0
    }

    /// True for an OUT (host to device) address.
    pub fn is_out(&self) -> (r: bool)
        ensures
            r == (self.spec_direction() == UsbDirection::Out),
    {
        self.0 & 0x80 == 0
    }
}

} // verus!
