use vstd::prelude::*;

verus! {

/// Endpoint control register: handshake enable.
pub const EPREG_EPHSHK_MASK: u8 = 0x01;
/// Endpoint control register: stall.
pub const EPREG_EPSTALL_MASK: u8 = 0x02;
/// Endpoint control register: transmit (IN) enable.
pub const EPREG_EPTXEN_MASK: u8 = 0x04;
/// Endpoint control register: receive (OUT) enable.
pub const EPREG_EPRXEN_MASK: u8 = 0x08;
/// Endpoint control register: SETUP transfers disabled.
pub const EPREG_EPCONDIS_MASK: u8 = 0x10;

/// U1STAT: endpoint number field.
pub const U1STAT_ENDPT_MASK: u8 = 0xf0;
/// U1STAT: position of the endpoint number field.
pub const U1STAT_ENDPT_POSITION: u8 = 4;
/// U1STAT: direction bit (1 for IN).
pub const U1STAT_DIR_MASK: u8 = 0x08;
/// U1STAT: position of the direction bit.
pub const U1STAT_DIR_POSITION: u8 = 3;
/// U1STAT: ping-pong buffer bit (1 for the odd buffer).
pub const U1STAT_PPBI_MASK: u8 = 0x04;

/// U1IR / U1IE: USB reset (or detach).
pub const U1IR_URSTIF: u32 = 0x01;
/// U1IR / U1IE: transaction complete.
pub const U1IR_TRNIF: u32 = 0x08;
/// U1IR / U1IE: STALL handshake sent.
pub const U1IR_STALLIF: u32 = 0x80;

/// U1CON: module enable and start-of-frame generation.
pub const U1CON_USBEN_SOFEN: u32 = 0x01;
/// U1CON: packet transfers disabled (set by the peripheral after SETUP).
pub const U1CON_PKTDIS_TOKBUSY: u32 = 0x20;

/// U1PWRC: module power.
pub const U1PWRC_USBPWR: u32 = 0x01;

/// Address mask of U1ADDR.
pub const U1ADDR_MASK: u8 = 0x7f;

/// The register file of the USB peripheral.
///
/// `stat` is the peripheral's status FIFO: while it is not empty, the
/// transaction-complete flag is raised and its head is the value of U1STAT.
/// Clearing the flag pops the head.
pub struct UsbRegs {
    pub u1con: u32,
    pub u1otgcon: u32,
    pub u1pwrc: u32,
    pub u1ie: u32,
    /// Interrupt flags other than transaction complete.
    pub u1ir: u32,
    pub u1eir: u32,
    pub u1addr: u32,
    pub u1bdtp1: u32,
    pub u1bdtp2: u32,
    pub u1bdtp3: u32,
    /// Endpoint control registers U1EP0 to U1EP15.
    pub u1ep: Vec<u8>,
    pub stat: Vec<u8>,
    /// The peripheral's ping-pong pointers, one per endpoint direction at
    /// `2 * endpoint + direction`: true when its next transaction uses the
    /// odd buffer.
    pub ppbi: Vec<bool>,
}

impl UsbRegs {
    /// Well-formed: sixteen endpoint registers and thirty-two ping-pong
    /// pointers.
    pub open spec fn wf(&self) -> bool {
        &&& self.u1ep@.len() == 16
        &&& self.ppbi@.len() == 32
    }

    /// The register file after a power-on reset.
    pub fn new() -> (r: Self)
        ensures
            r.wf(),
            r.stat@.len() == 0,
            r.u1ir == 0,
            r.u1eir == 0,
            r.u1con == 0,
            r.u1addr == 0,
            forall|i: int| 0 <= i < 16 ==> #[trigger] r.u1ep@[i] == 0,
            forall|i: int| 0 <= i < 32 ==> !#[trigger] r.ppbi@[i],
    {
        let mut u1ep: Vec<u8> = Vec::new();
        let mut i: usize = 0;
        while i < 16
            invariant
                i <= 16,
                u1ep@.len() == i,
                forall|j: int| 0 <= j < i ==> #[trigger] u1ep@[j] == 0,
            decreases 16 - i,
        {
            u1ep.push(0);
            i = i + 1;
        }
        let mut ppbi: Vec<bool> = Vec::new();
        let mut k: usize = 0;
        while k < 32
            invariant
                k <= 32,
                ppbi@.len() == k,
                forall|j: int| 0 <= j < k ==> !#[trigger] ppbi@[j],
            decreases 32 - k,
        {
            ppbi.push(false);
            k = k + 1;
        }
        UsbRegs {
            u1con: 0,
            u1otgcon: 0,
            u1pwrc: 0,
            u1ie: 0,
            u1ir: 0,
            u1eir: 0,
            u1addr: 0,
            u1bdtp1: 0,
            u1bdtp2: 0,
            u1bdtp3: 0,
            u1ep,
            stat: Vec::new(),
            ppbi,
        }
    }

    /// Read endpoint control register `ndx`.
    pub fn read_epreg(&self, ndx: usize) -> (r: u8)
        requires
            self.wf(),
            ndx < 16,
        ensures
            r == self.u1ep@[ndx as int],
    {
        self.u1ep[ndx]
    }

    /// Write endpoint control register `ndx`.
    pub fn write_epreg(&mut self, ndx: usize, val: u8)
        requires
            old(self).wf(),
            ndx < 16,
        ensures
            final(self).wf(),
            final(self).u1ep@ == old(self).u1ep@.update(ndx as int, val),
            final(self).stat@ == old(self).stat@,
            final(self).u1ir == old(self).u1ir,
            final(self).u1con == old(self).u1con,
            final(self).u1addr == old(self).u1addr,
            final(self).u1otgcon == old(self).u1otgcon,
            final(self).u1pwrc == old(self).u1pwrc,
            final(self).u1ie == old(self).u1ie,
            final(self).u1eir == old(self).u1eir,
            final(self).u1bdtp1 == old(self).u1bdtp1,
            final(self).u1bdtp2 == old(self).u1bdtp2,
            final(self).u1bdtp3 == old(self).u1bdtp3,
            final(self).ppbi@ == old(self).ppbi@,
    {
        self.u1ep[ndx] = val;
    }

    /// The transaction-complete flag.
    pub fn trnif(&self) -> (r: bool)
        ensures
            r == (self.stat@.len() > 0),
    {
        self.stat.len() > 0
    }
}

} // verus!
