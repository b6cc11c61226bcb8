use vstd::prelude::*;
use crate::mcu::PhysicalAddress;
use crate::usb::bdt::{spec_arm_flags, BufferDescriptor, BufferDescriptorTable, N_DESCRIPTORS, N_ENDPOINTS};
use crate::usb::ecb::{spec_advance, EndpointControlBlock};
use crate::usb::regs::{
    UsbRegs, EPREG_EPCONDIS_MASK, EPREG_EPHSHK_MASK, EPREG_EPRXEN_MASK, EPREG_EPSTALL_MASK,
    EPREG_EPTXEN_MASK, U1ADDR_MASK, U1CON_USBEN_SOFEN, U1IR_STALLIF, U1IR_TRNIF, U1IR_URSTIF,
    U1PWRC_USBPWR,
};
use crate::usb::types::{EndpointAddress, EndpointType, UsbDirection, UsbError};

verus! {

/// Number of endpoint control block slots: one per endpoint and direction.
pub const N_SLOTS: usize = 32;

/// Slot of an endpoint and direction in the table of control blocks.
pub open spec fn spec_slot(ep: nat, dir: UsbDirection) -> nat {
    2 * ep + dir.spec_slot()
}

/// A slot holds nothing, or a well-formed block over its own descriptor pair.
pub open spec fn slot_wf(o: Option<EndpointControlBlock>, i: int) -> bool {
    match o {
        Some(e) => e.wf() && e.bd == 2 * i,
        None => true,
    }
}

/// Bits of an endpoint control register for a direction and transfer type.
pub open spec fn spec_epreg_bits(dir: UsbDirection, ep_type: EndpointType) -> u8 {
    (if dir == UsbDirection::In { EPREG_EPTXEN_MASK } else { EPREG_EPRXEN_MASK }) | match ep_type {
        EndpointType::Control => EPREG_EPHSHK_MASK,
        EndpointType::Isochronous => EPREG_EPCONDIS_MASK,
        _ => (EPREG_EPCONDIS_MASK | EPREG_EPHSHK_MASK) as u8,
    }
}

/// The device side of the USB full-speed peripheral, on a model of it: the
/// descriptor table, the register image and one control block per allocated
/// endpoint direction.
pub struct UsbBus {
    pub bdt: BufferDescriptorTable,
    pub usb: UsbRegs,
    /// Control blocks, at slot `2 * endpoint + direction`.
    pub ecb: Vec<Option<EndpointControlBlock>>,
    /// Endpoints with OUT data received since they were last read.
    pub pr_out: u16,
    /// Endpoints with a SETUP packet received since they were last read.
    pub pr_su: u16,
}

impl UsbBus {
    /// Well-formed: full tables, and every allocated block well-formed over
    /// its own descriptor pair. Every operation keeps this, so no endpoint
    /// ever has more than two transactions outstanding.
    pub open spec fn wf(&self) -> bool {
        &&& self.bdt.wf()
        &&& self.usb.wf()
        &&& self.ecb@.len() == N_SLOTS
        &&& forall|i: int| 0 <= i < N_SLOTS ==> #[trigger] slot_wf(self.ecb@[i], i)
    }

    /// The control block of an endpoint and direction, if allocated.
    pub open spec fn block(&self, ep: nat, dir: UsbDirection) -> Option<EndpointControlBlock> {
        self.ecb@[spec_slot(ep, dir) as int]
    }

    /// Take over the peripheral, as seen in the register image `usb`: switch
    /// it off, power it, disable all endpoints, and program the physical
    /// address `bdt_addr` (512-byte aligned) at which the descriptor table
    /// is presented to the peripheral. The table itself is a fresh, zeroed
    /// model; copying it and the registers to and from the hardware is the
    /// caller's part.
    pub fn new(usb: UsbRegs, bdt_addr: PhysicalAddress) -> (r: Self)
        requires
            usb.wf(),
            bdt_addr@ % 512 == 0,
        ensures
            r.wf(),
            r.pr_out == 0,
            r.pr_su == 0,
            r.usb.u1con == 0,
            r.usb.u1otgcon == 0,
            r.usb.u1pwrc == U1PWRC_USBPWR,
            r.usb.u1bdtp3 == (bdt_addr@ as u32) >> 24u32,
            r.usb.u1bdtp2 == (bdt_addr@ as u32) >> 16u32,
            r.usb.u1bdtp1 == (bdt_addr@ as u32) >> 8u32,
            r.usb.stat@ == usb.stat@,
            r.usb.ppbi@ == usb.ppbi@,
            r.usb.u1ir == usb.u1ir,
            r.usb.u1eir == usb.u1eir,
            r.usb.u1ie == usb.u1ie,
            r.usb.u1addr == usb.u1addr,
            forall|i: int| 0 <= i < N_ENDPOINTS ==> #[trigger] r.usb.u1ep@[i] == 0,
            forall|i: int| 0 <= i < N_SLOTS ==> #[trigger] r.ecb@[i].is_none(),
            r.bdt.bd@.len() == N_DESCRIPTORS,
            forall|i: int| 0 <= i < N_DESCRIPTORS ==> #[trigger] r.bdt.bd@[i] == BufferDescriptor::new_spec(),
            forall|i: int| 0 <= i < r.bdt.bd@.len() ==> !(#[trigger] r.bdt.bd@[i]).hw_owned(),
    {
        let ghost stat0 = usb.stat@;
        let ghost ppbi0 = usb.ppbi@;
        let ghost u1ir0 = usb.u1ir;
        let ghost u1eir0 = usb.u1eir;
        let ghost u1ie0 = usb.u1ie;
        let ghost u1addr0 = usb.u1addr;
        let mut usb = usb;
        usb.u1con = 0;
        usb.u1otgcon = 0;
        usb.u1pwrc = U1PWRC_USBPWR;
        let mut i: usize = 0;
        while i < N_ENDPOINTS
            invariant
                usb.wf(),
                i <= N_ENDPOINTS,
                usb.u1con == 0,
                usb.u1otgcon == 0,
                usb.u1pwrc == U1PWRC_USBPWR,
                usb.stat@ == stat0,
                usb.ppbi@ == ppbi0,
                usb.u1ir == u1ir0,
                usb.u1eir == u1eir0,
                usb.u1ie == u1ie0,
                usb.u1addr == u1addr0,
                forall|j: int| 0 <= j < i ==> #[trigger] usb.u1ep@[j] == 0,
            decreases N_ENDPOINTS - i,
        {
            usb.write_epreg(i, 0);
            i = i + 1;
        }
        let bdt = BufferDescriptorTable::new();
        proof {
            assert forall|i: int| 0 <= i < bdt.bd@.len() implies !(#[trigger] bdt.bd@[i]).hw_owned() by {
                crate::usb::bdt::lemma_zero_flags_not_owned();
            }
        }
        let dma_addr = bdt_addr.address() as u32;
        usb.u1bdtp3 = dma_addr >> 24u32;
        usb.u1bdtp2 = dma_addr >> 16u32;
        usb.u1bdtp1 = dma_addr >> 8u32;
        let mut ecb: Vec<Option<EndpointControlBlock>> = Vec::new();
        let mut k: usize = 0;
        while k < N_SLOTS
            invariant
                k <= N_SLOTS,
                ecb@.len() == k,
                forall|j: int| 0 <= j < k ==> (#[trigger] ecb@[j]).is_none(),
            decreases N_SLOTS - k,
        {
            ecb.push(None);
            k = k + 1;
        }
        UsbBus { bdt, usb, ecb, pr_out: 0, pr_su: 0 }
    }

    /// Take the control block out of slot `i`, leaving the slot empty.
    pub(crate) fn take_block(&mut self, i: usize) -> (r: Option<EndpointControlBlock>)
        requires
            old(self).wf(),
            i < N_SLOTS,
        ensures
            r == old(self).ecb@[i as int],
            final(self).ecb@ == old(self).ecb@.update(i as int, None),
            final(self).bdt == old(self).bdt,
            final(self).usb == old(self).usb,
            final(self).pr_out == old(self).pr_out,
            final(self).pr_su == old(self).pr_su,
    {
        let r = self.ecb.remove(i);
        self.ecb.insert(i, None);
        assert(self.ecb@ =~= old(self).ecb@.update(i as int, None));
        r
    }
}

/// Bits of an endpoint control register for a direction and transfer type.
fn epreg_bits(dir: UsbDirection, ep_type: EndpointType) -> (r: u8)
    ensures
        r == spec_epreg_bits(dir, ep_type),
{
    (if dir == UsbDirection::In { EPREG_EPTXEN_MASK } else { EPREG_EPRXEN_MASK }) | match ep_type {
        EndpointType::Control => EPREG_EPHSHK_MASK,
        EndpointType::Isochronous => EPREG_EPCONDIS_MASK,
        _ => EPREG_EPCONDIS_MASK | EPREG_EPHSHK_MASK,
    }
}

impl UsbBus {
    /// Allocate one direction of an endpoint, at the address `ep_addr` or,
    /// without one, at the lowest free endpoint number from 1 on (endpoint 0
    /// is left for control transfers). An OUT endpoint is armed at once to
    /// receive its first packet.
    pub fn alloc_ep(
        &mut self,
        ep_dir: UsbDirection,
        ep_addr: Option<EndpointAddress>,
        ep_type: EndpointType,
        ep_size: u16,
        _interval: u8,
    ) -> (r: Result<EndpointAddress, UsbError>)
        requires
            old(self).wf(),
        ensures
            final(self).wf(),
            match ep_addr {
                Some(a) => {
                    &&& a.spec_direction() != ep_dir ==> r == Err::<EndpointAddress, UsbError>(
                        UsbError::InvalidEndpoint,
                    )
                    &&& a.spec_direction() == ep_dir && a.spec_index() >= N_ENDPOINTS ==> r == Err::<
                        EndpointAddress,
                        UsbError,
                    >(UsbError::EndpointOverflow)
                    &&& a.spec_direction() == ep_dir && a.spec_index() < N_ENDPOINTS && old(
                        self,
                    ).block(a.spec_index(), ep_dir).is_some() ==> r == Err::<
                        EndpointAddress,
                        UsbError,
                    >(UsbError::InvalidEndpoint)
                    &&& a.spec_direction() == ep_dir && a.spec_index() < N_ENDPOINTS && old(
                        self,
                    ).block(a.spec_index(), ep_dir).is_none() ==> r == Ok::<
                        EndpointAddress,
                        UsbError,
                    >(a)
                },
                None => {
                    &&& r.is_ok() <==> exists|k: nat|
                        1 <= k < N_ENDPOINTS && (#[trigger] old(self).block(k, ep_dir)).is_none()
                    &&& r.is_err() ==> r == Err::<EndpointAddress, UsbError>(
                        UsbError::EndpointOverflow,
                    )
                    &&& r matches Ok(a) ==> {
                        &&& 1 <= a.spec_index()
                        &&& a.spec_direction() == ep_dir
                        &&& forall|k: nat|
                            1 <= k < a.spec_index() ==> (#[trigger] old(self).block(
                                k,
                                ep_dir,
                            )).is_some()
                    }
                },
            },
            r.is_err() ==> *final(self) == *old(self),
            r matches Ok(a) ==> {
                let s = spec_slot(a.spec_index(), ep_dir) as int;
                &&& a.spec_index() < N_ENDPOINTS
                &&& old(self).ecb@[s].is_none()
                &&& final(self).ecb@ == old(self).ecb@.update(s, final(self).ecb@[s])
                &&& final(self).ecb@[s] matches Some(e) && {
                    &&& e.ep_size == ep_size
                    &&& e.ep_type == ep_type
                    &&& e.complete_ctr == 0
                    &&& e.armed_ctr == (if ep_dir == UsbDirection::Out { 1u8 } else { 0u8 })
                    &&& e.next_odd == (ep_dir == UsbDirection::Out)
                    &&& !e.next_complete_odd
                    &&& e.bd == 2 * s
                    &&& !e.stalled
                }
                &&& final(self).usb.u1ep@ == old(self).usb.u1ep@.update(
                    a.spec_index() as int,
                    old(self).usb.u1ep@[a.spec_index() as int] | spec_epreg_bits(ep_dir, ep_type),
                )
                &&& final(self).usb.stat@ == old(self).usb.stat@
                &&& final(self).pr_out == old(self).pr_out
                &&& final(self).pr_su == old(self).pr_su
                &&& final(self).bdt.bd@.len() == old(self).bdt.bd@.len()
                &&& forall|i: int|
                    0 <= i < old(self).bdt.bd@.len() && i != 2 * s && i != 2 * s + 1
                        ==> #[trigger] final(self).bdt.bd@[i] == old(self).bdt.bd@[i]
                &&& (ep_dir == UsbDirection::Out) == final(self).bdt.bd@[2 * s].hw_owned()
                &&& !final(self).bdt.bd@[2 * s + 1].hw_owned()
                &&& ep_dir == UsbDirection::Out ==> final(self).bdt.bd@[2 * s] == BufferDescriptor {
                    flags: spec_arm_flags(false, ep_type == EndpointType::Isochronous, false),
                    byte_count: ep_size,
                }
                &&& ep_dir == UsbDirection::In ==> final(self).bdt.bd@[2 * s].flags == 0
                &&& final(self).bdt.bd@[2 * s + 1].flags == 0
                &&& final(self).usb.ppbi@ == old(self).usb.ppbi@
                &&& final(self).usb.u1ir == old(self).usb.u1ir
                &&& final(self).usb.u1eir == old(self).usb.u1eir
                &&& final(self).usb.u1con == old(self).usb.u1con
                &&& final(self).usb.u1addr == old(self).usb.u1addr
            },
    {
        let d = ep_dir.slot();
        let (addr, ep) = match ep_addr {
            Some(a) => {
                if a.direction() != ep_dir {
                    return Err(UsbError::InvalidEndpoint);
                }
                let i = a.index();
                if i >= N_ENDPOINTS {
                    return Err(UsbError::EndpointOverflow);
                }
                if self.ecb[2 * i + d].is_some() {
                    return Err(UsbError::InvalidEndpoint);
                }
                (a, i)
            },
            None => {
                let mut k: usize = 1;
                while k < N_ENDPOINTS && self.ecb[2 * k + d].is_some()
                    invariant
                        self.wf(),
                        d == ep_dir.spec_slot(),
                        1 <= k <= N_ENDPOINTS,
                        forall|j: nat| 1 <= j < k ==> (#[trigger] self.block(j, ep_dir)).is_some(),
                    decreases N_ENDPOINTS - k,
                {
                    k = k + 1;
                }
                if k >= N_ENDPOINTS {
                    assert forall|j: nat| 1 <= j < N_ENDPOINTS implies (#[trigger] self.block(
                        j,
                        ep_dir,
                    )).is_some() by {}
                    return Err(UsbError::EndpointOverflow);
                }
                assert(self.block(k as nat, ep_dir).is_none());
                (EndpointAddress::from_parts(k, ep_dir), k)
            },
        };
        let s = 2 * ep + d;
        let ghost old_bus = *self;
        let mut e = EndpointControlBlock::allocate(ep_size, ep_type, 2 * s, &mut self.bdt);
        let epreg = self.usb.read_epreg(ep) | epreg_bits(ep_dir, ep_type);
        self.usb.write_epreg(ep, epreg);
        proof {
            crate::usb::bdt::lemma_zero_flags_not_owned();
            crate::usb::bdt::lemma_arm_flags_owned(false, ep_type == EndpointType::Isochronous, false);
        }
        if ep_dir == UsbDirection::Out {
            let armed = e.arm_generic(&mut self.bdt, ep_size as usize, false);
            assert(armed.is_ok());
        }
        self.ecb[s] = Some(e);
        assert forall|i: int| 0 <= i < N_SLOTS implies #[trigger] slot_wf(self.ecb@[i], i) by {
            if i != s {
                assert(self.ecb@[i] == old_bus.ecb@[i]);
            }
        }
        Ok(addr)
    }

    /// Unmask the transaction-complete, stall and reset interrupts and start
    /// the bus.
    pub fn enable(&mut self)
        requires
            old(self).wf(),
        ensures
            final(self).wf(),
            final(self).usb.u1ie == U1IR_TRNIF | U1IR_STALLIF | U1IR_URSTIF,
            final(self).usb.u1con == U1CON_USBEN_SOFEN,
            final(self).ecb@ == old(self).ecb@,
            final(self).bdt == old(self).bdt,
            final(self).usb.stat@ == old(self).usb.stat@,
            final(self).usb.u1ir == old(self).usb.u1ir,
            final(self).usb.u1ep@ == old(self).usb.u1ep@,
    {
        self.usb.u1ie = U1IR_TRNIF | U1IR_STALLIF | U1IR_URSTIF;
        self.usb.u1con = U1CON_USBEN_SOFEN;
    }

    /// Drop the completed but unread transactions of endpoint 0 OUT.
    pub fn reset(&mut self)
        requires
            old(self).wf(),
        ensures
            final(self).wf(),
            final(self).ecb@.len() == old(self).ecb@.len(),
            forall|i: int| 1 <= i < N_SLOTS ==> #[trigger] final(self).ecb@[i] == old(self).ecb@[i],
            old(self).ecb@[0] is None ==> final(self).ecb@[0] is None,
            old(self).ecb@[0] is Some ==> final(self).ecb@[0] == Some(
                EndpointControlBlock {
                    complete_ctr: 0,
                    next_complete_odd: spec_advance(
                        old(self).ecb@[0]->Some_0.next_complete_odd,
                        old(self).ecb@[0]->Some_0.complete_ctr,
                    ),
                    ..old(self).ecb@[0]->Some_0
                },
            ),
            final(self).bdt == old(self).bdt,
            final(self).usb == old(self).usb,
            final(self).pr_out == old(self).pr_out,
            final(self).pr_su == old(self).pr_su,
    {
        assert(slot_wf(self.ecb@[0], 0));
        let slot = self.take_block(0);
        match slot {
            Some(e) => {
                let mut e = e;
                e.clear_completed();
                self.ecb[0] = Some(e);
            },
            None => {},
        }
        assert(self.ecb@.len() == old(self).ecb@.len());
        assert forall|i: int| 0 <= i < N_SLOTS implies #[trigger] slot_wf(self.ecb@[i], i) by {
            if i != 0 {
                assert(self.ecb@[i] == old(self).ecb@[i]);
            }
        }
    }

    /// Program the device address; only its low seven bits are used.
    pub fn set_device_address(&mut self, addr: u8)
        requires
            old(self).wf(),
        ensures
            final(self).wf(),
            final(self).usb.u1addr == (addr & U1ADDR_MASK) as u32,
            final(self).ecb@ == old(self).ecb@,
            final(self).bdt == old(self).bdt,
            final(self).usb.stat@ == old(self).usb.stat@,
            final(self).usb.u1ep@ == old(self).usb.u1ep@,
            final(self).pr_out == old(self).pr_out,
            final(self).pr_su == old(self).pr_su,
    {
        self.usb.u1addr = (addr & U1ADDR_MASK) as u32;
    }
}

impl UsbBus {
    /// Queue `buf` for transmission on the endpoint `ep_addr`. Fails with
    /// `InvalidEndpoint` if the endpoint is out of range or not allocated;
    /// otherwise as the endpoint's control block writes.
    pub fn write(&mut self, ep_addr: EndpointAddress, buf: &[u8]) -> (r: Result<usize, UsbError>)
        requires
            old(self).wf(),
        ensures
            final(self).wf(),
            ({
                let ep = ep_addr.spec_index();
                let dir = ep_addr.spec_direction();
                &&& ep >= N_ENDPOINTS ==> r == Err::<usize, UsbError>(UsbError::InvalidEndpoint)
                &&& ep < N_ENDPOINTS && old(self).block(ep, dir) is None ==> r == Err::<
                    usize,
                    UsbError,
                >(UsbError::InvalidEndpoint)
                &&& r == Err::<usize, UsbError>(UsbError::InvalidEndpoint) ==> *final(self) == *old(
                    self,
                )
                &&& ep < N_ENDPOINTS && old(self).block(ep, dir) is Some ==> {
                    let e = old(self).block(ep, dir)->Some_0;
                    &&& final(self).block(ep, dir) is Some
                    &&& e.write_post(
                        old(self).bdt.bd@,
                        buf@,
                        r,
                        final(self).block(ep, dir)->Some_0,
                        final(self).bdt.bd@,
                    )
                    &&& final(self).ecb@ == old(self).ecb@.update(
                        spec_slot(ep, dir) as int,
                        final(self).block(ep, dir),
                    )
                    &&& final(self).usb == old(self).usb
                    &&& final(self).pr_out == old(self).pr_out
                    &&& final(self).pr_su == old(self).pr_su
                }
            }),
    {
        let ep = ep_addr.index();
        if ep >= N_ENDPOINTS {
            return Err(UsbError::InvalidEndpoint);
        }
        let s = 2 * ep + ep_addr.direction().slot();
        if self.ecb[s].is_none() {
            return Err(UsbError::InvalidEndpoint);
        }
        assert(slot_wf(self.ecb@[s as int], s as int));
        let slot = self.take_block(s);
        let mut e = slot.unwrap();
        let r = e.write(&mut self.bdt, buf);
        self.ecb[s] = Some(e);
        assert forall|i: int| 0 <= i < N_SLOTS implies #[trigger] slot_wf(self.ecb@[i], i) by {
            if i != s {
                assert(self.ecb@[i] == old(self).ecb@[i]);
            }
        }
        r
    }

    /// Take the oldest received packet of the OUT endpoint `ep_addr` into
    /// `buf`, and clear the endpoint's pending OUT and SETUP bits. Fails with
    /// `InvalidEndpoint` for an IN address, an endpoint out of range or not
    /// allocated; otherwise as the endpoint's control block reads.
    pub fn read(&mut self, ep_addr: EndpointAddress, buf: &mut [u8]) -> (r: Result<usize, UsbError>)
        requires
            old(self).wf(),
        ensures
            final(self).wf(),
            ({
                let ep = ep_addr.spec_index();
                let dir = ep_addr.spec_direction();
                &&& (ep >= N_ENDPOINTS || dir != UsbDirection::Out) ==> r == Err::<usize, UsbError>(
                    UsbError::InvalidEndpoint,
                )
                &&& ep < N_ENDPOINTS && dir == UsbDirection::Out && old(self).block(ep, dir) is None
                    ==> r == Err::<usize, UsbError>(UsbError::InvalidEndpoint)
                &&& r.is_err() ==> {
                    &&& final(self).ecb@ == old(self).ecb@
                    &&& final(self).bdt.bd@ == old(self).bdt.bd@
                    &&& final(self).usb == old(self).usb
                    &&& final(self).pr_out == old(self).pr_out
                    &&& final(self).pr_su == old(self).pr_su
                    &&& final(buf)@ == old(buf)@
                }
                &&& ep < N_ENDPOINTS && dir == UsbDirection::Out && old(self).block(ep, dir) is Some
                    ==> {
                    let e = old(self).block(ep, dir)->Some_0;
                    &&& final(self).block(ep, dir) is Some
                    &&& e.read_post(
                        old(self).bdt.bd@,
                        old(buf)@,
                        r,
                        final(self).block(ep, dir)->Some_0,
                        final(self).bdt.bd@,
                        final(buf)@,
                    )
                    &&& r.is_ok() ==> {
                        &&& final(self).ecb@ == old(self).ecb@.update(
                            spec_slot(ep, dir) as int,
                            final(self).block(ep, dir),
                        )
                        &&& final(self).usb == old(self).usb
                        &&& final(self).pr_out == old(self).pr_out & !(1u16 << ep as u16)
                        &&& final(self).pr_su == old(self).pr_su & !(1u16 << ep as u16)
                    }
                }
            }),
    {
        let ep = ep_addr.index();
        if ep >= N_ENDPOINTS || ep_addr.direction() != UsbDirection::Out {
            return Err(UsbError::InvalidEndpoint);
        }
        let s = 2 * ep;
        if self.ecb[s].is_none() {
            return Err(UsbError::InvalidEndpoint);
        }
        assert(slot_wf(self.ecb@[s as int], s as int));
        let ghost old_bus = *self;
        let slot = self.take_block(s);
        let mut e = slot.unwrap();
        let r = e.read(&mut self.bdt, buf);
        match r {
            Ok(len) => {
                self.ecb[s] = Some(e);
                let bit: u16 = 1u16 << (ep as u16);
                self.pr_out = self.pr_out & !bit;
                self.pr_su = self.pr_su & !bit;
                assert forall|i: int| 0 <= i < N_SLOTS implies #[trigger] slot_wf(self.ecb@[i], i) by {
                    if i != s {
                        assert(self.ecb@[i] == old_bus.ecb@[i]);
                    }
                }
                Ok(len)
            },
            Err(err) => {
                self.ecb[s] = Some(e);
                assert(self.ecb@ =~= old_bus.ecb@);
                Err(err)
            },
        }
    }

    /// Make the endpoint `ep_addr` answer with STALL. Clearing a stall goes
    /// through the next arm of the endpoint, so `stalled == false` changes
    /// nothing.
    pub fn set_stalled(&mut self, ep_addr: EndpointAddress, stalled: bool)
        requires
            old(self).wf(),
        ensures
            final(self).wf(),
            stalled && ep_addr.spec_index() < N_ENDPOINTS ==> final(self).usb.u1ep@ == old(
                self,
            ).usb.u1ep@.update(
                ep_addr.spec_index() as int,
                old(self).usb.u1ep@[ep_addr.spec_index() as int] | EPREG_EPSTALL_MASK,
            ),
            !(stalled && ep_addr.spec_index() < N_ENDPOINTS) ==> final(self).usb.u1ep@ == old(
                self,
            ).usb.u1ep@,
            final(self).ecb@ == old(self).ecb@,
            final(self).bdt == old(self).bdt,
            final(self).usb.stat@ == old(self).usb.stat@,
            final(self).usb.u1ir == old(self).usb.u1ir,
            final(self).pr_out == old(self).pr_out,
            final(self).pr_su == old(self).pr_su,
    {
        let ep = ep_addr.index();
        if stalled && ep < N_ENDPOINTS {
            let v = self.usb.read_epreg(ep) | EPREG_EPSTALL_MASK;
            self.usb.write_epreg(ep, v);
        }
    }

    /// Stall state is not tracked: always false.
    pub fn is_stalled(&self, _ep_addr: EndpointAddress) -> (r: bool)
        ensures
            !r,
    {
        false
    }

    /// Suspend is not handled by this driver.
    pub fn suspend(&mut self)
        ensures
            *final(self) == *old(self),
    {
    }

    /// Resume is not handled by this driver.
    pub fn resume(&mut self)
        ensures
            *final(self) == *old(self),
    {
    }
}

} // verus!
