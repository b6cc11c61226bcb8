use vstd::prelude::*;
use crate::usb::bdt::{BufferDescriptor, BD_DATA01, BD_STALL, N_ENDPOINTS, USB_PID_IN, USB_PID_OUT, USB_PID_SETUP};
use crate::usb::bus::{slot_wf, UsbBus, N_SLOTS};
use crate::usb::ecb::copy_into;
use crate::usb::regs::{U1CON_PKTDIS_TOKBUSY, U1IR_STALLIF, U1IR_URSTIF};

verus! {

/// U1STAT value for a transaction on endpoint `ep`, direction slot `d`, with
/// the odd buffer when `odd`.
pub open spec fn spec_stat(ep: nat, d: nat, odd: bool) -> u8 {
    (ep * 16 + d * 8 + if odd { 4nat } else { 0nat }) as u8
}

/// Flags that the peripheral leaves in a descriptor when it completes a
/// transaction with token `pid`: ownership back to software, the PID field
/// filled in, the data toggle kept.
pub open spec fn spec_done_flags(flags: u16, pid: u16) -> u16 {
    ((pid << 2u16) | (flags & BD_DATA01)) as u16
}

/// Descriptor index used by the peripheral for endpoint direction slot `s`.
pub open spec fn spec_hw_bd(bus: &UsbBus, s: int) -> int {
    2 * s + if bus.usb.ppbi@[s] { 1int } else { 0int }
}

/// Completed flags are owned by software and carry the token.
pub proof fn lemma_done_flags(flags: u16, pid: u16)
    requires
        pid < 16,
    ensures
        spec_done_flags(flags, pid) & 0x80u16 == 0,
        (spec_done_flags(flags, pid) & 0x3cu16) >> 2u16 == pid,
{
    assert(pid < 16 ==> (((pid << 2u16) | (flags & 0x40u16)) & 0x80u16) == 0 && ((((pid << 2u16) | (
    flags & 0x40u16)) & 0x3cu16) >> 2u16) == pid) by (bit_vector);
}

impl UsbBus {
    /// What the peripheral does when the host sends `data` with an OUT or
    /// SETUP token (`pid`) to endpoint `ep`: if the endpoint's current
    /// descriptor is armed and the packet fits, the bytes go into its
    /// buffer, the descriptor returns to software with the PID and byte count
    /// filled in, the transaction is queued in the status FIFO and the
    /// ping-pong pointer moves on. A SETUP also disables packet processing
    /// until software re-enables it; while it is disabled, OUT packets are not
    /// accepted. A descriptor armed with STALL raises the stall flag instead.
    /// Returns whether the packet was accepted.
    pub fn host_send(&mut self, ep: usize, pid: u16, data: &[u8]) -> (r: bool)
        requires
            old(self).wf(),
            ep < N_ENDPOINTS,
            pid == USB_PID_OUT || pid == USB_PID_SETUP,
        ensures
            final(self).wf(),
            ({
                let s = 2 * ep;
                let i = spec_hw_bd(old(self), s);
                let bd = old(self).bdt.bd@[i];
                let odd = old(self).usb.ppbi@[s];
                let enabled = pid == USB_PID_SETUP || old(self).usb.u1con & U1CON_PKTDIS_TOKBUSY == 0;
                let ok = enabled && bd.hw_owned() && bd.flags & BD_STALL == 0 && old(self).ecb@[s] is Some
                    && data@.len() <= bd.byte_count && data@.len() <= old(self).ecb@[s]->Some_0.ep_size;
                &&& r == ok
                &&& ok ==> {
                    let e = old(self).ecb@[s]->Some_0;
                    let e2 = final(self).ecb@[s]->Some_0;
                    &&& final(self).bdt.bd@ == old(self).bdt.bd@.update(
                        i,
                        BufferDescriptor {
                            flags: spec_done_flags(bd.flags, pid),
                            byte_count: data@.len() as u16,
                        },
                    )
                    &&& final(self).ecb@[s] is Some
                    &&& e.same_state(&e2)
                    &&& e2.buf(odd) == data@ + e.buf(odd).subrange(
                        data@.len() as int,
                        e.ep_size as int,
                    )
                    &&& e2.buf(!odd) == e.buf(!odd)
                    &&& final(self).others_same(old(self), s)
                    &&& final(self).usb.stat@ == old(self).usb.stat@.push(spec_stat(ep as nat, 0, odd))
                    &&& final(self).usb.ppbi@ == old(self).usb.ppbi@.update(s, !odd)
                    &&& final(self).usb.u1ir == old(self).usb.u1ir
                    &&& final(self).usb.u1con == (if pid == USB_PID_SETUP {
                        old(self).usb.u1con | U1CON_PKTDIS_TOKBUSY
                    } else {
                        old(self).usb.u1con
                    })
                }
                &&& !ok ==> {
                    &&& final(self).ecb@ == old(self).ecb@
                    &&& final(self).bdt == old(self).bdt
                    &&& final(self).usb.stat@ == old(self).usb.stat@
                    &&& final(self).usb.u1ir == (if enabled && bd.hw_owned() && bd.flags & BD_STALL != 0 {
                        old(self).usb.u1ir | U1IR_STALLIF
                    } else {
                        old(self).usb.u1ir
                    })
                }
                &&& final(self).pr_out == old(self).pr_out
                &&& final(self).pr_su == old(self).pr_su
                &&& final(self).usb.u1ep@ == old(self).usb.u1ep@
            }),
    {
        if pid != USB_PID_SETUP && self.usb.u1con & U1CON_PKTDIS_TOKBUSY != 0 {
            return false;
        }
        let s = 2 * ep;
        let odd = self.usb.ppbi[s];
        let i = if odd { 2 * s + 1 } else { 2 * s };
        let bd = self.bdt.bd[i];
        if !bd.is_hw_owned() {
            return false;
        }
        if bd.flags & BD_STALL != 0 {
            self.usb.u1ir = self.usb.u1ir | U1IR_STALLIF;
            return false;
        }
        if self.ecb[s].is_none() {
            return false;
        }
        assert(slot_wf(self.ecb@[s as int], s as int));
        let ghost old_bus = *self;
        let slot = self.take_block(s);
        let mut e = slot.unwrap();
        if data.len() > bd.byte_count as usize || data.len() > e.ep_size as usize {
            self.ecb[s] = Some(e);
            assert(self.ecb@ =~= old_bus.ecb@);
            return false;
        }
        if odd {
            copy_into(&mut e.buf_odd, data);
        } else {
            copy_into(&mut e.buf_even, data);
        }
        self.ecb[s] = Some(e);
        proof {
            lemma_done_flags(bd.flags, pid);
        }
        self.bdt.bd[i] = BufferDescriptor {
            flags: (pid << 2u16) | (bd.flags & BD_DATA01),
            byte_count: data.len() as u16,
        };
        let st: u8 = (ep * 16 + if odd { 4usize } else { 0usize }) as u8;
        self.usb.stat.push(st);
        self.usb.ppbi[s] = !odd;
        if pid == USB_PID_SETUP {
            self.usb.u1con = self.usb.u1con | U1CON_PKTDIS_TOKBUSY;
        }
        assert forall|j: int| 0 <= j < N_SLOTS implies #[trigger] slot_wf(self.ecb@[j], j) by {
            if j != s {
                assert(self.ecb@[j] == old_bus.ecb@[j]);
            }
        }
        true
    }

    /// What the peripheral does when the host sends an IN token to endpoint
    /// `ep`: if the endpoint's current descriptor is armed, the bytes of its
    /// buffer go to the host and are returned, the descriptor returns to
    /// software with the IN PID filled in, the transaction is queued in the
    /// status FIFO and the ping-pong pointer moves on. Nothing is sent while
    /// packet processing is disabled. A descriptor armed with STALL raises the
    /// stall flag instead.
    pub fn host_receive(&mut self, ep: usize) -> (r: Option<Vec<u8>>)
        requires
            old(self).wf(),
            ep < N_ENDPOINTS,
        ensures
            final(self).wf(),
            ({
                let s = 2 * ep + 1;
                let i = spec_hw_bd(old(self), s);
                let bd = old(self).bdt.bd@[i];
                let odd = old(self).usb.ppbi@[s];
                let enabled = old(self).usb.u1con & U1CON_PKTDIS_TOKBUSY == 0;
                let ok = enabled && bd.hw_owned() && bd.flags & BD_STALL == 0 && old(self).ecb@[s] is Some
                    && bd.byte_count <= old(self).ecb@[s]->Some_0.ep_size;
                &&& r is Some == ok
                &&& ok ==> {
                    &&& r->Some_0@ == old(self).ecb@[s]->Some_0.buf(odd).subrange(
                        0,
                        bd.byte_count as int,
                    )
                    &&& final(self).bdt.bd@ == old(self).bdt.bd@.update(
                        i,
                        BufferDescriptor {
                            flags: spec_done_flags(bd.flags, USB_PID_IN),
                            byte_count: bd.byte_count,
                        },
                    )
                    &&& final(self).usb.stat@ == old(self).usb.stat@.push(spec_stat(ep as nat, 1, odd))
                    &&& final(self).usb.ppbi@ == old(self).usb.ppbi@.update(s, !odd)
                    &&& final(self).usb.u1ir == old(self).usb.u1ir
                }
                &&& !ok ==> {
                    &&& final(self).bdt == old(self).bdt
                    &&& final(self).usb.stat@ == old(self).usb.stat@
                    &&& final(self).usb.u1ir == (if enabled && bd.hw_owned() && bd.flags & BD_STALL != 0 {
                        old(self).usb.u1ir | U1IR_STALLIF
                    } else {
                        old(self).usb.u1ir
                    })
                }
                &&& final(self).ecb@ == old(self).ecb@
                &&& final(self).pr_out == old(self).pr_out
                &&& final(self).pr_su == old(self).pr_su
                &&& final(self).usb.u1ep@ == old(self).usb.u1ep@
                &&& final(self).usb.u1con == old(self).usb.u1con
            }),
    {
        if self.usb.u1con & U1CON_PKTDIS_TOKBUSY != 0 {
            return None;
        }
        let s = 2 * ep + 1;
        let odd = self.usb.ppbi[s];
        let i = if odd { 2 * s + 1 } else { 2 * s };
        let bd = self.bdt.bd[i];
        if !bd.is_hw_owned() {
            return None;
        }
        if bd.flags & BD_STALL != 0 {
            self.usb.u1ir = self.usb.u1ir | U1IR_STALLIF;
            return None;
        }
        assert(slot_wf(self.ecb@[s as int], s as int));
        let n = bd.byte_count as usize;
        let data = match &self.ecb[s] {
            Some(e) => {
                if n > e.ep_size as usize {
                    return None;
                }
                let src = if odd { &e.buf_odd } else { &e.buf_even };
                let mut out: Vec<u8> = Vec::new();
                let mut k: usize = 0;
                while k < n
                    invariant
                        k <= n,
                        n <= src@.len(),
                        out@ == src@.subrange(0, k as int),
                    decreases n - k,
                {
                    out.push(src[k]);
                    k = k + 1;
                    assert(out@ =~= src@.subrange(0, k as int));
                }
                out
            },
            None => {
                return None;
            },
        };
        proof {
            lemma_done_flags(bd.flags, USB_PID_IN);
        }
        self.bdt.bd[i] = BufferDescriptor {
            flags: (USB_PID_IN << 2u16) | (bd.flags & BD_DATA01),
            byte_count: bd.byte_count,
        };
        let st: u8 = (ep * 16 + 8 + if odd { 4usize } else { 0usize }) as u8;
        self.usb.stat.push(st);
        self.usb.ppbi[s] = !odd;
        Some(data)
    }

    /// What the peripheral does when the host resets the bus: it raises the
    /// reset flag.
    pub fn host_reset(&mut self)
        requires
            old(self).wf(),
        ensures
            final(self).wf(),
            final(self).usb.u1ir == old(self).usb.u1ir | U1IR_URSTIF,
            final(self).ecb@ == old(self).ecb@,
            final(self).bdt == old(self).bdt,
            final(self).usb.stat@ == old(self).usb.stat@,
            final(self).usb.u1ep@ == old(self).usb.u1ep@,
            final(self).pr_out == old(self).pr_out,
            final(self).pr_su == old(self).pr_su,
    {
        self.usb.u1ir = self.usb.u1ir | U1IR_URSTIF;
    }
}

} // verus!
