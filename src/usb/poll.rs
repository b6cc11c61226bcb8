use vstd::prelude::*;
use crate::usb::bdt::{spec_pid, BD_PID_MSK, BD_PID_POS, N_ENDPOINTS, USB_PID_IN, USB_PID_OUT, USB_PID_SETUP};
use crate::usb::bus::{slot_wf, UsbBus, N_SLOTS};
use crate::usb::ecb::{spec_advance, EndpointControlBlock};
use crate::usb::regs::{
    UsbRegs,
    U1CON_PKTDIS_TOKBUSY, U1IR_STALLIF, U1IR_URSTIF, U1STAT_DIR_MASK, U1STAT_DIR_POSITION,
    U1STAT_ENDPT_MASK, U1STAT_ENDPT_POSITION, EPREG_EPSTALL_MASK,
};
use crate::usb::types::PollResult;

verus! {

/// The bookkeeping of one completed OUT transaction on a block: one armed
/// transaction becomes a completed one.
pub open spec fn spec_out_done(e: EndpointControlBlock, e2: EndpointControlBlock) -> bool {
    if e.armed_ctr > 0 {
        e2 == EndpointControlBlock {
            armed_ctr: (e.armed_ctr - 1) as u8,
            complete_ctr: (e.complete_ctr + 1) as u8,
            ..e
        }
    } else {
        e2 == e
    }
}

/// The bookkeeping of one completed IN transaction on a block: its buffer is
/// free again.
pub open spec fn spec_in_done(e: EndpointControlBlock, e2: EndpointControlBlock) -> bool {
    if e.armed_ctr > 0 {
        e2 == EndpointControlBlock { armed_ctr: (e.armed_ctr - 1) as u8, ..e }
    } else {
        e2 == e
    }
}

/// The registers agree but for the status FIFO and the error flags.
pub open spec fn spec_regs_frame(a: &UsbRegs, b: &UsbRegs) -> bool {
    &&& b.u1con == a.u1con
    &&& b.u1otgcon == a.u1otgcon
    &&& b.u1pwrc == a.u1pwrc
    &&& b.u1ie == a.u1ie
    &&& b.u1ir == a.u1ir
    &&& b.u1addr == a.u1addr
    &&& b.u1bdtp1 == a.u1bdtp1
    &&& b.u1bdtp2 == a.u1bdtp2
    &&& b.u1bdtp3 == a.u1bdtp3
    &&& b.u1ep@ == a.u1ep@
    &&& b.ppbi@ == a.ppbi@
}

/// The effect of `complete_out` on endpoint `ep`, direction slot `d`.
pub open spec fn spec_out_post(old: &UsbBus, new: &UsbBus, ep: int, d: int) -> bool {
    let s = 2 * ep + d;
    &&& new.others_same(old, s)
    &&& old.ecb@[s] is None ==> new.ecb@[s] is None
    &&& old.ecb@[s] is Some ==> new.ecb@[s] is Some && spec_out_done(
        old.ecb@[s]->Some_0,
        new.ecb@[s]->Some_0,
    )
    &&& new.pr_out == old.pr_out | (1u16 << ep as u16)
    &&& new.pr_su == old.pr_su
    &&& new.bdt.bd@ == old.bdt.bd@
    &&& spec_regs_frame(&old.usb, &new.usb)
}

/// The effect of `complete_in` on endpoint `ep`, direction slot `d`.
pub open spec fn spec_in_post(old: &UsbBus, new: &UsbBus, ep: int, d: int) -> bool {
    let s = 2 * ep + d;
    &&& new.others_same(old, s)
    &&& old.ecb@[s] is None ==> new.ecb@[s] is None
    &&& old.ecb@[s] is Some ==> new.ecb@[s] is Some && spec_in_done(
        old.ecb@[s]->Some_0,
        new.ecb@[s]->Some_0,
    )
    &&& new.pr_out == old.pr_out
    &&& new.pr_su == old.pr_su
    &&& new.bdt.bd@ == old.bdt.bd@
    &&& spec_regs_frame(&old.usb, &new.usb)
}

/// The effect of `complete_setup` on endpoint `ep`.
pub open spec fn spec_setup_post(old: &UsbBus, new: &UsbBus, ep: int) -> bool {
    let si = 2 * ep + 1;
    let so = 2 * ep;
    &&& new.ecb@.len() == N_SLOTS
    &&& forall|i: int|
        0 <= i < N_SLOTS && i != so && i != si ==> #[trigger] new.ecb@[i] == old.ecb@[i]
    &&& old.ecb@[si] is None ==> new.ecb@[si] is None
    &&& old.ecb@[si] is Some ==> {
        let e = old.ecb@[si]->Some_0;
        let e2 = new.ecb@[si]->Some_0;
        &&& new.ecb@[si] is Some
        &&& e2.armed_ctr == 0
        &&& e2.complete_ctr == 0
        &&& e2.data01
        &&& e2.next_odd == spec_advance(e.next_odd, e.armed_ctr)
        &&& e2.next_complete_odd == spec_advance(e.next_complete_odd, e.complete_ctr)
        &&& e2.stalled == e.stalled
        &&& e2.ep_size == e.ep_size
        &&& e2.ep_type == e.ep_type
        &&& !new.bdt.bd@[e.bd as int].hw_owned()
        &&& !new.bdt.bd@[e.bd + 1].hw_owned()
    }
    &&& old.ecb@[so] is None ==> new.ecb@[so] is None
    &&& old.ecb@[so] is Some ==> {
        let e = old.ecb@[so]->Some_0;
        let e2 = new.ecb@[so]->Some_0;
        &&& new.ecb@[so] is Some
        &&& e2.armed_ctr == (if e.armed_ctr > 0 { e.armed_ctr - 1 } else { 0 })
        &&& e2.complete_ctr == (if e.armed_ctr > 0 { 1u8 } else { 0u8 })
        &&& e2.data01
        &&& e2.next_odd == e.next_odd
        &&& e2.next_complete_odd == spec_advance(e.next_complete_odd, e.complete_ctr)
        &&& e2.stalled == e.stalled
        &&& e2.ep_size == e.ep_size
        &&& e2.ep_type == e.ep_type
        &&& e2.buf_even@ == e.buf_even@
        &&& e2.buf_odd@ == e.buf_odd@
    }
    &&& forall|i: int|
        0 <= i < new.bdt.bd@.len() && i != 4 * ep + 2 && i != 4 * ep + 3 ==> #[trigger] new.bdt.bd@[i]
            == old.bdt.bd@[i]
    &&& new.bdt.bd@.len() == old.bdt.bd@.len()
    &&& new.pr_su == old.pr_su | (1u16 << ep as u16)
    &&& new.pr_out == old.pr_out
    &&& spec_regs_frame(
        &UsbRegs { u1con: old.usb.u1con & !U1CON_PKTDIS_TOKBUSY, ..old.usb },
        &new.usb,
    )
}

/// The effect of `process_status` for the status value `stat`.
pub open spec fn spec_status_post(old: &UsbBus, new: &UsbBus, stat: u8) -> bool {
    let ep = spec_stat_ep(stat);
    let d = spec_stat_dir(stat);
    let pid = spec_pid(old.bdt.bd@[spec_stat_bd(stat)].flags);
    if pid == USB_PID_OUT {
        spec_out_post(old, new, ep, d)
    } else if pid == USB_PID_IN {
        spec_in_post(old, new, ep, d)
    } else if pid == USB_PID_SETUP {
        spec_setup_post(old, new, ep)
    } else {
        &&& new.ecb@ == old.ecb@
        &&& new.bdt.bd@ == old.bdt.bd@
        &&& spec_regs_frame(&old.usb, &new.usb)
        &&& new.pr_out == old.pr_out
        &&& new.pr_su == old.pr_su
    }
}

/// The bit that `process_status` reports for the status value `stat`.
pub open spec fn spec_status_in_bit(old: &UsbBus, stat: u8) -> u16 {
    if spec_pid(old.bdt.bd@[spec_stat_bd(stat)].flags) == USB_PID_IN {
        (1u16 << spec_stat_ep(stat) as u16) as u16
    } else {
        0
    }
}

/// Endpoint number in a U1STAT value.
pub open spec fn spec_stat_ep(stat: u8) -> int {
    ((stat & U1STAT_ENDPT_MASK) >> U1STAT_ENDPT_POSITION) as int
}

/// Direction slot (1 for IN) in a U1STAT value.
pub open spec fn spec_stat_dir(stat: u8) -> int {
    ((stat & U1STAT_DIR_MASK) >> U1STAT_DIR_POSITION) as int
}

/// Descriptor index in a U1STAT value.
pub open spec fn spec_stat_bd(stat: u8) -> int {
    (stat >> 2u8) as int
}

/// Some of the first `k` status values names endpoint `ep`.
pub open spec fn spec_named(stats: Seq<u8>, k: int, ep: int) -> bool
    decreases k,
{
    if k <= 0 {
        false
    } else {
        spec_stat_ep(stats[k - 1]) == ep || spec_named(stats, k - 1, ep)
    }
}

/// A status value changes only the slots of the endpoint that it names.
proof fn lemma_status_frame(old: &UsbBus, new: &UsbBus, stat: u8, i: int)
    requires
        spec_status_post(old, new, stat),
        old.ecb@.len() == N_SLOTS,
        0 <= spec_stat_dir(stat) < 2,
        0 <= i < N_SLOTS,
        spec_stat_ep(stat) != i / 2,
    ensures
        new.ecb@[i] == old.ecb@[i],
{
}

/// The effect of a status value depends on the bus only through its blocks,
/// descriptors, pending masks and the registers other than the status FIFO
/// and the error flags.
proof fn lemma_status_post_transfer(a: &UsbBus, b: &UsbBus, new: &UsbBus, stat: u8)
    requires
        spec_status_post(a, new, stat),
        a.ecb@ == b.ecb@,
        a.bdt.bd@ == b.bdt.bd@,
        spec_regs_frame(&a.usb, &b.usb),
        a.pr_out == b.pr_out,
        a.pr_su == b.pr_su,
    ensures
        spec_status_post(b, new, stat),
{
}

/// `states` runs through the effects of the status values `stats` in order:
/// each step has the effect of `process_status` on its value.
pub open spec fn spec_chain(states: Seq<UsbBus>, stats: Seq<u8>) -> bool {
    &&& states.len() == stats.len() + 1
    &&& forall|k: int|
        0 <= k < stats.len() ==> #[trigger] spec_status_post(&states[k], &states[k + 1], stats[k])
}

/// The IN bits reported by the first `n` steps of a chain.
pub open spec fn spec_chain_in_mask(states: Seq<UsbBus>, stats: Seq<u8>, n: int) -> u16
    decreases n,
{
    if n <= 0 {
        0
    } else {
        spec_chain_in_mask(states, stats, n - 1) | spec_status_in_bit(&states[n - 1], stats[n - 1])
    }
}

/// The outcome of `poll` on `old`, given the chain of states that its status
/// values went through: the blocks, descriptors and pending masks at the end
/// of the chain; a bus reset reported alone, with the device address
/// cleared; otherwise the stall of endpoint 0 cleared if a STALL was sent,
/// and the pending masks reported.
pub open spec fn spec_poll_outcome(old: &UsbBus, states: Seq<UsbBus>, new: &UsbBus, r: PollResult) -> bool {
    let n = states.len() - 1;
    let last = states[n];
    let in_mask = spec_chain_in_mask(states, old.usb.stat@, n);
    &&& new.ecb@ == last.ecb@
    &&& new.bdt.bd@ == last.bdt.bd@
    &&& new.pr_out == last.pr_out
    &&& new.pr_su == last.pr_su
    &&& new.usb.u1con == last.usb.u1con
    &&& new.usb.u1otgcon == old.usb.u1otgcon
    &&& new.usb.u1pwrc == old.usb.u1pwrc
    &&& new.usb.u1ie == old.usb.u1ie
    &&& new.usb.u1bdtp1 == old.usb.u1bdtp1
    &&& new.usb.u1bdtp2 == old.usb.u1bdtp2
    &&& new.usb.u1bdtp3 == old.usb.u1bdtp3
    &&& new.usb.ppbi@ == old.usb.ppbi@
    &&& new.usb.stat@.len() == 0
    &&& new.usb.u1eir == 0
    &&& if old.usb.u1ir & U1IR_URSTIF != 0 {
        &&& r == PollResult::Reset
        &&& new.usb.u1addr == 0
        &&& new.usb.u1ir == old.usb.u1ir & !U1IR_URSTIF
        &&& new.usb.u1ep@ == old.usb.u1ep@
    } else {
        &&& new.usb.u1addr == old.usb.u1addr
        &&& if old.usb.u1ir & U1IR_STALLIF != 0 {
            &&& new.usb.u1ep@ == old.usb.u1ep@.update(0, old.usb.u1ep@[0] & !EPREG_EPSTALL_MASK)
            &&& new.usb.u1ir == old.usb.u1ir & !U1IR_STALLIF
        } else {
            &&& new.usb.u1ep@ == old.usb.u1ep@
            &&& new.usb.u1ir == old.usb.u1ir
        }
        &&& r == if new.pr_out == 0 && in_mask == 0 && new.pr_su == 0 {
            PollResult::NoEvent
        } else {
            PollResult::Data { ep_out: new.pr_out, ep_in_complete: in_mask, ep_setup: new.pr_su }
        }
    }
}

/// The IN bits of a chain's first `n` steps do not depend on later states.
proof fn lemma_in_mask_push(states: Seq<UsbBus>, x: UsbBus, stats: Seq<u8>, n: int)
    requires
        0 <= n <= states.len(),
    ensures
        spec_chain_in_mask(states.push(x), stats, n) == spec_chain_in_mask(states, stats, n),
    decreases n,
{
    if n > 0 {
        lemma_in_mask_push(states, x, stats, n - 1);
        assert(states.push(x)[n - 1] == states[n - 1]);
    }
}

impl UsbBus {
    /// The bus with every slot but `s` as in `old`.
    pub open spec fn others_same(&self, old: &UsbBus, s: int) -> bool {
        &&& self.ecb@.len() == old.ecb@.len()
        &&& forall|i: int| 0 <= i < self.ecb@.len() && i != s ==> #[trigger] self.ecb@[i] == old.ecb@[i]
    }

    /// Record a completed OUT transaction on endpoint `ep`, direction slot `d`.
    pub fn complete_out(&mut self, ep: usize, d: usize)
        requires
            old(self).wf(),
            ep < N_ENDPOINTS,
            d < 2,
        ensures
            final(self).wf(),
            spec_out_post(old(self), final(self), ep as int, d as int),
            final(self).usb.stat@ == old(self).usb.stat@,
            final(self).usb.u1eir == old(self).usb.u1eir,
    {
        let s = 2 * ep + d;
        assert(slot_wf(self.ecb@[s as int], s as int));
        let ghost old_bus = *self;
        let slot = self.take_block(s);
        match slot {
            Some(e) => {
                let mut e = e;
                if e.armed_ctr > 0 {
                    e.armed_ctr = e.armed_ctr - 1;
                    e.complete_ctr = e.complete_ctr + 1;
                }
                self.ecb[s] = Some(e);
            },
            None => {},
        }
        self.pr_out = self.pr_out | (1u16 << (ep as u16));
        assert forall|i: int| 0 <= i < N_SLOTS implies #[trigger] slot_wf(self.ecb@[i], i) by {
            if i != s {
                assert(self.ecb@[i] == old_bus.ecb@[i]);
            }
        }
    }

    /// Record a completed IN transaction on endpoint `ep`, direction slot `d`.
    pub fn complete_in(&mut self, ep: usize, d: usize)
        requires
            old(self).wf(),
            ep < N_ENDPOINTS,
            d < 2,
        ensures
            final(self).wf(),
            spec_in_post(old(self), final(self), ep as int, d as int),
            final(self).usb.stat@ == old(self).usb.stat@,
            final(self).usb.u1eir == old(self).usb.u1eir,
    {
        let s = 2 * ep + d;
        assert(slot_wf(self.ecb@[s as int], s as int));
        let ghost old_bus = *self;
        let slot = self.take_block(s);
        match slot {
            Some(e) => {
                let mut e = e;
                if e.armed_ctr > 0 {
                    e.armed_ctr = e.armed_ctr - 1;
                }
                self.ecb[s] = Some(e);
            },
            None => {},
        }
        assert forall|i: int| 0 <= i < N_SLOTS implies #[trigger] slot_wf(self.ecb@[i], i) by {
            if i != s {
                assert(self.ecb@[i] == old_bus.ecb@[i]);
            }
        }
    }
}

impl UsbBus {
    /// Record a SETUP packet received on endpoint `ep`. A new SETUP starts a
    /// new control transfer: every armed or unread transaction of the IN
    /// direction is cancelled, unread OUT data is dropped, the SETUP packet
    /// itself becomes the one completed OUT transaction, both directions
    /// continue with DATA1, and the peripheral may process packets again.
    pub fn complete_setup(&mut self, ep: usize)
        requires
            old(self).wf(),
            ep < N_ENDPOINTS,
        ensures
            final(self).wf(),
            spec_setup_post(old(self), final(self), ep as int),
            final(self).usb.stat@ == old(self).usb.stat@,
            final(self).usb.u1eir == old(self).usb.u1eir,
    {
        let si = 2 * ep + 1;
        let so = 2 * ep;
        assert(slot_wf(self.ecb@[si as int], si as int));
        assert(slot_wf(self.ecb@[so as int], so as int));
        let ghost old_bus = *self;
        let slot_in = self.take_block(si);
        match slot_in {
            Some(e) => {
                let mut e = e;
                e.cancel(&mut self.bdt);
                e.data01 = true;
                self.ecb[si] = Some(e);
            },
            None => {},
        }
        let ghost mid_bus = *self;
        assert(self.ecb@[so as int] == old_bus.ecb@[so as int]);
        let slot_out = self.take_block(so);
        match slot_out {
            Some(e) => {
                let mut e = e;
                e.clear_completed();
                if e.armed_ctr > 0 {
                    e.armed_ctr = e.armed_ctr - 1;
                    e.complete_ctr = e.complete_ctr + 1;
                }
                e.data01 = true;
                self.ecb[so] = Some(e);
            },
            None => {},
        }
        self.pr_su = self.pr_su | (1u16 << (ep as u16));
        self.usb.u1con = self.usb.u1con & !U1CON_PKTDIS_TOKBUSY;
        proof {
            crate::usb::bdt::lemma_zero_flags_not_owned();
        }
        assert forall|i: int| 0 <= i < N_SLOTS implies #[trigger] slot_wf(self.ecb@[i], i) by {
            if i != si && i != so {
                assert(self.ecb@[i] == old_bus.ecb@[i]);
            }
        }
    }
}

impl UsbBus {
    /// Bookkeeping for one status value `stat` taken from the status FIFO:
    /// dispatch on the PID that the peripheral wrote into the descriptor.
    /// Returns the endpoint's bit for a completed IN transaction, else 0.
    pub fn process_status(&mut self, stat: u8) -> (r: u16)
        requires
            old(self).wf(),
        ensures
            final(self).wf(),
            0 <= spec_stat_ep(stat) < N_ENDPOINTS,
            0 <= spec_stat_dir(stat) < 2,
            spec_status_post(old(self), final(self), stat),
            r == spec_status_in_bit(old(self), stat),
            final(self).usb.stat@ == old(self).usb.stat@,
            final(self).usb.u1eir == old(self).usb.u1eir,
    {
        let ep = ((stat & U1STAT_ENDPT_MASK) >> U1STAT_ENDPT_POSITION) as usize;
        let d = ((stat & U1STAT_DIR_MASK) >> U1STAT_DIR_POSITION) as usize;
        let bdt_index = (stat >> 2u8) as usize;
        proof {
            assert(((stat & 0xf0u8) >> 4u8) < 16u8 && ((stat & 0x08u8) >> 3u8) < 2u8 && (stat >> 2u8) < 64u8)
                by (bit_vector);
        }
        let flags = self.bdt.bd[bdt_index].flags;
        let pid = (flags & BD_PID_MSK) >> BD_PID_POS;
        if pid == USB_PID_OUT {
            self.complete_out(ep, d);
            0
        } else if pid == USB_PID_IN {
            self.complete_in(ep, d);
            1u16 << (ep as u16)
        } else if pid == USB_PID_SETUP {
            self.complete_setup(ep);
            0
        } else {
            0
        }
    }

    /// Reconcile the transactions that the peripheral completed with the
    /// control blocks, one status value at a time as `process_status` does,
    /// then report what needs attention. Error flags are cleared. A bus reset
    /// clears the device address and is reported alone; a STALL handshake
    /// clears the stall of endpoint 0. Otherwise the pending OUT, IN and
    /// SETUP endpoints are reported as masks.
    pub fn poll(&mut self) -> (r: PollResult)
        requires
            old(self).wf(),
        ensures
            final(self).wf(),
            exists|states: Seq<UsbBus>|
                {
                    &&& spec_chain(states, old(self).usb.stat@)
                    &&& states[0] == *old(self)
                    &&& spec_poll_outcome(old(self), states, final(self), r)
                },
            forall|i: int|
                0 <= i < N_SLOTS && !spec_named(old(self).usb.stat@, old(self).usb.stat@.len() as int, i / 2)
                    ==> #[trigger] final(self).ecb@[i] == old(self).ecb@[i],
    {
        let mut pr_in: u16 = 0;
        if self.usb.u1eir != 0 {
            // the error flags are write-one-to-clear: writing them back clears them all
            self.usb.u1eir = 0;
        }
        let ghost stats = old(self).usb.stat@;
        let ghost mut k: int = 0;
        let ghost mut states: Seq<UsbBus> = seq![*old(self)];
        while self.usb.trnif()
            invariant
                self.wf(),
                0 <= k <= stats.len(),
                self.usb.stat@ == stats.subrange(k, stats.len() as int),
                self.usb.u1ir == old(self).usb.u1ir,
                self.usb.u1eir == 0,
                self.usb.u1ep@ == old(self).usb.u1ep@,
                self.usb.u1addr == old(self).usb.u1addr,
                self.usb.u1otgcon == old(self).usb.u1otgcon,
                self.usb.u1pwrc == old(self).usb.u1pwrc,
                self.usb.u1ie == old(self).usb.u1ie,
                self.usb.u1bdtp1 == old(self).usb.u1bdtp1,
                self.usb.u1bdtp2 == old(self).usb.u1bdtp2,
                self.usb.u1bdtp3 == old(self).usb.u1bdtp3,
                self.usb.ppbi@ == old(self).usb.ppbi@,
                states.len() == k + 1,
                states[0] == *old(self),
                forall|j: int|
                    0 <= j < k ==> #[trigger] spec_status_post(&states[j], &states[j + 1], stats[j]),
                self.ecb@ == states[k].ecb@,
                self.bdt.bd@ == states[k].bdt.bd@,
                spec_regs_frame(&states[k].usb, &self.usb),
                self.pr_out == states[k].pr_out,
                self.pr_su == states[k].pr_su,
                pr_in == spec_chain_in_mask(states, stats, k),
                forall|i: int|
                    0 <= i < N_SLOTS && !spec_named(stats, k, i / 2) ==> #[trigger] self.ecb@[i]
                        == old(self).ecb@[i],
            decreases self.usb.stat@.len(),
        {
            let stat = self.usb.stat[0];
            assert(k < stats.len() && stat == stats[k]);
            // clearing the transaction-complete flag advances the status FIFO
            self.usb.stat.remove(0);
            assert(self.usb.stat@ =~= stats.subrange(k + 1, stats.len() as int));
            let ghost before = *self;
            let ghost pr_in_before = pr_in;
            let bit = self.process_status(stat);
            pr_in = pr_in | bit;
            proof {
                let prev = states[k];
                lemma_status_post_transfer(&before, &prev, &*self, stat);
                let next = states.push(*self);
                lemma_in_mask_push(states, *self, stats, k);
                assert(next[k] == prev);
                assert(next[k + 1] == *self);
                assert forall|j: int| 0 <= j < k + 1 implies #[trigger] spec_status_post(
                    &next[j],
                    &next[j + 1],
                    stats[j],
                ) by {
                    if j < k {
                        assert(next[j] == states[j]);
                        assert(next[j + 1] == states[j + 1]);
                    }
                }
                assert(spec_chain_in_mask(next, stats, k + 1) == pr_in_before | spec_status_in_bit(
                    &prev,
                    stat,
                ));
                assert forall|i: int|
                    0 <= i < N_SLOTS && !spec_named(stats, k + 1, i / 2) implies #[trigger] self.ecb@[i]
                    == old(self).ecb@[i] by {
                    assert(!spec_named(stats, k, i / 2));
                    assert(spec_stat_ep(stat) != i / 2);
                    lemma_status_frame(&before, &*self, stat, i);
                }
                states = next;
                k = k + 1;
            }
        }
        proof {
            assert(states.len() - 1 == k && k == stats.len());
            assert(spec_chain(states, stats));
        }
        if self.usb.u1ir & U1IR_URSTIF != 0 {
            self.usb.u1addr = 0;
            self.usb.u1ir = self.usb.u1ir & !U1IR_URSTIF;
            let r = PollResult::Reset;
            assert(spec_poll_outcome(old(self), states, &*self, r));
            return r;
        }
        if self.usb.u1ir & U1IR_STALLIF != 0 {
            let v = self.usb.read_epreg(0) & !EPREG_EPSTALL_MASK;
            self.usb.write_epreg(0, v);
            self.usb.u1ir = self.usb.u1ir & !U1IR_STALLIF;
        }
        let r = if self.pr_out != 0 || pr_in != 0 || self.pr_su != 0 {
            PollResult::Data { ep_out: self.pr_out, ep_in_complete: pr_in, ep_setup: self.pr_su }
        } else {
            PollResult::NoEvent
        };
        assert(spec_poll_outcome(old(self), states, &*self, r));
        r
    }
}

} // verus!
