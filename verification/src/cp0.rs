//! Software access to the coprocessor-0 registers: masked loads and stores,
//! and the virtual Count and Compare.
use vstd::prelude::*;
use crate::bits::lemma_and_le_u32;
use crate::config::COUNT_TICKS_PER_USEC;
use crate::cp0def::{
    same_reg,
    setting,
    spec_setting,
    C0_BADVADDR,
    C0_CAUSE,
    C0_CAUSE_IP_TIMER,
    C0_CAUSE_TI,
    C0_COMPARE,
    C0_CONTEXT,
    C0_COUNT,
    C0_EPC,
    C0_RANDOM,
};
use crate::procstate::{MachineState, Reg};

verus! {

/// The register address that an instruction names: five bits of register
/// number, four bits of selector.
pub open spec fn spec_reg_sel(rs: (u32, u32)) -> (u32, u32) {
    (rs.0 & 0x1f, rs.1 & 0xf)
}

impl Reg {
    /// The virtual counter in its full 64 bits: the wall-clock time since
    /// the base time, in counter ticks, plus the instructions executed since
    /// the last synchronisation. All arithmetic wraps at 64 bits.
    pub open spec fn counter_long(&self, nexec_insts: u64) -> u64 {
        self.c0_count_currenttime.wrapping_sub(self.c0_count_basetime).wrapping_mul(
            COUNT_TICKS_PER_USEC,
        ).wrapping_add(nexec_insts.wrapping_sub(self.c0_count_ninst_in_ctime))
    }

    /// A store to Count moves the base time back from the current time by
    /// the microseconds that `val` ticks take.
    pub open spec fn store_counter(self, val: u32) -> Reg {
        Reg {
            c0_count_basetime: self.c0_count_currenttime.wrapping_sub(
                (val as u64) / COUNT_TICKS_PER_USEC,
            ),
            ..self
        }
    }

    /// The 64-bit deadline for a Compare value: its upper half is that of
    /// the counter, or the next one if the counter's lower half has already
    /// reached `val`.
    pub open spec fn compare_deadline(&self, nexec_insts: u64, val: u32) -> u64 {
        let long_count = self.counter_long(nexec_insts);
        (if val <= long_count as u32 {
            long_count.wrapping_add(0x100000000) & 0xffffffff00000000
        } else {
            long_count & 0xffffffff00000000
        }) | (val as u64)
    }

    /// A store to Compare sets the deadline and withdraws a pending timer
    /// interrupt.
    pub open spec fn store_compare(self, nexec_insts: u64, val: u32) -> Reg {
        let r = Reg { c0_compare_long: self.compare_deadline(nexec_insts, val), ..self }.with_c0(
            C0_COMPARE,
            val,
        );
        r.with_c0(C0_CAUSE, (r.spec_c0(C0_CAUSE) & !C0_CAUSE_IP_TIMER) & !C0_CAUSE_TI)
    }

    /// The registers after software stored `val` to the pair `rs`. Random,
    /// BadVAddr, EPC and Context ignore the store; Count and Compare have
    /// their own rule; a pair with masks keeps `(val & mask_w) | const_val`;
    /// any other pair keeps `val`.
    pub open spec fn store(self, nexec_insts: u64, rs: (u32, u32), val: u32) -> Reg {
        let rs = spec_reg_sel(rs);
        if rs == C0_RANDOM || rs == C0_BADVADDR || rs == C0_EPC || rs == C0_CONTEXT {
            self
        } else if rs == C0_COUNT {
            self.store_counter(val)
        } else if rs == C0_COMPARE {
            self.store_compare(nexec_insts, val)
        } else {
            match spec_setting(rs) {
                Some(s) => self.with_c0(rs, (val & s.mask_w) | s.const_val),
                None => self.with_c0(rs, val),
            }
        }
    }

    /// What software loads from the pair `rs`: the virtual counter for
    /// Count, `(stored & mask_r) | const_val` for a pair with masks, and what
    /// is stored for any other pair.
    pub open spec fn load(&self, nexec_insts: u64, rs: (u32, u32)) -> u32 {
        let rs = spec_reg_sel(rs);
        if rs == C0_COUNT {
            self.counter_long(nexec_insts) as u32
        } else {
            match spec_setting(rs) {
                Some(s) => (self.spec_c0(rs) & s.mask_r) | s.const_val,
                None => self.spec_c0(rs),
            }
        }
    }
}

/// Stores `val` to Count.
pub fn store_counter(ms: &mut MachineState, val: u32)
    ensures
        final(ms)@ == old(ms)@.with_reg(old(ms)@.reg.store_counter(val)),
{
    let diff: u64 = (val as u64) / COUNT_TICKS_PER_USEC;
    ms.reg.c0_count_basetime = ms.reg.c0_count_currenttime.wrapping_sub(diff);
}

/// The virtual counter in its full 64 bits.
pub fn load_counter_long(ms: &mut MachineState) -> (c: u64)
    ensures
        c == old(ms)@.reg.counter_long(old(ms)@.emu.nexec_insts),
        final(ms)@ == old(ms)@,
{
    let counter_t: u64 = ms.reg.c0_count_currenttime.wrapping_sub(ms.reg.c0_count_basetime);
    let counter_cyc: u64 = counter_t.wrapping_mul(COUNT_TICKS_PER_USEC);
    counter_cyc.wrapping_add(ms.emu.nexec_insts.wrapping_sub(ms.reg.c0_count_ninst_in_ctime))
}

/// Count: the lower half of the virtual counter.
pub fn load_counter(ms: &mut MachineState) -> (c: u32)
    ensures
        c == old(ms)@.reg.counter_long(old(ms)@.emu.nexec_insts) as u32,
        final(ms)@ == old(ms)@,
{
    load_counter_long(ms) as u32
}

/// Count, as the hardware register of RDHWR gives it.
pub fn load_counter_precise(ms: &mut MachineState) -> (c: u32)
    ensures
        c == old(ms)@.reg.counter_long(old(ms)@.emu.nexec_insts) as u32,
        final(ms)@ == old(ms)@,
{
    load_counter(ms)
}

/// The register address that an instruction names.
pub fn reg_sel(rs: (u32, u32)) -> (r: (u32, u32))
    ensures
        r == spec_reg_sel(rs),
        r.0 < 32,
        r.1 < 16,
{
    proof {
        lemma_and_le_u32(rs.0, 0x1f);
        lemma_and_le_u32(rs.1, 0xf);
    }
    (rs.0 & 0x1f, rs.1 & 0xf)
}

/// Stores `val` to the pair `rs` as MTC0 does.
pub fn store(ms: &mut MachineState, rs: (u32, u32), val: u32)
    ensures
        final(ms)@ == old(ms)@.with_reg(old(ms)@.reg.store(old(ms)@.emu.nexec_insts, rs, val)),
{
    let rs = reg_sel(rs);
    if same_reg(rs, C0_RANDOM) || same_reg(rs, C0_BADVADDR) || same_reg(rs, C0_EPC) || same_reg(
        rs,
        C0_CONTEXT,
    ) {
    } else if same_reg(rs, C0_COUNT) {
        store_counter(ms, val);
    } else if same_reg(rs, C0_COMPARE) {
        let long_count: u64 = load_counter_long(ms);
        let base: u64 = if val <= (long_count as u32) {
            long_count.wrapping_add(0x100000000) & 0xffffffff00000000
        } else {
            long_count & 0xffffffff00000000
        };
        ms.reg.c0_compare_long = base | (val as u64);
        ms.reg.set_c0(C0_COMPARE, val);
        let cause = ms.reg.c0(C0_CAUSE);
        ms.reg.set_c0(C0_CAUSE, (cause & !C0_CAUSE_IP_TIMER) & !C0_CAUSE_TI);
    } else {
        match setting(rs) {
            Some(s) => {
                ms.reg.set_c0(rs, (val & s.mask_w) | s.const_val);
            },
            None => {
                ms.reg.set_c0(rs, val);
            },
        }
    }
}

/// Loads the pair `rs` as MFC0 does.
pub fn load(ms: &mut MachineState, rs: (u32, u32)) -> (v: u32)
    ensures
        v == old(ms)@.reg.load(old(ms)@.emu.nexec_insts, rs),
        final(ms)@ == old(ms)@,
{
    let rs = reg_sel(rs);
    if same_reg(rs, C0_COUNT) {
        load_counter(ms)
    } else {
        match setting(rs) {
            Some(s) => (ms.reg.c0(rs) & s.mask_r) | s.const_val,
            None => ms.reg.c0(rs),
        }
    }
}

} // verus!
