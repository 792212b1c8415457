//! What the parts of the machine leave alone: translation touches only the
//! translation hints, and a memory access touches no register of the
//! program.
use vstd::prelude::*;
use crate::procstate::{MachineView, Reg};

verus! {

/// The two register sets differ at most in the address-translation caches.
pub open spec fn same_but_caches(a: Reg, b: Reg) -> bool {
    &&& a.r == b.r
    &&& a.pc == b.pc
    &&& a.pc_delay == b.pc_delay
    &&& a.pc_prev_jump == b.pc_prev_jump
    &&& a.hi == b.hi
    &&& a.lo == b.lo
    &&& a.delay_en == b.delay_en
    &&& a.ll_sc == b.ll_sc
    &&& a.c0_count_basetime == b.c0_count_basetime
    &&& a.c0_count_currenttime == b.c0_count_currenttime
    &&& a.c0_count_ninst_in_ctime == b.c0_count_ninst_in_ctime
    &&& a.c0_compare_long == b.c0_compare_long
    &&& a.cp0 == b.cp0
}

/// The two machines differ at most in the translation hints: the index
/// cache of the TLB and the address-translation caches.
pub open spec fn same_but_hints(a: MachineView, b: MachineView) -> bool {
    &&& same_but_caches(a.reg, b.reg)
    &&& a.mem == b.mem
    &&& a.tlb == b.tlb
    &&& a.uart == b.uart
    &&& a.misc == b.misc
    &&& a.gpio == b.gpio
    &&& a.spi == b.spi
    &&& a.emu == b.emu
    &&& a.sleep_req == b.sleep_req
    &&& a.stdin_ch == b.stdin_ch
}

/// The two machines have the same registers but for the caches, the same
/// TLB and the same settings: they differ at most in memory, peripherals
/// and translation hints.
pub open spec fn same_core(a: MachineView, b: MachineView) -> bool {
    &&& same_but_caches(a.reg, b.reg)
    &&& a.tlb == b.tlb
    &&& a.emu == b.emu
    &&& a.sleep_req == b.sleep_req
}

/// A TLB lookup changes nothing but the index cache.
pub proof fn lemma_lookup_frame(m: MachineView, asid: u32, is_write: bool, addr: u32)
    ensures
        same_but_hints(m.tlb_lookup(asid, is_write, addr).0, m),
        m.tlb_lookup(asid, is_write, addr).0.reg == m.reg,
{
}

/// A translation changes nothing but translation hints.
#[verifier::rlimit(40)]
pub proof fn lemma_translate_frame(m: MachineView, addr: u32, is_write: bool)
    ensures
        same_but_hints(m.get_phy_addr(addr, is_write).0, m),
        m.get_phy_addr(addr, is_write).0.reg == m.reg,
        same_but_hints(m.data_translate(addr, is_write).0, m),
        same_but_hints(m.fetch_translate().0, m),
{
    lemma_lookup_frame(m, m.asid(), is_write, addr);
    lemma_lookup_frame(m, m.asid(), false, m.reg.pc);
}

/// A physical read changes nothing but the devices on the SPI bus.
#[verifier::rlimit(40)]
pub proof fn lemma_read_phys_frame(m: MachineView, addr: u32, width: u32)
    ensures
        m.read_phys(addr, width).0.reg == m.reg,
        m.read_phys(addr, width).0.mem == m.mem,
        same_core(m.read_phys(addr, width).0, m),
        m.read_phys_halfword(addr).0.reg == m.reg,
        m.read_phys_halfword(addr).0.mem == m.mem,
        same_core(m.read_phys_halfword(addr).0, m),
        m.read_phys_word(addr).0.reg == m.reg,
        m.read_phys_word(addr).0.mem == m.mem,
        same_core(m.read_phys_word(addr).0, m),
{
}

/// A load changes no register of the program, nor main memory.
#[verifier::rlimit(40)]
pub proof fn lemma_load_frame(m: MachineView, addr: u32, width: u32)
    ensures
        same_core(m.load_memory(addr, width).0, m),
        m.load_memory(addr, width).0.mem == m.mem,
        same_core(m.load_byte(addr).0, m),
        m.load_byte(addr).0.mem == m.mem,
        same_core(m.load_halfword(addr).0, m),
        m.load_halfword(addr).0.mem == m.mem,
        same_core(m.load_word(addr).0, m),
        m.load_word(addr).0.mem == m.mem,
{
    lemma_translate_frame(m, addr, false);
    let t = m.data_translate(addr, false);
    if t.1 is Ok {
        lemma_read_phys_frame(t.0, t.1->Ok_0, width);
        lemma_read_phys_frame(t.0, t.1->Ok_0, 1);
        lemma_read_phys_frame(t.0, t.1->Ok_0, 2);
        lemma_read_phys_frame(t.0, t.1->Ok_0, 4);
    }
}

/// A store changes no register of the program.
#[verifier::rlimit(40)]
pub proof fn lemma_store_frame(m: MachineView, addr: u32, width: u32, data: u32)
    ensures
        same_core(m.store_memory(addr, width, data).0, m),
        same_core(m.store_byte(addr, data as u8).0, m),
        same_core(m.store_halfword(addr, data).0, m),
        same_core(m.store_word(addr, data).0, m),
{
    lemma_translate_frame(m, addr, true);
}

/// A store that faults changes no memory.
pub proof fn lemma_failed_store_frame(m: MachineView, addr: u32, width: u32, data: u32)
    requires
        m.store_memory(addr, width, data).1 is Err,
    ensures
        m.store_memory(addr, width, data).0.mem == m.mem,
{
    lemma_translate_frame(m, addr, true);
}

/// A fetch changes no general-purpose register, neither HI, LO nor the link
/// flag, nor main memory: besides translation hints and the devices on the
/// SPI bus it changes only what an exception changes.
pub proof fn lemma_fetch_frame(m: MachineView)
    ensures
        m.fetch_instruction().0.reg.r == m.reg.r,
        m.fetch_instruction().0.reg.hi == m.reg.hi,
        m.fetch_instruction().0.reg.lo == m.reg.lo,
        m.fetch_instruction().0.reg.ll_sc == m.reg.ll_sc,
        m.fetch_instruction().0.mem == m.mem,
        m.fetch_instruction().0.emu == m.emu,
{
    reveal(Reg::prepare_exception);
    lemma_try_fetch_frame(m);
    let t = m.try_fetch();
    if t.1 is Err {
        let f = t.1->Err_0;
        lemma_try_fetch_frame(t.0.with_reg(t.0.reg.prepare_exception(f.0, f.1)));
    }
}

/// The fetch of a second halfword changes nothing but translation hints
/// and the devices on the SPI bus.
#[verifier::rlimit(40)]
pub proof fn lemma_fetch_second_frame(m: MachineView, first: u32)
    ensures
        same_core(m.fetch_second(first).0, m),
        m.fetch_second(first).0.mem == m.mem,
{
    let nextaddr = m.reg.pc.wrapping_add(1);
    lemma_translate_frame(m, nextaddr, false);
    let t = m.get_phy_addr(nextaddr, false);
    if t.1 is Ok {
        lemma_read_phys_frame(t.0, t.1->Ok_0, 2);
    }
}

/// The read of an instruction changes nothing but translation hints and the
/// devices on the SPI bus.
#[verifier::rlimit(40)]
pub proof fn lemma_fetch_at_frame(m: MachineView, paddr: u32)
    ensures
        same_core(m.fetch_at(paddr).0, m),
        m.fetch_at(paddr).0.mem == m.mem,
{
    lemma_read_phys_frame(m, paddr & 0xfffffffe, 2);
    lemma_read_phys_frame(m, paddr & 0xfffffffc, 4);
    let h = m.read_phys_halfword(paddr & 0xfffffffe);
    lemma_fetch_second_frame(h.0, h.1);
}

/// One attempt to fetch changes nothing but translation hints and the
/// devices on the SPI bus.
#[verifier::rlimit(40)]
pub proof fn lemma_try_fetch_frame(m: MachineView)
    ensures
        same_core(m.try_fetch().0, m),
        m.try_fetch().0.mem == m.mem,
{
    lemma_translate_frame(m, m.reg.pc, false);
    let t = m.fetch_translate();
    if t.1 is Ok {
        lemma_fetch_at_frame(t.0, t.1->Ok_0);
    }
}

} // verus!
