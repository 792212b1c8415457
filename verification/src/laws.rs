//! Laws of the machine, each proved from the definitions of the functions
//! that it speaks of.
use vstd::prelude::*;
use crate::bits::{lemma_and_le_u32, lemma_set_clear_bit};
use crate::config::RAM_AREA_SIZE;
use crate::cp0::spec_reg_sel;
use crate::cp0def::{
    mode_is_exception,
    spec_c0_index,
    spec_setting,
    C0_BADVADDR,
    C0_CAUSE,
    C0_CAUSE_BD,
    C0_COMPARE,
    C0_CONTEXT,
    C0_COUNT,
    C0_ENTRYHI,
    C0_ENTRYHI_ASID_MASK,
    C0_ENTRYHI_VPN2_MASK,
    C0_EPC,
    C0_ERROREPC,
    C0_INDEX,
    C0_INDEX_P,
    C0_RANDOM,
    C0_STATUS,
    EXCEPT_CODE_TLB_LOAD,
    EXCEPT_CODE_TLB_REFILL_LOAD,
    EXCEPT_CODE_TLB_REFILL_STORE,
    EXCEPT_CODE_TLB_STORE,
};
use crate::dev_spi::{SPI0_BASE_ADDRESS, SPI_CTRL_REG, SPI_CTRL_REMAP_DISABLE};
use crate::exec_mips32::{spec_lwl, spec_lwr, spec_swl, spec_swr};
use crate::cp0def::{mode_is_supervisor, mode_is_user};
use crate::mem::{
    unmapped_paddr,
    dram_index,
    dram_read_halfword,
    dram_read_word,
    dram_write_halfword,
    dram_write_word,
    in_block,
    in_ram,
    spec_accsize_align,
    spec_wrdata_align,
};
use crate::procstate::{MachineView, Reg};
use crate::tlb::{
    entry_matches,
    first_match,
    odd_half,
    spec_cache_bucket,
    spec_tlb_slot,
    TLBEntry,
};

verus! {

/// The slot of a register address whose parts are in range lies in the
/// register array, and two such addresses share a slot only if they are the
/// same.
pub proof fn lemma_c0_slots(a: (u32, u32), b: (u32, u32))
    requires
        a.0 < 32,
        a.1 < 16,
        b.0 < 32,
        b.1 < 16,
    ensures
        0 <= spec_c0_index(a) < 512,
        spec_c0_index(a) == spec_c0_index(b) ==> a == b,
{
}

/// An exception taken outside exception and error level leaves in EPC the
/// address of the faulting instruction, or in a delay slot that of the
/// branch which armed it; Cause.BD says which. The delay slot is given up.
pub proof fn lemma_exception_return_address(reg: Reg, ecode: u32, option: u32)
    requires
        !mode_is_exception(reg.spec_c0(C0_STATUS)),
    ensures
        reg.prepare_exception(ecode, option).spec_c0(C0_EPC) == (if reg.delay_en {
            reg.pc_prev_jump
        } else {
            reg.pc
        }),
        (reg.prepare_exception(ecode, option).spec_c0(C0_CAUSE) & C0_CAUSE_BD != 0)
            == reg.delay_en,
        !reg.prepare_exception(ecode, option).delay_en,
{
    reveal(Reg::prepare_exception);
    let c = reg.cause_with_code(ecode, option);
    lemma_set_clear_bit(c, C0_CAUSE_BD);
}

/// An exception taken at exception or error level leaves the return address
/// in ErrorEPC, and EPC as it was.
pub proof fn lemma_nested_exception_return_address(reg: Reg, ecode: u32, option: u32)
    requires
        mode_is_exception(reg.spec_c0(C0_STATUS)),
    ensures
        reg.prepare_exception(ecode, option).spec_c0(C0_ERROREPC) == reg.return_address(),
        reg.prepare_exception(ecode, option).spec_c0(C0_EPC) == reg.spec_c0(C0_EPC),
        !reg.prepare_exception(ecode, option).delay_en,
{
    reveal(Reg::prepare_exception);
}

/// An interrupt taken outside exception and error level records its return
/// address as an exception does.
pub proof fn lemma_interrupt_return_address(reg: Reg, icode: u32)
    requires
        !mode_is_exception(reg.spec_c0(C0_STATUS)),
    ensures
        reg.prepare_interrupt(icode).spec_c0(C0_EPC) == reg.return_address(),
        (reg.prepare_interrupt(icode).spec_c0(C0_CAUSE) & C0_CAUSE_BD != 0) == reg.delay_en,
        !reg.prepare_interrupt(icode).delay_en,
{
    let r1 = reg.with_c0(
        C0_CAUSE,
        ((reg.spec_c0(C0_CAUSE) & !crate::cp0def::C0_CAUSE_EXCCODE_MASK)
            & !crate::cp0def::C0_CAUSE_IP_MASK) | ((icode << 8) & crate::cp0def::C0_CAUSE_IP_MASK),
    );
    lemma_set_clear_bit(r1.spec_c0(C0_CAUSE), C0_CAUSE_BD);
}

/// After a TLB write all five address-translation caches are empty.
pub proof fn lemma_tlb_write_empties_caches(m: MachineView, index: u32)
    ensures
        m.tlb_write(index).reg.caches_empty(),
        m.tlb_write_with_index().reg.caches_empty(),
        m.tlb_write_with_random().reg.caches_empty(),
{
}

/// After a store to the SPI control register that changes the remap bit all
/// five address-translation caches are empty.
pub proof fn lemma_remap_toggle_empties_caches(m: MachineView, paddr: u32, width: u32, data: u32)
    requires
        in_block(paddr, (SPI0_BASE_ADDRESS + SPI_CTRL_REG) as u32, 4),
        (m.spi.control ^ data) & SPI_CTRL_REMAP_DISABLE != 0,
    ensures
        m.store_routed(paddr, width, data).reg.caches_empty(),
{
}

/// What `first_match` gives: an index from `from` to 32; below 32 the entry
/// there matches; no entry between `from` and it matches.
pub proof fn lemma_first_match(tlb: [TLBEntry; 32], asid: u32, addr: u32, from: int)
    requires
        0 <= from <= 32,
    ensures
        from <= first_match(tlb, asid, addr, from) <= 32,
        first_match(tlb, asid, addr, from) < 32 ==> entry_matches(
            tlb[first_match(tlb, asid, addr, from)],
            asid,
            addr,
        ),
        forall|j: int|
            from <= j < first_match(tlb, asid, addr, from) ==> !entry_matches(
                #[trigger] tlb[j],
                asid,
                addr,
            ),
    decreases 32 - from,
{
    if from < 32 && !entry_matches(tlb[from], asid, addr) {
        lemma_first_match(tlb, asid, addr, from + 1);
    }
}

/// A TLB lookup fails with a refill code exactly if no entry matches. Where
/// an entry matches and the half that the address selects is invalid, the
/// lookup fails with the TLB load or store code, never with a refill code.
pub proof fn lemma_lookup_refill_only_without_match(
    m: MachineView,
    asid: u32,
    is_write: bool,
    addr: u32,
)
    ensures
        (m.tlb_lookup(asid, is_write, addr).1 == Err::<u32, u32>(EXCEPT_CODE_TLB_REFILL_LOAD)
            || m.tlb_lookup(asid, is_write, addr).1 == Err::<u32, u32>(
            EXCEPT_CODE_TLB_REFILL_STORE,
        )) <==> (forall|j: int| 0 <= j < 32 ==> !entry_matches(#[trigger] m.tlb[j], asid, addr)),
        forall|j: int|
            0 <= j < 32 && entry_matches(#[trigger] m.tlb[j], asid, addr) && (forall|k: int|
                0 <= k < 32 && k != j ==> !entry_matches(#[trigger] m.tlb[k], asid, addr))
                && !m.tlb[j].lo[odd_half(m.tlb[j], addr)].field_valid ==> m.tlb_lookup(
                asid,
                is_write,
                addr,
            ).1 == Err::<u32, u32>(
                if is_write {
                    EXCEPT_CODE_TLB_STORE
                } else {
                    EXCEPT_CODE_TLB_LOAD
                },
            ),
{
    lemma_first_match(m.tlb, asid, addr, 0);
    let hint = m.tlbcache[spec_cache_bucket(addr)] as int;
    let i = first_match(m.tlb, asid, addr, 0);
    if hint < 32 && entry_matches(m.tlb[hint], asid, addr) {
        assert(entry_matches(m.tlb[hint], asid, addr));
    }
}

/// After the entry for EntryHi was written at a slot below which no entry
/// matches EntryHi, a probe finds that slot: Index is the slot and its
/// probe-failure bit is clear.
pub proof fn lemma_probe_finds_written_entry(m: MachineView, index: u32)
    requires
        forall|j: int|
            0 <= j < spec_tlb_slot(index) ==> !entry_matches(
                #[trigger] m.tlb[j],
                m.reg.spec_c0(C0_ENTRYHI) & C0_ENTRYHI_ASID_MASK,
                m.reg.spec_c0(C0_ENTRYHI) & C0_ENTRYHI_VPN2_MASK,
            ),
    ensures
        m.tlb_write(index).tlb_probe().reg.spec_c0(C0_INDEX) == spec_tlb_slot(index),
        m.tlb_write(index).tlb_probe().reg.spec_c0(C0_INDEX) & C0_INDEX_P == 0,
{
    let w = m.tlb_write(index);
    let entryhi = m.reg.spec_c0(C0_ENTRYHI);
    let asid = entryhi & C0_ENTRYHI_ASID_MASK;
    let vpn2 = entryhi & C0_ENTRYHI_VPN2_MASK;
    let slot = spec_tlb_slot(index);
    lemma_and_le_u32(index, 0x3f);
    assert(0 <= slot < 32);
    assert(w.reg.spec_c0(C0_ENTRYHI) == entryhi);
    assert(entry_matches(w.tlb[slot], asid, vpn2));
    assert forall|j: int| 0 <= j < slot implies !entry_matches(#[trigger] w.tlb[j], asid, vpn2) by {
        assert(w.tlb[j] == m.tlb[j]);
    }
    lemma_first_match(w.tlb, asid, vpn2, 0);
    let found = first_match(w.tlb, asid, vpn2, 0);
    assert(found == slot) by {
        if found < slot {
            assert(entry_matches(w.tlb[found], asid, vpn2));
        }
        if found > slot {
            assert(!entry_matches(w.tlb[slot], asid, vpn2));
        }
    }
    let s = slot as u32;
    assert(s & 0x80000000 == 0) by (bit_vector)
        requires
            s < 32,
    ;
}

/// A load from a coprocessor-0 register after a store of `v` to it gives
/// `(((v & write_mask) | const) & read_mask) | const` for a register with
/// masks, except Random, which ignores stores; and gives `v` for a register
/// that is plain storage.
pub proof fn lemma_c0_store_then_load(reg: Reg, nexec_insts: u64, rs: (u32, u32), v: u32)
    ensures
        ({
            let a = spec_reg_sel(rs);
            match spec_setting(a) {
                Some(s) => a != C0_RANDOM ==> reg.store(nexec_insts, rs, v).load(nexec_insts, rs)
                    == (((v & s.mask_w) | s.const_val) & s.mask_r) | s.const_val,
                None => a != C0_COUNT && a != C0_EPC && a != C0_CONTEXT && a != C0_BADVADDR
                    ==> reg.store(nexec_insts, rs, v).load(nexec_insts, rs) == v,
            }
        }),
{
    let a = spec_reg_sel(rs);
    lemma_and_le_u32(rs.0, 0x1f);
    lemma_and_le_u32(rs.1, 0xf);
    lemma_c0_slots(a, C0_CAUSE);
    lemma_c0_slots(a, C0_COMPARE);
    lemma_c0_slots(C0_COMPARE, C0_CAUSE);
}

/// LWL followed by LWR at the same address, where that is the last byte of
/// its word, leaves the aligned word in the register.
pub proof fn lemma_lwl_lwr_same_address(old: u32, data: u32, addr: u32)
    by (bit_vector)
    requires
        addr & 3 == 3,
    ensures
        spec_lwr(spec_lwl(old, data, addr), data, addr) == data,
{
}

/// LWL followed by LWR at the same address leaves no byte of what the
/// register held before: the result depends on the aligned word alone.
pub proof fn lemma_lwl_lwr_replace_register(old1: u32, old2: u32, data: u32, addr: u32)
    by (bit_vector)
    ensures
        spec_lwr(spec_lwl(old1, data, addr), data, addr) == spec_lwr(
            spec_lwl(old2, data, addr),
            data,
            addr,
        ),
{
}

/// The big-endian merge law of an unaligned load: LWL at `addr` on the word
/// `w0` that holds `addr`, then LWR at `addr + 3` on the word `w1` that
/// holds `last`, the address three bytes further, leave the four bytes from
/// `addr` on.
pub proof fn lemma_lwl_lwr_unaligned_word(old: u32, w0: u32, w1: u32, addr: u32, last: u32)
    by (bit_vector)
    requires
        last & 3 == (if addr & 3 == 0 {
            3u32
        } else if addr & 3 == 1 {
            0u32
        } else if addr & 3 == 2 {
            1u32
        } else {
            2u32
        }),
        addr & 3 == 0 ==> w1 == w0,
    ensures
        spec_lwr(spec_lwl(old, w0, addr), w1, last) == (if addr & 3 == 0 {
            w0
        } else if addr & 3 == 1 {
            (w0 << 8) | (w1 >> 24)
        } else if addr & 3 == 2 {
            (w0 << 16) | (w1 >> 16)
        } else {
            (w0 << 24) | (w1 >> 8)
        }),
{
}

/// The big-endian merge law of an unaligned store: SWL at `addr` changes the
/// bytes of its word from `addr` on to the most significant bytes of the
/// register and SWR at `addr` changes the bytes up to `addr` to the least
/// significant ones; at the first and last byte of a word they store the
/// whole register.
pub proof fn lemma_swl_swr(data: u32, reg: u32, addr: u32)
    by (bit_vector)
    ensures
        addr & 3 == 0 ==> spec_swl(data, reg, addr) == reg,
        addr & 3 == 3 ==> spec_swr(data, reg, addr) == reg,
        spec_lwl(0, spec_swl(data, reg, addr), addr) == (if addr & 3 == 0 {
            reg
        } else if addr & 3 == 1 {
            reg & 0xffffff00
        } else if addr & 3 == 2 {
            reg & 0xffff0000
        } else {
            reg & 0xff000000
        }),
{
}

/// The four bytes of a word, put together again, are the word.
proof fn lemma_word_of_bytes(d: u32)
    by (bit_vector)
    ensures
        (((((d >> 24) & 0xff) as u8) as u32) << 24) | (((((d >> 16) & 0xff) as u8) as u32) << 16) | (
        ((((d >> 8) & 0xff) as u8) as u32) << 8) | (((d & 0xff) as u8) as u32) == d,
        (((((d >> 8) & 0xff) as u8) as u32) << 8) | (((d & 0xff) as u8) as u32) == d & 0xffff,
{
}

/// The bytes of an access inside the RAM area lie at different places of
/// main memory.
proof fn lemma_dram_indices_differ(a: u32, a1: u32, a2: u32, a3: u32)
    by (bit_vector)
    requires
        a < 0x0ffffffd,
        a1 == a + 1,
        a2 == a + 2,
        a3 == a + 3,
    ensures
        a & 0x03ffffff != a1 & 0x03ffffff,
        a & 0x03ffffff != a2 & 0x03ffffff,
        a & 0x03ffffff != a3 & 0x03ffffff,
        a1 & 0x03ffffff != a2 & 0x03ffffff,
        a1 & 0x03ffffff != a3 & 0x03ffffff,
        a2 & 0x03ffffff != a3 & 0x03ffffff,
{
}

/// A word stored in main memory is loaded back unchanged, and each of its
/// bytes is found at its offset, the most significant one first.
pub proof fn lemma_dram_word_round_trip(mem: Seq<u8>, addr: u32, data: u32)
    requires
        mem.len() == crate::config::DRAM_SIZE,
        in_ram(addr, 4),
    ensures
        dram_read_word(dram_write_word(mem, addr, data), addr) == data,
        dram_write_word(mem, addr, data)[dram_index(addr)] == ((data >> 24) & 0xff) as u8,
        dram_write_word(mem, addr, data)[dram_index(addr.wrapping_add(1))] == ((data >> 16)
            & 0xff) as u8,
        dram_write_word(mem, addr, data)[dram_index(addr.wrapping_add(2))] == ((data >> 8)
            & 0xff) as u8,
        dram_write_word(mem, addr, data)[dram_index(addr.wrapping_add(3))] == (data & 0xff) as u8,
        dram_read_halfword(dram_write_word(mem, addr, data), addr) == (((((data >> 24)
            & 0xff) as u8) as u32) << 8) | ((((data >> 16) & 0xff) as u8) as u32),
        dram_read_halfword(dram_write_word(mem, addr, data), addr.wrapping_add(2)) == data
            & 0xffff,
{
    let a1 = addr.wrapping_add(1);
    let a2 = addr.wrapping_add(2);
    let a3 = addr.wrapping_add(3);
    lemma_dram_indices_differ(addr, a1, a2, a3);
    lemma_and_le_u32(addr, 0x03ffffff);
    lemma_and_le_u32(a1, 0x03ffffff);
    lemma_and_le_u32(a2, 0x03ffffff);
    lemma_and_le_u32(a3, 0x03ffffff);
    lemma_word_of_bytes(data);
    assert(a2.wrapping_add(1) == a3);
}

/// A halfword stored in main memory is loaded back unchanged, and its bytes
/// are found at their offsets, the more significant one first.
pub proof fn lemma_dram_halfword_round_trip(mem: Seq<u8>, addr: u32, data: u32)
    requires
        mem.len() == crate::config::DRAM_SIZE,
        in_ram(addr, 2),
    ensures
        dram_read_halfword(dram_write_halfword(mem, addr, data), addr) == data & 0xffff,
        dram_write_halfword(mem, addr, data)[dram_index(addr)] == ((data >> 8) & 0xff) as u8,
        dram_write_halfword(mem, addr, data)[dram_index(addr.wrapping_add(1))] == (data
            & 0xff) as u8,
{
    let a1 = addr.wrapping_add(1);
    assert(addr & 0x03ffffff != a1 & 0x03ffffff) by (bit_vector)
        requires
            addr < 0x0fffffff,
            a1 == addr + 1,
    ;
    lemma_and_le_u32(addr, 0x03ffffff);
    lemma_and_le_u32(a1, 0x03ffffff);
    lemma_word_of_bytes(data);
}

/// A byte stored in main memory is loaded back unchanged.
pub proof fn lemma_dram_byte_round_trip(m: MachineView, addr: u32, data: u8)
    requires
        m.wf(),
        in_ram(addr, 1),
    ensures
        m.write_phys(addr, 1, data as u32).read_phys_byte(addr).1 == data,
        m.write_phys(addr, 1, data as u32).read_phys(addr, 1).1 == data as u32,
{
    lemma_and_le_u32(addr, 0x03ffffff);
    assert((data as u32) as u8 == data) by (bit_vector);
}

/// A physical write to main memory followed by a physical read of the same
/// width at the same address gives back what was written, cut to the width.
pub proof fn lemma_phys_round_trip(m: MachineView, addr: u32, width: u32, data: u32)
    requires
        m.wf(),
        addr < RAM_AREA_SIZE,
        width == 1 || width == 2 || width == 4,
        in_ram(addr, width as int),
    ensures
        m.write_phys(addr, width, data).read_phys(addr, width).1 == (if width == 1 {
            data & 0xff
        } else if width == 2 {
            data & 0xffff
        } else {
            data
        }),
        m.write_phys(addr, width, data).read_phys(addr, width).0 == m.write_phys(
            addr,
            width,
            data,
        ),
{
    if width == 1 {
        lemma_and_le_u32(addr, 0x03ffffff);
        assert((data as u8) as u32 == data & 0xff) by (bit_vector);
    } else if width == 2 {
        lemma_dram_halfword_round_trip(m.mem, addr, data);
    } else {
        lemma_dram_word_round_trip(m.mem, addr, data);
    }
}

/// The lane that a register access reads is the lane that an access of the
/// same width at the same address wrote: a byte or halfword comes back cut
/// to its width.
pub proof fn lemma_lane_round_trip(width: u32, addr: u32, val: u32)
    by (bit_vector)
    ensures
        spec_accsize_align(width, addr, spec_wrdata_align(width, addr, val)) == (if width == 2 {
            val & 0xffff
        } else if width == 1 {
            val & 0xff
        } else {
            val
        }),
{
}


/// With empty address-translation caches, in a mode that may use the
/// unmapped kernel segments, a store to an address of these segments that
/// lies in the RAM area followed by a load of the same width from the same
/// address gives back what was stored, cut to the width.
pub proof fn lemma_unmapped_store_then_load(m: MachineView, vaddr: u32, width: u32, data: u32)
    requires
        m.wf(),
        m.reg.caches_empty(),
        !mode_is_user(m.reg.spec_c0(C0_STATUS)),
        !mode_is_supervisor(m.reg.spec_c0(C0_STATUS)),
        0x80000000 <= vaddr < 0xC0000000,
        width == 1 || width == 2 || width == 4,
        unmapped_paddr(m.spi.control, vaddr) + width <= RAM_AREA_SIZE,
    ensures
        m.store_memory(vaddr, width, data).1 is Ok,
        m.store_memory(vaddr, width, data).0.load_memory(vaddr, width).1 == Ok::<u32, u32>(
            if width == 1 {
                data & 0xff
            } else if width == 2 {
                data & 0xffff
            } else {
                data
            },
        ),
{
    let paddr = unmapped_paddr(m.spi.control, vaddr);
    let t = m.data_translate(vaddr, true);
    assert(t.1 == Ok::<u32, u32>(paddr));
    let s = m.store_memory(vaddr, width, data).0;
    assert(s == t.0.write_phys(paddr, width, data));
    assert(!s.reg.dr_cache[0].valid && !s.reg.dr_cache[1].valid);
    assert(s.reg.cp0 == m.reg.cp0);
    assert(s.spi == m.spi);
    let t2 = s.data_translate(vaddr, false);
    assert(t2.1 == Ok::<u32, u32>(paddr));
    assert(t2.0.mem == s.mem);
    lemma_phys_round_trip(t.0, paddr, width, data);
    assert(t2.0.read_phys(paddr, width).1 == t.0.write_phys(paddr, width, data).read_phys(
        paddr,
        width,
    ).1);
}

} // verus!
