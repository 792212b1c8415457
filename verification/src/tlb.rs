//! The software-managed TLB: 32 fully-associative entries with variable
//! page masks.
use vstd::prelude::*;
use crate::bits::lemma_and_le_u32;
use crate::cp0def::{
    C0_ENTRYHI,
    C0_ENTRYHI_ASID_MASK,
    C0_ENTRYHI_VPN2_MASK,
    C0_ENTRYLO0,
    C0_ENTRYLO1,
    C0_INDEX,
    C0_INDEX_INDEX_MASK,
    C0_INDEX_P,
    C0_PAGEMASK,
    C0_RANDOM,
    C0_WIRED,
    EXCEPT_CODE_MOD,
    EXCEPT_CODE_TLB_LOAD,
    EXCEPT_CODE_TLB_REFILL_LOAD,
    EXCEPT_CODE_TLB_REFILL_STORE,
    EXCEPT_CODE_TLB_STORE,
};
use crate::procstate::{MachineState, MachineView};

verus! {

/// One half of a TLB entry: the even or the odd page of the pair.
#[derive(Clone, Copy, PartialEq, Eq, Structural, Debug)]
pub struct TLBPhyAddr {
    pub field_pfn: u32,
    pub field_dirty: bool,
    pub field_valid: bool,
}

#[derive(Clone, Copy, Debug)]
pub struct TLBEntry {
    pub entryhi: u32,
    pub entrylo0: u32,
    pub entrylo1: u32,
    /// EntryHi[7:0].
    pub field_asid: u32,
    /// The PageMask register at the time of the write.
    pub field_pmask: u32,
    /// EntryHi[31:13].
    pub field_vpn2: u32,
    /// Logical AND of the G bits of EntryLo0 and EntryLo1.
    pub field_g: bool,
    pub lo: [TLBPhyAddr; 2],
}

impl TLBEntry {
    /// The entry maps nothing: every field is zero and no half is valid.
    pub open spec fn is_empty(&self) -> bool {
        &&& self.entryhi == 0
        &&& self.entrylo0 == 0
        &&& self.entrylo1 == 0
        &&& self.field_asid == 0
        &&& self.field_pmask == 0
        &&& self.field_vpn2 == 0
        &&& !self.field_g
        &&& forall|i: int|
            0 <= i < 2 ==> self.lo[i] == (TLBPhyAddr {
                field_pfn: 0,
                field_dirty: false,
                field_valid: false,
            })
    }

    pub fn new() -> (e: Self)
        ensures
            e.is_empty(),
    {
        Self {
            entryhi: 0,
            entrylo0: 0,
            entrylo1: 0,
            field_asid: 0,
            field_pmask: 0,
            field_vpn2: 0,
            field_g: false,
            lo: [TLBPhyAddr { field_pfn: 0, field_dirty: false, field_valid: false };2],
        }
    }
}


/// What the index cache holds for "no hint".
pub const TLB_CACHE_NO_HINT: u8 = 32;

/// One half of an entry as an EntryLo register describes it.
pub open spec fn spec_half_of(entrylo: u32) -> TLBPhyAddr {
    TLBPhyAddr {
        field_pfn: (entrylo << 6) & 0xfffff000,
        field_dirty: entrylo & 4 != 0,
        field_valid: entrylo & 2 != 0,
    }
}

/// The entry that a TLB write makes of EntryHi, EntryLo0, EntryLo1 and
/// PageMask.
pub open spec fn spec_entry_of(entryhi: u32, entrylo0: u32, entrylo1: u32, pagemask: u32) -> TLBEntry {
    TLBEntry {
        entryhi,
        entrylo0,
        entrylo1,
        field_asid: entryhi & C0_ENTRYHI_ASID_MASK,
        field_pmask: pagemask,
        field_vpn2: entryhi & C0_ENTRYHI_VPN2_MASK,
        field_g: (entrylo0 & entrylo1) & 1 != 0,
        lo: vstd::array::spec_array_update(
            vstd::array::spec_array_update(
                vstd::array::spec_array_fill_for_copy_type::<TLBPhyAddr, 2>(spec_half_of(entrylo0)),
                0,
                spec_half_of(entrylo0),
            ),
            1,
            spec_half_of(entrylo1),
        ),
    }
}

/// The slot that an index register value names: its low six bits, taken
/// modulo the number of entries.
pub open spec fn spec_tlb_slot(index: u32) -> int {
    ((index & C0_INDEX_INDEX_MASK) % 32) as int
}

/// The bucket of the index cache for an address.
pub open spec fn spec_cache_bucket(addr: u32) -> int {
    ((addr >> 12) & 0x3ff) as int
}

/// The bits of an address that lie inside the page pair of an entry.
pub open spec fn pair_mask(e: TLBEntry) -> u32 {
    ((0xfff | e.field_pmask) << 1) | 1
}

/// The entry maps the page pair of `addr` for `asid`: the address bits above
/// the pair agree, and the entry is global or of that ASID.
pub open spec fn entry_matches(e: TLBEntry, asid: u32, addr: u32) -> bool {
    (e.field_vpn2 & !pair_mask(e)) == (addr & !pair_mask(e)) && (e.field_g || asid
        == e.field_asid)
}

/// Which half of the pair `addr` lies in: 1 for the odd page.
pub open spec fn odd_half(e: TLBEntry, addr: u32) -> int {
    if addr & (pair_mask(e) ^ (0xfff | e.field_pmask)) != 0 {
        1
    } else {
        0
    }
}

/// What a matching entry gives for an access: the physical address, or the
/// exception of an invalid or read-only half.
pub open spec fn entry_translate(e: TLBEntry, is_write: bool, addr: u32) -> Result<u32, u32> {
    let half = e.lo[odd_half(e, addr)];
    if !half.field_valid {
        Err(
            if is_write {
                EXCEPT_CODE_TLB_STORE
            } else {
                EXCEPT_CODE_TLB_LOAD
            },
        )
    } else if is_write && !half.field_dirty {
        Err(EXCEPT_CODE_MOD)
    } else {
        Ok(half.field_pfn | (addr & (0xfff | e.field_pmask)))
    }
}

/// The lowest index from `from` on whose entry matches, or 32 if none does.
pub open spec fn first_match(tlb: [TLBEntry; 32], asid: u32, addr: u32, from: int) -> int
    decreases 32 - from,
{
    if from < 0 || from >= 32 {
        32
    } else if entry_matches(tlb[from], asid, addr) {
        from
    } else {
        first_match(tlb, asid, addr, from + 1)
    }
}

/// What Random holds after a random write: it counts down and wraps to the
/// last entry when it reaches the wired entries or is out of range.
pub open spec fn spec_next_random(random: u32, wired: u32) -> u32 {
    if random <= (wired & C0_INDEX_INDEX_MASK) || random >= 32 {
        31
    } else {
        (random - 1) as u32
    }
}

impl MachineView {
    /// The machine after the TLB entry that `index` names was written from
    /// the registers: the index cache forgets the old entry and learns the
    /// new one, and all address-translation caches are invalidated.
    pub open spec fn tlb_write(self, index: u32) -> MachineView {
        let idx = spec_tlb_slot(index);
        let entryhi = self.reg.spec_c0(C0_ENTRYHI);
        MachineView {
            reg: self.reg.with_caches_cleared(),
            tlbcache: vstd::array::spec_array_update(
                vstd::array::spec_array_update(
                    self.tlbcache,
                    spec_cache_bucket(self.tlb[idx].entryhi),
                    TLB_CACHE_NO_HINT,
                ),
                spec_cache_bucket(entryhi),
                idx as u8,
            ),
            tlb: vstd::array::spec_array_update(
                self.tlb,
                idx,
                spec_entry_of(
                    entryhi,
                    self.reg.spec_c0(C0_ENTRYLO0),
                    self.reg.spec_c0(C0_ENTRYLO1),
                    self.reg.spec_c0(C0_PAGEMASK),
                ),
            ),
            ..self
        }
    }

    /// TLBWI.
    pub open spec fn tlb_write_with_index(self) -> MachineView {
        self.tlb_write(self.reg.spec_c0(C0_INDEX))
    }

    /// TLBWR: Random moves on, then the entry that it names is written.
    pub open spec fn tlb_write_with_random(self) -> MachineView {
        let next = spec_next_random(self.reg.spec_c0(C0_RANDOM), self.reg.spec_c0(C0_WIRED));
        self.with_reg(self.reg.with_c0(C0_RANDOM, next)).tlb_write(next)
    }

    /// TLBP: Index is the lowest matching entry for EntryHi, or gets its
    /// probe-failure bit set.
    pub open spec fn tlb_probe(self) -> MachineView {
        let entryhi = self.reg.spec_c0(C0_ENTRYHI);
        let i = first_match(
            self.tlb,
            entryhi & C0_ENTRYHI_ASID_MASK,
            entryhi & C0_ENTRYHI_VPN2_MASK,
            0,
        );
        if i < 32 {
            self.with_reg(self.reg.with_c0(C0_INDEX, i as u32))
        } else {
            self.with_reg(self.reg.with_c0(C0_INDEX, self.reg.spec_c0(C0_INDEX) | C0_INDEX_P))
        }
    }

    /// The translation of `addr` by the TLB. The entry that the index cache
    /// names is used if it matches; else the lowest matching entry is used
    /// and, if it translates, remembered in the index cache. Without a
    /// matching entry the access fails with a refill code.
    pub open spec fn tlb_lookup(self, asid: u32, is_write: bool, addr: u32) -> (
        MachineView,
        Result<u32, u32>,
    ) {
        let hint = self.tlbcache[spec_cache_bucket(addr)] as int;
        if hint < 32 && entry_matches(self.tlb[hint], asid, addr) {
            (self, entry_translate(self.tlb[hint], is_write, addr))
        } else {
            let i = first_match(self.tlb, asid, addr, 0);
            if i >= 32 {
                (
                    self,
                    Err(
                        if is_write {
                            EXCEPT_CODE_TLB_REFILL_STORE
                        } else {
                            EXCEPT_CODE_TLB_REFILL_LOAD
                        },
                    ),
                )
            } else {
                match entry_translate(self.tlb[i], is_write, addr) {
                    Ok(p) => (
                        MachineView {
                            tlbcache: vstd::array::spec_array_update(
                                self.tlbcache,
                                spec_cache_bucket(addr),
                                i as u8,
                            ),
                            ..self
                        },
                        Ok(p),
                    ),
                    Err(e) => (self, Err(e)),
                }
            }
        }
    }
}

fn half_of(entrylo: u32) -> (h: TLBPhyAddr)
    ensures
        h == spec_half_of(entrylo),
{
    TLBPhyAddr {
        field_pfn: (entrylo << 6) & 0xfffff000,
        field_dirty: entrylo & 4 != 0,
        field_valid: entrylo & 2 != 0,
    }
}

fn entry_of(entryhi: u32, entrylo0: u32, entrylo1: u32, pagemask: u32) -> (e: TLBEntry)
    ensures
        e == spec_entry_of(entryhi, entrylo0, entrylo1, pagemask),
{
    let mut lo = [half_of(entrylo0);2];
    lo[0] = half_of(entrylo0);
    lo[1] = half_of(entrylo1);
    TLBEntry {
        entryhi,
        entrylo0,
        entrylo1,
        field_asid: entryhi & C0_ENTRYHI_ASID_MASK,
        field_pmask: pagemask,
        field_vpn2: entryhi & C0_ENTRYHI_VPN2_MASK,
        field_g: (entrylo0 & entrylo1) & 1 != 0,
        lo,
    }
}

fn cache_bucket(addr: u32) -> (b: usize)
    ensures
        b as int == spec_cache_bucket(addr),
        b < 1024,
{
    proof {
        lemma_and_le_u32(addr >> 12, 0x3ff);
    }
    ((addr >> 12) & 0x3ff) as usize
}

fn matches(e: &TLBEntry, asid: u32, addr: u32) -> (m: bool)
    ensures
        m == entry_matches(*e, asid, addr),
{
    let addrmask: u32 = 0xfff | e.field_pmask;
    let addrmask2: u32 = (addrmask << 1) | 1;
    (e.field_vpn2 & !addrmask2) == (addr & !addrmask2) && (e.field_g || asid == e.field_asid)
}

fn translate(e: &TLBEntry, is_write: bool, addr: u32) -> (r: Result<u32, u32>)
    ensures
        r == entry_translate(*e, is_write, addr),
{
    let addrmask: u32 = 0xfff | e.field_pmask;
    let addrmask2: u32 = (addrmask << 1) | 1;
    let vpnlsb: u32 = addrmask2 ^ addrmask;
    let odd: usize = if (addr & vpnlsb) != 0 {
        1
    } else {
        0
    };
    if !e.lo[odd].field_valid {
        return Err(
            if is_write {
                EXCEPT_CODE_TLB_STORE
            } else {
                EXCEPT_CODE_TLB_LOAD
            },
        );
    }
    if is_write && !e.lo[odd].field_dirty {
        return Err(EXCEPT_CODE_MOD);
    }
    Ok(e.lo[odd].field_pfn | (addr & addrmask))
}

/// Writes the TLB entry that `index` names.
pub fn tlb_write(ms: &mut MachineState, index: u32)
    ensures
        final(ms)@ == old(ms)@.tlb_write(index),
{
    let entryhi: u32 = ms.reg.c0(C0_ENTRYHI);
    let entrylo0: u32 = ms.reg.c0(C0_ENTRYLO0);
    let entrylo1: u32 = ms.reg.c0(C0_ENTRYLO1);
    let pagemask: u32 = ms.reg.c0(C0_PAGEMASK);
    ms.reg.clear_caches();
    let idx: usize = ((index & C0_INDEX_INDEX_MASK) % 32) as usize;
    let old_bucket = cache_bucket(ms.tlb[idx].entryhi);
    ms.tlbcache[old_bucket] = TLB_CACHE_NO_HINT;
    let new_bucket = cache_bucket(entryhi);
    ms.tlbcache[new_bucket] = idx as u8;
    ms.tlb[idx] = entry_of(entryhi, entrylo0, entrylo1, pagemask);
}

/// TLBWI: writes the entry that Index names.
pub fn write_with_index(ms: &mut MachineState)
    ensures
        final(ms)@ == old(ms)@.tlb_write_with_index(),
{
    let idx: u32 = ms.reg.c0(C0_INDEX);
    tlb_write(ms, idx);
}

/// TLBWR: moves Random on and writes the entry that it names.
pub fn write_with_random(ms: &mut MachineState)
    ensures
        final(ms)@ == old(ms)@.tlb_write_with_random(),
{
    let random: u32 = ms.reg.c0(C0_RANDOM);
    let wired: u32 = ms.reg.c0(C0_WIRED);
    let next: u32 = if random <= (wired & C0_INDEX_INDEX_MASK) || random >= 32 {
        31
    } else {
        random - 1
    };
    ms.reg.set_c0(C0_RANDOM, next);
    tlb_write(ms, next);
}

/// TLBP: looks for the entry that matches EntryHi.
#[verifier::loop_isolation(false)]
pub fn probe(ms: &mut MachineState)
    ensures
        final(ms)@ == old(ms)@.tlb_probe(),
{
    let entryhi = ms.reg.c0(C0_ENTRYHI);
    let addr: u32 = entryhi & C0_ENTRYHI_VPN2_MASK;
    let asid: u32 = entryhi & C0_ENTRYHI_ASID_MASK;
    let mut i: usize = 0;
    while i < 32
        invariant
            i <= 32,
            *ms == *old(ms),
            first_match(ms.tlb, asid, addr, 0) == first_match(ms.tlb, asid, addr, i as int),
        decreases 32 - i,
    {
        if matches(&ms.tlb[i], asid, addr) {
            assert(first_match(ms.tlb, asid, addr, i as int) == i);
            ms.reg.set_c0(C0_INDEX, i as u32);
            return ;
        }
        i += 1;
    }
    let index = ms.reg.c0(C0_INDEX);
    ms.reg.set_c0(C0_INDEX, index | C0_INDEX_P);
}

/// Translates `addr` through the TLB.
#[verifier::loop_isolation(false)]
pub fn lookup(ms: &mut MachineState, asid: u32, is_write: bool, addr: u32) -> (r: Result<u32, u32>)
    ensures
        (final(ms)@, r) == old(ms)@.tlb_lookup(asid, is_write, addr),
{
    let bucket = cache_bucket(addr);
    let hint = ms.tlbcache[bucket] as usize;
    if hint < 32 {
        if matches(&ms.tlb[hint], asid, addr) {
            return translate(&ms.tlb[hint], is_write, addr);
        }
    }
    let mut i: usize = 0;
    while i < 32
        invariant
            i <= 32,
            *ms == *old(ms),
            bucket as int == spec_cache_bucket(addr),
            bucket < 1024,
            first_match(ms.tlb, asid, addr, 0) == first_match(ms.tlb, asid, addr, i as int),
        decreases 32 - i,
    {
        if matches(&ms.tlb[i], asid, addr) {
            assert(first_match(ms.tlb, asid, addr, i as int) == i);
            let r = translate(&ms.tlb[i], is_write, addr);
            if r.is_ok() {
                ms.tlbcache[bucket] = i as u8;
            }
            return r;
        }
        i += 1;
    }
    Err(
        if is_write {
            EXCEPT_CODE_TLB_REFILL_STORE
        } else {
            EXCEPT_CODE_TLB_REFILL_LOAD
        },
    )
}

} // verus!
