//! A one-entry cache from (virtual page, ASID, mode) to a physical page.
//!
//! The cache is a hint: a miss falls back to the full translation.
use vstd::prelude::*;
use crate::cp0def::C0_ENTRYHI_ASID_MASK;

verus! {

pub struct AddrCache {
    /// Virtual page address (bits 31..12).
    pub vaddr: u32,
    /// Physical page address (bits 31..12).
    pub ppage: u32,
    pub asid: u8,
    pub valid: bool,
    /// Bits 4..3: KSU, bit 2: error level, bit 1: exception level.
    pub mode: u8,
}

impl AddrCache {
    /// Whether the entry answers a query for `vaddr` under `asid` and `mode`.
    pub open spec fn hits(&self, vaddr: u32, asid: u32, mode: u32) -> bool {
        self.valid && mode as u8 == self.mode && (vaddr & 0xfffff000) == self.vaddr && asid as u8
            == self.asid
    }

    /// The physical address that the entry gives for `vaddr`.
    pub open spec fn translate(&self, vaddr: u32) -> u32 {
        self.ppage | (vaddr & 0xfff)
    }

    /// The entry after it has recorded a translation.
    pub open spec fn filled(vaddr: u32, asid: u32, mode: u32, paddr: u32) -> AddrCache {
        AddrCache {
            vaddr: vaddr & 0xfffff000,
            ppage: paddr & 0xfffff000,
            asid: (asid & C0_ENTRYHI_ASID_MASK) as u8,
            valid: true,
            mode: mode as u8,
        }
    }

    pub fn new() -> (c: Self)
        ensures
            !c.valid,
            c == (AddrCache { vaddr: 0, ppage: 0, asid: 0, valid: false, mode: 0 }),
    {
        Self { vaddr: 0, ppage: 0, asid: 0, valid: false, mode: 0 }
    }

    pub fn clear(&mut self)
        ensures
            *final(self) == (AddrCache { valid: false, ..*old(self) }),
    {
        self.valid = false;
    }

    pub fn check(&self, vaddr: u32, asid: u32, mode: u32) -> (hit: bool)
        ensures
            hit == self.hits(vaddr, asid, mode),
    {
        let mask: u32 = 0xfffff000;
        if !self.valid {
            return false;
        }
        if mode as u8 != self.mode {
            return false;
        }
        if (vaddr & mask) == self.vaddr {
            if asid as u8 == self.asid {
                return true;
            }
        }
        false
    }

    pub fn get_addr(&self, vaddr: u32) -> (paddr: u32)
        ensures
            paddr == self.translate(vaddr),
    {
        self.ppage | (vaddr & 0xfff)
    }

    pub fn set(&mut self, vaddr: u32, asid: u32, mode: u32, paddr: u32)
        ensures
            *final(self) == AddrCache::filled(vaddr, asid, mode, paddr),
    {
        let mask: u32 = 0xfffff000;
        self.ppage = paddr & mask;
        self.asid = (asid & C0_ENTRYHI_ASID_MASK) as u8;
        self.mode = mode as u8;
        self.vaddr = vaddr & mask;
        self.valid = true;
    }
}

/// A lookup right after `set`, with the same page, ASID and mode, hits and
/// gives back the physical page that was recorded, with the offset of the
/// queried address. The ASID is compared by its low 8 bits.
pub proof fn lemma_set_then_check(vaddr: u32, asid: u32, mode: u32, paddr: u32, query: u32)
    requires
        query & 0xfffff000 == vaddr & 0xfffff000,
        asid <= 0xff,
    ensures
        AddrCache::filled(vaddr, asid, mode, paddr).hits(query, asid, mode),
        AddrCache::filled(vaddr, asid, mode, paddr).translate(query) == (paddr & 0xfffff000) | (
        query & 0xfff),
{
    assert(asid & 0xff == asid) by (bit_vector)
        requires
            asid <= 0xff,
    ;
}

} // verus!
