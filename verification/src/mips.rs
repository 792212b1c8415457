//! Architectural constants: coprocessor register addressing, the virtual
//! address segments and the exception vectors.
use vstd::prelude::*;

verus! {

pub const CP_REG_BITS: u32 = 5;

pub const CP_SEL_BITS: u32 = 4;

/// Number of slots in the coprocessor-0 register array (register x selector).
pub const CP0_SLOTS: usize = 512;

pub const KUSEG: u32 = 0x00000000;

pub const KUSEG_SIZE: u32 = 0x80000000;

pub const KSEG0: u32 = 0x80000000;

pub const KSEG0_SIZE: u32 = 0x20000000;

pub const KSEG1: u32 = 0xA0000000;

pub const KSEG1_SIZE: u32 = 0x20000000;

pub const KSEG2: u32 = 0xC0000000;

pub const KSEG2_SIZE: u32 = 0x20000000;

pub const KSEG3: u32 = 0xE0000000;

pub const KSEG3_SIZE: u32 = 0x20000000;

pub const EXCEPT_VECT_RESET: u32 = 0xbfc00000;

/// Vector of a cache error. `bev` is the BEV bit of Status, in place.
pub open spec fn spec_except_vect_cache_err(ebase: u32, bev: u32) -> u32 {
    if bev != 0 {
        0xbfc00300
    } else {
        0xA0000100 | (ebase & 0x1ffff000)
    }
}

/// Vector of a TLB refill. `exl` says whether EXL was already set on entry.
pub open spec fn spec_except_vect_tlb_refill(ebase: u32, bev: u32, exl: bool) -> u32 {
    if bev != 0 {
        if exl {
            0xbfc00380
        } else {
            0xbfc00200
        }
    } else {
        (if exl {
            0x80000180u32
        } else {
            0x80000000u32
        }) | (ebase & 0x3ffff000)
    }
}

/// Vector of an interrupt. `iv` is the IV bit of Cause, in place.
pub open spec fn spec_except_vect_int(ebase: u32, bev: u32, iv: u32) -> u32 {
    if bev != 0 {
        if iv != 0 {
            0xbfc00400
        } else {
            0xbfc00380
        }
    } else {
        (if iv != 0 {
            0x80000200u32
        } else {
            0x80000180u32
        }) | (ebase & 0x3ffff000)
    }
}

/// Vector of every other exception.
pub open spec fn spec_except_vect_all_other(ebase: u32, bev: u32) -> u32 {
    if bev != 0 {
        0xbfc00380
    } else {
        0x80000180 | (ebase & 0x3ffff000)
    }
}

/// Physical address of an unmapped kernel-segment address.
pub open spec fn spec_kseg01_to_paddr(addr: u32) -> u32 {
    addr & 0x1fffffff
}

#[verifier::when_used_as_spec(spec_except_vect_cache_err)]
pub fn except_vect_cache_err(ebase: u32, bev: u32) -> (v: u32)
    ensures
        v == spec_except_vect_cache_err(ebase, bev),
{
    if bev != 0 {
        0xbfc00300
    } else {
        0xA0000100 | (ebase & 0x1ffff000)
    }
}

#[verifier::when_used_as_spec(spec_except_vect_tlb_refill)]
pub fn except_vect_tlb_refill(ebase: u32, bev: u32, exl: bool) -> (v: u32)
    ensures
        v == spec_except_vect_tlb_refill(ebase, bev, exl),
{
    if bev != 0 {
        if exl {
            0xbfc00380
        } else {
            0xbfc00200
        }
    } else {
        (if exl {
            0x80000180u32
        } else {
            0x80000000u32
        }) | (ebase & 0x3ffff000)
    }
}

#[verifier::when_used_as_spec(spec_except_vect_int)]
pub fn except_vect_int(ebase: u32, bev: u32, iv: u32) -> (v: u32)
    ensures
        v == spec_except_vect_int(ebase, bev, iv),
{
    if bev != 0 {
        if iv != 0 {
            0xbfc00400
        } else {
            0xbfc00380
        }
    } else {
        (if iv != 0 {
            0x80000200u32
        } else {
            0x80000180u32
        }) | (ebase & 0x3ffff000)
    }
}

#[verifier::when_used_as_spec(spec_except_vect_all_other)]
pub fn except_vect_all_other(ebase: u32, bev: u32) -> (v: u32)
    ensures
        v == spec_except_vect_all_other(ebase, bev),
{
    if bev != 0 {
        0xbfc00380
    } else {
        0x80000180 | (ebase & 0x3ffff000)
    }
}

#[verifier::when_used_as_spec(spec_kseg01_to_paddr)]
pub fn kseg01_to_paddr(addr: u32) -> (p: u32)
    ensures
        p == spec_kseg01_to_paddr(addr),
{
    addr & 0x1fffffff
}

/// Every exception vector is a word-aligned address of an unmapped kernel
/// segment, so a fetch from it needs no TLB entry.
pub proof fn lemma_vectors_unmapped_aligned(ebase: u32)
    by (bit_vector)
    ensures
        (0xA0000100u32 | (ebase & 0x1ffff000)) & 3 == 0,
        0xA0000000u32 <= (0xA0000100u32 | (ebase & 0x1ffff000)) < 0xC0000000u32,
        (0x80000000u32 | (ebase & 0x3ffff000)) & 3 == 0,
        0x80000000u32 <= (0x80000000u32 | (ebase & 0x3ffff000)) < 0xC0000000u32,
        (0x80000180u32 | (ebase & 0x3ffff000)) & 3 == 0,
        0x80000000u32 <= (0x80000180u32 | (ebase & 0x3ffff000)) < 0xC0000000u32,
        (0x80000200u32 | (ebase & 0x3ffff000)) & 3 == 0,
        0x80000000u32 <= (0x80000200u32 | (ebase & 0x3ffff000)) < 0xC0000000u32,
{
}

} // verus!
