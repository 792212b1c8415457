//! Coprocessor-0 register numbers, bit positions and per-register masks.
use vstd::prelude::*;

verus! {

/// How one (register, selector) pair behaves under software access:
/// a store keeps `(new & mask_w) | const_val`, a load gives
/// `(stored & mask_r) | const_val`.
#[derive(Clone, Copy, PartialEq, Eq, Structural, Debug)]
pub struct C0RegSetting {
    /// 1 for the bits that a load shows.
    pub mask_r: u32,
    /// 1 for the bits that a store changes.
    pub mask_w: u32,
    pub init_val: u32,
    pub const_val: u32,
}

// Config: bit 19 write control, bit 18 writable, bits 1..0 kseg0 coherency;
// constant: Config1 present, MIPS32R2, MMU type TLB.
pub const C0_CONFIG_MASK: u32 = 0x000c0003;

pub const C0_CONFIG_INIT: u32 = 0x00040002;

pub const C0_CONFIG_CONST: u32 = 0x80000480;

// Config1: Config2 present, 32 TLB entries, cache geometry, one performance counter.
pub const C0_CONFIG1_CONST: u32 = 0xbea35190;

// Config2: bit 12 L2 bypass; constant: Config3 present.
pub const C0_CONFIG2_MASK: u32 = 0x00001000;

pub const C0_CONFIG2_CONST: u32 = 0x80000000;

// Config3: UserLocal is implemented.
pub const C0_CONFIG3_CONST: u32 = 0x00002000;

// EBase: bits 29..12 are the base of the exception vectors.
pub const C0_EBASE_MASK: u32 = 0x3ffff000;

pub const C0_EBASE_CONST: u32 = 0x80000000;

pub const MIPS_PRID_COMPANY_ID_MIPS_TECHNOLOGY: u32 = 0x01;

pub const MIPS_PRID_PROCESSOR_ID_74K_CORE: u32 = 0x97;

pub const C0_PRID_CONST: u32 = 0x00019700;

/// The interrupt-pending bit that the timer raises.
pub const C0_INTCTL_TIMER_INT_IPNUM: u32 = 7;

// IntCtl: bits 8..5 are the vector spacing; constant: timer and performance
// counter interrupt numbers.
pub const C0_INTCTL_MASK: u32 = 0x000001e0;

pub const C0_INTCTL_CONST: u32 = 0xf6000000;

pub const C0_ENTRYHI_MASK: u32 = 0xffffe0ff;

pub const C0_ENTRYHI_BIT_ASID: u32 = 0;

pub const C0_ENTRYHI_BIT_VPN2: u32 = 13;

pub const C0_ENTRYHI_ASID_MASK: u32 = 0xff;

pub const C0_ENTRYHI_VPN2_MASK: u32 = 0xffffe000;

pub const C0_ENTRYLO_MASK: u32 = 0x03ffffff;

/// Probe failure.
pub const C0_INDEX_BIT_P: u32 = 31;

pub const C0_INDEX_P: u32 = 0x80000000;

pub const C0_INDEX_INDEX_MASK: u32 = 0x3f;

pub const C0_INDEX_MASK: u32 = 0x8000003f;

pub const C0_RANDOM_MASK_R: u32 = 0x0000003f;

pub const C0_RANDOM_INIT: u32 = 31;

pub const C0_PAGEMASK_MASK: u32 = 0x1fffe000;

pub const C0_WIRED_MASK: u32 = 0x3f;

pub const C0_HWRENA_BIT_UL: u32 = 29;

pub const C0_HWRENA_BIT_CCRES: u32 = 3;

pub const C0_HWRENA_BIT_CC: u32 = 2;

pub const C0_HWRENA_BIT_SYNCISTEP: u32 = 1;

pub const C0_HWRENA_BIT_CPUNUM: u32 = 0;

pub const C0_HWRENA_MASK: u32 = 0x2000000f;

pub const C0_STATUS_BIT_IE: u32 = 0;

pub const C0_STATUS_BIT_EXL: u32 = 1;

pub const C0_STATUS_BIT_ERL: u32 = 2;

pub const C0_STATUS_BIT_SM: u32 = 3;

pub const C0_STATUS_BIT_UM: u32 = 4;

pub const C0_STATUS_BIT_IM: u32 = 8;

pub const C0_STATUS_BIT_BEV: u32 = 22;

pub const C0_STATUS_BIT_CU0: u32 = 28;

pub const C0_STATUS_IE: u32 = 0x00000001;

pub const C0_STATUS_EXL: u32 = 0x00000002;

pub const C0_STATUS_ERL: u32 = 0x00000004;

pub const C0_STATUS_IM_MASK: u32 = 0x0000ff00;

pub const C0_STATUS_BEV: u32 = 0x00400000;

pub const C0_STATUS_CU0: u32 = 0x10000000;

/// UM and SM: 00 kernel, 01 supervisor, 10 user.
pub const C0_STATUS_KSU_MASK: u32 = 0x00000018;

pub const C0_STATUS_BIT_KSU: u32 = 3;

pub const C0_STATUS_KSU_KERNEL: u32 = 0x00000000;

pub const C0_STATUS_KSU_SUPERVISOR: u32 = 0x00000008;

pub const C0_STATUS_KSU_USER: u32 = 0x00000010;

/// The bits of Status that decide how an address is translated.
pub const C0_STATUS_MODE_MASK: u32 = 0x0000001e;

// Status: CU3, CU2, RE, SR, bit 23 and bits 7..5 are not implemented.
pub const C0_STATUS_MASK: u32 = 0x3d6fff1f;

pub const C0_STATUS_INIT: u32 = 0x00400004;

pub const C0_CAUSE_BIT_BD: u32 = 31;

pub const C0_CAUSE_BIT_TI: u32 = 30;

pub const C0_CAUSE_BIT_CE: u32 = 28;

pub const C0_CAUSE_BIT_IV: u32 = 23;

pub const C0_CAUSE_BIT_IP: u32 = 8;

pub const C0_CAUSE_BIT_EXCCODE: u32 = 2;

pub const C0_CAUSE_BD: u32 = 0x80000000;

pub const C0_CAUSE_TI: u32 = 0x40000000;

pub const C0_CAUSE_IV: u32 = 0x00800000;

/// IP7, the timer interrupt.
pub const C0_CAUSE_IP_TIMER: u32 = 0x00008000;

/// IP6, the interrupt line of the peripherals.
pub const C0_CAUSE_IP_EXTERNAL: u32 = 0x00004000;

pub const C0_CAUSE_CE_MASK: u32 = 0x30000000;

pub const C0_CAUSE_IP_MASK: u32 = 0x0000ff00;

pub const C0_CAUSE_EXCCODE_MASK: u32 = 0x0000007c;

pub const C0_CAUSE_MASK_R: u32 = 0xf8c0ff7c;

pub const C0_CAUSE_MASK_W: u32 = 0x08c00300;

pub const EXCEPT_CODE_INTERRUPT: u32 = 0;

/// Store to a page that the TLB marks read-only.
pub const EXCEPT_CODE_MOD: u32 = 1;

/// Load or fetch from a page that the TLB marks invalid.
pub const EXCEPT_CODE_TLB_LOAD: u32 = 2;

/// Store to a page that the TLB marks invalid.
pub const EXCEPT_CODE_TLB_STORE: u32 = 3;

pub const EXCEPT_CODE_ADDR_ERR_LOAD: u32 = 4;

pub const EXCEPT_CODE_ADDR_ERR_STORE: u32 = 5;

pub const EXCEPT_CODE_BUS_ERR_IFETCH: u32 = 6;

pub const EXCEPT_CODE_BUS_ERR_DATA: u32 = 7;

pub const EXCEPT_CODE_SYSCALL: u32 = 8;

pub const EXCEPT_CODE_BREAKPOINT: u32 = 9;

pub const EXCEPT_CODE_RESERVED_INSTRUCTION: u32 = 10;

pub const EXCEPT_CODE_COPROCESSOR_UNAVAIL: u32 = 11;

pub const EXCEPT_CODE_INTEGER_OVERFLOW: u32 = 12;

pub const EXCEPT_CODE_TRAP: u32 = 13;

pub const EXCEPT_CODE_FP_EXCEPTION: u32 = 15;

pub const EXCEPT_CODE_WATCH: u32 = 23;

pub const EXCEPT_CODE_MCHECK: u32 = 24;

pub const EXCEPT_CODE_THREAD: u32 = 25;

pub const EXCEPT_CODE_DSP: u32 = 26;

pub const EXCEPT_CODE_CACHE_ERROR: u32 = 30;

/// No TLB entry matches a load or fetch. Never stored in Cause: the
/// exception unit turns it into `EXCEPT_CODE_TLB_LOAD` and takes the refill
/// vector.
pub const EXCEPT_CODE_TLB_REFILL_LOAD: u32 = 32;

/// No TLB entry matches a store. Never stored in Cause.
pub const EXCEPT_CODE_TLB_REFILL_STORE: u32 = 33;

pub const C0_INDEX: (u32, u32) = (0, 0);

pub const C0_RANDOM: (u32, u32) = (1, 0);

pub const C0_ENTRYLO0: (u32, u32) = (2, 0);

pub const C0_ENTRYLO1: (u32, u32) = (3, 0);

pub const C0_CONTEXT: (u32, u32) = (4, 0);

pub const C0_USERLOCAL: (u32, u32) = (4, 2);

pub const C0_PAGEMASK: (u32, u32) = (5, 0);

pub const C0_WIRED: (u32, u32) = (6, 0);

pub const C0_HWRENA: (u32, u32) = (7, 0);

pub const C0_BADVADDR: (u32, u32) = (8, 0);

pub const C0_COUNT: (u32, u32) = (9, 0);

pub const C0_ENTRYHI: (u32, u32) = (10, 0);

pub const C0_COMPARE: (u32, u32) = (11, 0);

pub const C0_STATUS: (u32, u32) = (12, 0);

pub const C0_INTCTL: (u32, u32) = (12, 1);

pub const C0_SRSCTL: (u32, u32) = (12, 2);

pub const C0_SRSMAP: (u32, u32) = (12, 3);

pub const C0_CAUSE: (u32, u32) = (13, 0);

pub const C0_EPC: (u32, u32) = (14, 0);

pub const C0_PRID: (u32, u32) = (15, 0);

pub const C0_EBASE: (u32, u32) = (15, 1);

pub const C0_CONFIG: (u32, u32) = (16, 0);

pub const C0_CONFIG1: (u32, u32) = (16, 1);

pub const C0_CONFIG2: (u32, u32) = (16, 2);

pub const C0_CONFIG3: (u32, u32) = (16, 3);

pub const C0_CONFIG7: (u32, u32) = (16, 7);

pub const C0_LLADDR: (u32, u32) = (17, 0);

pub const C0_WATCHLO0: (u32, u32) = (18, 0);

pub const C0_WATCHHI0: (u32, u32) = (19, 0);

pub const C0_DEBUG: (u32, u32) = (23, 0);

pub const C0_DEPC: (u32, u32) = (24, 0);

pub const C0_PERFCTL0: (u32, u32) = (25, 0);

pub const C0_ERRCTL: (u32, u32) = (26, 0);

pub const C0_CACHEERR: (u32, u32) = (27, 0);

pub const C0_ITAGLO: (u32, u32) = (28, 0);

pub const C0_ERROREPC: (u32, u32) = (30, 0);

pub const C0_DESAVE: (u32, u32) = (31, 0);

/// The descriptor of a pair whose loads and stores go through masks, or
/// `None` for a pair that is plain storage or has a behaviour of its own
/// (Count, Compare, EPC, Context, BadVAddr).
pub open spec fn spec_setting(rs: (u32, u32)) -> Option<C0RegSetting> {
    if rs == C0_STATUS {
        Some(
            C0RegSetting {
                mask_r: C0_STATUS_MASK,
                mask_w: C0_STATUS_MASK,
                init_val: C0_STATUS_INIT,
                const_val: 0,
            },
        )
    } else if rs == C0_CAUSE {
        Some(
            C0RegSetting {
                mask_r: C0_CAUSE_MASK_R,
                mask_w: C0_CAUSE_MASK_W,
                init_val: 0,
                const_val: 0,
            },
        )
    } else if rs == C0_ENTRYHI {
        Some(
            C0RegSetting {
                mask_r: C0_ENTRYHI_MASK,
                mask_w: C0_ENTRYHI_MASK,
                init_val: 0,
                const_val: 0,
            },
        )
    } else if rs == C0_ENTRYLO0 || rs == C0_ENTRYLO1 {
        Some(
            C0RegSetting {
                mask_r: C0_ENTRYLO_MASK,
                mask_w: C0_ENTRYLO_MASK,
                init_val: 0,
                const_val: 0,
            },
        )
    } else if rs == C0_INDEX {
        Some(
            C0RegSetting { mask_r: C0_INDEX_MASK, mask_w: C0_INDEX_MASK, init_val: 0, const_val: 0 },
        )
    } else if rs == C0_RANDOM {
        Some(
            C0RegSetting {
                mask_r: C0_RANDOM_MASK_R,
                mask_w: 0,
                init_val: C0_RANDOM_INIT,
                const_val: 0,
            },
        )
    } else if rs == C0_PAGEMASK {
        Some(
            C0RegSetting {
                mask_r: C0_PAGEMASK_MASK,
                mask_w: C0_PAGEMASK_MASK,
                init_val: 0,
                const_val: 0,
            },
        )
    } else if rs == C0_WIRED {
        Some(
            C0RegSetting { mask_r: C0_WIRED_MASK, mask_w: C0_WIRED_MASK, init_val: 0, const_val: 0 },
        )
    } else if rs == C0_HWRENA {
        Some(
            C0RegSetting {
                mask_r: C0_HWRENA_MASK,
                mask_w: C0_HWRENA_MASK,
                init_val: 0,
                const_val: 0,
            },
        )
    } else if rs == C0_EBASE {
        Some(
            C0RegSetting {
                mask_r: C0_EBASE_MASK,
                mask_w: C0_EBASE_MASK,
                init_val: C0_EBASE_CONST,
                const_val: C0_EBASE_CONST,
            },
        )
    } else if rs == C0_CONFIG {
        Some(
            C0RegSetting {
                mask_r: C0_CONFIG_MASK,
                mask_w: C0_CONFIG_MASK,
                init_val: C0_CONFIG_INIT,
                const_val: C0_CONFIG_CONST,
            },
        )
    } else if rs == C0_CONFIG1 {
        Some(
            C0RegSetting {
                mask_r: 0,
                mask_w: 0,
                init_val: C0_CONFIG1_CONST,
                const_val: C0_CONFIG1_CONST,
            },
        )
    } else if rs == C0_CONFIG2 {
        Some(
            C0RegSetting {
                mask_r: C0_CONFIG2_MASK,
                mask_w: C0_CONFIG2_MASK,
                init_val: C0_CONFIG2_CONST,
                const_val: C0_CONFIG2_CONST,
            },
        )
    } else if rs == C0_CONFIG3 {
        Some(
            C0RegSetting {
                mask_r: 0,
                mask_w: 0,
                init_val: C0_CONFIG3_CONST,
                const_val: C0_CONFIG3_CONST,
            },
        )
    } else if rs == C0_PRID {
        Some(C0RegSetting { mask_r: 0, mask_w: 0, init_val: C0_PRID_CONST, const_val: C0_PRID_CONST })
    } else if rs == C0_INTCTL {
        Some(
            C0RegSetting {
                mask_r: C0_INTCTL_MASK,
                mask_w: C0_INTCTL_MASK,
                init_val: C0_INTCTL_CONST,
                const_val: C0_INTCTL_CONST,
            },
        )
    } else {
        None
    }
}

fn mk(mask_r: u32, mask_w: u32, init_val: u32, const_val: u32) -> (s: Option<C0RegSetting>)
    ensures
        s == Some(C0RegSetting { mask_r, mask_w, init_val, const_val }),
{
    Some(C0RegSetting { mask_r, mask_w, init_val, const_val })
}

/// Whether two register addresses are the same pair.
pub fn same_reg(a: (u32, u32), b: (u32, u32)) -> (r: bool)
    ensures
        r == (a == b),
{
    a.0 == b.0 && a.1 == b.1
}

#[verifier::when_used_as_spec(spec_setting)]
pub fn setting(rs: (u32, u32)) -> (s: Option<C0RegSetting>)
    ensures
        s == spec_setting(rs),
{
    if same_reg(rs, C0_STATUS) {
        mk(C0_STATUS_MASK, C0_STATUS_MASK, C0_STATUS_INIT, 0)
    } else if same_reg(rs, C0_CAUSE) {
        mk(C0_CAUSE_MASK_R, C0_CAUSE_MASK_W, 0, 0)
    } else if same_reg(rs, C0_ENTRYHI) {
        mk(C0_ENTRYHI_MASK, C0_ENTRYHI_MASK, 0, 0)
    } else if same_reg(rs, C0_ENTRYLO0) || same_reg(rs, C0_ENTRYLO1) {
        mk(C0_ENTRYLO_MASK, C0_ENTRYLO_MASK, 0, 0)
    } else if same_reg(rs, C0_INDEX) {
        mk(C0_INDEX_MASK, C0_INDEX_MASK, 0, 0)
    } else if same_reg(rs, C0_RANDOM) {
        mk(C0_RANDOM_MASK_R, 0, C0_RANDOM_INIT, 0)
    } else if same_reg(rs, C0_PAGEMASK) {
        mk(C0_PAGEMASK_MASK, C0_PAGEMASK_MASK, 0, 0)
    } else if same_reg(rs, C0_WIRED) {
        mk(C0_WIRED_MASK, C0_WIRED_MASK, 0, 0)
    } else if same_reg(rs, C0_HWRENA) {
        mk(C0_HWRENA_MASK, C0_HWRENA_MASK, 0, 0)
    } else if same_reg(rs, C0_EBASE) {
        mk(C0_EBASE_MASK, C0_EBASE_MASK, C0_EBASE_CONST, C0_EBASE_CONST)
    } else if same_reg(rs, C0_CONFIG) {
        mk(C0_CONFIG_MASK, C0_CONFIG_MASK, C0_CONFIG_INIT, C0_CONFIG_CONST)
    } else if same_reg(rs, C0_CONFIG1) {
        mk(0, 0, C0_CONFIG1_CONST, C0_CONFIG1_CONST)
    } else if same_reg(rs, C0_CONFIG2) {
        mk(C0_CONFIG2_MASK, C0_CONFIG2_MASK, C0_CONFIG2_CONST, C0_CONFIG2_CONST)
    } else if same_reg(rs, C0_CONFIG3) {
        mk(0, 0, C0_CONFIG3_CONST, C0_CONFIG3_CONST)
    } else if same_reg(rs, C0_PRID) {
        mk(0, 0, C0_PRID_CONST, C0_PRID_CONST)
    } else if same_reg(rs, C0_INTCTL) {
        mk(C0_INTCTL_MASK, C0_INTCTL_MASK, C0_INTCTL_CONST, C0_INTCTL_CONST)
    } else {
        None
    }
}

/// Slot of a pair in the register array: `(reg << CP_SEL_BITS) | sel`.
pub open spec fn spec_c0_index(rs: (u32, u32)) -> int {
    rs.0 * 16 + rs.1
}

/// Error level (ERL) is set.
pub open spec fn spec_mode_is_in_error(c0_status: u32) -> bool {
    c0_status & C0_STATUS_ERL != 0
}

/// Exception level (EXL) is set.
pub open spec fn spec_mode_is_in_exception(c0_status: u32) -> bool {
    c0_status & C0_STATUS_EXL != 0
}

/// Exception level or error level is set.
pub open spec fn spec_mode_is_exception(c0_status: u32) -> bool {
    c0_status & (C0_STATUS_EXL | C0_STATUS_ERL) != 0
}

pub open spec fn spec_mode_is_kernel(c0_status: u32) -> bool {
    !spec_mode_is_exception(c0_status) && c0_status & C0_STATUS_KSU_MASK == C0_STATUS_KSU_KERNEL
}

pub open spec fn spec_mode_is_supervisor(c0_status: u32) -> bool {
    !spec_mode_is_exception(c0_status) && c0_status & C0_STATUS_KSU_MASK
        == C0_STATUS_KSU_SUPERVISOR
}

pub open spec fn spec_mode_is_user(c0_status: u32) -> bool {
    !spec_mode_is_exception(c0_status) && c0_status & C0_STATUS_KSU_MASK == C0_STATUS_KSU_USER
}

#[verifier::when_used_as_spec(spec_mode_is_in_error)]
pub fn mode_is_in_error(c0_status: u32) -> (r: bool)
    ensures
        r == spec_mode_is_in_error(c0_status),
{
    c0_status & C0_STATUS_ERL != 0
}

#[verifier::when_used_as_spec(spec_mode_is_in_exception)]
pub fn mode_is_in_exception(c0_status: u32) -> (r: bool)
    ensures
        r == spec_mode_is_in_exception(c0_status),
{
    c0_status & C0_STATUS_EXL != 0
}

#[verifier::when_used_as_spec(spec_mode_is_exception)]
pub fn mode_is_exception(c0_status: u32) -> (r: bool)
    ensures
        r == spec_mode_is_exception(c0_status),
{
    c0_status & (C0_STATUS_EXL | C0_STATUS_ERL) != 0
}

#[verifier::when_used_as_spec(spec_mode_is_kernel)]
pub fn mode_is_kernel(c0_status: u32) -> (r: bool)
    ensures
        r == spec_mode_is_kernel(c0_status),
{
    !mode_is_exception(c0_status) && c0_status & C0_STATUS_KSU_MASK == C0_STATUS_KSU_KERNEL
}

#[verifier::when_used_as_spec(spec_mode_is_supervisor)]
pub fn mode_is_supervisor(c0_status: u32) -> (r: bool)
    ensures
        r == spec_mode_is_supervisor(c0_status),
{
    !mode_is_exception(c0_status) && c0_status & C0_STATUS_KSU_MASK == C0_STATUS_KSU_SUPERVISOR
}

#[verifier::when_used_as_spec(spec_mode_is_user)]
pub fn mode_is_user(c0_status: u32) -> (r: bool)
    ensures
        r == spec_mode_is_user(c0_status),
{
    !mode_is_exception(c0_status) && c0_status & C0_STATUS_KSU_MASK == C0_STATUS_KSU_USER
}

} // verus!
