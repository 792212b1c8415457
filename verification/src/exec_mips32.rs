//! The MIPS32 Release 2 integer instruction set.
//!
//! The effect of every instruction is a function from the view of the
//! machine before it to the view after it; `exec` is proved to compute it.
use vstd::prelude::*;
use crate::bits::lemma_and_le_u32;
use crate::config::CPU_FREQ_COUNT_RESOLUTION;
use crate::cp0def::{
    mode_is_user,
    C0_EPC,
    C0_ERROREPC,
    C0_HWRENA,
    C0_STATUS,
    C0_STATUS_CU0,
    C0_STATUS_ERL,
    C0_STATUS_EXL,
    C0_STATUS_IE,
    C0_USERLOCAL,
    EXCEPT_CODE_COPROCESSOR_UNAVAIL,
    EXCEPT_CODE_INTEGER_OVERFLOW,
    EXCEPT_CODE_RESERVED_INSTRUCTION,
    EXCEPT_CODE_SYSCALL,
    EXCEPT_CODE_TRAP,
};
use crate::exception::raise;
use crate::exec_common::{
    sign_ext16,
    sign_ext8,
    update_pc_next32,
    update_pc_next32_with_delayed_imm,
    zero_ext16,
};
use crate::procstate::{MachineState, MachineView, Reg};

verus! {

pub const MIPS32_OP_SPECIAL: u32 = 0x00;

pub const MIPS32_OP_REGIMM: u32 = 0x01;

pub const MIPS32_OP_J: u32 = 0x02;

pub const MIPS32_OP_JAL: u32 = 0x03;

pub const MIPS32_OP_BEQ: u32 = 0x04;

pub const MIPS32_OP_BNE: u32 = 0x05;

pub const MIPS32_OP_BLEZ: u32 = 0x06;

pub const MIPS32_OP_BGTZ: u32 = 0x07;

pub const MIPS32_OP_ADDI: u32 = 0x08;

pub const MIPS32_OP_ADDIU: u32 = 0x09;

pub const MIPS32_OP_SLTI: u32 = 0x0a;

pub const MIPS32_OP_SLTIU: u32 = 0x0b;

pub const MIPS32_OP_ANDI: u32 = 0x0c;

pub const MIPS32_OP_ORI: u32 = 0x0d;

pub const MIPS32_OP_XORI: u32 = 0x0e;

pub const MIPS32_OP_LUI: u32 = 0x0f;

pub const MIPS32_OP_COP0: u32 = 0x10;

pub const MIPS32_OP_COP1: u32 = 0x11;

pub const MIPS32_OP_COP2: u32 = 0x12;

pub const MIPS32_OP_COP1X: u32 = 0x13;

pub const MIPS32_OP_BEQL: u32 = 0x14;

pub const MIPS32_OP_BNEL: u32 = 0x15;

pub const MIPS32_OP_BLEZL: u32 = 0x16;

pub const MIPS32_OP_BGTZL: u32 = 0x17;

pub const MIPS32_OP_SPECIAL2: u32 = 0x1c;

pub const MIPS32_OP_JALX: u32 = 0x1d;

pub const MIPS32_OP_MSA: u32 = 0x1e;

pub const MIPS32_OP_SPECIAL3: u32 = 0x1f;

pub const MIPS32_OP_LB: u32 = 0x20;

pub const MIPS32_OP_LH: u32 = 0x21;

pub const MIPS32_OP_LWL: u32 = 0x22;

pub const MIPS32_OP_LW: u32 = 0x23;

pub const MIPS32_OP_LBU: u32 = 0x24;

pub const MIPS32_OP_LHU: u32 = 0x25;

pub const MIPS32_OP_LWR: u32 = 0x26;

pub const MIPS32_OP_SB: u32 = 0x28;

pub const MIPS32_OP_SH: u32 = 0x29;

pub const MIPS32_OP_SWL: u32 = 0x2a;

pub const MIPS32_OP_SW: u32 = 0x2b;

pub const MIPS32_OP_SWR: u32 = 0x2e;

pub const MIPS32_OP_CACHE: u32 = 0x2f;

pub const MIPS32_OP_LL: u32 = 0x30;

pub const MIPS32_OP_LWC1: u32 = 0x31;

pub const MIPS32_OP_LWC2: u32 = 0x32;

pub const MIPS32_OP_PREF: u32 = 0x33;

pub const MIPS32_OP_LDC1: u32 = 0x35;

pub const MIPS32_OP_LDC2: u32 = 0x36;

pub const MIPS32_OP_SC: u32 = 0x38;

pub const MIPS32_OP_SWC1: u32 = 0x39;

pub const MIPS32_OP_SWC2: u32 = 0x3a;

pub const MIPS32_OP_PCREL: u32 = 0x3b;

pub const MIPS32_OP_SDC1: u32 = 0x3d;

pub const MIPS32_OP_SDC2: u32 = 0x3e;

pub const MIPS32_INST_EHB: u32 = 0x000000c0;

pub const MIPS32_INST_TLBWI: u32 = 0x42000002;

pub const MIPS32_INST_TLBWR: u32 = 0x42000006;

pub const MIPS32_INST_TLBP: u32 = 0x42000008;

pub const MIPS32_INST_ERET: u32 = 0x42000018;

pub const MIPS32_INST_WAIT: u32 = 0x42000020;

/// inst[31:26].
pub open spec fn f_op(inst: u32) -> u32 {
    (inst >> 26) & 0x3f
}

/// inst[25:21].
pub open spec fn f_rs(inst: u32) -> int {
    ((inst >> 21) & 0x1f) as int
}

/// inst[20:16].
pub open spec fn f_rt(inst: u32) -> int {
    ((inst >> 16) & 0x1f) as int
}

/// inst[15:11].
pub open spec fn f_rd(inst: u32) -> int {
    ((inst >> 11) & 0x1f) as int
}

/// inst[10:6].
pub open spec fn f_shamt(inst: u32) -> u32 {
    (inst >> 6) & 0x1f
}

/// inst[5:0].
pub open spec fn f_funct(inst: u32) -> u32 {
    inst & 0x3f
}

/// inst[15:0].
pub open spec fn f_imm(inst: u32) -> u32 {
    inst & 0xffff
}

/// The fields of an instruction word.
pub struct Fields {
    pub op: u32,
    pub rs: usize,
    pub rt: usize,
    pub rd: usize,
    pub shamt: u32,
    pub funct: u32,
    pub imm: u32,
}

pub fn decode(inst: u32) -> (d: Fields)
    ensures
        d.op == f_op(inst),
        d.rs == f_rs(inst),
        d.rt == f_rt(inst),
        d.rd == f_rd(inst),
        d.shamt == f_shamt(inst),
        d.funct == f_funct(inst),
        d.imm == f_imm(inst),
        d.rs < 32,
        d.rt < 32,
        d.rd < 32,
        d.shamt < 32,
{
    proof {
        lemma_and_le_u32(inst >> 21, 0x1f);
        lemma_and_le_u32(inst >> 16, 0x1f);
        lemma_and_le_u32(inst >> 11, 0x1f);
        lemma_and_le_u32(inst >> 6, 0x1f);
    }
    Fields {
        op: (inst >> 26) & 0x3f,
        rs: ((inst >> 21) & 0x1f) as usize,
        rt: ((inst >> 16) & 0x1f) as usize,
        rd: ((inst >> 11) & 0x1f) as usize,
        shamt: (inst >> 6) & 0x1f,
        funct: inst & 0x3f,
        imm: inst & 0xffff,
    }
}

/// The signed sum of `a` and `b` does not fit in 32 bits.
pub open spec fn spec_add_overflows(a: u32, b: u32) -> bool {
    (a as i32) + (b as i32) < -0x80000000 || (a as i32) + (b as i32) > 0x7fffffff
}

/// The signed difference of `a` and `b` does not fit in 32 bits.
pub open spec fn spec_sub_overflows(a: u32, b: u32) -> bool {
    (a as i32) - (b as i32) < -0x80000000 || (a as i32) - (b as i32) > 0x7fffffff
}

/// 1 if `a` is less than `b` as signed numbers, else 0.
pub open spec fn spec_slt(a: u32, b: u32) -> u32 {
    if (a as i32) < (b as i32) {
        1
    } else {
        0
    }
}

/// 1 if `a` is less than `b` as unsigned numbers, else 0.
pub open spec fn spec_sltu(a: u32, b: u32) -> u32 {
    if a < b {
        1
    } else {
        0
    }
}

/// `x` rotated right by `sa` bits.
pub open spec fn spec_rotr(x: u32, sa: u32) -> u32 {
    if sa != 0 {
        (x >> sa) | (x << ((32 - sa) as u32))
    } else {
        x
    }
}

/// `x` shifted right by `sa` bits with the sign bit repeated.
pub open spec fn spec_sra(x: u32, sa: u32) -> u32 {
    ((x as i32) >> sa) as u32
}

/// The 64-bit product of `a` and `b` as signed numbers.
pub open spec fn spec_mul_signed(a: u32, b: u32) -> u64 {
    ((a as i32) as i64).wrapping_mul((b as i32) as i64) as u64
}

/// The 64-bit product of `a` and `b` as unsigned numbers.
pub open spec fn spec_mul_unsigned(a: u32, b: u32) -> u64 {
    (a as u64).wrapping_mul(b as u64)
}

/// HI and LO as one 64-bit number.
pub open spec fn spec_hilo(hi: u32, lo: u32) -> u64 {
    ((hi as u64) << 32) | (lo as u64)
}

/// The quotient of the signed division as LO holds it: zero for a zero
/// divisor; the dividend where the quotient does not fit.
pub open spec fn spec_div_lo(a: u32, b: u32) -> u32 {
    if b == 0 {
        0
    } else {
        match (a as i32).checked_div(b as i32) {
            Some(q) => q as u32,
            None => a,
        }
    }
}

/// The remainder of the signed division as HI holds it: zero for a zero
/// divisor and where the quotient does not fit.
pub open spec fn spec_div_hi(a: u32, b: u32) -> u32 {
    if b == 0 {
        0
    } else {
        match (a as i32).checked_rem(b as i32) {
            Some(r) => r as u32,
            None => 0,
        }
    }
}

/// The quotient of the unsigned division, zero for a zero divisor.
pub open spec fn spec_divu_lo(a: u32, b: u32) -> u32 {
    if b == 0 {
        0
    } else {
        a / b
    }
}

/// The remainder of the unsigned division, zero for a zero divisor.
pub open spec fn spec_divu_hi(a: u32, b: u32) -> u32 {
    if b == 0 {
        0
    } else {
        a % b
    }
}

/// The mask of the bit field that INS writes: from bit `lsb` up to bit
/// `msb`. Where `msb` is below `lsb` the width wraps at 32.
pub open spec fn spec_ins_mask(msb: u32, lsb: u32) -> u32 {
    (1u32.wrapping_shl(((msb + 1) as u32).wrapping_sub(lsb))).wrapping_sub(1) << lsb
}

/// INS: bits `lsb..=msb` of `old` are replaced by the low bits of `src`.
pub open spec fn spec_ins(old: u32, src: u32, msb: u32, lsb: u32) -> u32 {
    if lsb == 0 && msb == 31 {
        src
    } else {
        (old & !spec_ins_mask(msb, lsb)) | ((src << lsb) & spec_ins_mask(msb, lsb))
    }
}

/// EXT: the `msbd + 1` bits of `src` from bit `lsb` on.
pub open spec fn spec_ext(src: u32, msbd: u32, lsb: u32) -> u32 {
    if msbd < 31 {
        (src >> lsb) & (2u32 << msbd).wrapping_sub(1)
    } else {
        src >> lsb
    }
}

/// WSBH: the bytes of each halfword swapped.
pub open spec fn spec_wsbh(x: u32) -> u32 {
    ((x & 0xff00ff00) >> 8) | ((x & 0x00ff00ff) << 8)
}

/// What LWL leaves in the register: the bytes of the aligned word `data`
/// from offset `addr & 3` on, in the most significant places.
pub open spec fn spec_lwl(old: u32, data: u32, addr: u32) -> u32 {
    if addr & 3 == 0 {
        data
    } else if addr & 3 == 1 {
        (old & 0x000000ff) | (data << 8)
    } else if addr & 3 == 2 {
        (old & 0x0000ffff) | (data << 16)
    } else {
        (old & 0x00ffffff) | (data << 24)
    }
}

/// What LWR leaves in the register: the bytes of the aligned word `data`
/// up to offset `addr & 3`, in the least significant places.
pub open spec fn spec_lwr(old: u32, data: u32, addr: u32) -> u32 {
    if addr & 3 == 0 {
        (old & 0xffffff00) | ((data >> 24) & 0x000000ff)
    } else if addr & 3 == 1 {
        (old & 0xffff0000) | ((data >> 16) & 0x0000ffff)
    } else if addr & 3 == 2 {
        (old & 0xff000000) | ((data >> 8) & 0x00ffffff)
    } else {
        data
    }
}

/// What SWL leaves in the aligned word: the most significant bytes of the
/// register from offset `addr & 3` on.
pub open spec fn spec_swl(data: u32, reg: u32, addr: u32) -> u32 {
    if addr & 3 == 0 {
        reg
    } else if addr & 3 == 1 {
        (data & 0xff000000) | ((reg >> 8) & 0x00ffffff)
    } else if addr & 3 == 2 {
        (data & 0xffff0000) | ((reg >> 16) & 0x0000ffff)
    } else {
        (data & 0xffffff00) | ((reg >> 24) & 0x000000ff)
    }
}

/// What SWR leaves in the aligned word: the least significant bytes of the
/// register up to offset `addr & 3`.
pub open spec fn spec_swr(data: u32, reg: u32, addr: u32) -> u32 {
    if addr & 3 == 0 {
        (data & 0x00ffffff) | (reg << 24)
    } else if addr & 3 == 1 {
        (data & 0x0000ffff) | (reg << 16)
    } else if addr & 3 == 2 {
        (data & 0x000000ff) | (reg << 8)
    } else {
        reg
    }
}

/// What a load instruction leaves in its register, given the loaded value.
pub open spec fn spec_load_value(op: u32, old: u32, data: u32, addr: u32) -> u32 {
    if op == MIPS32_OP_LB {
        sign_ext8(data)
    } else if op == MIPS32_OP_LBU {
        data & 0xff
    } else if op == MIPS32_OP_LH {
        sign_ext16(data)
    } else if op == MIPS32_OP_LHU {
        data & 0xffff
    } else if op == MIPS32_OP_LWL {
        spec_lwl(old, data, addr)
    } else if op == MIPS32_OP_LWR {
        spec_lwr(old, data, addr)
    } else {
        data
    }
}

#[verifier::when_used_as_spec(spec_add_overflows)]
pub fn add_overflows(a: u32, b: u32) -> (r: bool)
    ensures
        r == spec_add_overflows(a, b),
{
    let s: i64 = ((a as i32) as i64) + ((b as i32) as i64);
    s < -0x80000000 || s > 0x7fffffff
}

#[verifier::when_used_as_spec(spec_sub_overflows)]
pub fn sub_overflows(a: u32, b: u32) -> (r: bool)
    ensures
        r == spec_sub_overflows(a, b),
{
    let s: i64 = ((a as i32) as i64) - ((b as i32) as i64);
    s < -0x80000000 || s > 0x7fffffff
}

#[verifier::when_used_as_spec(spec_slt)]
pub fn slt(a: u32, b: u32) -> (r: u32)
    ensures
        r == spec_slt(a, b),
{
    if (a as i32) < (b as i32) {
        1
    } else {
        0
    }
}

#[verifier::when_used_as_spec(spec_sltu)]
pub fn sltu(a: u32, b: u32) -> (r: u32)
    ensures
        r == spec_sltu(a, b),
{
    if a < b {
        1
    } else {
        0
    }
}

pub fn rotr(x: u32, sa: u32) -> (r: u32)
    requires
        sa < 32,
    ensures
        r == spec_rotr(x, sa),
{
    if sa != 0 {
        (x >> sa) | (x << (32 - sa))
    } else {
        x
    }
}

pub fn sra(x: u32, sa: u32) -> (r: u32)
    requires
        sa < 32,
    ensures
        r == spec_sra(x, sa),
{
    ((x as i32) >> sa) as u32
}

#[verifier::when_used_as_spec(spec_mul_signed)]
pub fn mul_signed(a: u32, b: u32) -> (r: u64)
    ensures
        r == spec_mul_signed(a, b),
{
    ((a as i32) as i64).wrapping_mul((b as i32) as i64) as u64
}

#[verifier::when_used_as_spec(spec_mul_unsigned)]
pub fn mul_unsigned(a: u32, b: u32) -> (r: u64)
    ensures
        r == spec_mul_unsigned(a, b),
{
    (a as u64).wrapping_mul(b as u64)
}

#[verifier::when_used_as_spec(spec_hilo)]
pub fn hilo(hi: u32, lo: u32) -> (r: u64)
    ensures
        r == spec_hilo(hi, lo),
{
    ((hi as u64) << 32) | (lo as u64)
}

#[verifier::when_used_as_spec(spec_div_lo)]
pub fn div_lo(a: u32, b: u32) -> (r: u32)
    ensures
        r == spec_div_lo(a, b),
{
    if b == 0 {
        0
    } else {
        match (a as i32).checked_div(b as i32) {
            Some(q) => q as u32,
            None => a,
        }
    }
}

#[verifier::when_used_as_spec(spec_div_hi)]
pub fn div_hi(a: u32, b: u32) -> (r: u32)
    ensures
        r == spec_div_hi(a, b),
{
    if b == 0 {
        0
    } else {
        match (a as i32).checked_rem(b as i32) {
            Some(r) => r as u32,
            None => 0,
        }
    }
}

#[verifier::when_used_as_spec(spec_divu_lo)]
pub fn divu_lo(a: u32, b: u32) -> (r: u32)
    ensures
        r == spec_divu_lo(a, b),
{
    if b == 0 {
        0
    } else {
        a / b
    }
}

#[verifier::when_used_as_spec(spec_divu_hi)]
pub fn divu_hi(a: u32, b: u32) -> (r: u32)
    ensures
        r == spec_divu_hi(a, b),
{
    if b == 0 {
        0
    } else {
        a % b
    }
}

pub fn ins(old: u32, src: u32, msb: u32, lsb: u32) -> (r: u32)
    requires
        msb < 32,
        lsb < 32,
    ensures
        r == spec_ins(old, src, msb, lsb),
{
    if lsb == 0 && msb == 31 {
        src
    } else {
        let mask: u32 = (1u32.wrapping_shl((msb + 1).wrapping_sub(lsb))).wrapping_sub(1) << lsb;
        (old & !mask) | ((src << lsb) & mask)
    }
}

pub fn ext(src: u32, msbd: u32, lsb: u32) -> (r: u32)
    requires
        msbd < 32,
        lsb < 32,
    ensures
        r == spec_ext(src, msbd, lsb),
{
    if msbd < 31 {
        (src >> lsb) & (2u32 << msbd).wrapping_sub(1)
    } else {
        src >> lsb
    }
}

#[verifier::when_used_as_spec(spec_wsbh)]
pub fn wsbh(x: u32) -> (r: u32)
    ensures
        r == spec_wsbh(x),
{
    ((x & 0xff00ff00) >> 8) | ((x & 0x00ff00ff) << 8)
}

#[verifier::when_used_as_spec(spec_lwl)]
pub fn lwl(old: u32, data: u32, addr: u32) -> (r: u32)
    ensures
        r == spec_lwl(old, data, addr),
{
    if addr & 3 == 0 {
        data
    } else if addr & 3 == 1 {
        (old & 0x000000ff) | (data << 8)
    } else if addr & 3 == 2 {
        (old & 0x0000ffff) | (data << 16)
    } else {
        (old & 0x00ffffff) | (data << 24)
    }
}

#[verifier::when_used_as_spec(spec_lwr)]
pub fn lwr(old: u32, data: u32, addr: u32) -> (r: u32)
    ensures
        r == spec_lwr(old, data, addr),
{
    if addr & 3 == 0 {
        (old & 0xffffff00) | ((data >> 24) & 0x000000ff)
    } else if addr & 3 == 1 {
        (old & 0xffff0000) | ((data >> 16) & 0x0000ffff)
    } else if addr & 3 == 2 {
        (old & 0xff000000) | ((data >> 8) & 0x00ffffff)
    } else {
        data
    }
}

#[verifier::when_used_as_spec(spec_swl)]
pub fn swl(data: u32, reg: u32, addr: u32) -> (r: u32)
    ensures
        r == spec_swl(data, reg, addr),
{
    if addr & 3 == 0 {
        reg
    } else if addr & 3 == 1 {
        (data & 0xff000000) | ((reg >> 8) & 0x00ffffff)
    } else if addr & 3 == 2 {
        (data & 0xffff0000) | ((reg >> 16) & 0x0000ffff)
    } else {
        (data & 0xffffff00) | ((reg >> 24) & 0x000000ff)
    }
}

#[verifier::when_used_as_spec(spec_swr)]
pub fn swr(data: u32, reg: u32, addr: u32) -> (r: u32)
    ensures
        r == spec_swr(data, reg, addr),
{
    if addr & 3 == 0 {
        (data & 0x00ffffff) | (reg << 24)
    } else if addr & 3 == 1 {
        (data & 0x0000ffff) | (reg << 16)
    } else if addr & 3 == 2 {
        (data & 0x000000ff) | (reg << 8)
    } else {
        reg
    }
}

#[verifier::when_used_as_spec(spec_load_value)]
pub fn load_value(op: u32, old: u32, data: u32, addr: u32) -> (r: u32)
    ensures
        r == spec_load_value(op, old, data, addr),
{
    if op == MIPS32_OP_LB {
        sign_ext8(data)
    } else if op == MIPS32_OP_LBU {
        data & 0xff
    } else if op == MIPS32_OP_LH {
        sign_ext16(data)
    } else if op == MIPS32_OP_LHU {
        data & 0xffff
    } else if op == MIPS32_OP_LWL {
        lwl(old, data, addr)
    } else if op == MIPS32_OP_LWR {
        lwr(old, data, addr)
    } else {
        data
    }
}

impl Reg {
    /// An instruction that writes `v` to register `rd` and ends.
    pub open spec fn write_next(self, rd: int, v: u32) -> (Reg, bool) {
        (self.with_gpr(rd, v).next_pc(4), true)
    }

    /// An instruction that traps if `cond` holds and else ends.
    pub open spec fn trap_if(self, cond: bool) -> (Reg, bool) {
        (
            if cond {
                self.prepare_exception(EXCEPT_CODE_TRAP, 0)
            } else {
                self.next_pc(4)
            },
            true,
        )
    }

    /// An instruction that writes `v` to register `rd` and then takes the
    /// integer overflow exception if `overflow` holds.
    pub open spec fn write_checked(self, rd: int, v: u32, overflow: bool) -> (Reg, bool) {
        (
            if overflow {
                self.with_gpr(rd, v).prepare_exception(EXCEPT_CODE_INTEGER_OVERFLOW, 0)
            } else {
                self.with_gpr(rd, v).next_pc(4)
            },
            true,
        )
    }

    /// An instruction that leaves `v` in HI and LO and ends.
    pub open spec fn write_hilo(self, v: u64) -> (Reg, bool) {
        (Reg { hi: (v >> 32) as u32, lo: v as u32, ..self }.next_pc(4), true)
    }

    /// The target of a PC-relative branch: the address of the delay slot
    /// plus the offset in words.
    pub open spec fn branch_target(&self, inst: u32) -> u32 {
        self.pc.wrapping_add(sign_ext16(f_imm(inst)) << 2).wrapping_add(4)
    }

    /// The target of a jump within the 256 MiB region of the delay slot.
    pub open spec fn jump_target(&self, inst: u32) -> u32 {
        (self.pc.wrapping_add(4) & 0xf0000000).wrapping_add((inst & 0x03ffffff) << 2)
    }

    /// The end of a conditional branch. One that is not taken ends like any
    /// instruction; a "likely" one that is not taken also skips the delay
    /// slot.
    pub open spec fn cond_branch(self, inst: u32, taken: bool, likely: bool) -> Reg {
        if taken {
            self.branch_delayed(4, self.branch_target(inst))
        } else if likely {
            self.next_pc(4).next_pc(4)
        } else {
            self.next_pc(4)
        }
    }

    /// The return address of a call: the instruction after the delay slot.
    pub open spec fn linked(self, rd: int) -> Reg {
        self.with_gpr(rd, self.pc.wrapping_add(8))
    }

    /// The instructions of the SPECIAL opcode. The flag is false for an
    /// encoding that is not known.
    pub open spec fn special(self, inst: u32) -> (Reg, bool) {
        let rs = f_rs(inst);
        let rt = f_rt(inst);
        let rd = f_rd(inst);
        let shamt = f_shamt(inst);
        let funct = f_funct(inst);
        let a = self.r[rs];
        let b = self.r[rt];
        if funct == 0x20 {
            self.write_checked(rd, a.wrapping_add(b), add_overflows(a, b))
        } else if funct == 0x21 {
            self.write_next(rd, a.wrapping_add(b))
        } else if funct == 0x24 {
            self.write_next(rd, a & b)
        } else if funct == 0x08 {
            (self.branch_delayed(4, a), true)
        } else if funct == 0x09 {
            (self.linked(rd).branch_delayed(4, a), true)
        } else if funct == 0x27 {
            self.write_next(rd, !(a | b))
        } else if funct == 0x25 {
            self.write_next(rd, a | b)
        } else if funct == 0x26 {
            self.write_next(rd, a ^ b)
        } else if funct == 0x2a {
            self.write_next(rd, slt(a, b))
        } else if funct == 0x2b {
            self.write_next(rd, sltu(a, b))
        } else if funct == 0x0a {
            if b == 0 {
                self.write_next(rd, a)
            } else {
                (self.next_pc(4), true)
            }
        } else if funct == 0x0b {
            if b != 0 {
                self.write_next(rd, a)
            } else {
                (self.next_pc(4), true)
            }
        } else if funct == 0x00 {
            if inst == MIPS32_INST_EHB {
                (self.next_pc(4), true)
            } else if rs == 0 {
                self.write_next(rd, b << shamt)
            } else {
                (self, false)
            }
        } else if funct == 0x02 {
            if rs == 0 {
                self.write_next(rd, b >> shamt)
            } else if rs == 1 {
                self.write_next(rd, spec_rotr(b, shamt))
            } else {
                (self, false)
            }
        } else if funct == 0x03 {
            self.write_next(rd, spec_sra(b, shamt))
        } else if funct == 0x04 {
            self.write_next(rd, b << (a & 0x1f))
        } else if funct == 0x06 {
            if shamt == 0 {
                self.write_next(rd, b >> (a & 0x1f))
            } else if shamt == 1 {
                self.write_next(rd, spec_rotr(b, a & 0x1f))
            } else {
                (self, false)
            }
        } else if funct == 0x07 {
            if shamt == 0 {
                self.write_next(rd, spec_sra(b, a & 0x1f))
            } else {
                (self, false)
            }
        } else if funct == 0x22 {
            self.write_checked(rd, a.wrapping_sub(b), sub_overflows(a, b))
        } else if funct == 0x23 {
            self.write_next(rd, a.wrapping_sub(b))
        } else if funct == 0x10 {
            self.write_next(rd, self.hi)
        } else if funct == 0x11 {
            (Reg { hi: a, ..self }.next_pc(4), true)
        } else if funct == 0x12 {
            self.write_next(rd, self.lo)
        } else if funct == 0x13 {
            (Reg { lo: a, ..self }.next_pc(4), true)
        } else if funct == 0x18 {
            if shamt == 0 && rd == 0 {
                self.write_hilo(mul_signed(a, b))
            } else {
                (self, false)
            }
        } else if funct == 0x19 {
            if shamt == 0 && rd == 0 {
                self.write_hilo(mul_unsigned(a, b))
            } else {
                (self, false)
            }
        } else if funct == 0x1a {
            (Reg { lo: div_lo(a, b), hi: div_hi(a, b), ..self }.next_pc(4), true)
        } else if funct == 0x1b {
            (Reg { lo: divu_lo(a, b), hi: divu_hi(a, b), ..self }.next_pc(4), true)
        } else if funct == 0x30 {
            self.trap_if((a as i32) >= (b as i32))
        } else if funct == 0x31 {
            self.trap_if(a >= b)
        } else if funct == 0x32 {
            self.trap_if((a as i32) < (b as i32))
        } else if funct == 0x33 {
            self.trap_if(a < b)
        } else if funct == 0x34 {
            self.trap_if(a == b)
        } else if funct == 0x36 {
            self.trap_if(a != b)
        } else if funct == 0x0c {
            (self.prepare_exception(EXCEPT_CODE_SYSCALL, 0), true)
        } else if funct == 0x0f {
            (self.next_pc(4), true)
        } else {
            (self, false)
        }
    }

    /// The instructions with a 16-bit immediate operand.
    pub open spec fn alu_imm(self, inst: u32) -> (Reg, bool) {
        let op = f_op(inst);
        let rt = f_rt(inst);
        let a = self.r[f_rs(inst)];
        let imm = f_imm(inst);
        if op == MIPS32_OP_ADDI {
            self.write_checked(rt, a.wrapping_add(sign_ext16(imm)), add_overflows(a, sign_ext16(imm)))
        } else if op == MIPS32_OP_ADDIU {
            self.write_next(rt, a.wrapping_add(sign_ext16(imm)))
        } else if op == MIPS32_OP_ANDI {
            self.write_next(rt, a & zero_ext16(imm))
        } else if op == MIPS32_OP_ORI {
            self.write_next(rt, a | zero_ext16(imm))
        } else if op == MIPS32_OP_XORI {
            self.write_next(rt, a ^ zero_ext16(imm))
        } else if op == MIPS32_OP_LUI {
            self.write_next(rt, zero_ext16(imm) << 16)
        } else if op == MIPS32_OP_SLTI {
            self.write_next(rt, slt(a, sign_ext16(imm)))
        } else {
            self.write_next(rt, sltu(a, sign_ext16(imm)))
        }
    }

    /// The conditional branches that compare two registers or one register
    /// with zero.
    pub open spec fn branch(self, inst: u32) -> (Reg, bool) {
        let op = f_op(inst);
        let rt = f_rt(inst);
        let a = self.r[f_rs(inst)];
        let b = self.r[rt];
        if op == MIPS32_OP_BEQ {
            (self.cond_branch(inst, a == b, false), true)
        } else if op == MIPS32_OP_BEQL {
            (self.cond_branch(inst, a == b, true), true)
        } else if op == MIPS32_OP_BNE {
            (self.cond_branch(inst, a != b, false), true)
        } else if op == MIPS32_OP_BNEL {
            (self.cond_branch(inst, a != b, true), true)
        } else if op == MIPS32_OP_BGTZ {
            (self.cond_branch(inst, (a as i32) > 0, false), true)
        } else if rt != 0 {
            (self, false)
        } else if op == MIPS32_OP_BLEZ {
            (self.cond_branch(inst, (a as i32) <= 0, false), true)
        } else if op == MIPS32_OP_BLEZL {
            (self.cond_branch(inst, (a as i32) <= 0, true), true)
        } else {
            (self.cond_branch(inst, (a as i32) > 0, true), true)
        }
    }

    /// J, JAL and JALX. JALX sets bit 0 of the target: the callee runs in
    /// MIPS16e mode.
    pub open spec fn jump32(self, inst: u32) -> (Reg, bool) {
        let op = f_op(inst);
        if op == MIPS32_OP_J {
            (self.branch_delayed(4, self.jump_target(inst)), true)
        } else if op == MIPS32_OP_JAL {
            (self.linked(31).branch_delayed(4, self.jump_target(inst)), true)
        } else {
            (self.linked(31).branch_delayed(4, self.jump_target(inst).wrapping_add(1)), true)
        }
    }

    /// The instructions of the REGIMM opcode: branches on the sign of a
    /// register, with and without link, and traps on an immediate.
    pub open spec fn regimm(self, inst: u32) -> (Reg, bool) {
        let rs = f_rs(inst);
        let rt = f_rt(inst);
        let a = self.r[rs];
        let imm = sign_ext16(f_imm(inst));
        if rt == 0x00 {
            (self.cond_branch(inst, (a as i32) < 0, false), true)
        } else if rt == 0x02 {
            (self.cond_branch(inst, (a as i32) < 0, true), true)
        } else if rt == 0x10 {
            (self.linked(31).cond_branch(inst, (self.linked(31).r[rs] as i32) < 0, false), true)
        } else if rt == 0x01 {
            (self.cond_branch(inst, (a as i32) >= 0, false), true)
        } else if rt == 0x03 {
            (self.cond_branch(inst, (a as i32) >= 0, true), true)
        } else if rt == 0x11 {
            (
                self.linked(31).cond_branch(
                    inst,
                    rs == 0 || (self.linked(31).r[rs] as i32) >= 0,
                    false,
                ),
                true,
            )
        } else if rt == 0x08 {
            self.trap_if((a as i32) >= (imm as i32))
        } else if rt == 0x09 {
            self.trap_if(a >= imm)
        } else if rt == 0x0a {
            self.trap_if((a as i32) < (imm as i32))
        } else if rt == 0x0b {
            self.trap_if(a < imm)
        } else if rt == 0x0c {
            self.trap_if(a == imm)
        } else if rt == 0x0e {
            self.trap_if(a != imm)
        } else {
            (self, false)
        }
    }

    /// The instructions of the SPECIAL2 opcode: MUL, the multiply-accumulate
    /// family, CLO and CLZ.
    pub open spec fn special2(self, inst: u32) -> (Reg, bool) {
        let rd = f_rd(inst);
        let shamt = f_shamt(inst);
        let funct = f_funct(inst);
        let imm = f_imm(inst);
        let a = self.r[f_rs(inst)];
        let b = self.r[f_rt(inst)];
        if funct == 0x02 && shamt == 0 {
            self.write_next(rd, a.wrapping_mul(b))
        } else if imm == 0x00 {
            self.write_hilo(hilo(self.hi, self.lo).wrapping_add(mul_signed(a, b)))
        } else if imm == 0x01 {
            self.write_hilo(hilo(self.hi, self.lo).wrapping_add(mul_unsigned(a, b)))
        } else if imm == 0x04 {
            self.write_hilo(hilo(self.hi, self.lo).wrapping_sub(mul_signed(a, b)))
        } else if imm == 0x05 {
            self.write_hilo(hilo(self.hi, self.lo).wrapping_sub(mul_unsigned(a, b)))
        } else if funct == 0x21 && shamt == 0 {
            self.write_next(rd, (!a).leading_zeros())
        } else if funct == 0x20 && shamt == 0 {
            self.write_next(rd, a.leading_zeros())
        } else {
            (self, false)
        }
    }

    /// Whether user mode may read hardware register `n` with RDHWR.
    pub open spec fn hwr_allowed(&self, n: u32) -> bool {
        !(mode_is_user(self.spec_c0(C0_STATUS)) && self.spec_c0(C0_HWRENA) & (1u32 << n) == 0)
    }

    /// RDHWR: CPU number, SYNCI step, the cycle counter, its resolution and
    /// UserLocal, each behind its enable bit in user mode; the registers 4
    /// and 5 read as zero; any other is a reserved instruction.
    pub open spec fn rdhwr(self, nexec_insts: u64, inst: u32) -> (Reg, bool) {
        let rt = f_rt(inst);
        let rd = f_rd(inst);
        if f_rs(inst) != 0 {
            (self, false)
        } else if rd == 0 || rd == 1 || rd == 2 || rd == 3 || rd == 29 {
            if !self.hwr_allowed(rd as u32) {
                (self.prepare_exception(EXCEPT_CODE_RESERVED_INSTRUCTION, 0), true)
            } else if rd == 2 {
                self.write_next(rt, self.counter_long(nexec_insts) as u32)
            } else if rd == 3 {
                self.write_next(rt, CPU_FREQ_COUNT_RESOLUTION)
            } else if rd == 29 {
                self.write_next(rt, self.spec_c0(C0_USERLOCAL))
            } else {
                self.write_next(rt, 0)
            }
        } else if rd == 4 || rd == 5 {
            self.write_next(rt, 0)
        } else {
            (self.prepare_exception(EXCEPT_CODE_RESERVED_INSTRUCTION, 0), true)
        }
    }

    /// The instructions of the SPECIAL3 opcode: RDHWR, EXT, INS, SEB, SEH
    /// and WSBH.
    pub open spec fn special3(self, nexec_insts: u64, inst: u32) -> (Reg, bool) {
        let rs = f_rs(inst);
        let rt = f_rt(inst);
        let rd = f_rd(inst);
        let shamt = f_shamt(inst);
        let funct = f_funct(inst);
        if funct == 0x3b {
            self.rdhwr(nexec_insts, inst)
        } else if funct == 0x00 {
            self.write_next(rt, spec_ext(self.r[rs], rd as u32, shamt))
        } else if funct == 0x04 {
            self.write_next(rt, spec_ins(self.r[rt], self.r[rs], rd as u32, shamt))
        } else if funct == 0x20 {
            if shamt == 0x10 {
                self.write_next(rd, sign_ext8(self.r[rt]))
            } else if shamt == 0x18 {
                self.write_next(rd, sign_ext16(self.r[rt]))
            } else if shamt == 0x02 {
                self.write_next(rd, wsbh(self.r[rt]))
            } else {
                (self, false)
            }
        } else {
            (self, false)
        }
    }

    /// ERET: back to ErrorEPC at error level, else to EPC; the level bit is
    /// cleared, and so is the link flag of LL/SC.
    pub open spec fn eret(self) -> Reg {
        let status = self.spec_c0(C0_STATUS);
        if status & C0_STATUS_ERL != 0 {
            Reg {
                pc: self.spec_c0(C0_ERROREPC),
                ll_sc: false,
                ..self.with_c0(C0_STATUS, status & !C0_STATUS_ERL)
            }
        } else {
            Reg {
                pc: self.spec_c0(C0_EPC),
                ll_sc: false,
                ..self.with_c0(C0_STATUS, status & !C0_STATUS_EXL)
            }
        }
    }
}

impl MachineView {
    /// The effective address of a load or store: base register plus
    /// sign-extended offset.
    pub open spec fn mem_addr(&self, inst: u32) -> u32 {
        self.reg.r[f_rs(inst)].wrapping_add(sign_ext16(f_imm(inst)))
    }

    /// The end of a load: the register gets its value, or the fault is
    /// taken with `badvaddr` as the faulting address.
    pub open spec fn finish_load(
        self,
        res: Result<u32, u32>,
        op: u32,
        rt: int,
        addr: u32,
        badvaddr: u32,
    ) -> MachineView {
        match res {
            Ok(data) => self.with_reg(
                self.reg.with_gpr(rt, spec_load_value(op, self.reg.r[rt], data, addr)).next_pc(4),
            ),
            Err(e) => self.with_reg(self.reg.prepare_exception(e, badvaddr)),
        }
    }

    /// The end of a store: the instruction ends, or the fault is taken.
    pub open spec fn finish_store(self, res: Result<(), u32>, badvaddr: u32) -> MachineView {
        match res {
            Ok(_) => self.with_reg(self.reg.next_pc(4)),
            Err(e) => self.with_reg(self.reg.prepare_exception(e, badvaddr)),
        }
    }

    /// The loads. LL sets the link flag before it loads. LWL and LWR load
    /// the aligned word and merge it into the register.
    pub open spec fn load32(self, inst: u32) -> MachineView {
        let op = f_op(inst);
        let rt = f_rt(inst);
        let addr = self.mem_addr(inst);
        if op == MIPS32_OP_LB || op == MIPS32_OP_LBU {
            let r = self.load_byte(addr);
            r.0.finish_load(r.1, op, rt, addr, addr)
        } else if op == MIPS32_OP_LH || op == MIPS32_OP_LHU {
            let r = self.load_halfword(addr);
            r.0.finish_load(r.1, op, rt, addr, addr)
        } else if op == MIPS32_OP_LWL || op == MIPS32_OP_LWR {
            let r = self.load_word(addr & 0xfffffffc);
            r.0.finish_load(r.1, op, rt, addr, addr & 0xfffffffc)
        } else if op == MIPS32_OP_LL {
            let r = self.with_reg(Reg { ll_sc: true, ..self.reg }).load_word(addr);
            r.0.finish_load(r.1, op, rt, addr, addr)
        } else {
            let r = self.load_word(addr);
            r.0.finish_load(r.1, op, rt, addr, addr)
        }
    }

    /// SWL and SWR: the aligned word is loaded, merged with the register and
    /// stored back.
    pub open spec fn store_unaligned(self, inst: u32) -> MachineView {
        let op = f_op(inst);
        let addr = self.mem_addr(inst);
        let aligned = addr & 0xfffffffc;
        let l = self.load_word(aligned);
        match l.1 {
            Ok(data) => {
                let merged = if op == MIPS32_OP_SWL {
                    spec_swl(data, l.0.reg.r[f_rt(inst)], addr)
                } else {
                    spec_swr(data, l.0.reg.r[f_rt(inst)], addr)
                };
                let s = l.0.store_word(aligned, merged);
                s.0.finish_store(s.1, aligned)
            },
            Err(e) => l.0.with_reg(l.0.reg.prepare_exception(e, aligned)),
        }
    }

    /// SC: with the link flag set the word is stored and the register gets
    /// 1; with the link flag clear nothing is stored and the register gets
    /// 0.
    pub open spec fn store_conditional(self, inst: u32) -> MachineView {
        let rt = f_rt(inst);
        let addr = self.mem_addr(inst);
        if self.reg.ll_sc {
            let s = self.store_word(addr, self.reg.r[rt]);
            match s.1 {
                Ok(_) => s.0.with_reg(s.0.reg.with_gpr(rt, 1).next_pc(4)),
                Err(e) => s.0.with_reg(s.0.reg.prepare_exception(e, addr)),
            }
        } else {
            self.with_reg(self.reg.with_gpr(rt, 0).next_pc(4))
        }
    }

    /// The stores.
    pub open spec fn store32(self, inst: u32) -> MachineView {
        let op = f_op(inst);
        let b = self.reg.r[f_rt(inst)];
        let addr = self.mem_addr(inst);
        if op == MIPS32_OP_SB {
            let s = self.store_byte(addr, b as u8);
            s.0.finish_store(s.1, addr)
        } else if op == MIPS32_OP_SH {
            let s = self.store_halfword(addr, 0xffff & b);
            s.0.finish_store(s.1, addr)
        } else if op == MIPS32_OP_SW {
            let s = self.store_word(addr, b);
            s.0.finish_store(s.1, addr)
        } else if op == MIPS32_OP_SC {
            self.store_conditional(inst)
        } else {
            self.store_unaligned(inst)
        }
    }

    /// The instructions of coprocessor 0. In user mode without CU0 they
    /// take the coprocessor-unusable exception.
    pub open spec fn cop0(self, inst: u32) -> (MachineView, bool) {
        let rs = f_rs(inst);
        let rt = f_rt(inst);
        let rd = f_rd(inst);
        let imm = f_imm(inst);
        let status = self.reg.spec_c0(C0_STATUS);
        let n = self.emu.nexec_insts;
        if mode_is_user(status) && status & C0_STATUS_CU0 == 0 {
            (self.with_reg(self.reg.prepare_exception(EXCEPT_CODE_COPROCESSOR_UNAVAIL, 0)), true)
        } else if rs == 0x04 {
            (
                self.with_reg(
                    self.reg.store(n, (rd as u32, imm & 0xf), self.reg.r[rt]).next_pc(4),
                ),
                true,
            )
        } else if rs == 0x00 {
            (
                self.with_reg(
                    self.reg.with_gpr(rt, self.reg.load(n, (rd as u32, imm & 0xf))).next_pc(4),
                ),
                true,
            )
        } else if rs == 0x0b {
            if imm == 0x6000 {
                let v = self.reg.load(n, C0_STATUS);
                (
                    self.with_reg(
                        self.reg.with_gpr(rt, v).store(n, C0_STATUS, v & !C0_STATUS_IE).next_pc(4),
                    ),
                    true,
                )
            } else if imm == 0x6020 {
                let v = self.reg.load(n, C0_STATUS);
                (
                    self.with_reg(
                        self.reg.with_gpr(rt, v).store(n, C0_STATUS, v | C0_STATUS_IE).next_pc(4),
                    ),
                    true,
                )
            } else {
                (self, true)
            }
        } else if rs == 0x10 {
            if inst == MIPS32_INST_TLBWI {
                let m = self.tlb_write_with_index();
                (m.with_reg(m.reg.next_pc(4)), true)
            } else if inst == MIPS32_INST_TLBWR {
                let m = self.tlb_write_with_random();
                (m.with_reg(m.reg.next_pc(4)), true)
            } else if inst == MIPS32_INST_TLBP {
                let m = self.tlb_probe();
                (m.with_reg(m.reg.next_pc(4)), true)
            } else if inst == MIPS32_INST_ERET {
                (self.with_reg(self.reg.eret()), true)
            } else if inst == MIPS32_INST_WAIT {
                (MachineView { sleep_req: true, ..self.with_reg(self.reg.next_pc(4)) }, true)
            } else {
                (self, false)
            }
        } else {
            (self, false)
        }
    }

    /// The machine after the MIPS32 instruction `inst` was executed. The
    /// flag is false for an encoding that is not known: the machine is then
    /// unchanged and the run ends.
    pub open spec fn exec32(self, inst: u32) -> (MachineView, bool) {
        let op = f_op(inst);
        if inst == 0 {
            (self.with_reg(self.reg.next_pc(4)), true)
        } else if op == MIPS32_OP_SPECIAL {
            (self.with_reg(self.reg.special(inst).0), self.reg.special(inst).1)
        } else if op == MIPS32_OP_ADDI || op == MIPS32_OP_ADDIU || op == MIPS32_OP_ANDI || op
            == MIPS32_OP_ORI || op == MIPS32_OP_XORI || op == MIPS32_OP_LUI || op == MIPS32_OP_SLTI
            || op == MIPS32_OP_SLTIU {
            (self.with_reg(self.reg.alu_imm(inst).0), self.reg.alu_imm(inst).1)
        } else if op == MIPS32_OP_BEQ || op == MIPS32_OP_BNE || op == MIPS32_OP_BLEZ || op
            == MIPS32_OP_BGTZ || op == MIPS32_OP_BEQL || op == MIPS32_OP_BNEL || op
            == MIPS32_OP_BLEZL || op == MIPS32_OP_BGTZL {
            (self.with_reg(self.reg.branch(inst).0), self.reg.branch(inst).1)
        } else if op == MIPS32_OP_J || op == MIPS32_OP_JAL || op == MIPS32_OP_JALX {
            (self.with_reg(self.reg.jump32(inst).0), self.reg.jump32(inst).1)
        } else if op == MIPS32_OP_REGIMM {
            (self.with_reg(self.reg.regimm(inst).0), self.reg.regimm(inst).1)
        } else if op == MIPS32_OP_LB || op == MIPS32_OP_LBU || op == MIPS32_OP_LH || op
            == MIPS32_OP_LHU || op == MIPS32_OP_LW || op == MIPS32_OP_LWL || op == MIPS32_OP_LWR
            || op == MIPS32_OP_LL {
            (self.load32(inst), true)
        } else if op == MIPS32_OP_SB || op == MIPS32_OP_SH || op == MIPS32_OP_SW || op
            == MIPS32_OP_SWL || op == MIPS32_OP_SWR || op == MIPS32_OP_SC {
            (self.store32(inst), true)
        } else if op == MIPS32_OP_SPECIAL2 {
            (self.with_reg(self.reg.special2(inst).0), self.reg.special2(inst).1)
        } else if op == MIPS32_OP_SPECIAL3 {
            (
                self.with_reg(self.reg.special3(self.emu.nexec_insts, inst).0),
                self.reg.special3(self.emu.nexec_insts, inst).1,
            )
        } else if op == MIPS32_OP_COP0 {
            self.cop0(inst)
        } else if op == MIPS32_OP_CACHE || op == MIPS32_OP_PREF {
            (self.with_reg(self.reg.next_pc(4)), true)
        } else {
            (self, false)
        }
    }
}

fn write_next(reg: &mut Reg, rd: usize, v: u32) -> (ok: bool)
    requires
        rd < 32,
    ensures
        (*final(reg), ok) == old(reg).write_next(rd as int, v),
{
    reg.r[rd] = v;
    update_pc_next32(reg);
    true
}

fn trap_if(reg: &mut Reg, cond: bool) -> (ok: bool)
    ensures
        (*final(reg), ok) == old(reg).trap_if(cond),
{
    if cond {
        raise(reg, EXCEPT_CODE_TRAP, 0);
    } else {
        update_pc_next32(reg);
    }
    true
}

fn write_checked(reg: &mut Reg, rd: usize, v: u32, overflow: bool) -> (ok: bool)
    requires
        rd < 32,
    ensures
        (*final(reg), ok) == old(reg).write_checked(rd as int, v, overflow),
{
    reg.r[rd] = v;
    if overflow {
        raise(reg, EXCEPT_CODE_INTEGER_OVERFLOW, 0);
    } else {
        update_pc_next32(reg);
    }
    true
}

fn write_hilo(reg: &mut Reg, v: u64) -> (ok: bool)
    ensures
        (*final(reg), ok) == old(reg).write_hilo(v),
{
    reg.hi = (v >> 32) as u32;
    reg.lo = v as u32;
    update_pc_next32(reg);
    true
}

fn next(reg: &mut Reg) -> (ok: bool)
    ensures
        *final(reg) == old(reg).next_pc(4),
        ok,
{
    update_pc_next32(reg);
    true
}

fn branch_target(reg: &Reg, inst: u32) -> (t: u32)
    ensures
        t == reg.branch_target(inst),
{
    reg.pc.wrapping_add(sign_ext16(inst & 0xffff) << 2).wrapping_add(4)
}

fn jump_target(reg: &Reg, inst: u32) -> (t: u32)
    ensures
        t == reg.jump_target(inst),
{
    (reg.pc.wrapping_add(4) & 0xf0000000).wrapping_add((inst & 0x03ffffff) << 2)
}

fn cond_branch(reg: &mut Reg, inst: u32, taken: bool, likely: bool) -> (ok: bool)
    ensures
        *final(reg) == old(reg).cond_branch(inst, taken, likely),
        ok,
{
    if taken {
        let t = branch_target(reg, inst);
        update_pc_next32_with_delayed_imm(reg, t);
    } else if likely {
        update_pc_next32(reg);
        update_pc_next32(reg);
    } else {
        update_pc_next32(reg);
    }
    true
}

fn link(reg: &mut Reg, rd: usize)
    requires
        rd < 32,
    ensures
        *final(reg) == old(reg).linked(rd as int),
{
    reg.r[rd] = reg.pc.wrapping_add(8);
}

fn shift_amount(a: u32) -> (s: u32)
    ensures
        s == a & 0x1f,
        s < 32,
{
    proof {
        lemma_and_le_u32(a, 0x1f);
    }
    a & 0x1f
}

fn special_arith(reg: &mut Reg, inst: u32) -> (ok: bool)
    requires
        ({
            let f = f_funct(inst);
            f == 0x20 || f == 0x21 || f == 0x24 || f == 0x08 || f == 0x09 || f == 0x27 || f == 0x25
                || f == 0x26 || f == 0x2a || f == 0x2b || f == 0x0a || f == 0x0b || f == 0x22 || f
                == 0x23
        }),
    ensures
        (*final(reg), ok) == old(reg).special(inst),
{
    let d = decode(inst);
    let a = reg.r[d.rs];
    let b = reg.r[d.rt];
    let funct = d.funct;
    if funct == 0x20 {
        write_checked(reg, d.rd, a.wrapping_add(b), add_overflows(a, b))
    } else if funct == 0x21 {
        write_next(reg, d.rd, a.wrapping_add(b))
    } else if funct == 0x24 {
        write_next(reg, d.rd, a & b)
    } else if funct == 0x08 {
        update_pc_next32_with_delayed_imm(reg, a);
        true
    } else if funct == 0x09 {
        link(reg, d.rd);
        update_pc_next32_with_delayed_imm(reg, a);
        true
    } else if funct == 0x27 {
        write_next(reg, d.rd, !(a | b))
    } else if funct == 0x25 {
        write_next(reg, d.rd, a | b)
    } else if funct == 0x26 {
        write_next(reg, d.rd, a ^ b)
    } else if funct == 0x2a {
        write_next(reg, d.rd, slt(a, b))
    } else if funct == 0x2b {
        write_next(reg, d.rd, sltu(a, b))
    } else if funct == 0x0a {
        if b == 0 {
            write_next(reg, d.rd, a)
        } else {
            next(reg)
        }
    } else if funct == 0x0b {
        if b != 0 {
            write_next(reg, d.rd, a)
        } else {
            next(reg)
        }
    } else if funct == 0x22 {
        write_checked(reg, d.rd, a.wrapping_sub(b), sub_overflows(a, b))
    } else {
        write_next(reg, d.rd, a.wrapping_sub(b))
    }
}

fn special_shift(reg: &mut Reg, inst: u32) -> (ok: bool)
    requires
        ({
            let f = f_funct(inst);
            f == 0x00 || f == 0x02 || f == 0x03 || f == 0x04 || f == 0x06 || f == 0x07
        }),
    ensures
        (*final(reg), ok) == old(reg).special(inst),
{
    let d = decode(inst);
    let a = reg.r[d.rs];
    let b = reg.r[d.rt];
    let funct = d.funct;
    let shamt = d.shamt;
    if funct == 0x00 {
        if inst == MIPS32_INST_EHB {
            next(reg)
        } else if d.rs == 0 {
            write_next(reg, d.rd, b << shamt)
        } else {
            false
        }
    } else if funct == 0x02 {
        if d.rs == 0 {
            write_next(reg, d.rd, b >> shamt)
        } else if d.rs == 1 {
            write_next(reg, d.rd, rotr(b, shamt))
        } else {
            false
        }
    } else if funct == 0x03 {
        write_next(reg, d.rd, sra(b, shamt))
    } else if funct == 0x04 {
        write_next(reg, d.rd, b << shift_amount(a))
    } else if funct == 0x06 {
        if shamt == 0 {
            write_next(reg, d.rd, b >> shift_amount(a))
        } else if shamt == 1 {
            write_next(reg, d.rd, rotr(b, shift_amount(a)))
        } else {
            false
        }
    } else {
        if shamt == 0 {
            write_next(reg, d.rd, sra(b, shift_amount(a)))
        } else {
            false
        }
    }
}

fn special_muldiv(reg: &mut Reg, inst: u32) -> (ok: bool)
    requires
        ({
            let f = f_funct(inst);
            f == 0x10 || f == 0x11 || f == 0x12 || f == 0x13 || f == 0x18 || f == 0x19 || f == 0x1a
                || f == 0x1b
        }),
    ensures
        (*final(reg), ok) == old(reg).special(inst),
{
    let d = decode(inst);
    let a = reg.r[d.rs];
    let b = reg.r[d.rt];
    let funct = d.funct;
    if funct == 0x10 {
        let hi = reg.hi;
        write_next(reg, d.rd, hi)
    } else if funct == 0x11 {
        reg.hi = a;
        next(reg)
    } else if funct == 0x12 {
        let lo = reg.lo;
        write_next(reg, d.rd, lo)
    } else if funct == 0x13 {
        reg.lo = a;
        next(reg)
    } else if funct == 0x18 {
        if d.shamt == 0 && d.rd == 0 {
            write_hilo(reg, mul_signed(a, b))
        } else {
            false
        }
    } else if funct == 0x19 {
        if d.shamt == 0 && d.rd == 0 {
            write_hilo(reg, mul_unsigned(a, b))
        } else {
            false
        }
    } else if funct == 0x1a {
        reg.lo = div_lo(a, b);
        reg.hi = div_hi(a, b);
        next(reg)
    } else {
        reg.lo = divu_lo(a, b);
        reg.hi = divu_hi(a, b);
        next(reg)
    }
}

fn special_trap(reg: &mut Reg, inst: u32) -> (ok: bool)
    requires
        ({
            let f = f_funct(inst);
            !(f == 0x20 || f == 0x21 || f == 0x24 || f == 0x08 || f == 0x09 || f == 0x27 || f
                == 0x25 || f == 0x26 || f == 0x2a || f == 0x2b || f == 0x0a || f == 0x0b || f
                == 0x22 || f == 0x23) && !(f == 0x00 || f == 0x02 || f == 0x03 || f == 0x04 || f
                == 0x06 || f == 0x07) && !(f == 0x10 || f == 0x11 || f == 0x12 || f == 0x13 || f
                == 0x18 || f == 0x19 || f == 0x1a || f == 0x1b)
        }),
    ensures
        (*final(reg), ok) == old(reg).special(inst),
{
    let d = decode(inst);
    let a = reg.r[d.rs];
    let b = reg.r[d.rt];
    let funct = d.funct;
    if funct == 0x30 {
        trap_if(reg, (a as i32) >= (b as i32))
    } else if funct == 0x31 {
        trap_if(reg, a >= b)
    } else if funct == 0x32 {
        trap_if(reg, (a as i32) < (b as i32))
    } else if funct == 0x33 {
        trap_if(reg, a < b)
    } else if funct == 0x34 {
        trap_if(reg, a == b)
    } else if funct == 0x36 {
        trap_if(reg, a != b)
    } else if funct == 0x0c {
        raise(reg, EXCEPT_CODE_SYSCALL, 0);
        true
    } else if funct == 0x0f {
        next(reg)
    } else {
        false
    }
}

fn special(reg: &mut Reg, inst: u32) -> (ok: bool)
    ensures
        (*final(reg), ok) == old(reg).special(inst),
{
    let f = inst & 0x3f;
    if f == 0x20 || f == 0x21 || f == 0x24 || f == 0x08 || f == 0x09 || f == 0x27 || f == 0x25 || f
        == 0x26 || f == 0x2a || f == 0x2b || f == 0x0a || f == 0x0b || f == 0x22 || f == 0x23 {
        special_arith(reg, inst)
    } else if f == 0x00 || f == 0x02 || f == 0x03 || f == 0x04 || f == 0x06 || f == 0x07 {
        special_shift(reg, inst)
    } else if f == 0x10 || f == 0x11 || f == 0x12 || f == 0x13 || f == 0x18 || f == 0x19 || f
        == 0x1a || f == 0x1b {
        special_muldiv(reg, inst)
    } else {
        special_trap(reg, inst)
    }
}

fn alu_imm(reg: &mut Reg, inst: u32) -> (ok: bool)
    ensures
        (*final(reg), ok) == old(reg).alu_imm(inst),
{
    let d = decode(inst);
    let a = reg.r[d.rs];
    let op = d.op;
    let imm = d.imm;
    if op == MIPS32_OP_ADDI {
        write_checked(reg, d.rt, a.wrapping_add(sign_ext16(imm)), add_overflows(a, sign_ext16(imm)))
    } else if op == MIPS32_OP_ADDIU {
        write_next(reg, d.rt, a.wrapping_add(sign_ext16(imm)))
    } else if op == MIPS32_OP_ANDI {
        write_next(reg, d.rt, a & zero_ext16(imm))
    } else if op == MIPS32_OP_ORI {
        write_next(reg, d.rt, a | zero_ext16(imm))
    } else if op == MIPS32_OP_XORI {
        write_next(reg, d.rt, a ^ zero_ext16(imm))
    } else if op == MIPS32_OP_LUI {
        write_next(reg, d.rt, zero_ext16(imm) << 16)
    } else if op == MIPS32_OP_SLTI {
        write_next(reg, d.rt, slt(a, sign_ext16(imm)))
    } else {
        write_next(reg, d.rt, sltu(a, sign_ext16(imm)))
    }
}

fn branch(reg: &mut Reg, inst: u32) -> (ok: bool)
    ensures
        (*final(reg), ok) == old(reg).branch(inst),
{
    let d = decode(inst);
    let a = reg.r[d.rs];
    let b = reg.r[d.rt];
    let op = d.op;
    if op == MIPS32_OP_BEQ {
        cond_branch(reg, inst, a == b, false)
    } else if op == MIPS32_OP_BEQL {
        cond_branch(reg, inst, a == b, true)
    } else if op == MIPS32_OP_BNE {
        cond_branch(reg, inst, a != b, false)
    } else if op == MIPS32_OP_BNEL {
        cond_branch(reg, inst, a != b, true)
    } else if op == MIPS32_OP_BGTZ {
        cond_branch(reg, inst, (a as i32) > 0, false)
    } else if d.rt != 0 {
        false
    } else if op == MIPS32_OP_BLEZ {
        cond_branch(reg, inst, (a as i32) <= 0, false)
    } else if op == MIPS32_OP_BLEZL {
        cond_branch(reg, inst, (a as i32) <= 0, true)
    } else {
        cond_branch(reg, inst, (a as i32) > 0, true)
    }
}

fn jump32(reg: &mut Reg, inst: u32) -> (ok: bool)
    ensures
        (*final(reg), ok) == old(reg).jump32(inst),
{
    let op = (inst >> 26) & 0x3f;
    if op == MIPS32_OP_J {
        let t = jump_target(reg, inst);
        update_pc_next32_with_delayed_imm(reg, t);
    } else if op == MIPS32_OP_JAL {
        link(reg, 31);
        let t = jump_target(reg, inst);
        update_pc_next32_with_delayed_imm(reg, t);
    } else {
        link(reg, 31);
        let t = jump_target(reg, inst).wrapping_add(1);
        update_pc_next32_with_delayed_imm(reg, t);
    }
    true
}

fn regimm(reg: &mut Reg, inst: u32) -> (ok: bool)
    ensures
        (*final(reg), ok) == old(reg).regimm(inst),
{
    let d = decode(inst);
    let a = reg.r[d.rs];
    let imm = sign_ext16(d.imm);
    let rt = d.rt;
    if rt == 0x00 {
        cond_branch(reg, inst, (a as i32) < 0, false)
    } else if rt == 0x02 {
        cond_branch(reg, inst, (a as i32) < 0, true)
    } else if rt == 0x10 {
        link(reg, 31);
        let v = reg.r[d.rs];
        cond_branch(reg, inst, (v as i32) < 0, false)
    } else if rt == 0x01 {
        cond_branch(reg, inst, (a as i32) >= 0, false)
    } else if rt == 0x03 {
        cond_branch(reg, inst, (a as i32) >= 0, true)
    } else if rt == 0x11 {
        link(reg, 31);
        let v = reg.r[d.rs];
        cond_branch(reg, inst, d.rs == 0 || (v as i32) >= 0, false)
    } else if rt == 0x08 {
        trap_if(reg, (a as i32) >= (imm as i32))
    } else if rt == 0x09 {
        trap_if(reg, a >= imm)
    } else if rt == 0x0a {
        trap_if(reg, (a as i32) < (imm as i32))
    } else if rt == 0x0b {
        trap_if(reg, a < imm)
    } else if rt == 0x0c {
        trap_if(reg, a == imm)
    } else if rt == 0x0e {
        trap_if(reg, a != imm)
    } else {
        false
    }
}

fn special2(reg: &mut Reg, inst: u32) -> (ok: bool)
    ensures
        (*final(reg), ok) == old(reg).special2(inst),
{
    let d = decode(inst);
    let a = reg.r[d.rs];
    let b = reg.r[d.rt];
    let acc = hilo(reg.hi, reg.lo);
    if d.funct == 0x02 && d.shamt == 0 {
        write_next(reg, d.rd, a.wrapping_mul(b))
    } else if d.imm == 0x00 {
        write_hilo(reg, acc.wrapping_add(mul_signed(a, b)))
    } else if d.imm == 0x01 {
        write_hilo(reg, acc.wrapping_add(mul_unsigned(a, b)))
    } else if d.imm == 0x04 {
        write_hilo(reg, acc.wrapping_sub(mul_signed(a, b)))
    } else if d.imm == 0x05 {
        write_hilo(reg, acc.wrapping_sub(mul_unsigned(a, b)))
    } else if d.funct == 0x21 && d.shamt == 0 {
        write_next(reg, d.rd, (!a).leading_zeros())
    } else if d.funct == 0x20 && d.shamt == 0 {
        write_next(reg, d.rd, a.leading_zeros())
    } else {
        false
    }
}

fn hwr_allowed(reg: &Reg, n: u32) -> (r: bool)
    requires
        n < 32,
    ensures
        r == reg.hwr_allowed(n),
{
    !(mode_is_user(reg.c0(C0_STATUS)) && reg.c0(C0_HWRENA) & (1u32 << n) == 0)
}

fn rdhwr(reg: &mut Reg, nexec_insts: u64, inst: u32) -> (ok: bool)
    ensures
        (*final(reg), ok) == old(reg).rdhwr(nexec_insts, inst),
{
    let d = decode(inst);
    let rd = d.rd;
    if d.rs != 0 {
        false
    } else if rd == 0 || rd == 1 || rd == 2 || rd == 3 || rd == 29 {
        if !hwr_allowed(reg, rd as u32) {
            raise(reg, EXCEPT_CODE_RESERVED_INSTRUCTION, 0);
            true
        } else if rd == 2 {
            let c = reg.c0_count_currenttime.wrapping_sub(reg.c0_count_basetime).wrapping_mul(
                crate::config::COUNT_TICKS_PER_USEC,
            ).wrapping_add(nexec_insts.wrapping_sub(reg.c0_count_ninst_in_ctime));
            write_next(reg, d.rt, c as u32)
        } else if rd == 3 {
            write_next(reg, d.rt, CPU_FREQ_COUNT_RESOLUTION)
        } else if rd == 29 {
            let v = reg.c0(C0_USERLOCAL);
            write_next(reg, d.rt, v)
        } else {
            write_next(reg, d.rt, 0)
        }
    } else if rd == 4 || rd == 5 {
        write_next(reg, d.rt, 0)
    } else {
        raise(reg, EXCEPT_CODE_RESERVED_INSTRUCTION, 0);
        true
    }
}

fn special3(reg: &mut Reg, nexec_insts: u64, inst: u32) -> (ok: bool)
    ensures
        (*final(reg), ok) == old(reg).special3(nexec_insts, inst),
{
    let d = decode(inst);
    let funct = d.funct;
    if funct == 0x3b {
        rdhwr(reg, nexec_insts, inst)
    } else if funct == 0x00 {
        let v = ext(reg.r[d.rs], d.rd as u32, d.shamt);
        write_next(reg, d.rt, v)
    } else if funct == 0x04 {
        let v = ins(reg.r[d.rt], reg.r[d.rs], d.rd as u32, d.shamt);
        write_next(reg, d.rt, v)
    } else if funct == 0x20 {
        let b = reg.r[d.rt];
        if d.shamt == 0x10 {
            write_next(reg, d.rd, sign_ext8(b))
        } else if d.shamt == 0x18 {
            write_next(reg, d.rd, sign_ext16(b))
        } else if d.shamt == 0x02 {
            write_next(reg, d.rd, wsbh(b))
        } else {
            false
        }
    } else {
        false
    }
}

fn eret(reg: &mut Reg)
    ensures
        *final(reg) == old(reg).eret(),
{
    let status = reg.c0(C0_STATUS);
    if 0 != (status & C0_STATUS_ERL) {
        reg.pc = reg.c0(C0_ERROREPC);
        reg.set_c0(C0_STATUS, status & !C0_STATUS_ERL);
    } else {
        reg.pc = reg.c0(C0_EPC);
        reg.set_c0(C0_STATUS, status & !C0_STATUS_EXL);
    }
    reg.ll_sc = false;
}

fn mem_addr(ms: &MachineState, inst: u32) -> (addr: u32)
    ensures
        addr == ms@.mem_addr(inst),
{
    let d = decode(inst);
    ms.reg.r[d.rs].wrapping_add(sign_ext16(d.imm))
}

fn finish_load(ms: &mut MachineState, res: Result<u32, u32>, op: u32, rt: usize, addr: u32, badvaddr: u32)
    requires
        rt < 32,
    ensures
        final(ms)@ == old(ms)@.finish_load(res, op, rt as int, addr, badvaddr),
{
    match res {
        Ok(data) => {
            let v = load_value(op, ms.reg.r[rt], data, addr);
            ms.reg.r[rt] = v;
            update_pc_next32(&mut ms.reg);
        },
        Err(e) => {
            raise(&mut ms.reg, e, badvaddr);
        },
    }
}

fn finish_store(ms: &mut MachineState, res: Result<(), u32>, badvaddr: u32)
    ensures
        final(ms)@ == old(ms)@.finish_store(res, badvaddr),
{
    match res {
        Ok(_) => {
            update_pc_next32(&mut ms.reg);
        },
        Err(e) => {
            raise(&mut ms.reg, e, badvaddr);
        },
    }
}

fn load32(ms: &mut MachineState, inst: u32)
    requires
        old(ms)@.wf(),
    ensures
        final(ms)@ == old(ms)@.load32(inst),
        final(ms)@.wf(),
{
    let d = decode(inst);
    let op = d.op;
    let addr = mem_addr(ms, inst);
    if op == MIPS32_OP_LB || op == MIPS32_OP_LBU {
        let r = crate::mem::load_byte(ms, addr);
        finish_load(ms, r, op, d.rt, addr, addr);
    } else if op == MIPS32_OP_LH || op == MIPS32_OP_LHU {
        let r = crate::mem::load_halfword(ms, addr);
        finish_load(ms, r, op, d.rt, addr, addr);
    } else if op == MIPS32_OP_LWL || op == MIPS32_OP_LWR {
        let r = crate::mem::load_word(ms, addr & 0xfffffffc);
        finish_load(ms, r, op, d.rt, addr, addr & 0xfffffffc);
    } else if op == MIPS32_OP_LL {
        ms.reg.ll_sc = true;
        let r = crate::mem::load_word(ms, addr);
        finish_load(ms, r, op, d.rt, addr, addr);
    } else {
        let r = crate::mem::load_word(ms, addr);
        finish_load(ms, r, op, d.rt, addr, addr);
    }
}

fn store_unaligned(ms: &mut MachineState, inst: u32)
    requires
        old(ms)@.wf(),
    ensures
        final(ms)@ == old(ms)@.store_unaligned(inst),
        final(ms)@.wf(),
{
    let d = decode(inst);
    let addr = mem_addr(ms, inst);
    let aligned = addr & 0xfffffffc;
    match crate::mem::load_word(ms, aligned) {
        Ok(data) => {
            let merged = if d.op == MIPS32_OP_SWL {
                swl(data, ms.reg.r[d.rt], addr)
            } else {
                swr(data, ms.reg.r[d.rt], addr)
            };
            let s = crate::mem::store_word(ms, aligned, merged);
            finish_store(ms, s, aligned);
        },
        Err(e) => {
            raise(&mut ms.reg, e, aligned);
        },
    }
}

fn store_conditional(ms: &mut MachineState, inst: u32)
    requires
        old(ms)@.wf(),
    ensures
        final(ms)@ == old(ms)@.store_conditional(inst),
        final(ms)@.wf(),
{
    let d = decode(inst);
    let addr = mem_addr(ms, inst);
    if ms.reg.ll_sc {
        let v = ms.reg.r[d.rt];
        match crate::mem::store_word(ms, addr, v) {
            Ok(_) => {
                ms.reg.r[d.rt] = 1;
                update_pc_next32(&mut ms.reg);
            },
            Err(e) => {
                raise(&mut ms.reg, e, addr);
            },
        }
    } else {
        ms.reg.r[d.rt] = 0;
        update_pc_next32(&mut ms.reg);
    }
}

fn store32(ms: &mut MachineState, inst: u32)
    requires
        old(ms)@.wf(),
    ensures
        final(ms)@ == old(ms)@.store32(inst),
        final(ms)@.wf(),
{
    let d = decode(inst);
    let op = d.op;
    let b = ms.reg.r[d.rt];
    let addr = mem_addr(ms, inst);
    if op == MIPS32_OP_SB {
        let s = crate::mem::store_byte(ms, addr, b as u8);
        finish_store(ms, s, addr);
    } else if op == MIPS32_OP_SH {
        let s = crate::mem::store_halfword(ms, addr, 0xffff & b);
        finish_store(ms, s, addr);
    } else if op == MIPS32_OP_SW {
        let s = crate::mem::store_word(ms, addr, b);
        finish_store(ms, s, addr);
    } else if op == MIPS32_OP_SC {
        store_conditional(ms, inst);
    } else {
        store_unaligned(ms, inst);
    }
}

fn cop0_move(ms: &mut MachineState, inst: u32) -> (ok: bool)
    requires
        f_rs(inst) == 0x04 || f_rs(inst) == 0x00 || f_rs(inst) == 0x0b,
    ensures
        (final(ms)@, ok) == ({
            let m = old(ms)@;
            let n = m.emu.nexec_insts;
            let rt = f_rt(inst);
            let rd = f_rd(inst);
            let imm = f_imm(inst);
            if f_rs(inst) == 0x04 {
                (
                    m.with_reg(m.reg.store(n, (rd as u32, imm & 0xf), m.reg.r[rt]).next_pc(4)),
                    true,
                )
            } else if f_rs(inst) == 0x00 {
                (
                    m.with_reg(
                        m.reg.with_gpr(rt, m.reg.load(n, (rd as u32, imm & 0xf))).next_pc(4),
                    ),
                    true,
                )
            } else if imm == 0x6000 {
                (
                    m.with_reg(
                        m.reg.with_gpr(rt, m.reg.load(n, C0_STATUS)).store(
                            n,
                            C0_STATUS,
                            m.reg.load(n, C0_STATUS) & !C0_STATUS_IE,
                        ).next_pc(4),
                    ),
                    true,
                )
            } else if imm == 0x6020 {
                (
                    m.with_reg(
                        m.reg.with_gpr(rt, m.reg.load(n, C0_STATUS)).store(
                            n,
                            C0_STATUS,
                            m.reg.load(n, C0_STATUS) | C0_STATUS_IE,
                        ).next_pc(4),
                    ),
                    true,
                )
            } else {
                (m, true)
            }
        }),
{
    let d = decode(inst);
    if d.rs == 0x04 {
        let v = ms.reg.r[d.rt];
        crate::cp0::store(ms, (d.rd as u32, d.imm & 0xf), v);
        update_pc_next32(&mut ms.reg);
    } else if d.rs == 0x00 {
        let v = crate::cp0::load(ms, (d.rd as u32, d.imm & 0xf));
        ms.reg.r[d.rt] = v;
        update_pc_next32(&mut ms.reg);
    } else if d.imm == 0x6000 {
        let v = crate::cp0::load(ms, C0_STATUS);
        ms.reg.r[d.rt] = v;
        crate::cp0::store(ms, C0_STATUS, v & !C0_STATUS_IE);
        update_pc_next32(&mut ms.reg);
    } else if d.imm == 0x6020 {
        let v = crate::cp0::load(ms, C0_STATUS);
        ms.reg.r[d.rt] = v;
        crate::cp0::store(ms, C0_STATUS, v | C0_STATUS_IE);
        update_pc_next32(&mut ms.reg);
    }
    true
}

fn cop0(ms: &mut MachineState, inst: u32) -> (ok: bool)
    ensures
        (final(ms)@, ok) == old(ms)@.cop0(inst),
{
    let d = decode(inst);
    let status = ms.reg.c0(C0_STATUS);
    if mode_is_user(status) && 0 == (status & C0_STATUS_CU0) {
        raise(&mut ms.reg, EXCEPT_CODE_COPROCESSOR_UNAVAIL, 0);
        true
    } else if d.rs == 0x04 || d.rs == 0x00 || d.rs == 0x0b {
        cop0_move(ms, inst)
    } else if d.rs == 0x10 {
        if inst == MIPS32_INST_TLBWI {
            crate::tlb::write_with_index(ms);
            update_pc_next32(&mut ms.reg);
            true
        } else if inst == MIPS32_INST_TLBWR {
            crate::tlb::write_with_random(ms);
            update_pc_next32(&mut ms.reg);
            true
        } else if inst == MIPS32_INST_TLBP {
            crate::tlb::probe(ms);
            update_pc_next32(&mut ms.reg);
            true
        } else if inst == MIPS32_INST_ERET {
            eret(&mut ms.reg);
            true
        } else if inst == MIPS32_INST_WAIT {
            ms.sleep_req = true;
            update_pc_next32(&mut ms.reg);
            true
        } else {
            false
        }
    } else {
        false
    }
}

/// Executes the MIPS32 instruction `inst`. Gives false for an encoding that
/// is not known; the machine is then unchanged.
pub fn exec(ms: &mut MachineState, inst: u32) -> (ok: bool)
    requires
        old(ms)@.wf(),
    ensures
        (final(ms)@, ok) == old(ms)@.exec32(inst),
        final(ms)@.wf(),
{
    let op: u32 = (inst >> 26) & 0x3f;
    if inst == 0 {
        update_pc_next32(&mut ms.reg);
        true
    } else if op == MIPS32_OP_SPECIAL {
        special(&mut ms.reg, inst)
    } else if op == MIPS32_OP_ADDI || op == MIPS32_OP_ADDIU || op == MIPS32_OP_ANDI || op
        == MIPS32_OP_ORI || op == MIPS32_OP_XORI || op == MIPS32_OP_LUI || op == MIPS32_OP_SLTI
        || op == MIPS32_OP_SLTIU {
        alu_imm(&mut ms.reg, inst)
    } else if op == MIPS32_OP_BEQ || op == MIPS32_OP_BNE || op == MIPS32_OP_BLEZ || op
        == MIPS32_OP_BGTZ || op == MIPS32_OP_BEQL || op == MIPS32_OP_BNEL || op == MIPS32_OP_BLEZL
        || op == MIPS32_OP_BGTZL {
        branch(&mut ms.reg, inst)
    } else if op == MIPS32_OP_J || op == MIPS32_OP_JAL || op == MIPS32_OP_JALX {
        jump32(&mut ms.reg, inst)
    } else if op == MIPS32_OP_REGIMM {
        regimm(&mut ms.reg, inst)
    } else if op == MIPS32_OP_LB || op == MIPS32_OP_LBU || op == MIPS32_OP_LH || op
        == MIPS32_OP_LHU || op == MIPS32_OP_LW || op == MIPS32_OP_LWL || op == MIPS32_OP_LWR || op
        == MIPS32_OP_LL {
        load32(ms, inst);
        true
    } else if op == MIPS32_OP_SB || op == MIPS32_OP_SH || op == MIPS32_OP_SW || op
        == MIPS32_OP_SWL || op == MIPS32_OP_SWR || op == MIPS32_OP_SC {
        store32(ms, inst);
        true
    } else if op == MIPS32_OP_SPECIAL2 {
        special2(&mut ms.reg, inst)
    } else if op == MIPS32_OP_SPECIAL3 {
        let n = ms.emu.nexec_insts;
        special3(&mut ms.reg, n, inst)
    } else if op == MIPS32_OP_COP0 {
        cop0(ms, inst)
    } else if op == MIPS32_OP_CACHE || op == MIPS32_OP_PREF {
        update_pc_next32(&mut ms.reg);
        true
    } else {
        false
    }
}

} // verus!
