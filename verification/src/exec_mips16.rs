//! The MIPS16e instruction set.
//!
//! An instruction is one halfword, or two halfwords where the first is an
//! EXTEND prefix or the first half of JAL/JALX; the first halfword is then in
//! the upper 16 bits of the instruction word.
use vstd::prelude::*;
use crate::bits::lemma_and_le_u32;
use crate::exception::raise;
use crate::exec_common::{
    sign_ext11,
    sign_ext15,
    sign_ext16,
    sign_ext4,
    sign_ext8,
    update_pc_imm,
    update_pc_next16,
    update_pc_next16_with_delayed_imm,
    update_pc_next32,
    update_pc_next32_with_delayed_imm,
    zero_ext16,
    zero_ext8,
};
use crate::exec_mips32::{
    div_hi,
    div_lo,
    divu_hi,
    divu_lo,
    mul_signed,
    mul_unsigned,
    slt,
    sltu,
    spec_sra,
    sra,
};
use crate::procstate::{MachineState, MachineView, Reg};

verus! {

pub const MIPS16E_OP_ADDIUSP: u32 = 0x00;

pub const MIPS16E_OP_ADDIUPC: u32 = 0x01;

pub const MIPS16E_OP_B: u32 = 0x02;

pub const MIPS16E_OP_JAL: u32 = 0x03;

pub const MIPS16E_OP_BEQZ: u32 = 0x04;

pub const MIPS16E_OP_BNEZ: u32 = 0x05;

pub const MIPS16E_OP_SHIFT: u32 = 0x06;

pub const MIPS16E_OP_RRIA: u32 = 0x08;

pub const MIPS16E_OP_ADDIU8: u32 = 0x09;

pub const MIPS16E_OP_SLTI: u32 = 0x0A;

pub const MIPS16E_OP_SLTIU: u32 = 0x0B;

pub const MIPS16E_OP_I8: u32 = 0x0C;

pub const MIPS16E_OP_LI: u32 = 0x0D;

pub const MIPS16E_OP_CMPI: u32 = 0x0E;

pub const MIPS16E_OP_LB: u32 = 0x10;

pub const MIPS16E_OP_LH: u32 = 0x11;

pub const MIPS16E_OP_LWSP: u32 = 0x12;

pub const MIPS16E_OP_LW: u32 = 0x13;

pub const MIPS16E_OP_LBU: u32 = 0x14;

pub const MIPS16E_OP_LHU: u32 = 0x15;

pub const MIPS16E_OP_LWPC: u32 = 0x16;

pub const MIPS16E_OP_SB: u32 = 0x18;

pub const MIPS16E_OP_SH: u32 = 0x19;

pub const MIPS16E_OP_SWSP: u32 = 0x1A;

pub const MIPS16E_OP_SW: u32 = 0x1B;

pub const MIPS16E_OP_RRR: u32 = 0x1C;

pub const MIPS16E_OP_RR: u32 = 0x1D;

pub const MIPS16E_OP_EXTEND: u32 = 0x1E;

pub const MIPS16E_RRFUNCT_JR: u32 = 0x00;

pub const MIPS16E_RRFUNCT_SDBBP: u32 = 0x01;

pub const MIPS16E_RRFUNCT_SLT: u32 = 0x02;

pub const MIPS16E_RRFUNCT_SLTU: u32 = 0x03;

pub const MIPS16E_RRFUNCT_SLLV: u32 = 0x04;

pub const MIPS16E_RRFUNCT_BREAK: u32 = 0x05;

pub const MIPS16E_RRFUNCT_SRLV: u32 = 0x06;

pub const MIPS16E_RRFUNCT_SRAV: u32 = 0x07;

pub const MIPS16E_RRFUNCT_CMP: u32 = 0x0A;

pub const MIPS16E_RRFUNCT_NEG: u32 = 0x0B;

pub const MIPS16E_RRFUNCT_AND: u32 = 0x0C;

pub const MIPS16E_RRFUNCT_OR: u32 = 0x0D;

pub const MIPS16E_RRFUNCT_XOR: u32 = 0x0E;

pub const MIPS16E_RRFUNCT_NOT: u32 = 0x0F;

pub const MIPS16E_RRFUNCT_MFHI: u32 = 0x10;

pub const MIPS16E_RRFUNCT_CNVT: u32 = 0x11;

pub const MIPS16E_RRFUNCT_MFLO: u32 = 0x12;

pub const MIPS16E_RRFUNCT_MULT: u32 = 0x18;

pub const MIPS16E_RRFUNCT_MULTU: u32 = 0x19;

pub const MIPS16E_RRFUNCT_DIV: u32 = 0x1A;

pub const MIPS16E_RRFUNCT_DIVU: u32 = 0x1B;


/// The major opcode: bits 15..11 of the lower halfword.
pub open spec fn m_op5(inst: u32) -> u32 {
    (inst >> 11) & 0x1f
}

/// Bits 10..8.
pub open spec fn m_rx(inst: u32) -> u32 {
    (inst >> 8) & 0x07
}

/// Bits 7..5.
pub open spec fn m_ry(inst: u32) -> u32 {
    (inst >> 5) & 0x07
}

/// Bits 4..2.
pub open spec fn m_rz(inst: u32) -> u32 {
    (inst >> 2) & 0x07
}

/// Bits 4..0.
pub open spec fn m_funct5(inst: u32) -> u32 {
    inst & 0x1f
}

/// Bits 7..0.
pub open spec fn m_imm8(inst: u32) -> u32 {
    inst & 0xff
}

/// The 16-bit immediate of an extended instruction.
pub open spec fn m_imm16(inst: u32) -> u32 {
    ((inst >> 5) & 0xf800) | ((inst >> 16) & 0x07e0) | (inst & 0x1f)
}

/// The 15-bit immediate of an extended instruction.
pub open spec fn m_imm15(inst: u32) -> u32 {
    ((inst >> 5) & 0x7800) | ((inst >> 16) & 0x07f0) | (inst & 0xf)
}

/// The instruction has an EXTEND prefix.
pub open spec fn m_prefix(inst: u32) -> bool {
    inst & 0xffff0000 != 0
}

/// Length of the instruction in bytes.
pub open spec fn m_len(inst: u32) -> u32 {
    if m_prefix(inst) {
        4
    } else {
        2
    }
}

/// The general-purpose register that a 3-bit register field names: 0 and 1
/// stand for 16 and 17.
pub open spec fn spec_xlat(i: u32) -> int {
    if i < 2 {
        i + 16
    } else {
        i as int
    }
}

/// The shift amount of a SHIFT instruction: five bits of the prefix, or
/// three bits in which 0 stands for 8.
pub open spec fn m_sa(inst: u32) -> u32 {
    if m_prefix(inst) {
        (inst >> 22) & 0x1f
    } else if m_rz(inst) == 0 {
        8
    } else {
        m_rz(inst)
    }
}

/// The immediate operand where an extended instruction has 16 signed bits
/// and a plain one has 8 bits. `short` is what the plain form makes of its
/// 8 bits.
pub open spec fn m_imm(inst: u32, short: u32) -> u32 {
    if m_prefix(inst) {
        sign_ext16(m_imm16(inst))
    } else {
        short
    }
}

/// The offset of a load or store relative to a register: 16 signed bits
/// with prefix, else 5 bits scaled by the access width.
pub open spec fn m_offset(inst: u32, scale: u32) -> u32 {
    if m_prefix(inst) {
        sign_ext16(m_imm16(inst))
    } else {
        m_funct5(inst) << scale
    }
}

/// Number of argument registers that SAVE stores into the caller's frame,
/// by the `aregs` field.
pub open spec fn spec_save_args(aregs: u32) -> u32 {
    if aregs == 4 || aregs == 5 || aregs == 6 || aregs == 7 {
        1
    } else if aregs == 8 || aregs == 9 || aregs == 10 {
        2
    } else if aregs == 12 || aregs == 13 {
        3
    } else if aregs == 14 {
        4
    } else {
        0
    }
}

/// Number of argument registers that SAVE and RESTORE treat as static, by
/// the `aregs` field.
pub open spec fn spec_save_statics(aregs: u32) -> u32 {
    if aregs == 1 || aregs == 5 || aregs == 9 || aregs == 13 {
        1
    } else if aregs == 2 || aregs == 6 || aregs == 10 {
        2
    } else if aregs == 3 || aregs == 7 {
        3
    } else if aregs == 11 {
        4
    } else {
        0
    }
}

/// The fields of a MIPS16e instruction word, register fields translated.
pub struct Fields16 {
    pub op5: u32,
    pub rx: u32,
    pub ry: u32,
    pub xr: usize,
    pub yr: usize,
    pub zr: usize,
    pub funct5: u32,
    pub imm8: u32,
    pub imm16: u32,
    pub imm15: u32,
    pub prefix: bool,
}

pub fn xlat(i: u32) -> (r: usize)
    requires
        i < 8,
    ensures
        r == spec_xlat(i),
        r < 32,
{
    if i < 2 {
        (i + 16) as usize
    } else {
        i as usize
    }
}

pub fn decode16(inst: u32) -> (d: Fields16)
    ensures
        d.op5 == m_op5(inst),
        d.rx == m_rx(inst),
        d.ry == m_ry(inst),
        d.xr == spec_xlat(m_rx(inst)),
        d.yr == spec_xlat(m_ry(inst)),
        d.zr == spec_xlat(m_rz(inst)),
        d.funct5 == m_funct5(inst),
        d.imm8 == m_imm8(inst),
        d.imm16 == m_imm16(inst),
        d.imm15 == m_imm15(inst),
        d.prefix == m_prefix(inst),
        d.rx < 8,
        d.ry < 8,
        d.xr < 32,
        d.yr < 32,
        d.zr < 32,
        d.funct5 < 32,
{
    proof {
        lemma_and_le_u32(inst >> 8, 0x07);
        lemma_and_le_u32(inst >> 5, 0x07);
        lemma_and_le_u32(inst >> 2, 0x07);
        lemma_and_le_u32(inst, 0x1f);
    }
    let rx = (inst >> 8) & 0x07;
    let ry = (inst >> 5) & 0x07;
    let rz = (inst >> 2) & 0x07;
    Fields16 {
        op5: (inst >> 11) & 0x1f,
        rx,
        ry,
        xr: xlat(rx),
        yr: xlat(ry),
        zr: xlat(rz),
        funct5: inst & 0x1f,
        imm8: inst & 0xff,
        imm16: ((inst >> 5) & 0xf800) | ((inst >> 16) & 0x07e0) | (inst & 0x1f),
        imm15: ((inst >> 5) & 0x7800) | ((inst >> 16) & 0x07f0) | (inst & 0xf),
        prefix: inst & 0xffff0000 != 0,
    }
}

fn sa_of(inst: u32) -> (sa: u32)
    ensures
        sa == m_sa(inst),
        sa < 32,
{
    proof {
        lemma_and_le_u32(inst >> 22, 0x1f);
        lemma_and_le_u32(inst >> 2, 0x07);
    }
    if inst & 0xffff0000 != 0 {
        (inst >> 22) & 0x1f
    } else if (inst >> 2) & 0x07 == 0 {
        8
    } else {
        (inst >> 2) & 0x07
    }
}

fn imm_of(inst: u32, short: u32) -> (v: u32)
    ensures
        v == m_imm(inst, short),
{
    let d = decode16(inst);
    if d.prefix {
        sign_ext16(d.imm16)
    } else {
        short
    }
}

fn offset_of(inst: u32, scale: u32) -> (v: u32)
    requires
        scale < 32,
    ensures
        v == m_offset(inst, scale),
{
    let d = decode16(inst);
    if d.prefix {
        sign_ext16(d.imm16)
    } else {
        d.funct5 << scale
    }
}

#[verifier::when_used_as_spec(spec_save_args)]
pub fn save_args(aregs: u32) -> (n: u32)
    ensures
        n == spec_save_args(aregs),
        n <= 4,
{
    if aregs == 4 || aregs == 5 || aregs == 6 || aregs == 7 {
        1
    } else if aregs == 8 || aregs == 9 || aregs == 10 {
        2
    } else if aregs == 12 || aregs == 13 {
        3
    } else if aregs == 14 {
        4
    } else {
        0
    }
}

#[verifier::when_used_as_spec(spec_save_statics)]
pub fn save_statics(aregs: u32) -> (n: u32)
    ensures
        n == spec_save_statics(aregs),
        n <= 4,
{
    if aregs == 1 || aregs == 5 || aregs == 9 || aregs == 13 {
        1
    } else if aregs == 2 || aregs == 6 || aregs == 10 {
        2
    } else if aregs == 3 || aregs == 7 {
        3
    } else if aregs == 11 {
        4
    } else {
        0
    }
}

impl Reg {
    /// The end of a MIPS16e instruction that does not branch.
    pub open spec fn next16(self, inst: u32) -> Reg {
        self.next_pc(m_len(inst))
    }

    /// A MIPS16e instruction that writes `v` to register `rd` and ends.
    pub open spec fn write_next16(self, inst: u32, rd: int, v: u32) -> (Reg, bool) {
        (self.with_gpr(rd, v).next16(inst), true)
    }

    /// The target of a MIPS16e branch: the address after the instruction
    /// plus the offset in halfwords.
    pub open spec fn branch_target16(&self, inst: u32, short: u32) -> u32 {
        self.pc.wrapping_add(m_imm(inst, short) << 1).wrapping_add(m_len(inst))
    }

    /// A MIPS16e conditional branch: it has no delay slot.
    pub open spec fn cond_branch16(self, inst: u32, taken: bool, short: u32) -> (Reg, bool) {
        (
            if taken {
                self.jump(self.branch_target16(inst, short))
            } else {
                self.next16(inst)
            },
            true,
        )
    }

    /// The base of a PC-relative operand: the program counter, or in the
    /// delay slot of a plain instruction the address of the branch, with the
    /// low two bits cleared.
    pub open spec fn pc_base16(&self, inst: u32) -> u32 {
        (if !m_prefix(inst) && self.delay_en {
            self.pc_prev_jump
        } else {
            self.pc
        }) & 0xfffffffc
    }

    /// JAL and JALX of MIPS16e: the return address is behind the delay
    /// slot; JAL keeps bit 0 of the target set, JALX clears it and so
    /// switches to MIPS32.
    pub open spec fn jal16(self, inst: u32) -> (Reg, bool) {
        let jumpaddr = (inst & 0xffff) | (((inst >> 21) & 0x1f) << 16) | (((inst >> 16) & 0x1f)
            << 21);
        let target = (self.pc.wrapping_add(4) & 0xf0000000).wrapping_add(jumpaddr << 2);
        let linked = self.with_gpr(31, self.pc.wrapping_add(6));
        if inst & 0x04000000 != 0 {
            (linked.branch_delayed(4, target), true)
        } else {
            (linked.branch_delayed(4, target.wrapping_add(1)), true)
        }
    }

    /// The instructions that compute with an immediate operand.
    pub open spec fn alu16(self, inst: u32) -> (Reg, bool) {
        let op5 = m_op5(inst);
        let xr = spec_xlat(m_rx(inst));
        let yr = spec_xlat(m_ry(inst));
        let x = self.r[xr];
        let y = self.r[yr];
        if op5 == MIPS16E_OP_ADDIUSP {
            self.write_next16(
                inst,
                xr,
                self.r[29].wrapping_add(m_imm(inst, zero_ext8(m_imm8(inst)) << 2)),
            )
        } else if op5 == MIPS16E_OP_ADDIUPC {
            self.write_next16(
                inst,
                xr,
                self.pc_base16(inst).wrapping_add(m_imm(inst, zero_ext8(m_imm8(inst)) << 2)),
            )
        } else if op5 == MIPS16E_OP_SHIFT {
            if m_funct5(inst) & 3 == 0 {
                self.write_next16(inst, xr, y << m_sa(inst))
            } else if m_funct5(inst) & 3 == 2 {
                self.write_next16(inst, xr, y >> m_sa(inst))
            } else if m_funct5(inst) & 3 == 3 {
                self.write_next16(inst, xr, spec_sra(y, m_sa(inst)))
            } else {
                (self, false)
            }
        } else if op5 == MIPS16E_OP_RRIA {
            if inst & 0x10 != 0 {
                (self, false)
            } else if m_prefix(inst) {
                self.write_next16(inst, yr, x.wrapping_add(sign_ext15(m_imm15(inst))))
            } else {
                self.write_next16(inst, yr, x.wrapping_add(sign_ext4(inst & 0xf)))
            }
        } else if op5 == MIPS16E_OP_ADDIU8 {
            self.write_next16(inst, xr, x.wrapping_add(m_imm(inst, sign_ext8(m_imm8(inst)))))
        } else if op5 == MIPS16E_OP_SLTI {
            self.write_next16(inst, 24, slt(x, m_imm(inst, zero_ext8(m_imm8(inst)))))
        } else if op5 == MIPS16E_OP_SLTIU {
            self.write_next16(inst, 24, sltu(x, m_imm(inst, zero_ext8(m_imm8(inst)))))
        } else if op5 == MIPS16E_OP_LI {
            self.write_next16(
                inst,
                xr,
                if m_prefix(inst) {
                    zero_ext16(m_imm16(inst))
                } else {
                    zero_ext8(m_imm8(inst))
                },
            )
        } else {
            self.write_next16(
                inst,
                24,
                x ^ (if m_prefix(inst) {
                    zero_ext16(m_imm16(inst))
                } else {
                    zero_ext8(m_imm8(inst))
                }),
            )
        }
    }

    /// B, BEQZ and BNEZ.
    pub open spec fn branch16(self, inst: u32) -> (Reg, bool) {
        let op5 = m_op5(inst);
        let x = self.r[spec_xlat(m_rx(inst))];
        if op5 == MIPS16E_OP_B {
            self.cond_branch16(inst, true, sign_ext11(inst & 0x7ff))
        } else if op5 == MIPS16E_OP_BEQZ {
            self.cond_branch16(inst, x == 0, sign_ext8(m_imm8(inst)))
        } else {
            self.cond_branch16(inst, x != 0, sign_ext8(m_imm8(inst)))
        }
    }

    /// The instructions of the I8 opcode that touch registers only: BTEQZ,
    /// BTNEZ, ADJSP and the two moves between the full register file and the
    /// eight MIPS16e registers.
    pub open spec fn i8_reg(self, inst: u32) -> (Reg, bool) {
        let rx = m_rx(inst);
        if rx == 0 {
            self.cond_branch16(inst, self.r[24] == 0, sign_ext8(m_imm8(inst)))
        } else if rx == 1 {
            self.cond_branch16(inst, self.r[24] != 0, sign_ext8(m_imm8(inst)))
        } else if rx == 3 {
            self.write_next16(
                inst,
                29,
                self.r[29].wrapping_add(m_imm(inst, sign_ext8(m_imm8(inst)) << 3)),
            )
        } else if rx == 5 {
            (
                self.with_gpr(
                    (m_ry(inst) | (m_funct5(inst) & 0x18)) as int,
                    self.r[spec_xlat(m_funct5(inst) & 0x7)],
                ).next_pc(2),
                true,
            )
        } else if rx == 7 {
            (self.with_gpr(spec_xlat(m_ry(inst)), self.r[m_funct5(inst) as int]).next_pc(2), true)
        } else {
            (self, false)
        }
    }

    /// ADDU and SUBU with three registers.
    pub open spec fn rrr16(self, inst: u32) -> (Reg, bool) {
        let x = self.r[spec_xlat(m_rx(inst))];
        let y = self.r[spec_xlat(m_ry(inst))];
        let zr = spec_xlat(m_rz(inst));
        if inst & 3 == 1 {
            (self.with_gpr(zr, x.wrapping_add(y)).next_pc(2), true)
        } else if inst & 3 == 3 {
            (self.with_gpr(zr, x.wrapping_sub(y)).next_pc(2), true)
        } else {
            (self, false)
        }
    }

    /// The jumps through a register. JR and JALR have a delay slot; JRC and
    /// JALRC have none and jump at once. Bit 0 of the target is kept: it is
    /// the instruction set mode at the target.
    pub open spec fn jr16(self, inst: u32) -> (Reg, bool) {
        let ry = m_ry(inst);
        let x = self.r[spec_xlat(m_rx(inst))];
        if ry == 2 {
            (self.with_gpr(31, self.pc.wrapping_add(4)).branch_delayed(2, x), true)
        } else if ry == 6 {
            (self.with_gpr(31, self.pc.wrapping_add(2)).jump(x), true)
        } else if ry == 4 {
            (self.jump(x), true)
        } else if ry == 5 {
            (self.jump(self.r[31]), true)
        } else if ry == 0 {
            (self.branch_delayed(2, x), true)
        } else if ry == 1 {
            (self.branch_delayed(2, self.r[31]), true)
        } else {
            (self, false)
        }
    }

    /// The conversions: zero and sign extension of a byte or a halfword.
    pub open spec fn cnvt16(self, inst: u32) -> (Reg, bool) {
        let ry = m_ry(inst);
        let xr = spec_xlat(m_rx(inst));
        let x = self.r[xr];
        if ry == 0 {
            (self.with_gpr(xr, zero_ext8(x)).next_pc(2), true)
        } else if ry == 1 {
            (self.with_gpr(xr, zero_ext16(x)).next_pc(2), true)
        } else if ry == 4 {
            (self.with_gpr(xr, sign_ext8(x)).next_pc(2), true)
        } else if ry == 5 {
            (self.with_gpr(xr, sign_ext16(x)).next_pc(2), true)
        } else {
            (self, false)
        }
    }

    /// The instructions of the RR opcode other than jumps and conversions.
    pub open spec fn rr_alu16(self, inst: u32) -> (Reg, bool) {
        let f = m_funct5(inst);
        let xr = spec_xlat(m_rx(inst));
        let yr = spec_xlat(m_ry(inst));
        let x = self.r[xr];
        let y = self.r[yr];
        if f == MIPS16E_RRFUNCT_SLT {
            (self.with_gpr(24, slt(x, y)).next_pc(2), true)
        } else if f == MIPS16E_RRFUNCT_SLTU {
            (self.with_gpr(24, sltu(x, y)).next_pc(2), true)
        } else if f == MIPS16E_RRFUNCT_SLLV {
            (self.with_gpr(yr, y << (x & 0x1f)).next_pc(2), true)
        } else if f == MIPS16E_RRFUNCT_SRLV {
            (self.with_gpr(yr, y >> (x & 0x1f)).next_pc(2), true)
        } else if f == MIPS16E_RRFUNCT_SRAV {
            (self.with_gpr(yr, spec_sra(y, x & 0x1f)).next_pc(2), true)
        } else if f == MIPS16E_RRFUNCT_CMP {
            (self.with_gpr(24, x ^ y).next_pc(2), true)
        } else if f == MIPS16E_RRFUNCT_NEG {
            (self.with_gpr(xr, 0u32.wrapping_sub(y)).next_pc(2), true)
        } else if f == MIPS16E_RRFUNCT_AND {
            (self.with_gpr(xr, x & y).next_pc(2), true)
        } else if f == MIPS16E_RRFUNCT_OR {
            (self.with_gpr(xr, x | y).next_pc(2), true)
        } else if f == MIPS16E_RRFUNCT_XOR {
            (self.with_gpr(xr, x ^ y).next_pc(2), true)
        } else if f == MIPS16E_RRFUNCT_NOT {
            (self.with_gpr(xr, !y).next_pc(2), true)
        } else if f == MIPS16E_RRFUNCT_MFHI {
            (self.with_gpr(xr, self.hi).next_pc(2), true)
        } else if f == MIPS16E_RRFUNCT_MFLO {
            (self.with_gpr(xr, self.lo).next_pc(2), true)
        } else if f == MIPS16E_RRFUNCT_MULT {
            (
                Reg {
                    hi: (mul_signed(x, y) >> 32) as u32,
                    lo: mul_signed(x, y) as u32,
                    ..self
                }.next_pc(2),
                true,
            )
        } else if f == MIPS16E_RRFUNCT_MULTU {
            (
                Reg {
                    hi: (mul_unsigned(x, y) >> 32) as u32,
                    lo: mul_unsigned(x, y) as u32,
                    ..self
                }.next_pc(2),
                true,
            )
        } else if f == MIPS16E_RRFUNCT_DIV {
            (Reg { lo: div_lo(x, y), hi: div_hi(x, y), ..self }.next_pc(2), true)
        } else if f == MIPS16E_RRFUNCT_DIVU {
            (Reg { lo: divu_lo(x, y), hi: divu_hi(x, y), ..self }.next_pc(2), true)
        } else {
            (self, false)
        }
    }

    /// The instructions of the RR opcode.
    pub open spec fn rr16(self, inst: u32) -> (Reg, bool) {
        let f = m_funct5(inst);
        if f == MIPS16E_RRFUNCT_JR {
            self.jr16(inst)
        } else if f == MIPS16E_RRFUNCT_CNVT {
            self.cnvt16(inst)
        } else {
            self.rr_alu16(inst)
        }
    }
}

/// What a MIPS16e load leaves in its register, given the loaded value.
pub open spec fn spec_load_value16(op5: u32, data: u32) -> u32 {
    if op5 == MIPS16E_OP_LB {
        sign_ext8(data)
    } else if op5 == MIPS16E_OP_LH {
        sign_ext16(data)
    } else if op5 == MIPS16E_OP_LBU {
        zero_ext8(data)
    } else if op5 == MIPS16E_OP_LHU {
        zero_ext16(data)
    } else {
        data
    }
}

/// The general-purpose register that number `idx` of the extended save
/// registers stands for: $s2 to $s7, then $fp.
pub open spec fn spec_xs_reg(idx: int) -> int {
    if idx == 7 {
        30
    } else {
        17 + idx
    }
}

impl MachineView {
    /// The end of a MIPS16e instruction after its memory accesses: the
    /// fault, if there was one, is taken; else the instruction ends.
    pub open spec fn finish16(self, inst: u32, fault: Option<(u32, u32)>) -> MachineView {
        match fault {
            Some(f) => self.with_reg(self.reg.prepare_exception(f.0, f.1)),
            None => self.with_reg(self.reg.next16(inst)),
        }
    }

    /// The address of a MIPS16e load or store.
    pub open spec fn mem_addr16(&self, inst: u32) -> u32 {
        let op5 = m_op5(inst);
        let x = self.reg.r[spec_xlat(m_rx(inst))];
        if op5 == MIPS16E_OP_LB || op5 == MIPS16E_OP_LBU || op5 == MIPS16E_OP_SB {
            x.wrapping_add(m_offset(inst, 0))
        } else if op5 == MIPS16E_OP_LH || op5 == MIPS16E_OP_LHU || op5 == MIPS16E_OP_SH {
            x.wrapping_add(m_offset(inst, 1))
        } else if op5 == MIPS16E_OP_LW || op5 == MIPS16E_OP_SW {
            x.wrapping_add(m_offset(inst, 2))
        } else if op5 == MIPS16E_OP_LWPC {
            self.reg.pc_base16(inst).wrapping_add(m_imm(inst, zero_ext8(m_imm8(inst)) << 2))
        } else {
            self.reg.r[29].wrapping_add(m_imm(inst, zero_ext8(m_imm8(inst)) << 2))
        }
    }

    /// The loads of MIPS16e.
    pub open spec fn load16(self, inst: u32) -> MachineView {
        let op5 = m_op5(inst);
        let addr = self.mem_addr16(inst);
        let rd = if op5 == MIPS16E_OP_LWSP || op5 == MIPS16E_OP_LWPC {
            spec_xlat(m_rx(inst))
        } else {
            spec_xlat(m_ry(inst))
        };
        let r = if op5 == MIPS16E_OP_LB || op5 == MIPS16E_OP_LBU {
            self.load_byte(addr)
        } else if op5 == MIPS16E_OP_LH || op5 == MIPS16E_OP_LHU {
            self.load_halfword(addr)
        } else {
            self.load_word(addr)
        };
        match r.1 {
            Ok(data) => r.0.with_reg(
                r.0.reg.with_gpr(rd, spec_load_value16(op5, data)).next16(inst),
            ),
            Err(e) => r.0.with_reg(r.0.reg.prepare_exception(e, addr)),
        }
    }

    /// The stores of MIPS16e, and the store of the return address relative
    /// to the stack pointer.
    pub open spec fn store16(self, inst: u32) -> MachineView {
        let op5 = m_op5(inst);
        let addr = self.mem_addr16(inst);
        let x = self.reg.r[spec_xlat(m_rx(inst))];
        let y = self.reg.r[spec_xlat(m_ry(inst))];
        let s = if op5 == MIPS16E_OP_SB {
            self.store_byte(addr, y as u8)
        } else if op5 == MIPS16E_OP_SH {
            self.store_halfword(addr, y)
        } else if op5 == MIPS16E_OP_SW {
            self.store_word(addr, y)
        } else if op5 == MIPS16E_OP_SWSP {
            self.store_word(addr, x)
        } else {
            self.store_word(addr, self.reg.r[31])
        };
        match s.1 {
            Ok(_) => s.0.with_reg(s.0.reg.next16(inst)),
            Err(e) => s.0.with_reg(s.0.reg.prepare_exception(e, addr)),
        }
    }

    /// A run of `n` word stores: register `first` goes to `addr`, the next
    /// register (`rstep` further) to the next address (`astep` further), and
    /// so on. The run ends at the first fault. Gives the machine, the fault,
    /// and the address after the last store.
    pub open spec fn store_run(self, first: int, rstep: int, n: nat, addr: u32, astep: u32) -> (
        MachineView,
        Option<(u32, u32)>,
        u32,
    )
        decreases n,
    {
        if n == 0 {
            (self, None, addr)
        } else {
            let s = self.store_word(addr, self.reg.r[first]);
            match s.1 {
                Ok(_) => s.0.store_run(
                    first + rstep,
                    rstep,
                    (n - 1) as nat,
                    addr.wrapping_add(astep),
                    astep,
                ),
                Err(e) => (s.0, Some((e, addr)), addr),
            }
        }
    }

    /// A run of `n` word loads, as `store_run`.
    pub open spec fn load_run(self, first: int, rstep: int, n: nat, addr: u32, astep: u32) -> (
        MachineView,
        Option<(u32, u32)>,
        u32,
    )
        decreases n,
    {
        if n == 0 {
            (self, None, addr)
        } else {
            let l = self.load_word(addr);
            match l.1 {
                Ok(data) => l.0.with_reg(l.0.reg.with_gpr(first, data)).load_run(
                    first + rstep,
                    rstep,
                    (n - 1) as nat,
                    addr.wrapping_add(astep),
                    astep,
                ),
                Err(e) => (l.0, Some((e, addr)), addr),
            }
        }
    }
}

/// One more run of stores after what came before, unless that faulted.
pub open spec fn then_store(
    prev: (MachineView, Option<(u32, u32)>, u32),
    first: int,
    rstep: int,
    n: nat,
) -> (MachineView, Option<(u32, u32)>, u32) {
    if prev.1 is Some {
        prev
    } else {
        prev.0.store_run(first, rstep, n, prev.2, 0xfffffffc)
    }
}

/// One more run of loads after what came before, unless that faulted.
pub open spec fn then_load(
    prev: (MachineView, Option<(u32, u32)>, u32),
    first: int,
    rstep: int,
    n: nat,
) -> (MachineView, Option<(u32, u32)>, u32) {
    if prev.1 is Some {
        prev
    } else {
        prev.0.load_run(first, rstep, n, prev.2, 0xfffffffc)
    }
}

/// 1 if the flag is set, else 0.
pub open spec fn count_of(flag: bool) -> nat {
    if flag {
        1
    } else {
        0
    }
}

/// The frame size field of SAVE and RESTORE, in units of 8 bytes. The plain
/// form has 4 bits, in which 0 stands for 16.
pub open spec fn m_frame_bytes(inst: u32) -> u32 {
    if m_prefix(inst) {
        ((inst & 0x0f) | ((inst >> 16) & 0xf0)) << 3
    } else if inst & 0x0f == 0 {
        128
    } else {
        (inst & 0x0f) << 3
    }
}

/// Number of extended save registers of SAVE and RESTORE.
pub open spec fn m_xsregs(inst: u32) -> u32 {
    if m_prefix(inst) {
        (inst >> 24) & 0x7
    } else {
        0
    }
}

/// The `aregs` field of SAVE and RESTORE.
pub open spec fn m_aregs(inst: u32) -> u32 {
    if m_prefix(inst) {
        (inst >> 16) & 0xf
    } else {
        0
    }
}

impl MachineView {
    /// The registers that SAVE pushes and RESTORE pops, downwards from
    /// `top`: the return address, the extended save registers from the
    /// highest on, $s1, $s0 and the static argument registers from $a3 on,
    /// each only if the instruction names it. Gives the machine, the fault
    /// of the first store that failed, and the address below the last one.
    pub open spec fn frame_stores(self, inst: u32, top: u32) -> (
        MachineView,
        Option<(u32, u32)>,
        u32,
    ) {
        let xs = m_xsregs(inst) as int;
        let c0 = (self, None::<(u32, u32)>, top.wrapping_sub(4));
        let c1 = then_store(c0, 31, 0, count_of(inst & 0x40 != 0));
        let c2 = then_store(c1, 30, 0, count_of(xs == 7));
        let c3 = then_store(
            c2,
            if xs == 7 {
                23
            } else {
                17 + xs
            },
            -1,
            if xs == 7 {
                6
            } else {
                xs as nat
            },
        );
        let c4 = then_store(c3, 17, 0, count_of(inst & 0x10 != 0));
        let c5 = then_store(c4, 16, 0, count_of(inst & 0x20 != 0));
        then_store(c5, 7, -1, spec_save_statics(m_aregs(inst)) as nat)
    }

    /// As `frame_stores`, with loads.
    pub open spec fn frame_loads(self, inst: u32, top: u32) -> (
        MachineView,
        Option<(u32, u32)>,
        u32,
    ) {
        let xs = m_xsregs(inst) as int;
        let c0 = (self, None::<(u32, u32)>, top.wrapping_sub(4));
        let c1 = then_load(c0, 31, 0, count_of(inst & 0x40 != 0));
        let c2 = then_load(c1, 30, 0, count_of(xs == 7));
        let c3 = then_load(
            c2,
            if xs == 7 {
                23
            } else {
                17 + xs
            },
            -1,
            if xs == 7 {
                6
            } else {
                xs as nat
            },
        );
        let c4 = then_load(c3, 17, 0, count_of(inst & 0x10 != 0));
        let c5 = then_load(c4, 16, 0, count_of(inst & 0x20 != 0));
        then_load(c5, 7, -1, spec_save_statics(m_aregs(inst)) as nat)
    }

    /// SAVE: the argument registers that the instruction names go to the
    /// caller's frame, upwards from the stack pointer; the registers to save
    /// go below the stack pointer; then the stack pointer drops by the frame
    /// size. A fault ends the instruction with the exception.
    pub open spec fn save16(self, inst: u32) -> MachineView {
        let sp = self.reg.r[29];
        let a = self.store_run(4, 1, spec_save_args(m_aregs(inst)) as nat, sp, 4);
        let c = if a.1 is Some {
            a
        } else {
            a.0.frame_stores(inst, sp)
        };
        match c.1 {
            Some(f) => c.0.with_reg(c.0.reg.prepare_exception(f.0, f.1)),
            None => c.0.with_reg(
                c.0.reg.with_gpr(29, sp.wrapping_sub(m_frame_bytes(inst))).next16(inst),
            ),
        }
    }

    /// RESTORE: the saved registers come back from below the top of the
    /// frame, then the stack pointer rises by the frame size.
    pub open spec fn restore16(self, inst: u32) -> MachineView {
        let top = self.reg.r[29].wrapping_add(m_frame_bytes(inst));
        let c = self.frame_loads(inst, top);
        match c.1 {
            Some(f) => c.0.with_reg(c.0.reg.prepare_exception(f.0, f.1)),
            None => c.0.with_reg(c.0.reg.with_gpr(29, top).next16(inst)),
        }
    }

    /// The instructions of the I8 opcode.
    pub open spec fn i8_16(self, inst: u32) -> (MachineView, bool) {
        let rx = m_rx(inst);
        if rx == 2 {
            (self.store16(inst), true)
        } else if rx == 4 {
            if inst & 0x80 != 0 {
                (self.save16(inst), true)
            } else {
                (self.restore16(inst), true)
            }
        } else {
            (self.with_reg(self.reg.i8_reg(inst).0), self.reg.i8_reg(inst).1)
        }
    }

    /// The machine after the MIPS16e instruction `inst` was executed. The
    /// flag is false for an encoding that is not known: the machine is then
    /// unchanged and the run ends.
    pub open spec fn exec16(self, inst: u32) -> (MachineView, bool) {
        let op5 = m_op5(inst);
        if inst >> 27 == MIPS16E_OP_JAL {
            (self.with_reg(self.reg.jal16(inst).0), self.reg.jal16(inst).1)
        } else if op5 == MIPS16E_OP_ADDIUSP || op5 == MIPS16E_OP_ADDIUPC || op5
            == MIPS16E_OP_SHIFT || op5 == MIPS16E_OP_RRIA || op5 == MIPS16E_OP_ADDIU8 || op5
            == MIPS16E_OP_SLTI || op5 == MIPS16E_OP_SLTIU || op5 == MIPS16E_OP_LI || op5
            == MIPS16E_OP_CMPI {
            (self.with_reg(self.reg.alu16(inst).0), self.reg.alu16(inst).1)
        } else if op5 == MIPS16E_OP_B || op5 == MIPS16E_OP_BEQZ || op5 == MIPS16E_OP_BNEZ {
            (self.with_reg(self.reg.branch16(inst).0), self.reg.branch16(inst).1)
        } else if op5 == MIPS16E_OP_I8 {
            self.i8_16(inst)
        } else if op5 == MIPS16E_OP_LB || op5 == MIPS16E_OP_LH || op5 == MIPS16E_OP_LWSP || op5
            == MIPS16E_OP_LW || op5 == MIPS16E_OP_LBU || op5 == MIPS16E_OP_LHU || op5
            == MIPS16E_OP_LWPC {
            (self.load16(inst), true)
        } else if op5 == MIPS16E_OP_SB || op5 == MIPS16E_OP_SH || op5 == MIPS16E_OP_SWSP || op5
            == MIPS16E_OP_SW {
            (self.store16(inst), true)
        } else if op5 == MIPS16E_OP_RRR {
            (self.with_reg(self.reg.rrr16(inst).0), self.reg.rrr16(inst).1)
        } else if op5 == MIPS16E_OP_RR {
            (self.with_reg(self.reg.rr16(inst).0), self.reg.rr16(inst).1)
        } else {
            (self, false)
        }
    }
}


fn next16(reg: &mut Reg, inst: u32) -> (ok: bool)
    ensures
        *final(reg) == old(reg).next16(inst),
        ok,
{
    if inst & 0xffff0000 != 0 {
        update_pc_next32(reg);
    } else {
        update_pc_next16(reg);
    }
    true
}

fn write_next16(reg: &mut Reg, inst: u32, rd: usize, v: u32) -> (ok: bool)
    requires
        rd < 32,
    ensures
        (*final(reg), ok) == old(reg).write_next16(inst, rd as int, v),
{
    reg.r[rd] = v;
    next16(reg, inst)
}

fn write_plain16(reg: &mut Reg, rd: usize, v: u32) -> (ok: bool)
    requires
        rd < 32,
    ensures
        *final(reg) == old(reg).with_gpr(rd as int, v).next_pc(2),
        ok,
{
    reg.r[rd] = v;
    update_pc_next16(reg);
    true
}

fn cond_branch16(reg: &mut Reg, inst: u32, taken: bool, short: u32) -> (ok: bool)
    ensures
        (*final(reg), ok) == old(reg).cond_branch16(inst, taken, short),
{
    if taken {
        let len: u32 = if inst & 0xffff0000 != 0 {
            4
        } else {
            2
        };
        let t = reg.pc.wrapping_add(imm_of(inst, short) << 1).wrapping_add(len);
        update_pc_imm(reg, t);
        true
    } else {
        next16(reg, inst)
    }
}

fn pc_base16(reg: &Reg, inst: u32) -> (b: u32)
    ensures
        b == reg.pc_base16(inst),
{
    (if !(inst & 0xffff0000 != 0) && reg.delay_en {
        reg.pc_prev_jump
    } else {
        reg.pc
    }) & 0xfffffffc
}

fn jal16(reg: &mut Reg, inst: u32) -> (ok: bool)
    ensures
        (*final(reg), ok) == old(reg).jal16(inst),
{
    let jumpaddr: u32 = (inst & 0xffff) | (((inst >> 21) & 0x1f) << 16) | (((inst >> 16) & 0x1f)
        << 21);
    let target = (reg.pc.wrapping_add(4) & 0xf0000000).wrapping_add(jumpaddr << 2);
    reg.r[31] = reg.pc.wrapping_add(6);
    if inst & 0x04000000 != 0 {
        update_pc_next32_with_delayed_imm(reg, target);
    } else {
        update_pc_next32_with_delayed_imm(reg, target.wrapping_add(1));
    }
    true
}

fn alu16(reg: &mut Reg, inst: u32) -> (ok: bool)
    requires
        ({
            let op5 = m_op5(inst);
            op5 == MIPS16E_OP_ADDIUSP || op5 == MIPS16E_OP_ADDIUPC || op5 == MIPS16E_OP_SHIFT
                || op5 == MIPS16E_OP_RRIA || op5 == MIPS16E_OP_ADDIU8 || op5 == MIPS16E_OP_SLTI
                || op5 == MIPS16E_OP_SLTIU || op5 == MIPS16E_OP_LI || op5 == MIPS16E_OP_CMPI
        }),
    ensures
        (*final(reg), ok) == old(reg).alu16(inst),
{
    let d = decode16(inst);
    let op5 = d.op5;
    let x = reg.r[d.xr];
    let y = reg.r[d.yr];
    if op5 == MIPS16E_OP_ADDIUSP {
        let v = reg.r[29].wrapping_add(imm_of(inst, zero_ext8(d.imm8) << 2));
        write_next16(reg, inst, d.xr, v)
    } else if op5 == MIPS16E_OP_ADDIUPC {
        let v = pc_base16(reg, inst).wrapping_add(imm_of(inst, zero_ext8(d.imm8) << 2));
        write_next16(reg, inst, d.xr, v)
    } else if op5 == MIPS16E_OP_SHIFT {
        let sa = sa_of(inst);
        if d.funct5 & 3 == 0 {
            write_next16(reg, inst, d.xr, y << sa)
        } else if d.funct5 & 3 == 2 {
            write_next16(reg, inst, d.xr, y >> sa)
        } else if d.funct5 & 3 == 3 {
            write_next16(reg, inst, d.xr, sra(y, sa))
        } else {
            false
        }
    } else if op5 == MIPS16E_OP_RRIA {
        if inst & 0x10 != 0 {
            false
        } else if d.prefix {
            write_next16(reg, inst, d.yr, x.wrapping_add(sign_ext15(d.imm15)))
        } else {
            write_next16(reg, inst, d.yr, x.wrapping_add(sign_ext4(inst & 0xf)))
        }
    } else if op5 == MIPS16E_OP_ADDIU8 {
        write_next16(reg, inst, d.xr, x.wrapping_add(imm_of(inst, sign_ext8(d.imm8))))
    } else if op5 == MIPS16E_OP_SLTI {
        write_next16(reg, inst, 24, slt(x, imm_of(inst, zero_ext8(d.imm8))))
    } else if op5 == MIPS16E_OP_SLTIU {
        write_next16(reg, inst, 24, sltu(x, imm_of(inst, zero_ext8(d.imm8))))
    } else if op5 == MIPS16E_OP_LI {
        let v = if d.prefix {
            zero_ext16(d.imm16)
        } else {
            zero_ext8(d.imm8)
        };
        write_next16(reg, inst, d.xr, v)
    } else {
        let v = if d.prefix {
            zero_ext16(d.imm16)
        } else {
            zero_ext8(d.imm8)
        };
        write_next16(reg, inst, 24, x ^ v)
    }
}

fn branch16(reg: &mut Reg, inst: u32) -> (ok: bool)
    ensures
        (*final(reg), ok) == old(reg).branch16(inst),
{
    let d = decode16(inst);
    let x = reg.r[d.xr];
    if d.op5 == MIPS16E_OP_B {
        cond_branch16(reg, inst, true, sign_ext11(inst & 0x7ff))
    } else if d.op5 == MIPS16E_OP_BEQZ {
        cond_branch16(reg, inst, x == 0, sign_ext8(d.imm8))
    } else {
        cond_branch16(reg, inst, x != 0, sign_ext8(d.imm8))
    }
}

fn i8_reg(reg: &mut Reg, inst: u32) -> (ok: bool)
    ensures
        (*final(reg), ok) == old(reg).i8_reg(inst),
{
    let d = decode16(inst);
    let rx = d.rx;
    if rx == 0 {
        let t = reg.r[24];
        cond_branch16(reg, inst, t == 0, sign_ext8(d.imm8))
    } else if rx == 1 {
        let t = reg.r[24];
        cond_branch16(reg, inst, t != 0, sign_ext8(d.imm8))
    } else if rx == 3 {
        let v = reg.r[29].wrapping_add(imm_of(inst, sign_ext8(d.imm8) << 3));
        write_next16(reg, inst, 29, v)
    } else if rx == 5 {
        let ry = d.ry;
        let funct5 = d.funct5;
        let r32: u32 = ry | (funct5 & 0x18);
        assert(r32 < 32) by (bit_vector)
            requires
                r32 == ry | (funct5 & 0x18),
                ry < 8,
        ;
        proof {
            lemma_and_le_u32(d.funct5, 0x7);
        }
        let v = reg.r[xlat(d.funct5 & 0x7)];
        write_plain16(reg, r32 as usize, v)
    } else if rx == 7 {
        let v = reg.r[d.funct5 as usize];
        write_plain16(reg, d.yr, v)
    } else {
        false
    }
}

fn rrr16(reg: &mut Reg, inst: u32) -> (ok: bool)
    ensures
        (*final(reg), ok) == old(reg).rrr16(inst),
{
    let d = decode16(inst);
    let x = reg.r[d.xr];
    let y = reg.r[d.yr];
    if inst & 3 == 1 {
        write_plain16(reg, d.zr, x.wrapping_add(y))
    } else if inst & 3 == 3 {
        write_plain16(reg, d.zr, x.wrapping_sub(y))
    } else {
        false
    }
}

fn jr16(reg: &mut Reg, inst: u32) -> (ok: bool)
    ensures
        (*final(reg), ok) == old(reg).jr16(inst),
{
    let d = decode16(inst);
    let x = reg.r[d.xr];
    let ry = d.ry;
    if ry == 2 {
        reg.r[31] = reg.pc.wrapping_add(4);
        update_pc_next16_with_delayed_imm(reg, x);
        true
    } else if ry == 6 {
        reg.r[31] = reg.pc.wrapping_add(2);
        update_pc_imm(reg, x);
        true
    } else if ry == 4 {
        update_pc_imm(reg, x);
        true
    } else if ry == 5 {
        let ra = reg.r[31];
        update_pc_imm(reg, ra);
        true
    } else if ry == 0 {
        update_pc_next16_with_delayed_imm(reg, x);
        true
    } else if ry == 1 {
        let ra = reg.r[31];
        update_pc_next16_with_delayed_imm(reg, ra);
        true
    } else {
        false
    }
}

fn cnvt16(reg: &mut Reg, inst: u32) -> (ok: bool)
    ensures
        (*final(reg), ok) == old(reg).cnvt16(inst),
{
    let d = decode16(inst);
    let x = reg.r[d.xr];
    let ry = d.ry;
    if ry == 0 {
        write_plain16(reg, d.xr, zero_ext8(x))
    } else if ry == 1 {
        write_plain16(reg, d.xr, zero_ext16(x))
    } else if ry == 4 {
        write_plain16(reg, d.xr, sign_ext8(x))
    } else if ry == 5 {
        write_plain16(reg, d.xr, sign_ext16(x))
    } else {
        false
    }
}

fn shift_amount16(a: u32) -> (s: u32)
    ensures
        s == a & 0x1f,
        s < 32,
{
    proof {
        lemma_and_le_u32(a, 0x1f);
    }
    a & 0x1f
}

fn rr_alu16(reg: &mut Reg, inst: u32) -> (ok: bool)
    ensures
        (*final(reg), ok) == old(reg).rr_alu16(inst),
{
    let d = decode16(inst);
    let f = d.funct5;
    let x = reg.r[d.xr];
    let y = reg.r[d.yr];
    if f == MIPS16E_RRFUNCT_SLT {
        write_plain16(reg, 24, slt(x, y))
    } else if f == MIPS16E_RRFUNCT_SLTU {
        write_plain16(reg, 24, sltu(x, y))
    } else if f == MIPS16E_RRFUNCT_SLLV {
        write_plain16(reg, d.yr, y << shift_amount16(x))
    } else if f == MIPS16E_RRFUNCT_SRLV {
        write_plain16(reg, d.yr, y >> shift_amount16(x))
    } else if f == MIPS16E_RRFUNCT_SRAV {
        write_plain16(reg, d.yr, sra(y, shift_amount16(x)))
    } else if f == MIPS16E_RRFUNCT_CMP {
        write_plain16(reg, 24, x ^ y)
    } else if f == MIPS16E_RRFUNCT_NEG {
        write_plain16(reg, d.xr, 0u32.wrapping_sub(y))
    } else if f == MIPS16E_RRFUNCT_AND {
        write_plain16(reg, d.xr, x & y)
    } else if f == MIPS16E_RRFUNCT_OR {
        write_plain16(reg, d.xr, x | y)
    } else if f == MIPS16E_RRFUNCT_XOR {
        write_plain16(reg, d.xr, x ^ y)
    } else if f == MIPS16E_RRFUNCT_NOT {
        write_plain16(reg, d.xr, !y)
    } else if f == MIPS16E_RRFUNCT_MFHI {
        let hi = reg.hi;
        write_plain16(reg, d.xr, hi)
    } else if f == MIPS16E_RRFUNCT_MFLO {
        let lo = reg.lo;
        write_plain16(reg, d.xr, lo)
    } else if f == MIPS16E_RRFUNCT_MULT {
        let p = mul_signed(x, y);
        reg.hi = (p >> 32) as u32;
        reg.lo = p as u32;
        update_pc_next16(reg);
        true
    } else if f == MIPS16E_RRFUNCT_MULTU {
        let p = mul_unsigned(x, y);
        reg.hi = (p >> 32) as u32;
        reg.lo = p as u32;
        update_pc_next16(reg);
        true
    } else if f == MIPS16E_RRFUNCT_DIV {
        reg.lo = div_lo(x, y);
        reg.hi = div_hi(x, y);
        update_pc_next16(reg);
        true
    } else if f == MIPS16E_RRFUNCT_DIVU {
        reg.lo = divu_lo(x, y);
        reg.hi = divu_hi(x, y);
        update_pc_next16(reg);
        true
    } else {
        false
    }
}

fn rr16(reg: &mut Reg, inst: u32) -> (ok: bool)
    ensures
        (*final(reg), ok) == old(reg).rr16(inst),
{
    let f = inst & 0x1f;
    if f == MIPS16E_RRFUNCT_JR {
        jr16(reg, inst)
    } else if f == MIPS16E_RRFUNCT_CNVT {
        cnvt16(reg, inst)
    } else {
        rr_alu16(reg, inst)
    }
}

#[verifier::when_used_as_spec(spec_load_value16)]
pub fn load_value16(op5: u32, data: u32) -> (v: u32)
    ensures
        v == spec_load_value16(op5, data),
{
    if op5 == MIPS16E_OP_LB {
        sign_ext8(data)
    } else if op5 == MIPS16E_OP_LH {
        sign_ext16(data)
    } else if op5 == MIPS16E_OP_LBU {
        zero_ext8(data)
    } else if op5 == MIPS16E_OP_LHU {
        zero_ext16(data)
    } else {
        data
    }
}

fn mem_addr16(ms: &MachineState, inst: u32) -> (addr: u32)
    ensures
        addr == ms@.mem_addr16(inst),
{
    let d = decode16(inst);
    let op5 = d.op5;
    let x = ms.reg.r[d.xr];
    if op5 == MIPS16E_OP_LB || op5 == MIPS16E_OP_LBU || op5 == MIPS16E_OP_SB {
        x.wrapping_add(offset_of(inst, 0))
    } else if op5 == MIPS16E_OP_LH || op5 == MIPS16E_OP_LHU || op5 == MIPS16E_OP_SH {
        x.wrapping_add(offset_of(inst, 1))
    } else if op5 == MIPS16E_OP_LW || op5 == MIPS16E_OP_SW {
        x.wrapping_add(offset_of(inst, 2))
    } else if op5 == MIPS16E_OP_LWPC {
        pc_base16(&ms.reg, inst).wrapping_add(imm_of(inst, zero_ext8(d.imm8) << 2))
    } else {
        ms.reg.r[29].wrapping_add(imm_of(inst, zero_ext8(d.imm8) << 2))
    }
}

fn finish16(ms: &mut MachineState, inst: u32, fault: Option<(u32, u32)>)
    ensures
        final(ms)@ == old(ms)@.finish16(inst, fault),
{
    match fault {
        Some(f) => {
            raise(&mut ms.reg, f.0, f.1);
        },
        None => {
            let _ = next16(&mut ms.reg, inst);
        },
    }
}

fn load16(ms: &mut MachineState, inst: u32)
    requires
        old(ms)@.wf(),
    ensures
        final(ms)@ == old(ms)@.load16(inst),
        final(ms)@.wf(),
{
    let d = decode16(inst);
    let op5 = d.op5;
    let addr = mem_addr16(ms, inst);
    let rd = if op5 == MIPS16E_OP_LWSP || op5 == MIPS16E_OP_LWPC {
        d.xr
    } else {
        d.yr
    };
    let r = if op5 == MIPS16E_OP_LB || op5 == MIPS16E_OP_LBU {
        crate::mem::load_byte(ms, addr)
    } else if op5 == MIPS16E_OP_LH || op5 == MIPS16E_OP_LHU {
        crate::mem::load_halfword(ms, addr)
    } else {
        crate::mem::load_word(ms, addr)
    };
    match r {
        Ok(data) => {
            ms.reg.r[rd] = load_value16(op5, data);
            let _ = next16(&mut ms.reg, inst);
        },
        Err(e) => {
            raise(&mut ms.reg, e, addr);
        },
    }
}

fn store16(ms: &mut MachineState, inst: u32)
    requires
        old(ms)@.wf(),
    ensures
        final(ms)@ == old(ms)@.store16(inst),
        final(ms)@.wf(),
{
    let d = decode16(inst);
    let op5 = d.op5;
    let addr = mem_addr16(ms, inst);
    let x = ms.reg.r[d.xr];
    let y = ms.reg.r[d.yr];
    let ra = ms.reg.r[31];
    let s = if op5 == MIPS16E_OP_SB {
        crate::mem::store_byte(ms, addr, y as u8)
    } else if op5 == MIPS16E_OP_SH {
        crate::mem::store_halfword(ms, addr, y)
    } else if op5 == MIPS16E_OP_SW {
        crate::mem::store_word(ms, addr, y)
    } else if op5 == MIPS16E_OP_SWSP {
        crate::mem::store_word(ms, addr, x)
    } else {
        crate::mem::store_word(ms, addr, ra)
    };
    match s {
        Ok(_) => {
            let _ = next16(&mut ms.reg, inst);
        },
        Err(e) => {
            raise(&mut ms.reg, e, addr);
        },
    }
}

/// Whether `n` registers from `first` on, `rstep` apart, are all registers
/// of the file.
pub open spec fn run_in_file(first: int, rstep: int, n: int) -> bool {
    &&& -1 <= rstep <= 1
    &&& 0 <= n
    &&& 0 <= first < 32
    &&& rstep == 1 ==> first + n <= 32
    &&& rstep == -1 ==> first + 1 >= n
}

fn store_run(ms: &mut MachineState, first: usize, rstep: i32, n: u32, addr: u32, astep: u32) -> (r:
    (Option<(u32, u32)>, u32))
    requires
        old(ms)@.wf(),
        run_in_file(first as int, rstep as int, n as int),
    ensures
        (final(ms)@, r.0, r.1) == old(ms)@.store_run(
            first as int,
            rstep as int,
            n as nat,
            addr,
            astep,
        ),
        final(ms)@.wf(),
{
    let mut cur: i32 = first as i32;
    let mut rem: u32 = n;
    let mut a: u32 = addr;
    while rem > 0
        invariant
            ms@.wf(),
            -1 <= rstep <= 1,
            rem == 0 || run_in_file(cur as int, rstep as int, rem as int),
            -1 <= cur <= 32,
            old(ms)@.store_run(first as int, rstep as int, n as nat, addr, astep) == ms@.store_run(
                cur as int,
                rstep as int,
                rem as nat,
                a,
                astep,
            ),
        decreases rem,
    {
        let v = ms.reg.r[cur as usize];
        match crate::mem::store_word(ms, a, v) {
            Ok(_) => {},
            Err(e) => {
                return (Some((e, a)), a);
            },
        }
        cur = cur + rstep;
        rem = rem - 1;
        a = a.wrapping_add(astep);
    }
    (None, a)
}

fn load_run(ms: &mut MachineState, first: usize, rstep: i32, n: u32, addr: u32, astep: u32) -> (r:
    (Option<(u32, u32)>, u32))
    requires
        old(ms)@.wf(),
        run_in_file(first as int, rstep as int, n as int),
    ensures
        (final(ms)@, r.0, r.1) == old(ms)@.load_run(
            first as int,
            rstep as int,
            n as nat,
            addr,
            astep,
        ),
        final(ms)@.wf(),
{
    let mut cur: i32 = first as i32;
    let mut rem: u32 = n;
    let mut a: u32 = addr;
    while rem > 0
        invariant
            ms@.wf(),
            -1 <= rstep <= 1,
            rem == 0 || run_in_file(cur as int, rstep as int, rem as int),
            -1 <= cur <= 32,
            old(ms)@.load_run(first as int, rstep as int, n as nat, addr, astep) == ms@.load_run(
                cur as int,
                rstep as int,
                rem as nat,
                a,
                astep,
            ),
        decreases rem,
    {
        match crate::mem::load_word(ms, a) {
            Ok(data) => {
                ms.reg.r[cur as usize] = data;
            },
            Err(e) => {
                return (Some((e, a)), a);
            },
        }
        cur = cur + rstep;
        rem = rem - 1;
        a = a.wrapping_add(astep);
    }
    (None, a)
}

fn then_store_run(
    ms: &mut MachineState,
    fault: Option<(u32, u32)>,
    addr: u32,
    first: usize,
    rstep: i32,
    n: u32,
) -> (r: (Option<(u32, u32)>, u32))
    requires
        old(ms)@.wf(),
        run_in_file(first as int, rstep as int, n as int),
    ensures
        (final(ms)@, r.0, r.1) == then_store(
            (old(ms)@, fault, addr),
            first as int,
            rstep as int,
            n as nat,
        ),
        final(ms)@.wf(),
{
    if fault.is_some() {
        (fault, addr)
    } else {
        store_run(ms, first, rstep, n, addr, 0xfffffffc)
    }
}

fn then_load_run(
    ms: &mut MachineState,
    fault: Option<(u32, u32)>,
    addr: u32,
    first: usize,
    rstep: i32,
    n: u32,
) -> (r: (Option<(u32, u32)>, u32))
    requires
        old(ms)@.wf(),
        run_in_file(first as int, rstep as int, n as int),
    ensures
        (final(ms)@, r.0, r.1) == then_load(
            (old(ms)@, fault, addr),
            first as int,
            rstep as int,
            n as nat,
        ),
        final(ms)@.wf(),
{
    if fault.is_some() {
        (fault, addr)
    } else {
        load_run(ms, first, rstep, n, addr, 0xfffffffc)
    }
}

fn flag_count(flag: bool) -> (n: u32)
    ensures
        n == count_of(flag),
{
    if flag {
        1
    } else {
        0
    }
}

fn frame_bytes(inst: u32) -> (b: u32)
    ensures
        b == m_frame_bytes(inst),
{
    if inst & 0xffff0000 != 0 {
        ((inst & 0x0f) | ((inst >> 16) & 0xf0)) << 3
    } else if inst & 0x0f == 0 {
        128
    } else {
        (inst & 0x0f) << 3
    }
}

fn xsregs_of(inst: u32) -> (n: u32)
    ensures
        n == m_xsregs(inst),
        n <= 7,
{
    proof {
        lemma_and_le_u32(inst >> 24, 0x7);
    }
    if inst & 0xffff0000 != 0 {
        (inst >> 24) & 0x7
    } else {
        0
    }
}

fn aregs_of(inst: u32) -> (n: u32)
    ensures
        n == m_aregs(inst),
{
    if inst & 0xffff0000 != 0 {
        (inst >> 16) & 0xf
    } else {
        0
    }
}

fn frame_stores(ms: &mut MachineState, inst: u32, top: u32) -> (r: (Option<(u32, u32)>, u32))
    requires
        old(ms)@.wf(),
    ensures
        (final(ms)@, r.0, r.1) == old(ms)@.frame_stores(inst, top),
        final(ms)@.wf(),
{
    let xs = xsregs_of(inst);
    let c1 = then_store_run(ms, None, top.wrapping_sub(4), 31, 0, flag_count(inst & 0x40 != 0));
    let c2 = then_store_run(ms, c1.0, c1.1, 30, 0, flag_count(xs == 7));
    let c3 = if xs == 7 {
        then_store_run(ms, c2.0, c2.1, 23, -1, 6)
    } else {
        then_store_run(ms, c2.0, c2.1, (17 + xs) as usize, -1, xs)
    };
    let c4 = then_store_run(ms, c3.0, c3.1, 17, 0, flag_count(inst & 0x10 != 0));
    let c5 = then_store_run(ms, c4.0, c4.1, 16, 0, flag_count(inst & 0x20 != 0));
    then_store_run(ms, c5.0, c5.1, 7, -1, save_statics(aregs_of(inst)))
}

fn frame_loads(ms: &mut MachineState, inst: u32, top: u32) -> (r: (Option<(u32, u32)>, u32))
    requires
        old(ms)@.wf(),
    ensures
        (final(ms)@, r.0, r.1) == old(ms)@.frame_loads(inst, top),
        final(ms)@.wf(),
{
    let xs = xsregs_of(inst);
    let c1 = then_load_run(ms, None, top.wrapping_sub(4), 31, 0, flag_count(inst & 0x40 != 0));
    let c2 = then_load_run(ms, c1.0, c1.1, 30, 0, flag_count(xs == 7));
    let c3 = if xs == 7 {
        then_load_run(ms, c2.0, c2.1, 23, -1, 6)
    } else {
        then_load_run(ms, c2.0, c2.1, (17 + xs) as usize, -1, xs)
    };
    let c4 = then_load_run(ms, c3.0, c3.1, 17, 0, flag_count(inst & 0x10 != 0));
    let c5 = then_load_run(ms, c4.0, c4.1, 16, 0, flag_count(inst & 0x20 != 0));
    then_load_run(ms, c5.0, c5.1, 7, -1, save_statics(aregs_of(inst)))
}

fn save16(ms: &mut MachineState, inst: u32)
    requires
        old(ms)@.wf(),
    ensures
        final(ms)@ == old(ms)@.save16(inst),
        final(ms)@.wf(),
{
    let sp = ms.reg.r[29];
    let a = store_run(ms, 4, 1, save_args(aregs_of(inst)), sp, 4);
    let c = if a.0.is_some() {
        a
    } else {
        frame_stores(ms, inst, sp)
    };
    match c.0 {
        Some(f) => {
            raise(&mut ms.reg, f.0, f.1);
        },
        None => {
            ms.reg.r[29] = sp.wrapping_sub(frame_bytes(inst));
            let _ = next16(&mut ms.reg, inst);
        },
    }
}

fn restore16(ms: &mut MachineState, inst: u32)
    requires
        old(ms)@.wf(),
    ensures
        final(ms)@ == old(ms)@.restore16(inst),
        final(ms)@.wf(),
{
    let top = ms.reg.r[29].wrapping_add(frame_bytes(inst));
    let c = frame_loads(ms, inst, top);
    match c.0 {
        Some(f) => {
            raise(&mut ms.reg, f.0, f.1);
        },
        None => {
            ms.reg.r[29] = top;
            let _ = next16(&mut ms.reg, inst);
        },
    }
}

fn i8_16(ms: &mut MachineState, inst: u32) -> (ok: bool)
    requires
        old(ms)@.wf(),
    ensures
        (final(ms)@, ok) == old(ms)@.i8_16(inst),
        final(ms)@.wf(),
{
    let rx = (inst >> 8) & 0x07;
    if rx == 2 {
        store16(ms, inst);
        true
    } else if rx == 4 {
        if inst & 0x80 != 0 {
            save16(ms, inst);
        } else {
            restore16(ms, inst);
        }
        true
    } else {
        i8_reg(&mut ms.reg, inst)
    }
}

/// Executes the MIPS16e instruction `inst`. Gives false for an encoding
/// that is not known; the machine is then unchanged.
pub fn exec(ms: &mut MachineState, inst: u32) -> (ok: bool)
    requires
        old(ms)@.wf(),
    ensures
        (final(ms)@, ok) == old(ms)@.exec16(inst),
        final(ms)@.wf(),
{
    let op5: u32 = (inst >> 11) & 0x1f;
    if (inst >> 27) == MIPS16E_OP_JAL {
        jal16(&mut ms.reg, inst)
    } else if op5 == MIPS16E_OP_ADDIUSP || op5 == MIPS16E_OP_ADDIUPC || op5 == MIPS16E_OP_SHIFT
        || op5 == MIPS16E_OP_RRIA || op5 == MIPS16E_OP_ADDIU8 || op5 == MIPS16E_OP_SLTI || op5
        == MIPS16E_OP_SLTIU || op5 == MIPS16E_OP_LI || op5 == MIPS16E_OP_CMPI {
        alu16(&mut ms.reg, inst)
    } else if op5 == MIPS16E_OP_B || op5 == MIPS16E_OP_BEQZ || op5 == MIPS16E_OP_BNEZ {
        branch16(&mut ms.reg, inst)
    } else if op5 == MIPS16E_OP_I8 {
        i8_16(ms, inst)
    } else if op5 == MIPS16E_OP_LB || op5 == MIPS16E_OP_LH || op5 == MIPS16E_OP_LWSP || op5
        == MIPS16E_OP_LW || op5 == MIPS16E_OP_LBU || op5 == MIPS16E_OP_LHU || op5
        == MIPS16E_OP_LWPC {
        load16(ms, inst);
        true
    } else if op5 == MIPS16E_OP_SB || op5 == MIPS16E_OP_SH || op5 == MIPS16E_OP_SWSP || op5
        == MIPS16E_OP_SW {
        store16(ms, inst);
        true
    } else if op5 == MIPS16E_OP_RRR {
        rrr16(&mut ms.reg, inst)
    } else if op5 == MIPS16E_OP_RR {
        rr16(&mut ms.reg, inst)
    } else {
        false
    }
}

} // verus!
