//! Invariants of instruction execution: register 0, the branch delay slot
//! and the link flag of LL/SC.
use vstd::prelude::*;
use crate::bits::lemma_and_le_u32;
use crate::cp0def::{
    mode_is_user,
    C0_STATUS,
    C0_STATUS_CU0,
    EXCEPT_CODE_COPROCESSOR_UNAVAIL,
    EXCEPT_CODE_INTEGER_OVERFLOW,
    EXCEPT_CODE_RESERVED_INSTRUCTION,
    EXCEPT_CODE_SYSCALL,
    EXCEPT_CODE_TRAP,
};
use crate::exec_mips16::{
    count_of,
    m_aregs,
    m_funct5,
    m_op5,
    m_rx,
    m_ry,
    m_rz,
    m_xsregs,
    spec_save_args,
    spec_save_statics,
    spec_xlat,
    then_load,
    then_store,
    MIPS16E_OP_I8,
};
use crate::exec_mips32::{
    f_funct,
    f_imm,
    f_op,
    f_rd,
    f_rs,
    f_rt,
    f_shamt,
    MIPS32_INST_EHB,
    MIPS32_INST_ERET,
    MIPS32_OP_ADDI,
    MIPS32_OP_ADDIU,
    MIPS32_OP_ANDI,
    MIPS32_OP_COP0,
    MIPS32_OP_JAL,
    MIPS32_OP_JALX,
    MIPS32_OP_LB,
    MIPS32_OP_LBU,
    MIPS32_OP_LH,
    MIPS32_OP_LHU,
    MIPS32_OP_LL,
    MIPS32_OP_LUI,
    MIPS32_OP_LW,
    MIPS32_OP_LWL,
    MIPS32_OP_LWR,
    MIPS32_OP_ORI,
    MIPS32_OP_REGIMM,
    MIPS32_OP_SC,
    MIPS32_OP_SLTI,
    MIPS32_OP_SLTIU,
    MIPS32_OP_SPECIAL,
    MIPS32_OP_SPECIAL2,
    MIPS32_OP_SPECIAL3,
    MIPS32_OP_XORI,
};
use crate::frame::{lemma_fetch_frame, lemma_load_frame, lemma_store_frame, same_core};
use crate::procstate::{MachineView, Reg};

verus! {

/// After the instruction no delay slot is armed, unless the instruction is
/// itself a taken branch that armed its own.
pub open spec fn slot_used(before: Reg, after: Reg) -> bool {
    !after.delay_en || after.pc_prev_jump == before.pc
}

/// What holds of an instruction: the link flag is `link`; if the
/// instruction is known, a delay slot armed before is used up; register 0
/// stays zero unless `dest0` says that the instruction names it as
/// destination.
pub open spec fn reg_step_ok(before: Reg, r: (Reg, bool), dest0: bool, link: bool) -> bool {
    &&& r.0.ll_sc == link
    &&& r.1 ==> slot_used(before, r.0)
    &&& !dest0 && before.r[0] == 0 ==> r.0.r[0] == 0
}

/// An exception keeps the general-purpose registers and the link flag and
/// gives up the delay slot.
pub proof fn lemma_exception_keeps(reg: Reg, ecode: u32, option: u32)
    ensures
        reg.prepare_exception(ecode, option).r == reg.r,
        reg.prepare_exception(ecode, option).hi == reg.hi,
        reg.prepare_exception(ecode, option).lo == reg.lo,
        reg.prepare_exception(ecode, option).ll_sc == reg.ll_sc,
        !reg.prepare_exception(ecode, option).delay_en,
{
    reveal(Reg::prepare_exception);
}

/// A store to a coprocessor-0 register keeps everything but coprocessor 0
/// and the time base of Count.
pub proof fn lemma_c0_store_keeps(reg: Reg, n: u64, rs: (u32, u32), v: u32)
    ensures
        reg.store(n, rs, v).r == reg.r,
        reg.store(n, rs, v).ll_sc == reg.ll_sc,
        reg.store(n, rs, v).delay_en == reg.delay_en,
        reg.store(n, rs, v).pc == reg.pc,
        reg.store(n, rs, v).pc_delay == reg.pc_delay,
        reg.store(n, rs, v).pc_prev_jump == reg.pc_prev_jump,
{
}

/// The general-purpose register that a MIPS32 instruction names as the
/// destination of its result, or -1 where it names none.
pub open spec fn dest_gpr32(inst: u32) -> int {
    let op = f_op(inst);
    let funct = f_funct(inst);
    if inst == 0 {
        -1
    } else if op == MIPS32_OP_SPECIAL {
        if inst != MIPS32_INST_EHB && (funct == 0x20 || funct == 0x21 || funct == 0x24 || funct
            == 0x09 || funct == 0x27 || funct == 0x25 || funct == 0x26 || funct == 0x2a || funct
            == 0x2b || funct == 0x0a || funct == 0x0b || funct == 0x00 || funct == 0x02 || funct
            == 0x03 || funct == 0x04 || funct == 0x06 || funct == 0x07 || funct == 0x22 || funct
            == 0x23 || funct == 0x10 || funct == 0x12) {
            f_rd(inst)
        } else {
            -1
        }
    } else if op == MIPS32_OP_ADDI || op == MIPS32_OP_ADDIU || op == MIPS32_OP_ANDI || op
        == MIPS32_OP_ORI || op == MIPS32_OP_XORI || op == MIPS32_OP_LUI || op == MIPS32_OP_SLTI
        || op == MIPS32_OP_SLTIU {
        f_rt(inst)
    } else if op == MIPS32_OP_JAL || op == MIPS32_OP_JALX {
        31
    } else if op == MIPS32_OP_REGIMM {
        if f_rt(inst) == 0x10 || f_rt(inst) == 0x11 {
            31
        } else {
            -1
        }
    } else if op == MIPS32_OP_LB || op == MIPS32_OP_LBU || op == MIPS32_OP_LH || op
        == MIPS32_OP_LHU || op == MIPS32_OP_LW || op == MIPS32_OP_LWL || op == MIPS32_OP_LWR || op
        == MIPS32_OP_LL || op == MIPS32_OP_SC {
        f_rt(inst)
    } else if op == MIPS32_OP_SPECIAL2 {
        if f_shamt(inst) == 0 && (funct == 0x02 || funct == 0x20 || funct == 0x21) {
            f_rd(inst)
        } else {
            -1
        }
    } else if op == MIPS32_OP_SPECIAL3 {
        if funct == 0x3b || funct == 0x00 || funct == 0x04 {
            f_rt(inst)
        } else if funct == 0x20 {
            f_rd(inst)
        } else {
            -1
        }
    } else if op == MIPS32_OP_COP0 {
        if f_rs(inst) == 0x00 || (f_rs(inst) == 0x0b && (f_imm(inst) == 0x6000 || f_imm(inst)
            == 0x6020)) {
            f_rt(inst)
        } else {
            -1
        }
    } else {
        -1
    }
}

proof fn lemma_fields32(inst: u32)
    ensures
        0 <= f_rs(inst) < 32,
        0 <= f_rt(inst) < 32,
        0 <= f_rd(inst) < 32,
{
    lemma_and_le_u32(inst >> 21, 0x1f);
    lemma_and_le_u32(inst >> 16, 0x1f);
    lemma_and_le_u32(inst >> 11, 0x1f);
}

proof fn lemma_write_checked(reg: Reg, rd: int, v: u32, overflow: bool)
    requires
        0 <= rd < 32,
    ensures
        reg_step_ok(reg, reg.write_checked(rd, v, overflow), rd == 0, reg.ll_sc),
        reg_step_ok(reg, reg.write_next(rd, v), rd == 0, reg.ll_sc),
        reg_step_ok(reg, reg.write_hilo(v as u64), false, reg.ll_sc),
{
    lemma_exception_keeps(reg.with_gpr(rd, v), EXCEPT_CODE_INTEGER_OVERFLOW, 0);
}

#[verifier::rlimit(40)]
proof fn lemma_special_arith(reg: Reg, inst: u32)
    requires
        ({
            let f = crate::exec_mips32::f_funct(inst);
            f == 0x20 || f == 0x21 || f == 0x24 || f == 0x08 || f == 0x09 || f == 0x27 || f == 0x25
                || f == 0x26 || f == 0x2a || f == 0x2b || f == 0x0a || f == 0x0b || f == 0x22 || f
                == 0x23
        }),
    ensures
        inst != 0 && f_op(inst) == MIPS32_OP_SPECIAL ==> reg_step_ok(
            reg,
            reg.special(inst),
            dest_gpr32(inst) == 0,
            reg.ll_sc,
        ),
{
    lemma_fields32(inst);
    assert(MIPS32_INST_EHB & 0x3f == 0) by (bit_vector);
    let rd = f_rd(inst);
    let a = reg.r[f_rs(inst)];
    let b = reg.r[f_rt(inst)];
    lemma_write_checked(reg, rd, a.wrapping_add(b), crate::exec_mips32::spec_add_overflows(a, b));
    lemma_write_checked(reg, rd, a.wrapping_sub(b), crate::exec_mips32::spec_sub_overflows(a, b));
}

#[verifier::rlimit(40)]
proof fn lemma_special_shift(reg: Reg, inst: u32)
    requires
        ({
            let f = crate::exec_mips32::f_funct(inst);
            f == 0x00 || f == 0x02 || f == 0x03 || f == 0x04 || f == 0x06 || f == 0x07 || f == 0x10
                || f == 0x11 || f == 0x12 || f == 0x13 || f == 0x18 || f == 0x19 || f == 0x1a || f
                == 0x1b
        }),
    ensures
        inst != 0 && f_op(inst) == MIPS32_OP_SPECIAL ==> reg_step_ok(
            reg,
            reg.special(inst),
            dest_gpr32(inst) == 0,
            reg.ll_sc,
        ),
{
    lemma_fields32(inst);
    assert(MIPS32_INST_EHB & 0x3f == 0) by (bit_vector);
}

#[verifier::rlimit(40)]
proof fn lemma_special_trap(reg: Reg, inst: u32)
    requires
        ({
            let f = crate::exec_mips32::f_funct(inst);
            !(f == 0x20 || f == 0x21 || f == 0x24 || f == 0x08 || f == 0x09 || f == 0x27 || f
                == 0x25 || f == 0x26 || f == 0x2a || f == 0x2b || f == 0x0a || f == 0x0b || f
                == 0x22 || f == 0x23) && !(f == 0x00 || f == 0x02 || f == 0x03 || f == 0x04 || f
                == 0x06 || f == 0x07 || f == 0x10 || f == 0x11 || f == 0x12 || f == 0x13 || f
                == 0x18 || f == 0x19 || f == 0x1a || f == 0x1b)
        }),
    ensures
        inst != 0 && f_op(inst) == MIPS32_OP_SPECIAL ==> reg_step_ok(
            reg,
            reg.special(inst),
            dest_gpr32(inst) == 0,
            reg.ll_sc,
        ),
{
    lemma_exception_keeps(reg, EXCEPT_CODE_SYSCALL, 0);
    lemma_exception_keeps(reg, EXCEPT_CODE_TRAP, 0);
}

proof fn lemma_special(reg: Reg, inst: u32)
    ensures
        inst != 0 && f_op(inst) == MIPS32_OP_SPECIAL ==> reg_step_ok(
            reg,
            reg.special(inst),
            dest_gpr32(inst) == 0,
            reg.ll_sc,
        ),
{
    let f = crate::exec_mips32::f_funct(inst);
    if f == 0x20 || f == 0x21 || f == 0x24 || f == 0x08 || f == 0x09 || f == 0x27 || f == 0x25 || f
        == 0x26 || f == 0x2a || f == 0x2b || f == 0x0a || f == 0x0b || f == 0x22 || f == 0x23 {
        lemma_special_arith(reg, inst);
    } else if f == 0x00 || f == 0x02 || f == 0x03 || f == 0x04 || f == 0x06 || f == 0x07 || f
        == 0x10 || f == 0x11 || f == 0x12 || f == 0x13 || f == 0x18 || f == 0x19 || f == 0x1a || f
        == 0x1b {
        lemma_special_shift(reg, inst);
    } else {
        lemma_special_trap(reg, inst);
    }
}

proof fn lemma_alu_imm(reg: Reg, inst: u32)
    ensures
        reg_step_ok(reg, reg.alu_imm(inst), f_rt(inst) == 0, reg.ll_sc),
{
    lemma_fields32(inst);
    let a = reg.r[f_rs(inst)];
    let imm = crate::exec_common::spec_sign_ext16(f_imm(inst));
    lemma_write_checked(
        reg,
        f_rt(inst),
        a.wrapping_add(imm),
        crate::exec_mips32::spec_add_overflows(a, imm),
    );
}

proof fn lemma_branch(reg: Reg, inst: u32)
    ensures
        reg_step_ok(reg, reg.branch(inst), false, reg.ll_sc),
        reg_step_ok(reg, reg.jump32(inst), false, reg.ll_sc),
{
}

#[verifier::rlimit(40)]
proof fn lemma_store_plain(m: MachineView, inst: u32)
    requires
        f_op(inst) != MIPS32_OP_SC,
    ensures
        reg_step_ok(m.reg, (m.store32(inst).reg, true), false, m.reg.ll_sc),
{
    lemma_fields32(inst);
    let b = m.reg.r[f_rt(inst)];
    let addr = m.mem_addr(inst);
    lemma_store_frame(m, addr, 1, (b as u8) as u32);
    assert(((b as u8) as u32) as u8 == b as u8) by (bit_vector);
    lemma_store_frame(m, addr, 2, 0xffff & b);
    lemma_store_frame(m, addr, 4, b);
    lemma_finish_store(m.reg, m.store_byte(addr, b as u8).0, m.store_byte(addr, b as u8).1, addr);
    lemma_finish_store(
        m.reg,
        m.store_halfword(addr, 0xffff & b).0,
        m.store_halfword(addr, 0xffff & b).1,
        addr,
    );
    lemma_finish_store(m.reg, m.store_word(addr, b).0, m.store_word(addr, b).1, addr);
    lemma_store_unaligned(m, inst);
}

proof fn lemma_regimm(reg: Reg, inst: u32)
    ensures
        reg_step_ok(reg, reg.regimm(inst), false, reg.ll_sc),
{
    lemma_exception_keeps(reg, EXCEPT_CODE_TRAP, 0);
}

proof fn lemma_special2(reg: Reg, inst: u32)
    ensures
        inst != 0 && f_op(inst) == MIPS32_OP_SPECIAL2 ==> reg_step_ok(
            reg,
            reg.special2(inst),
            dest_gpr32(inst) == 0,
            reg.ll_sc,
        ),
{
    lemma_fields32(inst);
    let x = inst;
    assert((x & 0xffff == 0 || x & 0xffff == 1 || x & 0xffff == 4 || x & 0xffff == 5) ==> x & 0x3f
        == x & 0xffff) by (bit_vector);
}

proof fn lemma_special3(reg: Reg, n: u64, inst: u32)
    ensures
        inst != 0 && f_op(inst) == MIPS32_OP_SPECIAL3 ==> reg_step_ok(
            reg,
            reg.special3(n, inst),
            dest_gpr32(inst) == 0,
            reg.ll_sc,
        ),
{
    lemma_fields32(inst);
    lemma_exception_keeps(reg, EXCEPT_CODE_RESERVED_INSTRUCTION, 0);
}

proof fn lemma_finish_load(
    before: Reg,
    m: MachineView,
    res: Result<u32, u32>,
    op: u32,
    rt: int,
    addr: u32,
    bad: u32,
)
    requires
        0 <= rt < 32,
        m.reg.r == before.r,
    ensures
        reg_step_ok(
            before,
            (m.finish_load(res, op, rt, addr, bad).reg, true),
            rt == 0,
            m.reg.ll_sc,
        ),
{
    if res is Err {
        lemma_exception_keeps(m.reg, res->Err_0, bad);
    }
}

proof fn lemma_finish_store(before: Reg, m: MachineView, res: Result<(), u32>, bad: u32)
    requires
        m.reg.r == before.r,
    ensures
        reg_step_ok(before, (m.finish_store(res, bad).reg, true), false, m.reg.ll_sc),
{
    if res is Err {
        lemma_exception_keeps(m.reg, res->Err_0, bad);
    }
}

#[verifier::rlimit(40)]
proof fn lemma_load32(m: MachineView, inst: u32)
    ensures
        reg_step_ok(
            m.reg,
            (m.load32(inst).reg, true),
            f_rt(inst) == 0,
            f_op(inst) == MIPS32_OP_LL || m.reg.ll_sc,
        ),
{
    lemma_fields32(inst);
    let op = f_op(inst);
    let rt = f_rt(inst);
    let addr = m.mem_addr(inst);
    let linked = m.with_reg(Reg { ll_sc: true, ..m.reg });
    lemma_load_frame(m, addr, 1);
    lemma_load_frame(m, addr & 0xfffffffc, 4);
    lemma_load_frame(linked, addr, 4);
    lemma_finish_load(m.reg, m.load_byte(addr).0, m.load_byte(addr).1, op, rt, addr, addr);
    lemma_finish_load(m.reg, m.load_halfword(addr).0, m.load_halfword(addr).1, op, rt, addr, addr);
    lemma_finish_load(m.reg, m.load_word(addr).0, m.load_word(addr).1, op, rt, addr, addr);
    lemma_finish_load(
        m.reg,
        m.load_word(addr & 0xfffffffc).0,
        m.load_word(addr & 0xfffffffc).1,
        op,
        rt,
        addr,
        addr & 0xfffffffc,
    );
    lemma_finish_load(
        m.reg,
        linked.load_word(addr).0,
        linked.load_word(addr).1,
        op,
        rt,
        addr,
        addr,
    );
}

proof fn lemma_store_unaligned(m: MachineView, inst: u32)
    ensures
        reg_step_ok(m.reg, (m.store_unaligned(inst).reg, true), false, m.reg.ll_sc),
{
    lemma_fields32(inst);
    let addr = m.mem_addr(inst);
    let aligned = addr & 0xfffffffc;
    lemma_load_frame(m, aligned, 4);
    let l = m.load_word(aligned);
    match l.1 {
        Ok(data) => {
            let merged = if f_op(inst) == crate::exec_mips32::MIPS32_OP_SWL {
                crate::exec_mips32::spec_swl(data, l.0.reg.r[f_rt(inst)], addr)
            } else {
                crate::exec_mips32::spec_swr(data, l.0.reg.r[f_rt(inst)], addr)
            };
            lemma_store_frame(l.0, aligned, 4, merged);
            let s = l.0.store_word(aligned, merged);
            lemma_finish_store(m.reg, s.0, s.1, aligned);
        },
        Err(e) => {
            lemma_exception_keeps(l.0.reg, e, aligned);
        },
    }
}

proof fn lemma_store_conditional(m: MachineView, inst: u32)
    ensures
        reg_step_ok(
            m.reg,
            (m.store_conditional(inst).reg, true),
            f_rt(inst) == 0,
            m.reg.ll_sc,
        ),
{
    lemma_fields32(inst);
    let rt = f_rt(inst);
    let addr = m.mem_addr(inst);
    lemma_store_frame(m, addr, 4, m.reg.r[rt]);
    let s = m.store_word(addr, m.reg.r[rt]);
    if s.1 is Err {
        lemma_exception_keeps(s.0.reg, s.1->Err_0, addr);
    }
}

/// Coprocessor 0 is usable: the machine is not in user mode, or CU0 is set.
pub open spec fn cop0_usable(m: MachineView) -> bool {
    !(mode_is_user(m.reg.spec_c0(C0_STATUS)) && m.reg.spec_c0(C0_STATUS) & C0_STATUS_CU0 == 0)
}

/// The encodings after which a delay slot stays armed: ERET, which sets the
/// program counter itself, and the encodings next to DI and EI, which do
/// nothing.
pub open spec fn keeps_delay_slot32(inst: u32) -> bool {
    inst == MIPS32_INST_ERET || (f_op(inst) == MIPS32_OP_COP0 && f_rs(inst) == 0x0b && f_imm(inst)
        != 0x6000 && f_imm(inst) != 0x6020)
}

/// The link flag after a MIPS32 instruction: ERET clears it, LL sets it,
/// every other instruction leaves it.
pub open spec fn link_after32(m: MachineView, inst: u32) -> bool {
    if inst == MIPS32_INST_ERET && cop0_usable(m) {
        false
    } else if inst != 0 && f_op(inst) == MIPS32_OP_LL {
        true
    } else {
        m.reg.ll_sc
    }
}

#[verifier::rlimit(40)]
proof fn lemma_cop0(m: MachineView, inst: u32)
    requires
        f_op(inst) == MIPS32_OP_COP0,
    ensures
        m.cop0(inst).0.reg.ll_sc == link_after32(m, inst),
        m.cop0(inst).1 && !keeps_delay_slot32(inst) ==> slot_used(m.reg, m.cop0(inst).0.reg),
        inst != 0 && dest_gpr32(inst) != 0 && m.reg.r[0] == 0 ==> m.cop0(inst).0.reg.r[0] == 0,
{
    lemma_fields32(inst);
    let n = m.emu.nexec_insts;
    let rt = f_rt(inst);
    let rd = f_rd(inst);
    let imm = f_imm(inst);
    lemma_exception_keeps(m.reg, EXCEPT_CODE_COPROCESSOR_UNAVAIL, 0);
    lemma_c0_store_keeps(m.reg, n, (rd as u32, imm & 0xf), m.reg.r[rt]);
    let v = m.reg.load(n, C0_STATUS);
    lemma_c0_store_keeps(m.reg.with_gpr(rt, v), n, C0_STATUS, v & !crate::cp0def::C0_STATUS_IE);
    lemma_c0_store_keeps(m.reg.with_gpr(rt, v), n, C0_STATUS, v | crate::cp0def::C0_STATUS_IE);
    assert(((MIPS32_INST_ERET >> 21) & 0x1f) == 0x10 && ((MIPS32_INST_ERET >> 26) & 0x3f) == 0x10)
        by (bit_vector);
}

/// What holds of every MIPS32 instruction. ERET clears the link flag, LL
/// sets it, and no other instruction changes it. A delay slot that was
/// armed before a known instruction is used up by it, except by ERET and by
/// the encodings next to DI and EI, which do nothing. Register 0 stays zero
/// unless the instruction names it as its destination.
pub proof fn lemma_exec32_invariants(m: MachineView, inst: u32)
    ensures
        m.exec32(inst).0.reg.ll_sc == link_after32(m, inst),
        m.exec32(inst).1 && !keeps_delay_slot32(inst) ==> slot_used(m.reg, m.exec32(inst).0.reg),
        m.reg.r[0] == 0 && dest_gpr32(inst) != 0 ==> m.exec32(inst).0.reg.r[0] == 0,
{
    let op = f_op(inst);
    assert(((MIPS32_INST_ERET >> 26) & 0x3f) == 0x10) by (bit_vector);
    if inst == 0 {
    } else if op == crate::exec_mips32::MIPS32_OP_SPECIAL {
        lemma_special(m.reg, inst);
    } else if op == MIPS32_OP_COP0 {
        lemma_cop0(m, inst);
    } else if op == crate::exec_mips32::MIPS32_OP_SPECIAL2 {
        lemma_special2(m.reg, inst);
    } else if op == crate::exec_mips32::MIPS32_OP_SPECIAL3 {
        lemma_special3(m.reg, m.emu.nexec_insts, inst);
    } else if op == crate::exec_mips32::MIPS32_OP_REGIMM {
        lemma_regimm(m.reg, inst);
    } else if op == MIPS32_OP_SC {
        lemma_store_conditional(m, inst);
    } else {
        lemma_alu_imm(m.reg, inst);
        lemma_branch(m.reg, inst);
        lemma_load32(m, inst);
        lemma_store_plain(m, inst);
    }
}

/// LL sets the link flag, also where the load faults.
pub proof fn lemma_ll_sets_link(m: MachineView, inst: u32)
    requires
        inst != 0,
        f_op(inst) == MIPS32_OP_LL,
    ensures
        m.exec32(inst).0.reg.ll_sc,
{
    lemma_exec32_invariants(m, inst);
    assert(inst != MIPS32_INST_ERET) by {
        assert(((MIPS32_INST_ERET >> 26) & 0x3f) == 0x10) by (bit_vector);
    }
}

/// ERET clears the link flag.
pub proof fn lemma_eret_clears_link(m: MachineView)
    requires
        cop0_usable(m),
    ensures
        !m.exec32(MIPS32_INST_ERET).0.reg.ll_sc,
        m.exec32(MIPS32_INST_ERET).1,
{
    lemma_exec32_invariants(m, MIPS32_INST_ERET);
    assert(((MIPS32_INST_ERET >> 21) & 0x1f) == 0x10 && ((MIPS32_INST_ERET >> 26) & 0x3f) == 0x10)
        by (bit_vector);
}

/// SC with the link flag clear writes 0 to its register, stores nothing,
/// and ends like any instruction. With the link flag set and no fault it
/// writes 1 and the store is made.
pub proof fn lemma_store_conditional_by_link(m: MachineView, inst: u32)
    ensures
        !m.reg.ll_sc ==> m.store_conditional(inst) == m.with_reg(
            m.reg.with_gpr(f_rt(inst), 0).next_pc(4),
        ),
        !m.reg.ll_sc ==> m.store_conditional(inst).mem == m.mem,
        m.reg.ll_sc && m.store_word(m.mem_addr(inst), m.reg.r[f_rt(inst)]).1 is Ok
            ==> m.store_conditional(inst) == ({
            let s = m.store_word(m.mem_addr(inst), m.reg.r[f_rt(inst)]).0;
            s.with_reg(s.reg.with_gpr(f_rt(inst), 1).next_pc(4))
        }),
{
}


proof fn lemma_fields16(inst: u32)
    ensures
        m_rx(inst) < 8,
        m_ry(inst) < 8,
        m_rz(inst) < 8,
        m_funct5(inst) < 32,
        m_funct5(inst) & 0x7 < 8,
        0 < spec_xlat(m_rx(inst)) < 32,
        0 < spec_xlat(m_ry(inst)) < 32,
        0 < spec_xlat(m_rz(inst)) < 32,
        0 < spec_xlat(m_funct5(inst) & 0x7) < 32,
        0 <= (m_ry(inst) | (m_funct5(inst) & 0x18)) < 32,
        m_xsregs(inst) <= 7,
{
    lemma_and_le_u32(inst >> 8, 0x07);
    lemma_and_le_u32(inst >> 5, 0x07);
    lemma_and_le_u32(inst >> 2, 0x07);
    lemma_and_le_u32(inst, 0x1f);
    lemma_and_le_u32(inst & 0x1f, 0x7);
    lemma_and_le_u32(inst >> 24, 0x7);
    let ry = m_ry(inst);
    let f = m_funct5(inst);
    assert((ry | (f & 0x18)) < 32) by (bit_vector)
        requires
            ry < 8,
    ;
}

/// The MIPS16e encoding that names register 0 as its destination: the move
/// from one of the eight registers to any register of the file.
pub open spec fn names_gpr0_16(inst: u32) -> bool {
    inst >> 27 != crate::exec_mips16::MIPS16E_OP_JAL && m_op5(inst) == MIPS16E_OP_I8 && m_rx(inst)
        == 5 && (m_ry(inst) | (m_funct5(inst) & 0x18)) == 0
}

proof fn lemma_cond_branch16(reg: Reg, inst: u32, taken: bool, short: u32)
    ensures
        reg_step_ok(reg, reg.cond_branch16(inst, taken, short), false, reg.ll_sc),
{
}

#[verifier::rlimit(40)]
proof fn lemma_alu16(reg: Reg, inst: u32)
    ensures
        reg_step_ok(reg, reg.jal16(inst), false, reg.ll_sc),
        reg_step_ok(reg, reg.alu16(inst), false, reg.ll_sc),
        reg_step_ok(reg, reg.branch16(inst), false, reg.ll_sc),
        reg_step_ok(reg, reg.rrr16(inst), false, reg.ll_sc),
{
    lemma_fields16(inst);
}

proof fn lemma_i8_reg(reg: Reg, inst: u32)
    ensures
        reg_step_ok(reg, reg.i8_reg(inst), m_rx(inst) == 5 && (m_ry(inst) | (m_funct5(inst) & 0x18))
            == 0, reg.ll_sc),
{
    lemma_fields16(inst);
}

#[verifier::rlimit(40)]
proof fn lemma_rr16(reg: Reg, inst: u32)
    ensures
        reg_step_ok(reg, reg.jr16(inst), false, reg.ll_sc),
        reg_step_ok(reg, reg.cnvt16(inst), false, reg.ll_sc),
        reg_step_ok(reg, reg.rr_alu16(inst), false, reg.ll_sc),
        reg_step_ok(reg, reg.rr16(inst), false, reg.ll_sc),
{
    lemma_fields16(inst);
}

#[verifier::rlimit(40)]
proof fn lemma_load16(m: MachineView, inst: u32)
    ensures
        reg_step_ok(m.reg, (m.load16(inst).reg, true), false, m.reg.ll_sc),
{
    lemma_fields16(inst);
    let addr = m.mem_addr16(inst);
    lemma_load_frame(m, addr, 1);
    let b = m.load_byte(addr);
    let h = m.load_halfword(addr);
    let w = m.load_word(addr);
    if b.1 is Err {
        lemma_exception_keeps(b.0.reg, b.1->Err_0, addr);
    }
    if h.1 is Err {
        lemma_exception_keeps(h.0.reg, h.1->Err_0, addr);
    }
    if w.1 is Err {
        lemma_exception_keeps(w.0.reg, w.1->Err_0, addr);
    }
}

#[verifier::rlimit(40)]
proof fn lemma_store16(m: MachineView, inst: u32)
    ensures
        reg_step_ok(m.reg, (m.store16(inst).reg, true), false, m.reg.ll_sc),
{
    lemma_fields16(inst);
    let addr = m.mem_addr16(inst);
    let x = m.reg.r[spec_xlat(m_rx(inst))];
    let y = m.reg.r[spec_xlat(m_ry(inst))];
    lemma_store_frame(m, addr, 1, (y as u8) as u32);
    assert(((y as u8) as u32) as u8 == y as u8) by (bit_vector);
    lemma_store_frame(m, addr, 2, y);
    lemma_store_frame(m, addr, 4, y);
    lemma_store_frame(m, addr, 4, x);
    lemma_store_frame(m, addr, 4, m.reg.r[31]);
    let s1 = m.store_byte(addr, y as u8);
    let s2 = m.store_halfword(addr, y);
    let s3 = m.store_word(addr, y);
    let s4 = m.store_word(addr, x);
    let s5 = m.store_word(addr, m.reg.r[31]);
    if s1.1 is Err {
        lemma_exception_keeps(s1.0.reg, s1.1->Err_0, addr);
    }
    if s2.1 is Err {
        lemma_exception_keeps(s2.0.reg, s2.1->Err_0, addr);
    }
    if s3.1 is Err {
        lemma_exception_keeps(s3.0.reg, s3.1->Err_0, addr);
    }
    if s4.1 is Err {
        lemma_exception_keeps(s4.0.reg, s4.1->Err_0, addr);
    }
    if s5.1 is Err {
        lemma_exception_keeps(s5.0.reg, s5.1->Err_0, addr);
    }
}

/// A run of stores changes no register of the program.
pub proof fn lemma_store_run(m: MachineView, first: int, rstep: int, n: nat, addr: u32, astep: u32)
    ensures
        same_core(m.store_run(first, rstep, n, addr, astep).0, m),
    decreases n,
{
    if n > 0 {
        lemma_store_frame(m, addr, 4, m.reg.r[first]);
        let s = m.store_word(addr, m.reg.r[first]);
        if s.1 is Ok {
            lemma_store_run(s.0, first + rstep, rstep, (n - 1) as nat, addr.wrapping_add(astep), astep);
        }
    }
}

/// None of the `n` registers from `first` on, `rstep` apart, is register 0,
/// and all are registers of the file.
pub open spec fn run_avoids_zero(first: int, rstep: int, n: nat) -> bool {
    n == 0 || (0 < first < 32 && -1 <= rstep <= 1 && (rstep == -1 ==> first >= n) && (rstep == 1
        ==> first + n <= 32))
}

/// The two register sets agree in register 0 and in everything that is not
/// a general-purpose register or an address-translation cache.
pub open spec fn same_flow(a: Reg, b: Reg) -> bool {
    &&& a.r[0] == b.r[0]
    &&& a.ll_sc == b.ll_sc
    &&& a.delay_en == b.delay_en
    &&& a.pc == b.pc
    &&& a.pc_delay == b.pc_delay
    &&& a.pc_prev_jump == b.pc_prev_jump
    &&& a.hi == b.hi
    &&& a.lo == b.lo
    &&& a.cp0 == b.cp0
}

/// A run of loads into registers other than register 0 changes, of the
/// registers of the program, only general-purpose registers other than 0.
pub proof fn lemma_load_run(m: MachineView, first: int, rstep: int, n: nat, addr: u32, astep: u32)
    requires
        run_avoids_zero(first, rstep, n),
    ensures
        same_flow(m.load_run(first, rstep, n, addr, astep).0.reg, m.reg),
    decreases n,
{
    if n > 0 {
        lemma_load_frame(m, addr, 4);
        let l = m.load_word(addr);
        if l.1 is Ok {
            let m2 = l.0.with_reg(l.0.reg.with_gpr(first, l.1->Ok_0));
            lemma_load_run(m2, first + rstep, rstep, (n - 1) as nat, addr.wrapping_add(astep), astep);
        }
    }
}

proof fn lemma_then_store(
    base: MachineView,
    prev: (MachineView, Option<(u32, u32)>, u32),
    first: int,
    rstep: int,
    n: nat,
)
    requires
        same_core(prev.0, base),
    ensures
        same_core(then_store(prev, first, rstep, n).0, base),
{
    lemma_store_run(prev.0, first, rstep, n, prev.2, 0xfffffffc);
}

proof fn lemma_then_load(
    base: Reg,
    prev: (MachineView, Option<(u32, u32)>, u32),
    first: int,
    rstep: int,
    n: nat,
)
    requires
        same_flow(prev.0.reg, base),
        run_avoids_zero(first, rstep, n),
    ensures
        same_flow(then_load(prev, first, rstep, n).0.reg, base),
{
    lemma_load_run(prev.0, first, rstep, n, prev.2, 0xfffffffc);
}

proof fn lemma_frame_stores(m: MachineView, inst: u32, top: u32)
    ensures
        same_core(m.frame_stores(inst, top).0, m),
{
    let xs = m_xsregs(inst) as int;
    let c0 = (m, None::<(u32, u32)>, top.wrapping_sub(4));
    let c1 = then_store(c0, 31, 0, count_of(inst & 0x40 != 0));
    lemma_then_store(m, c0, 31, 0, count_of(inst & 0x40 != 0));
    let c2 = then_store(c1, 30, 0, count_of(xs == 7));
    lemma_then_store(m, c1, 30, 0, count_of(xs == 7));
    let f3 = if xs == 7 {
        23
    } else {
        17 + xs
    };
    let n3 = if xs == 7 {
        6nat
    } else {
        xs as nat
    };
    let c3 = then_store(c2, f3, -1, n3);
    lemma_then_store(m, c2, f3, -1, n3);
    let c4 = then_store(c3, 17, 0, count_of(inst & 0x10 != 0));
    lemma_then_store(m, c3, 17, 0, count_of(inst & 0x10 != 0));
    let c5 = then_store(c4, 16, 0, count_of(inst & 0x20 != 0));
    lemma_then_store(m, c4, 16, 0, count_of(inst & 0x20 != 0));
    lemma_then_store(m, c5, 7, -1, spec_save_statics(m_aregs(inst)) as nat);
}

proof fn lemma_frame_loads(m: MachineView, inst: u32, top: u32)
    ensures
        same_flow(m.frame_loads(inst, top).0.reg, m.reg),
{
    lemma_fields16(inst);
    let xs = m_xsregs(inst) as int;
    let c0 = (m, None::<(u32, u32)>, top.wrapping_sub(4));
    let c1 = then_load(c0, 31, 0, count_of(inst & 0x40 != 0));
    lemma_then_load(m.reg, c0, 31, 0, count_of(inst & 0x40 != 0));
    let c2 = then_load(c1, 30, 0, count_of(xs == 7));
    lemma_then_load(m.reg, c1, 30, 0, count_of(xs == 7));
    let f3 = if xs == 7 {
        23
    } else {
        17 + xs
    };
    let n3 = if xs == 7 {
        6nat
    } else {
        xs as nat
    };
    let c3 = then_load(c2, f3, -1, n3);
    lemma_then_load(m.reg, c2, f3, -1, n3);
    let c4 = then_load(c3, 17, 0, count_of(inst & 0x10 != 0));
    lemma_then_load(m.reg, c3, 17, 0, count_of(inst & 0x10 != 0));
    let c5 = then_load(c4, 16, 0, count_of(inst & 0x20 != 0));
    lemma_then_load(m.reg, c4, 16, 0, count_of(inst & 0x20 != 0));
    lemma_then_load(m.reg, c5, 7, -1, spec_save_statics(m_aregs(inst)) as nat);
}

proof fn lemma_save16(m: MachineView, inst: u32)
    ensures
        reg_step_ok(m.reg, (m.save16(inst).reg, true), false, m.reg.ll_sc),
{
    let sp = m.reg.r[29];
    let a = m.store_run(4, 1, spec_save_args(m_aregs(inst)) as nat, sp, 4);
    lemma_store_run(m, 4, 1, spec_save_args(m_aregs(inst)) as nat, sp, 4);
    lemma_frame_stores(a.0, inst, sp);
    let c = if a.1 is Some {
        a
    } else {
        a.0.frame_stores(inst, sp)
    };
    if c.1 is Some {
        lemma_exception_keeps(c.0.reg, c.1->Some_0.0, c.1->Some_0.1);
    }
}

proof fn lemma_restore16(m: MachineView, inst: u32)
    ensures
        reg_step_ok(m.reg, (m.restore16(inst).reg, true), false, m.reg.ll_sc),
{
    let top = m.reg.r[29].wrapping_add(crate::exec_mips16::m_frame_bytes(inst));
    lemma_frame_loads(m, inst, top);
    let c = m.frame_loads(inst, top);
    if c.1 is Some {
        lemma_exception_keeps(c.0.reg, c.1->Some_0.0, c.1->Some_0.1);
    }
}

/// What holds of every MIPS16e instruction. None changes the link flag. A
/// delay slot that was armed before a known instruction is used up by it.
/// Register 0 stays zero, except under the move that names it as
/// destination.
pub proof fn lemma_exec16_invariants(m: MachineView, inst: u32)
    ensures
        m.exec16(inst).0.reg.ll_sc == m.reg.ll_sc,
        m.exec16(inst).1 ==> slot_used(m.reg, m.exec16(inst).0.reg),
        m.reg.r[0] == 0 && !names_gpr0_16(inst) ==> m.exec16(inst).0.reg.r[0] == 0,
{
    lemma_alu16(m.reg, inst);
    lemma_i8_reg(m.reg, inst);
    lemma_rr16(m.reg, inst);
    lemma_load16(m, inst);
    lemma_store16(m, inst);
    lemma_save16(m, inst);
    lemma_restore16(m, inst);
}

/// Every instruction is dispatched with register 0 holding zero.
pub proof fn lemma_gpr0_zero_at_dispatch(m: MachineView)
    ensures
        m.begin_instruction().0.reg.r[0] == 0,
{
    lemma_fetch_frame(m.with_reg(m.reg.with_gpr(0, 0)));
}

/// The end of an instruction changes no general-purpose register and not
/// the link flag.
pub proof fn lemma_end_instruction_keeps(m: MachineView)
    ensures
        m.end_instruction().reg.r == m.reg.r,
        m.end_instruction().reg.ll_sc == m.reg.ll_sc,
        m.end_instruction().mem == m.mem,
{
}

/// After a whole step register 0 holds zero, unless the instruction names
/// register 0 as its destination.
pub proof fn lemma_step_keeps_gpr0_zero(m: MachineView)
    requires
        ({
            let b = m.begin_instruction();
            if b.0.reg.pc & 1 == 0 {
                dest_gpr32(b.1) != 0
            } else {
                !names_gpr0_16(b.1)
            }
        }),
    ensures
        m.step().0.reg.r[0] == 0,
{
    lemma_gpr0_zero_at_dispatch(m);
    let b = m.begin_instruction();
    lemma_exec32_invariants(b.0, b.1);
    lemma_exec16_invariants(b.0, b.1);
    lemma_end_instruction_keeps(b.0.execute(b.1).0);
}

/// After an exception the program counter is a word-aligned address of an
/// unmapped kernel segment and the machine is at exception or error level.
pub proof fn lemma_exception_vector(reg: Reg, ecode: u32, option: u32)
    ensures
        reg.prepare_exception(ecode, option).pc & 3 == 0,
        0x80000000 <= reg.prepare_exception(ecode, option).pc < 0xC0000000,
        crate::cp0def::spec_mode_is_exception(
            reg.prepare_exception(ecode, option).spec_c0(C0_STATUS),
        ),
{
    reveal(Reg::prepare_exception);
    let after = reg.prepare_exception(ecode, option);
    let ebase = after.spec_c0(crate::cp0def::C0_EBASE);
    crate::mips::lemma_vectors_unmapped_aligned(ebase);
    assert(0xbfc00300u32 & 3 == 0 && 0xbfc00380u32 & 3 == 0 && 0xbfc00200u32 & 3 == 0) by (bit_vector);
    let r1 = reg.with_c0(crate::cp0def::C0_CAUSE, reg.cause_with_code(ecode, option)).record_return();
    let s = r1.spec_c0(C0_STATUS);
    assert((s | crate::cp0def::C0_STATUS_EXL) & (crate::cp0def::C0_STATUS_EXL
        | crate::cp0def::C0_STATUS_ERL) != 0 && (s | crate::cp0def::C0_STATUS_ERL) & (
    crate::cp0def::C0_STATUS_EXL | crate::cp0def::C0_STATUS_ERL) != 0) by (bit_vector);
    let level = if ecode == crate::cp0def::EXCEPT_CODE_CACHE_ERROR {
        crate::cp0def::C0_STATUS_ERL
    } else {
        crate::cp0def::C0_STATUS_EXL
    };
    let r2 = r1.with_c0(C0_STATUS, s | level);
    assert(r2.spec_c0(C0_STATUS) == s | level);
    assert(r2.record_tlb_fault(option).spec_c0(C0_STATUS) == s | level);
    assert(r2.with_c0(crate::cp0def::C0_BADVADDR, option).spec_c0(C0_STATUS) == s | level);
    assert(after.spec_c0(C0_STATUS) == s | level);
}

/// A fetch at an exception vector cannot fault: the fetch of the next
/// instruction always gives an instruction that was read.
pub proof fn lemma_fetch_after_exception_succeeds(m: MachineView, ecode: u32, option: u32)
    ensures
        m.with_reg(m.reg.prepare_exception(ecode, option)).try_fetch().1 is Ok,
{
    lemma_exception_vector(m.reg, ecode, option);
    let v = m.with_reg(m.reg.prepare_exception(ecode, option));
    let pc = v.reg.pc;
    assert(pc & 3 == 0 ==> pc & 3 != 2 && pc & 1 == 0) by (bit_vector);
}


/// The machine after the instructions `insts` were executed one after the
/// other, each by the instruction set that bit 0 of the program counter
/// selects.
pub open spec fn execute_all(m: MachineView, insts: Seq<u32>) -> MachineView
    decreases insts.len(),
{
    if insts.len() == 0 {
        m
    } else {
        execute_all(m.execute(insts[0]).0, insts.drop_first())
    }
}

/// While no ERET is executed the link of LL stays: after LL and any
/// instructions that are not ERET, the link flag is set, so that SC stores.
pub proof fn lemma_link_stays_without_eret(m: MachineView, insts: Seq<u32>)
    requires
        m.reg.ll_sc,
        forall|i: int| 0 <= i < insts.len() ==> insts[i] != MIPS32_INST_ERET,
    ensures
        execute_all(m, insts).reg.ll_sc,
    decreases insts.len(),
{
    if insts.len() > 0 {
        lemma_exec32_invariants(m, insts[0]);
        lemma_exec16_invariants(m, insts[0]);
        let next = m.execute(insts[0]).0;
        assert forall|i: int| 0 <= i < insts.drop_first().len() implies insts.drop_first()[i]
            != MIPS32_INST_ERET by {
            assert(insts.drop_first()[i] == insts[i + 1]);
        }
        lemma_link_stays_without_eret(next, insts.drop_first());
    }
}

/// Once the link is lost, as it is after ERET, it stays lost until the next
/// LL: after any instructions of which none is an LL in MIPS32 mode, the
/// link flag is clear, so that SC stores nothing and writes 0.
pub proof fn lemma_link_stays_lost_without_ll(m: MachineView, insts: Seq<u32>)
    requires
        !m.reg.ll_sc,
        forall|i: int| 0 <= i < insts.len() ==> f_op(#[trigger] insts[i]) != MIPS32_OP_LL,
    ensures
        !execute_all(m, insts).reg.ll_sc,
    decreases insts.len(),
{
    if insts.len() > 0 {
        lemma_exec32_invariants(m, insts[0]);
        lemma_exec16_invariants(m, insts[0]);
        let next = m.execute(insts[0]).0;
        assert forall|i: int| 0 <= i < insts.drop_first().len() implies f_op(
            #[trigger] insts.drop_first()[i],
        ) != MIPS32_OP_LL by {
            assert(insts.drop_first()[i] == insts[i + 1]);
        }
        lemma_link_stays_lost_without_ll(next, insts.drop_first());
    }
}

} // verus!
