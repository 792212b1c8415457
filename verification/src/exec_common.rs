//! What both instruction sets share: the extension of immediate fields and
//! the branch-delay protocol of the program counter.
use vstd::prelude::*;
use crate::procstate::Reg;

verus! {

/// Sign-extends the low 16 bits.
pub open spec fn spec_sign_ext16(x: u32) -> u32 {
    (((x as u16) as i16) as i32) as u32
}

/// Zero-extends the low 16 bits.
pub open spec fn spec_zero_ext16(x: u32) -> u32 {
    (x as u16) as u32
}

/// Sign-extends the low 8 bits.
pub open spec fn spec_sign_ext8(x: u32) -> u32 {
    (((x as u8) as i8) as i32) as u32
}

/// Zero-extends the low 8 bits.
pub open spec fn spec_zero_ext8(x: u32) -> u32 {
    (x as u8) as u32
}

/// Sign-extends the low 15 bits.
pub open spec fn spec_sign_ext15(x: u32) -> u32 {
    ((((((x << 1) as i16) as i32) >> 1) as i16) as i32) as u32
}

/// Sign-extends the low 11 bits.
pub open spec fn spec_sign_ext11(x: u32) -> u32 {
    ((((((x << 5) as i16) as i32) >> 5) as i16) as i32) as u32
}

/// Sign-extends the low 4 bits.
pub open spec fn spec_sign_ext4(x: u32) -> u32 {
    ((((((x << 4) as i8) as i32) >> 4) as i16) as i32) as u32
}

/// Zero-extends the low 4 bits.
pub open spec fn spec_zero_ext4(x: u32) -> u32 {
    ((x & 0xf) as u8) as u32
}

#[verifier::when_used_as_spec(spec_sign_ext16)]
pub fn sign_ext16(x: u32) -> (r: u32)
    ensures
        r == spec_sign_ext16(x),
{
    (((x as u16) as i16) as i32) as u32
}

#[verifier::when_used_as_spec(spec_zero_ext16)]
pub fn zero_ext16(x: u32) -> (r: u32)
    ensures
        r == spec_zero_ext16(x),
{
    (x as u16) as u32
}

#[verifier::when_used_as_spec(spec_sign_ext8)]
pub fn sign_ext8(x: u32) -> (r: u32)
    ensures
        r == spec_sign_ext8(x),
{
    (((x as u8) as i8) as i32) as u32
}

#[verifier::when_used_as_spec(spec_zero_ext8)]
pub fn zero_ext8(x: u32) -> (r: u32)
    ensures
        r == spec_zero_ext8(x),
{
    (x as u8) as u32
}

#[verifier::when_used_as_spec(spec_sign_ext15)]
pub fn sign_ext15(x: u32) -> (r: u32)
    ensures
        r == spec_sign_ext15(x),
{
    ((((((x << 1) as i16) as i32) >> 1) as i16) as i32) as u32
}

#[verifier::when_used_as_spec(spec_sign_ext11)]
pub fn sign_ext11(x: u32) -> (r: u32)
    ensures
        r == spec_sign_ext11(x),
{
    ((((((x << 5) as i16) as i32) >> 5) as i16) as i32) as u32
}

#[verifier::when_used_as_spec(spec_sign_ext4)]
pub fn sign_ext4(x: u32) -> (r: u32)
    ensures
        r == spec_sign_ext4(x),
{
    ((((((x << 4) as i8) as i32) >> 4) as i16) as i32) as u32
}

#[verifier::when_used_as_spec(spec_zero_ext4)]
pub fn zero_ext4(x: u32) -> (r: u32)
    ensures
        r == spec_zero_ext4(x),
{
    ((x & 0xf) as u8) as u32
}

/// What the extensions are, stated without casts: the low bits are kept and
/// the upper bits repeat the sign bit (or are zero).
pub proof fn lemma_extensions(x: u32)
    by (bit_vector)
    ensures
        (((x as u16) as i16) as i32) as u32 == (if x & 0x8000 != 0 {
            (x & 0xffff) | 0xffff0000
        } else {
            x & 0xffff
        }),
        (x as u16) as u32 == x & 0xffff,
        (((x as u8) as i8) as i32) as u32 == (if x & 0x80 != 0 {
            (x & 0xff) | 0xffffff00
        } else {
            x & 0xff
        }),
        (x as u8) as u32 == x & 0xff,
{
}


impl Reg {
    /// The end of an instruction of `len` bytes that does not branch: a
    /// pending delay slot ends at the branch target, else the program counter
    /// advances.
    pub open spec fn next_pc(self, len: u32) -> Reg {
        if self.delay_en {
            Reg { pc: self.pc_delay, delay_en: false, ..self }
        } else {
            Reg { pc: self.pc.wrapping_add(len), ..self }
        }
    }

    /// The end of a taken branch of `len` bytes: the target is kept for the
    /// end of the delay slot, which is armed.
    pub open spec fn branch_delayed(self, len: u32, target: u32) -> Reg {
        Reg {
            pc_delay: target,
            pc_prev_jump: self.pc,
            pc: self.pc.wrapping_add(len),
            delay_en: true,
            ..self
        }
    }

    /// The end of a jump without delay slot.
    pub open spec fn jump(self, target: u32) -> Reg {
        Reg { pc_prev_jump: self.pc, pc: target, delay_en: false, ..self }
    }
}

/// Ends a 32-bit instruction that does not branch.
pub fn update_pc_next32(reg: &mut Reg)
    ensures
        *final(reg) == old(reg).next_pc(4),
{
    if reg.delay_en {
        reg.pc = reg.pc_delay;
        reg.delay_en = false;
    } else {
        reg.pc = reg.pc.wrapping_add(4);
    }
}

/// Ends a 16-bit instruction that does not branch.
pub fn update_pc_next16(reg: &mut Reg)
    ensures
        *final(reg) == old(reg).next_pc(2),
{
    if reg.delay_en {
        reg.pc = reg.pc_delay;
        reg.delay_en = false;
    } else {
        reg.pc = reg.pc.wrapping_add(2);
    }
}

/// Ends a taken 32-bit branch: arms the delay slot.
pub fn update_pc_next32_with_delayed_imm(reg: &mut Reg, imm: u32)
    ensures
        *final(reg) == old(reg).branch_delayed(4, imm),
{
    reg.pc_delay = imm;
    reg.pc_prev_jump = reg.pc;
    reg.pc = reg.pc.wrapping_add(4);
    reg.delay_en = true;
}

/// Ends a taken 16-bit branch that has a delay slot.
pub fn update_pc_next16_with_delayed_imm(reg: &mut Reg, imm: u32)
    ensures
        *final(reg) == old(reg).branch_delayed(2, imm),
{
    reg.pc_delay = imm;
    reg.pc_prev_jump = reg.pc;
    reg.pc = reg.pc.wrapping_add(2);
    reg.delay_en = true;
}

/// Ends a jump without delay slot.
pub fn update_pc_imm(reg: &mut Reg, imm: u32)
    ensures
        *final(reg) == old(reg).jump(imm),
{
    reg.pc_prev_jump = reg.pc;
    reg.pc = imm;
    reg.delay_en = false;
}

} // verus!
