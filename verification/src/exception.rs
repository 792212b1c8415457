//! The exception unit: it records cause and return address and redirects
//! the program counter to the vector.
use vstd::prelude::*;
use crate::cp0def::{
    mode_is_exception,
    mode_is_in_exception,
    C0_BADVADDR,
    C0_CAUSE,
    C0_CAUSE_BD,
    C0_CAUSE_CE_MASK,
    C0_CAUSE_EXCCODE_MASK,
    C0_CAUSE_IP_MASK,
    C0_CAUSE_IV,
    C0_CONTEXT,
    C0_EBASE,
    C0_ENTRYHI,
    C0_ENTRYHI_VPN2_MASK,
    C0_EPC,
    C0_ERROREPC,
    C0_STATUS,
    C0_STATUS_BEV,
    C0_STATUS_ERL,
    C0_STATUS_EXL,
    EXCEPT_CODE_ADDR_ERR_LOAD,
    EXCEPT_CODE_ADDR_ERR_STORE,
    EXCEPT_CODE_CACHE_ERROR,
    EXCEPT_CODE_COPROCESSOR_UNAVAIL,
    EXCEPT_CODE_MOD,
    EXCEPT_CODE_TLB_LOAD,
    EXCEPT_CODE_TLB_REFILL_LOAD,
    EXCEPT_CODE_TLB_REFILL_STORE,
    EXCEPT_CODE_TLB_STORE,
};
use crate::mips::{
    except_vect_all_other,
    except_vect_cache_err,
    except_vect_int,
    except_vect_tlb_refill,
};
use crate::procstate::{MachineState, Reg};

verus! {

/// The code that Cause shows for an exception code: the two refill codes
/// stand for the TLB load and store codes.
pub open spec fn spec_arch_code(ecode: u32) -> u32 {
    if ecode == EXCEPT_CODE_TLB_REFILL_LOAD {
        EXCEPT_CODE_TLB_LOAD
    } else if ecode == EXCEPT_CODE_TLB_REFILL_STORE {
        EXCEPT_CODE_TLB_STORE
    } else {
        ecode
    }
}

#[verifier::when_used_as_spec(spec_arch_code)]
pub fn arch_code(ecode: u32) -> (c: u32)
    ensures
        c == spec_arch_code(ecode),
{
    if ecode == EXCEPT_CODE_TLB_REFILL_LOAD {
        EXCEPT_CODE_TLB_LOAD
    } else if ecode == EXCEPT_CODE_TLB_REFILL_STORE {
        EXCEPT_CODE_TLB_STORE
    } else {
        ecode
    }
}

/// The exception is one of a TLB entry: no match, invalid or read-only.
pub open spec fn is_tlb_code(ecode: u32) -> bool {
    ecode == EXCEPT_CODE_TLB_REFILL_LOAD || ecode == EXCEPT_CODE_TLB_REFILL_STORE || ecode
        == EXCEPT_CODE_TLB_LOAD || ecode == EXCEPT_CODE_TLB_STORE || ecode == EXCEPT_CODE_MOD
}

impl Reg {
    /// The address at which the interrupted program resumes: the program
    /// counter, or in a delay slot the address of the branch.
    pub open spec fn return_address(&self) -> u32 {
        if self.delay_en {
            self.pc_prev_jump
        } else {
            self.pc
        }
    }

    /// Cause with its exception code field set for `ecode`, and its
    /// coprocessor field set to `option` for a coprocessor-unusable exception
    /// and to zero for any other.
    pub open spec fn cause_with_code(&self, ecode: u32, option: u32) -> u32 {
        let c = ((self.spec_c0(C0_CAUSE) & !C0_CAUSE_EXCCODE_MASK) | ((spec_arch_code(ecode) << 2)
            & C0_CAUSE_EXCCODE_MASK)) & !C0_CAUSE_CE_MASK;
        if ecode == EXCEPT_CODE_COPROCESSOR_UNAVAIL {
            c | ((option << 28) & C0_CAUSE_CE_MASK)
        } else {
            c
        }
    }

    /// The return address is recorded and the delay slot is given up. At
    /// exception or error level already, it goes to ErrorEPC and Cause.BD
    /// stays; else it goes to EPC and Cause.BD says whether a delay slot was
    /// armed.
    pub open spec fn record_return(self) -> Reg {
        let r = if mode_is_exception(self.spec_c0(C0_STATUS)) {
            self.with_c0(C0_ERROREPC, self.return_address())
        } else {
            self.with_c0(C0_EPC, self.return_address()).with_c0(
                C0_CAUSE,
                if self.delay_en {
                    self.spec_c0(C0_CAUSE) | C0_CAUSE_BD
                } else {
                    self.spec_c0(C0_CAUSE) & !C0_CAUSE_BD
                },
            )
        };
        Reg { delay_en: false, ..r }
    }

    /// The faulting address goes to BadVAddr, its page pair to EntryHi and to
    /// the BadVPN2 field of Context.
    pub open spec fn record_tlb_fault(self, vaddr: u32) -> Reg {
        self.with_c0(
            C0_ENTRYHI,
            (self.spec_c0(C0_ENTRYHI) & !C0_ENTRYHI_VPN2_MASK) | (vaddr & C0_ENTRYHI_VPN2_MASK),
        ).with_c0(
            C0_CONTEXT,
            (self.spec_c0(C0_CONTEXT) & 0xff80000f) | ((vaddr & C0_ENTRYHI_VPN2_MASK) >> 9),
        ).with_c0(C0_BADVADDR, vaddr)
    }

    /// The vector of exception `ecode`, given Status after the level was
    /// raised and whether EXL was set before.
    pub open spec fn exception_vector(&self, ecode: u32, prev_exl: bool) -> u32 {
        let ebase = self.spec_c0(C0_EBASE);
        let bev = self.spec_c0(C0_STATUS) & C0_STATUS_BEV;
        if ecode == EXCEPT_CODE_CACHE_ERROR {
            except_vect_cache_err(ebase, bev)
        } else if ecode == EXCEPT_CODE_TLB_REFILL_LOAD || ecode == EXCEPT_CODE_TLB_REFILL_STORE {
            except_vect_tlb_refill(ebase, bev, prev_exl)
        } else {
            except_vect_all_other(ebase, bev)
        }
    }

    /// The registers after exception `ecode` was taken. `option` is the
    /// faulting address for TLB and address errors, the coprocessor number
    /// for a coprocessor-unusable exception.
    #[verifier::opaque]
    pub open spec fn prepare_exception(self, ecode: u32, option: u32) -> Reg {
        let prev_exl = mode_is_in_exception(self.spec_c0(C0_STATUS));
        let r1 = self.with_c0(C0_CAUSE, self.cause_with_code(ecode, option)).record_return();
        let r2 = r1.with_c0(
            C0_STATUS,
            r1.spec_c0(C0_STATUS) | (if ecode == EXCEPT_CODE_CACHE_ERROR {
                C0_STATUS_ERL
            } else {
                C0_STATUS_EXL
            }),
        );
        let r3 = if is_tlb_code(ecode) {
            r2.record_tlb_fault(option)
        } else if ecode == EXCEPT_CODE_ADDR_ERR_LOAD || ecode == EXCEPT_CODE_ADDR_ERR_STORE {
            r2.with_c0(C0_BADVADDR, option)
        } else {
            r2
        };
        Reg { pc: r3.exception_vector(ecode, prev_exl), ..r3 }
    }

    /// The registers after an interrupt was taken. `icode` is what the
    /// interrupt-pending field of Cause shows from then on.
    pub open spec fn prepare_interrupt(self, icode: u32) -> Reg {
        let cause = ((self.spec_c0(C0_CAUSE) & !C0_CAUSE_EXCCODE_MASK) & !C0_CAUSE_IP_MASK) | ((icode
            << 8) & C0_CAUSE_IP_MASK);
        let r1 = self.with_c0(C0_CAUSE, cause).record_return();
        let r2 = r1.with_c0(C0_STATUS, r1.spec_c0(C0_STATUS) | C0_STATUS_EXL);
        Reg {
            pc: except_vect_int(
                r2.spec_c0(C0_EBASE),
                r2.spec_c0(C0_STATUS) & C0_STATUS_BEV,
                r2.spec_c0(C0_CAUSE) & C0_CAUSE_IV,
            ),
            ..r2
        }
    }
}

fn record_return(reg: &mut Reg)
    ensures
        *final(reg) == old(reg).record_return(),
{
    let ret = if reg.delay_en {
        reg.pc_prev_jump
    } else {
        reg.pc
    };
    if mode_is_exception(reg.c0(C0_STATUS)) {
        reg.set_c0(C0_ERROREPC, ret);
    } else {
        let cause = reg.c0(C0_CAUSE);
        reg.set_c0(C0_EPC, ret);
        if reg.delay_en {
            reg.set_c0(C0_CAUSE, cause | C0_CAUSE_BD);
        } else {
            reg.set_c0(C0_CAUSE, cause & !C0_CAUSE_BD);
        }
    }
    reg.delay_en = false;
}

fn record_tlb_fault(reg: &mut Reg, vaddr: u32)
    ensures
        *final(reg) == old(reg).record_tlb_fault(vaddr),
{
    let entryhi = reg.c0(C0_ENTRYHI);
    let context = reg.c0(C0_CONTEXT);
    reg.set_c0(C0_ENTRYHI, (entryhi & !C0_ENTRYHI_VPN2_MASK) | (vaddr & C0_ENTRYHI_VPN2_MASK));
    reg.set_c0(C0_CONTEXT, (context & 0xff80000f) | ((vaddr & C0_ENTRYHI_VPN2_MASK) >> 9));
    reg.set_c0(C0_BADVADDR, vaddr);
}

/// Takes exception `ecode` on the registers alone.
pub fn raise(reg: &mut Reg, ecode: u32, option: u32)
    ensures
        *final(reg) == old(reg).prepare_exception(ecode, option),
{
    reveal(Reg::prepare_exception);
    let prev_exl: bool = mode_is_in_exception(reg.c0(C0_STATUS));
    let mut cause = ((reg.c0(C0_CAUSE) & !C0_CAUSE_EXCCODE_MASK) | ((arch_code(ecode) << 2)
        & C0_CAUSE_EXCCODE_MASK)) & !C0_CAUSE_CE_MASK;
    if ecode == EXCEPT_CODE_COPROCESSOR_UNAVAIL {
        cause = cause | ((option << 28) & C0_CAUSE_CE_MASK);
    }
    reg.set_c0(C0_CAUSE, cause);
    record_return(reg);
    let status = reg.c0(C0_STATUS);
    if ecode == EXCEPT_CODE_CACHE_ERROR {
        reg.set_c0(C0_STATUS, status | C0_STATUS_ERL);
    } else {
        reg.set_c0(C0_STATUS, status | C0_STATUS_EXL);
    }
    if ecode == EXCEPT_CODE_TLB_REFILL_LOAD || ecode == EXCEPT_CODE_TLB_REFILL_STORE || ecode
        == EXCEPT_CODE_TLB_LOAD || ecode == EXCEPT_CODE_TLB_STORE || ecode == EXCEPT_CODE_MOD {
        record_tlb_fault(reg, option);
    } else if ecode == EXCEPT_CODE_ADDR_ERR_LOAD || ecode == EXCEPT_CODE_ADDR_ERR_STORE {
        reg.set_c0(C0_BADVADDR, option);
    }
    let ebase = reg.c0(C0_EBASE);
    let bev = reg.c0(C0_STATUS) & C0_STATUS_BEV;
    if ecode == EXCEPT_CODE_CACHE_ERROR {
        reg.pc = except_vect_cache_err(ebase, bev);
    } else if ecode == EXCEPT_CODE_TLB_REFILL_LOAD || ecode == EXCEPT_CODE_TLB_REFILL_STORE {
        reg.pc = except_vect_tlb_refill(ebase, bev, prev_exl);
    } else {
        reg.pc = except_vect_all_other(ebase, bev);
    }
}

/// Takes exception `ecode`: Cause, the return address, the level bits of
/// Status and the fault registers are set and the program counter goes to
/// the vector.
pub fn prepare_exception(ms: &mut MachineState, ecode: u32, option: u32)
    ensures
        final(ms)@ == old(ms)@.with_reg(old(ms)@.reg.prepare_exception(ecode, option)),
{
    raise(&mut ms.reg, ecode, option);
}

/// Takes an interrupt.
pub fn prepare_interrupt(ms: &mut MachineState, icode: u32)
    ensures
        final(ms)@ == old(ms)@.with_reg(old(ms)@.reg.prepare_interrupt(icode)),
{
    let cause = ((ms.reg.c0(C0_CAUSE) & !C0_CAUSE_EXCCODE_MASK) & !C0_CAUSE_IP_MASK) | ((icode << 8)
        & C0_CAUSE_IP_MASK);
    ms.reg.set_c0(C0_CAUSE, cause);
    record_return(&mut ms.reg);
    let status = ms.reg.c0(C0_STATUS);
    ms.reg.set_c0(C0_STATUS, status | C0_STATUS_EXL);
    ms.reg.pc = except_vect_int(
        ms.reg.c0(C0_EBASE),
        ms.reg.c0(C0_STATUS) & C0_STATUS_BEV,
        ms.reg.c0(C0_CAUSE) & C0_CAUSE_IV,
    );
}

} // verus!
