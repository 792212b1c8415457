//! The state of the whole machine and its mathematical view.
use vstd::prelude::*;
use crate::addr_cache::AddrCache;
use crate::config::DRAM_SIZE;
use crate::cp0def::spec_c0_index;
use crate::dev_soc::{IoGPIO, IoMisc};
use crate::dev_spi::{IoSPI, IoSPIView};
use crate::dev_uart::{IoUART, UartConsole, UartConsoleView};
use crate::mem::MemRegion;
use crate::tlb::TLBEntry;

verus! {

/// Registers of the core: the general-purpose file, HI/LO, the program
/// counter with its branch-delay bookkeeping, coprocessor 0 and the five
/// address-translation caches.
pub struct Reg {
    pub r: [u32; 32],
    pub pc: u32,
    /// Target of the branch whose delay slot is pending.
    pub pc_delay: u32,
    /// Address of the branch that armed the pending delay slot.
    pub pc_prev_jump: u32,
    pub hi: u32,
    pub lo: u32,
    /// A delay slot is armed: the next instruction ends at `pc_delay`.
    pub delay_en: bool,
    /// The link flag of LL/SC.
    pub ll_sc: bool,
    /// Wall-clock time in microseconds at which Count was zero.
    pub c0_count_basetime: u64,
    /// Wall-clock time in microseconds of the last synchronisation.
    pub c0_count_currenttime: u64,
    /// Number of instructions executed at the last synchronisation.
    pub c0_count_ninst_in_ctime: u64,
    /// Compare, extended to the 64 bits of the virtual counter.
    pub c0_compare_long: u64,
    pub cp0: [u32; 512],
    /// Cache for instruction fetch.
    pub pc_cache: AddrCache,
    /// Caches for loads: low and high part of the address space.
    pub dr_cache: [AddrCache; 2],
    /// Caches for stores: low and high part of the address space.
    pub dw_cache: [AddrCache; 2],
}

impl Reg {
    /// The value held for a coprocessor-0 pair.
    pub open spec fn spec_c0(&self, rs: (u32, u32)) -> u32 {
        self.cp0[spec_c0_index(rs)]
    }

    /// The registers with one coprocessor-0 slot replaced.
    pub open spec fn with_c0(self, rs: (u32, u32), v: u32) -> Reg {
        Reg { cp0: vstd::array::spec_array_update(self.cp0, spec_c0_index(rs), v), ..self }
    }

    /// The registers with one general-purpose register replaced.
    pub open spec fn with_gpr(self, i: int, v: u32) -> Reg {
        Reg { r: vstd::array::spec_array_update(self.r, i, v), ..self }
    }

    /// The registers with all five address-translation caches invalidated.
    pub open spec fn with_caches_cleared(self) -> Reg {
        Reg {
            pc_cache: AddrCache { valid: false, ..self.pc_cache },
            dr_cache: vstd::array::spec_array_update(
                vstd::array::spec_array_update(
                    self.dr_cache,
                    0,
                    AddrCache { valid: false, ..self.dr_cache[0] },
                ),
                1,
                AddrCache { valid: false, ..self.dr_cache[1] },
            ),
            dw_cache: vstd::array::spec_array_update(
                vstd::array::spec_array_update(
                    self.dw_cache,
                    0,
                    AddrCache { valid: false, ..self.dw_cache[0] },
                ),
                1,
                AddrCache { valid: false, ..self.dw_cache[1] },
            ),
            ..self
        }
    }

    /// None of the five address-translation caches holds a translation.
    pub open spec fn caches_empty(&self) -> bool {
        &&& !self.pc_cache.valid
        &&& !self.dr_cache[0].valid
        &&& !self.dr_cache[1].valid
        &&& !self.dw_cache[0].valid
        &&& !self.dw_cache[1].valid
    }

    pub fn new() -> (reg: Self)
        ensures
            forall|i: int| 0 <= i < 32 ==> reg.r[i] == 0,
            forall|i: int| 0 <= i < 512 ==> reg.cp0[i] == 0,
            reg.pc == 0,
            reg.pc_delay == 0,
            reg.pc_prev_jump == 0,
            reg.hi == 0,
            reg.lo == 0,
            !reg.delay_en,
            !reg.ll_sc,
            reg.c0_count_basetime == 0,
            reg.c0_count_currenttime == 0,
            reg.c0_count_ninst_in_ctime == 0,
            reg.c0_compare_long == 0,
            reg.caches_empty(),
            reg.pc_cache == (AddrCache { vaddr: 0, ppage: 0, asid: 0, valid: false, mode: 0 }),
            forall|i: int|
                0 <= i < 2 ==> reg.dr_cache[i] == reg.pc_cache && reg.dw_cache[i] == reg.pc_cache,
    {
        Self {
            r: [0;32],
            pc: 0,
            pc_delay: 0,
            pc_prev_jump: 0,
            hi: 0,
            lo: 0,
            delay_en: false,
            ll_sc: false,
            c0_count_basetime: 0,
            c0_count_currenttime: 0,
            c0_count_ninst_in_ctime: 0,
            c0_compare_long: 0,
            pc_cache: AddrCache::new(),
            dr_cache: [AddrCache::new(), AddrCache::new()],
            dw_cache: [AddrCache::new(), AddrCache::new()],
            cp0: [0;512],
        }
    }

    /// Reads a coprocessor-0 slot as it is stored, without masks.
    pub fn c0(&self, rs: (u32, u32)) -> (v: u32)
        requires
            rs.0 < 32,
            rs.1 < 16,
        ensures
            v == self.spec_c0(rs),
    {
        self.cp0[(rs.0 * 16 + rs.1) as usize]
    }

    /// Writes a coprocessor-0 slot as it is, without masks.
    pub fn set_c0(&mut self, rs: (u32, u32), v: u32)
        requires
            rs.0 < 32,
            rs.1 < 16,
        ensures
            *final(self) == old(self).with_c0(rs, v),
    {
        self.cp0[(rs.0 * 16 + rs.1) as usize] = v;
    }

    /// Invalidates all five address-translation caches.
    pub fn clear_caches(&mut self)
        ensures
            *final(self) == old(self).with_caches_cleared(),
            final(self).caches_empty(),
    {
        self.pc_cache.clear();
        self.dr_cache[0].clear();
        self.dr_cache[1].clear();
        self.dw_cache[0].clear();
        self.dw_cache[1].clear();
    }
}

/// Settings of the run that are no part of the emulated machine: the
/// breakpoint facility and the instruction counters.
#[derive(Clone, Copy, PartialEq, Eq, Structural, Debug)]
pub struct EmuSetting {
    pub breakpoint: u32,
    pub breakmask: u32,
    pub runafterbreak: u64,
    pub breakcounter: u64,
    /// Number of instructions executed so far.
    pub nexec_insts: u64,
    /// Instructions per second in the last host timer period.
    pub execrate: u64,
    pub stopcount: u64,
    pub debug: bool,
}

pub struct MachineState {
    pub reg: Reg,
    pub mem: MemRegion,
    pub tlb: [TLBEntry; 32],
    /// Direct-mapped hint from `(vaddr >> 12) mod 1024` to a TLB index;
    /// `NUM_TLB_ENTRY` and above stand for "no hint".
    pub tlbcache: [u8; 1024],
    pub uart: IoUART,
    pub misc: IoMisc,
    pub gpio: IoGPIO,
    pub spi: IoSPI,
    pub emu: EmuSetting,
    /// Set by WAIT: the host may sleep until the next timer tick.
    pub sleep_req: bool,
    /// The back-end of the UART.
    pub stdin_ch: UartConsole,
}

/// The machine state as a mathematical value: memories are sequences of
/// bytes, everything else is the plain data itself.
#[verifier::ext_equal]
pub struct MachineView {
    pub reg: Reg,
    pub mem: Seq<u8>,
    pub tlb: [TLBEntry; 32],
    pub tlbcache: [u8; 1024],
    pub uart: IoUART,
    pub misc: IoMisc,
    pub gpio: IoGPIO,
    pub spi: IoSPIView,
    pub emu: EmuSetting,
    pub sleep_req: bool,
    pub stdin_ch: UartConsoleView,
}

impl View for MachineState {
    type V = MachineView;

    open spec fn view(&self) -> MachineView {
        MachineView {
            reg: self.reg,
            mem: self.mem@,
            tlb: self.tlb,
            tlbcache: self.tlbcache,
            uart: self.uart,
            misc: self.misc,
            gpio: self.gpio,
            spi: self.spi@,
            emu: self.emu,
            sleep_req: self.sleep_req,
            stdin_ch: self.stdin_ch@,
        }
    }
}

impl MachineView {
    /// Main memory has its full size and every flash device has contents.
    pub open spec fn wf(&self) -> bool {
        &&& self.mem.len() == DRAM_SIZE
        &&& self.spi.wf()
    }

    pub open spec fn with_reg(self, reg: Reg) -> MachineView {
        MachineView { reg, ..self }
    }
}

impl MachineState {
    /// Main memory has its full size and every flash device has contents.
    pub open spec fn wf(&self) -> bool {
        self@.wf()
    }
}

} // verus!
