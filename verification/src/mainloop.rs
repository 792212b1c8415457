//! One iteration of the run loop, in the pieces between which the host does
//! its own work: it reads the clock, counts Ctrl-C, moves bytes between the
//! terminal and the UART back-end, and sleeps when the machine asks for it.
use vstd::prelude::*;
use crate::cp0def::{
    mode_is_exception,
    C0_CAUSE,
    C0_CAUSE_IP_EXTERNAL,
    C0_CAUSE_IP_MASK,
    C0_CAUSE_IP_TIMER,
    C0_CAUSE_TI,
    C0_STATUS,
    C0_STATUS_IE,
};
use crate::dev_soc::{misc_int_status, read_misc_int_status_reg, MISC_INT_UART};
use crate::dev_uart::{IoUART, IOADDR_UART0_BASE, UART_REG_LINESTAT};
use crate::procstate::{EmuSetting, MachineState, MachineView, Reg};

verus! {

/// Microseconds within which a second Ctrl-C asks for a reset, and after
/// which a single one is passed on to the guest as a break.
pub const CTRLC_GRACE_USEC: u64 = 1000000;

/// Host timer periods per second: `1_000_000 / SYSTEM_TIMER_INTERVAL_IN_USEC`.
pub const TICKS_PER_SECOND: u64 = 1000;

/// Number of instructions after which a cooperative host looks at the clock.
pub const COOPERATIVE_CHECK_INSTS: u64 = 10000;

/// Microseconds after which a cooperative host gives the processor away.
pub const COOPERATIVE_YIELD_USEC: u64 = 20000;

/// A cooperative host looks at the clock: more than
/// `COOPERATIVE_CHECK_INSTS` instructions were executed since it last did.
pub open spec fn spec_clock_check_due(nexec_insts: u64, prev_exec_insts: u64) -> bool {
    nexec_insts > prev_exec_insts + COOPERATIVE_CHECK_INSTS
}

/// A cooperative host gives the processor away: more than
/// `COOPERATIVE_YIELD_USEC` have passed since it last did, or the machine
/// asks to sleep.
pub open spec fn spec_yield_due(currenttime: u64, prev_delay: u64, sleep_req: bool) -> bool {
    currenttime > prev_delay + COOPERATIVE_YIELD_USEC || sleep_req
}

#[verifier::when_used_as_spec(spec_clock_check_due)]
pub fn clock_check_due(nexec_insts: u64, prev_exec_insts: u64) -> (due: bool)
    ensures
        due == spec_clock_check_due(nexec_insts, prev_exec_insts),
{
    match prev_exec_insts.checked_add(COOPERATIVE_CHECK_INSTS) {
        Some(limit) => nexec_insts > limit,
        None => false,
    }
}

#[verifier::when_used_as_spec(spec_yield_due)]
pub fn yield_due(currenttime: u64, prev_delay: u64, sleep_req: bool) -> (due: bool)
    ensures
        due == spec_yield_due(currenttime, prev_delay, sleep_req),
{
    sleep_req || match prev_delay.checked_add(COOPERATIVE_YIELD_USEC) {
        Some(limit) => currenttime > limit,
        None => false,
    }
}

/// What the run loop keeps between wall-clock ticks.
#[derive(Clone, Copy, PartialEq, Eq, Structural, Debug)]
pub struct LoopState {
    /// Number of instructions executed at the last tick.
    pub prev_exec_insts: u64,
    /// Number of Ctrl-C seen at the last tick.
    pub prev_ctrlc_num: usize,
    /// Time of a Ctrl-C that waits for its grace period to end, or 0.
    pub prev_ctrlc_trig_time: u64,
}

impl LoopState {
    pub fn new() -> (ls: Self)
        ensures
            ls == (LoopState { prev_exec_insts: 0, prev_ctrlc_num: 0, prev_ctrlc_trig_time: 0 }),
    {
        Self { prev_exec_insts: 0, prev_ctrlc_num: 0, prev_ctrlc_trig_time: 0 }
    }

    /// The Ctrl-C rules at a tick at `currenttime` with `ctrlc_num` seen so
    /// far: the loop state after it, whether a reset is asked for, and
    /// whether a break goes to the UART.
    pub open spec fn ctrlc(self, currenttime: u64, ctrlc_num: usize) -> (LoopState, bool, bool) {
        let fresh = ctrlc_num != self.prev_ctrlc_num;
        let second = fresh && currenttime.wrapping_sub(self.prev_ctrlc_trig_time)
            < CTRLC_GRACE_USEC;
        let trig = if second {
            0
        } else if fresh {
            currenttime
        } else {
            self.prev_ctrlc_trig_time
        };
        let expired = trig != 0 && currenttime.wrapping_sub(trig) >= CTRLC_GRACE_USEC;
        (
            LoopState {
                prev_ctrlc_num: ctrlc_num,
                prev_ctrlc_trig_time: if expired {
                    0
                } else {
                    trig
                },
                ..self
            },
            second,
            expired,
        )
    }
}

impl EmuSetting {
    /// The run goes on: no stop is set, or the instruction budget after the
    /// breakpoint is not used up.
    pub open spec fn spec_should_run(&self) -> bool {
        self.stopcount == 0 || self.stopcount >= self.nexec_insts
    }

    /// The instruction at `pc` is where the run breaks: the breakpoint
    /// address under the mask while no stop is set, or the instruction
    /// number of the break counter.
    pub open spec fn breaks_at(&self, pc: u32) -> bool {
        ((pc & self.breakmask) == (self.breakpoint & self.breakmask) && self.stopcount == 0) || (
        self.breakcounter != 0 && self.breakcounter == self.nexec_insts)
    }

    /// The settings after the check for a break at `pc`: a break turns
    /// debugging on and sets the stop.
    pub open spec fn check_break(self, pc: u32) -> EmuSetting {
        if self.breaks_at(pc) {
            EmuSetting {
                debug: true,
                stopcount: self.nexec_insts.wrapping_add(self.runafterbreak),
                ..self
            }
        } else {
            self
        }
    }
}

impl MachineView {
    /// The start of an instruction: register 0 is zero, the instruction is
    /// fetched, and the breakpoint is checked against the address it was
    /// fetched from.
    pub open spec fn begin_instruction(self) -> (MachineView, u32) {
        let f = self.with_reg(self.reg.with_gpr(0, 0)).fetch_instruction();
        (MachineView { emu: f.0.emu.check_break(f.0.reg.pc), ..f.0 }, f.1)
    }

    /// The instruction is executed by the instruction set that bit 0 of the
    /// program counter selects.
    pub open spec fn execute(self, inst: u32) -> (MachineView, bool) {
        if self.reg.pc & 1 == 0 {
            self.exec32(inst)
        } else {
            self.exec16(inst)
        }
    }

    /// The synchronisation with the wall clock at `currenttime`
    /// microseconds: the execution rate of the last period, the time base of
    /// Count, and a poll of the UART for a received byte.
    pub open spec fn sync_clock(self, currenttime: u64, prev_exec_insts: u64) -> MachineView {
        let u = self.uart.read_reg(
            self.stdin_ch,
            (IOADDR_UART0_BASE + UART_REG_LINESTAT) as u32,
        );
        MachineView {
            emu: EmuSetting {
                execrate: self.emu.nexec_insts.wrapping_sub(prev_exec_insts).wrapping_mul(
                    TICKS_PER_SECOND,
                ),
                ..self.emu
            },
            reg: Reg {
                c0_count_currenttime: currenttime,
                c0_count_ninst_in_ctime: self.emu.nexec_insts,
                ..self.reg
            },
            uart: u.0,
            stdin_ch: u.1,
            ..self
        }
    }

    /// The machine after a wall-clock tick, and whether the run ends with a
    /// reset.
    pub open spec fn wall_clock_tick(self, ls: LoopState, currenttime: u64, ctrlc_num: usize) -> (
        MachineView,
        LoopState,
        bool,
    ) {
        let m = self.sync_clock(currenttime, ls.prev_exec_insts);
        let c = ls.ctrlc(currenttime, ctrlc_num);
        let reset = m.misc.reset_request || c.1;
        (
            MachineView {
                misc: crate::dev_soc::IoMisc { reset_request: reset, ..m.misc },
                uart: if c.2 {
                    IoUART { break_request: true, ..m.uart }
                } else {
                    m.uart
                },
                ..m
            },
            LoopState { prev_exec_insts: self.emu.nexec_insts, ..c.0 },
            reset,
        )
    }

    /// Cause after the interrupt lines were sampled: the timer line rises
    /// when the counter has reached the deadline of Compare; the external
    /// line follows the UART interrupt under the interrupt mask.
    pub open spec fn sampled_cause(&self) -> u32 {
        let cause = self.reg.spec_c0(C0_CAUSE);
        let timed = if self.reg.c0_compare_long <= self.reg.counter_long(self.emu.nexec_insts) {
            (cause | C0_CAUSE_IP_TIMER) | C0_CAUSE_TI
        } else {
            cause
        };
        if self.uart.int_enable != 0 && (MISC_INT_UART & self.misc.int_mask) & misc_int_status(
            self.uart.int_enable,
            self.uart.int_ident,
        ) != 0 {
            timed | C0_CAUSE_IP_EXTERNAL
        } else {
            timed & !C0_CAUSE_IP_EXTERNAL
        }
    }

    /// An interrupt is taken: interrupts are enabled, the machine is at
    /// neither exception nor error level, and a pending line is not masked.
    pub open spec fn interrupt_due(&self) -> bool {
        let status = self.reg.spec_c0(C0_STATUS);
        status & C0_STATUS_IE != 0 && !mode_is_exception(status) && (self.reg.spec_c0(C0_CAUSE)
            & status) & C0_CAUSE_IP_MASK != 0
    }

    /// The end of an instruction: the interrupt lines are sampled, an
    /// interrupt that is due is taken, and the instruction is counted.
    pub open spec fn end_instruction(self) -> MachineView {
        let m = self.with_reg(self.reg.with_c0(C0_CAUSE, self.sampled_cause()));
        let t = if m.interrupt_due() {
            m.with_reg(
                m.reg.prepare_interrupt((m.reg.spec_c0(C0_CAUSE) & C0_CAUSE_IP_MASK) >> 8),
            )
        } else {
            m
        };
        MachineView {
            emu: EmuSetting { nexec_insts: t.emu.nexec_insts.wrapping_add(1), ..t.emu },
            ..t
        }
    }

    /// One instruction with no wall-clock tick: begin, execute, end. After
    /// an instruction that is not known the machine stays as the fetch left
    /// it and the flag is false.
    pub open spec fn step(self) -> (MachineView, bool) {
        let b = self.begin_instruction();
        let e = b.0.execute(b.1);
        if e.1 {
            (e.0.end_instruction(), true)
        } else {
            (e.0, false)
        }
    }
}

/// Whether the run goes on under the breakpoint settings.
pub fn should_run(emu: &EmuSetting) -> (r: bool)
    ensures
        r == emu.spec_should_run(),
{
    emu.stopcount == 0 || emu.stopcount >= emu.nexec_insts
}

/// Starts an instruction: clears register 0, fetches, checks the breakpoint.
pub fn begin_instruction(ms: &mut MachineState) -> (inst: u32)
    requires
        old(ms)@.wf(),
    ensures
        (final(ms)@, inst) == old(ms)@.begin_instruction(),
        final(ms)@.wf(),
{
    ms.reg.r[0] = 0;
    let inst = crate::mem::fetch_instruction(ms);
    let pointer = ms.reg.pc;
    if ((pointer & ms.emu.breakmask) == (ms.emu.breakpoint & ms.emu.breakmask) && ms.emu.stopcount
        == 0) || (ms.emu.breakcounter != 0 && ms.emu.breakcounter == ms.emu.nexec_insts) {
        ms.emu.debug = true;
        ms.emu.stopcount = ms.emu.nexec_insts.wrapping_add(ms.emu.runafterbreak);
    }
    inst
}

/// Executes a fetched instruction in the mode of the program counter.
pub fn execute(ms: &mut MachineState, inst: u32) -> (ok: bool)
    requires
        old(ms)@.wf(),
    ensures
        (final(ms)@, ok) == old(ms)@.execute(inst),
        final(ms)@.wf(),
{
    if 0 == (ms.reg.pc & 1) {
        crate::exec_mips32::exec(ms, inst)
    } else {
        crate::exec_mips16::exec(ms, inst)
    }
}

/// Handles a wall-clock tick at `currenttime` microseconds after
/// `ctrlc_num` Ctrl-C were seen. Gives true if the run ends with a reset.
pub fn wall_clock_tick(ms: &mut MachineState, ls: &mut LoopState, currenttime: u64, ctrlc_num: usize) -> (reset: bool)
    ensures
        (final(ms)@, *final(ls), reset) == old(ms)@.wall_clock_tick(
            *old(ls),
            currenttime,
            ctrlc_num,
        ),
{
    ms.emu.execrate = ms.emu.nexec_insts.wrapping_sub(ls.prev_exec_insts).wrapping_mul(
        TICKS_PER_SECOND,
    );
    ls.prev_exec_insts = ms.emu.nexec_insts;
    ms.reg.c0_count_currenttime = currenttime;
    ms.reg.c0_count_ninst_in_ctime = ms.emu.nexec_insts;
    let _ = crate::dev_uart::read_reg(
        &mut ms.uart,
        &mut ms.stdin_ch,
        IOADDR_UART0_BASE + UART_REG_LINESTAT,
    );
    if ctrlc_num != ls.prev_ctrlc_num {
        if currenttime.wrapping_sub(ls.prev_ctrlc_trig_time) < CTRLC_GRACE_USEC {
            ms.misc.reset_request = true;
            ls.prev_ctrlc_trig_time = 0;
        } else {
            ls.prev_ctrlc_trig_time = currenttime;
        }
        ls.prev_ctrlc_num = ctrlc_num;
    }
    if ls.prev_ctrlc_trig_time != 0 && currenttime.wrapping_sub(ls.prev_ctrlc_trig_time)
        >= CTRLC_GRACE_USEC {
        crate::dev_uart::request_send_break(&mut ms.uart);
        ls.prev_ctrlc_trig_time = 0;
    }
    ms.misc.reset_request
}

/// Ends an instruction: samples the interrupt lines, takes an interrupt
/// that is due, and counts the instruction.
pub fn end_instruction(ms: &mut MachineState)
    ensures
        final(ms)@ == old(ms)@.end_instruction(),
{
    let mut cause = ms.reg.c0(C0_CAUSE);
    let counter = crate::cp0::load_counter_long(ms);
    if ms.reg.c0_compare_long <= counter {
        cause = (cause | C0_CAUSE_IP_TIMER) | C0_CAUSE_TI;
    }
    if 0 != ms.uart.int_enable && 0 != ((MISC_INT_UART & ms.misc.int_mask)
        & read_misc_int_status_reg(ms)) {
        cause = cause | C0_CAUSE_IP_EXTERNAL;
    } else {
        cause = cause & !C0_CAUSE_IP_EXTERNAL;
    }
    ms.reg.set_c0(C0_CAUSE, cause);
    let status = ms.reg.c0(C0_STATUS);
    if 0 != (status & C0_STATUS_IE) && !mode_is_exception(status) {
        if 0 != ((ms.reg.c0(C0_CAUSE) & status) & C0_CAUSE_IP_MASK) {
            let icode = (ms.reg.c0(C0_CAUSE) & C0_CAUSE_IP_MASK) >> 8;
            crate::exception::prepare_interrupt(ms, icode);
        }
    }
    ms.emu.nexec_insts = ms.emu.nexec_insts.wrapping_add(1);
}

/// Runs one instruction without a wall-clock tick. Gives false if the
/// instruction is not known.
pub fn step(ms: &mut MachineState) -> (ok: bool)
    requires
        old(ms)@.wf(),
    ensures
        (final(ms)@, ok) == old(ms)@.step(),
        final(ms)@.wf(),
{
    let inst = begin_instruction(ms);
    if execute(ms, inst) {
        end_instruction(ms);
        true
    } else {
        false
    }
}

} // verus!
