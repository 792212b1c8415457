//! A software model of a 32-bit MIPS core (MIPS32 Release 2 with MIPS16e) and
//! the handful of on-chip peripherals a router-class firmware needs to boot.
//!
//! Every function is verified: its contract states the architectural effect
//! as a function over the view of the machine state.
use vstd::prelude::*;

pub mod addr_cache;
pub mod bits;
pub mod config;
pub mod cp0;
pub mod cp0def;
pub mod dev_soc;
pub mod dev_spi;
pub mod dev_spiflash;
pub mod dev_uart;
pub mod exception;
pub mod exec_common;
pub mod exec_mips16;
pub mod exec_mips32;
pub mod frame;
pub mod invariants;
pub mod laws;
pub mod mainloop;
pub mod mem;
pub mod mips;
pub mod procstate;
pub mod tlb;

use crate::cp0def::{
    C0_CONFIG,
    C0_CONFIG1,
    C0_CONFIG1_CONST,
    C0_CONFIG2,
    C0_CONFIG2_CONST,
    C0_CONFIG_INIT,
    C0_EBASE,
    C0_EBASE_CONST,
    C0_PRID,
    C0_PRID_CONST,
    C0_RANDOM,
    C0_RANDOM_INIT,
    C0_STATUS,
    C0_STATUS_INIT,
};
use crate::dev_soc::{IoGPIO, IoMisc};
use crate::dev_spi::{IoSPI, SpiSlave, SpiSlaveView};
use crate::dev_spiflash::{generate_flash, SPIFlashParam};
use crate::dev_uart::{IoUART, UartConsole};
use crate::mem::MemRegion;
use crate::mips::EXCEPT_VECT_RESET;
use crate::procstate::{EmuSetting, MachineState, Reg};
use crate::tlb::{TLBEntry, TLB_CACHE_NO_HINT};

verus! {

/// The contents of a flash device of `capacity` bytes that holds `image`
/// from address 0 on: the rest is 0xff.
pub open spec fn flash_image(capacity: nat, image: Seq<u8>) -> Seq<u8> {
    Seq::new(
        capacity,
        |i: int|
            if i < image.len() {
                image[i]
            } else {
                0xffu8
            },
    )
}

/// What a coprocessor-0 slot holds after reset.
pub open spec fn reset_c0(i: int) -> u32 {
    if i == cp0def::spec_c0_index(C0_STATUS) {
        C0_STATUS_INIT
    } else if i == cp0def::spec_c0_index(C0_CONFIG) {
        C0_CONFIG_INIT
    } else if i == cp0def::spec_c0_index(C0_CONFIG1) {
        C0_CONFIG1_CONST
    } else if i == cp0def::spec_c0_index(C0_CONFIG2) {
        C0_CONFIG2_CONST
    } else if i == cp0def::spec_c0_index(C0_EBASE) {
        C0_EBASE_CONST
    } else if i == cp0def::spec_c0_index(C0_PRID) {
        C0_PRID_CONST
    } else if i == cp0def::spec_c0_index(C0_RANDOM) {
        C0_RANDOM_INIT
    } else {
        0
    }
}

fn fill_flash(capacity: u32, bindata: &[u8]) -> (data: Vec<u8>)
    requires
        bindata@.len() <= capacity,
    ensures
        data@ == flash_image(capacity as nat, bindata@),
{
    let mut data: Vec<u8> = vec![0xffu8; capacity as usize];
    let n = bindata.len();
    let mut i: usize = 0;
    while i < n
        invariant
            i <= n,
            n == bindata@.len(),
            n <= capacity,
            data@.len() == capacity,
            forall|k: int| 0 <= k < i ==> data@[k] == bindata@[k],
            forall|k: int| i <= k < capacity ==> data@[k] == 0xffu8,
        decreases n - i,
    {
        data[i] = bindata[i];
        i += 1;
    }
    assert(data@ =~= flash_image(capacity as nat, bindata@));
    data
}

/// The machine at reset with the firmware image `bindata` in a flash device
/// of the part `flash_param` on chip select 0: the program counter at the
/// reset vector, Status with BEV and ERL set, an empty TLB, main memory all
/// 0xff.
pub fn generate_machine_state(flash_param: SPIFlashParam, bindata: &[u8]) -> (ms: MachineState)
    requires
        0 < flash_param@.capacity,
        bindata@.len() <= flash_param@.capacity,
    ensures
        ms@.wf(),
        ms@.reg.pc == EXCEPT_VECT_RESET,
        ms@.reg.pc_delay == 0,
        ms@.reg.pc_prev_jump == 0,
        ms@.reg.hi == 0,
        ms@.reg.lo == 0,
        !ms@.reg.delay_en,
        !ms@.reg.ll_sc,
        ms@.reg.c0_count_basetime == 0,
        ms@.reg.c0_count_currenttime == 0,
        ms@.reg.c0_count_ninst_in_ctime == 0,
        ms@.reg.c0_compare_long == 0,
        ms@.reg.caches_empty(),
        forall|i: int| 0 <= i < 32 ==> ms@.reg.r[i] == 0,
        forall|i: int| 0 <= i < 512 ==> ms@.reg.cp0[i] == reset_c0(i),
        forall|i: int| 0 <= i < 32 ==> (#[trigger] ms@.tlb[i]).is_empty(),
        forall|i: int| 0 <= i < 1024 ==> ms@.tlbcache[i] == TLB_CACHE_NO_HINT,
        forall|i: int| 0 <= i < ms@.mem.len() ==> ms@.mem[i] == 0xffu8,
        ms@.uart.int_enable == 0,
        ms@.uart.int_ident == 0,
        ms@.uart.line_control == 0,
        ms@.uart.modem_control == 0,
        ms@.uart.divisor[0] == 0,
        ms@.uart.divisor[1] == 0,
        ms@.uart.buf == 0,
        ms@.uart.scratch == 0,
        !ms@.uart.buffered,
        !ms@.uart.break_request,
        ms@.misc == (IoMisc { int_mask: 0, reset_request: false }),
        ms@.gpio == (IoGPIO { oe: 0, out: 0 }),
        ms@.spi.function_select == 0,
        ms@.spi.control == 0,
        ms@.spi.io_control == 0,
        ms@.spi.read_data_addr == 0,
        ms@.spi.shift_dataout == 0,
        ms@.spi.shift_count == 0,
        ms@.spi.shift_datain == 0,
        ms@.spi.workers[1] == SpiSlaveView::Dummy,
        ms@.spi.workers[2] == SpiSlaveView::Dummy,
        ms@.spi.workers[0] matches SpiSlaveView::Flash(f) && f.mem == flash_image(
            flash_param@.capacity as nat,
            bindata@,
        ) && f.param == flash_param@ && !f.selected && !f.error && f.flash_cnt == 0 && f.addr == 0
            && (forall|i: int| 0 <= i < 3 ==> f.sr[i] == 0) && (forall|i: int|
            0 <= i < 64 ==> f.flash_buf[i] == 0),
        ms@.emu == (EmuSetting {
            breakpoint: 0,
            breakmask: 0xffffffff,
            runafterbreak: 0,
            breakcounter: 0,
            nexec_insts: 0,
            execrate: 0,
            stopcount: 0,
            debug: false,
        }),
        !ms@.sleep_req,
        ms@.stdin_ch.rx.len() == 0,
        ms@.stdin_ch.tx.len() == 0,
{
    let flashdata = fill_flash(flash_param.capacity, bindata);
    let spiflash = generate_flash(flash_param, flashdata);
    let mut ms = MachineState {
        reg: Reg::new(),
        mem: MemRegion::new(),
        tlb: [TLBEntry::new();32],
        tlbcache: [TLB_CACHE_NO_HINT;1024],
        emu: EmuSetting {
            breakpoint: 0,
            breakmask: 0xffffffff,
            runafterbreak: 0,
            breakcounter: 0,
            nexec_insts: 0,
            execrate: 0,
            stopcount: 0,
            debug: false,
        },
        uart: IoUART::new(),
        gpio: IoGPIO::new(),
        spi: IoSPI::new(),
        misc: IoMisc::new(),
        sleep_req: false,
        stdin_ch: UartConsole::new(),
    };
    ms.spi.workers[0] = SpiSlave::Flash(spiflash);
    ms.reg.pc = EXCEPT_VECT_RESET;
    ms.reg.set_c0(C0_STATUS, C0_STATUS_INIT);
    ms.reg.set_c0(C0_CONFIG, C0_CONFIG_INIT);
    ms.reg.set_c0(C0_CONFIG1, C0_CONFIG1_CONST);
    ms.reg.set_c0(C0_CONFIG2, C0_CONFIG2_CONST);
    ms.reg.set_c0(C0_EBASE, C0_EBASE_CONST);
    ms.reg.set_c0(C0_PRID, C0_PRID_CONST);
    ms.reg.set_c0(C0_RANDOM, C0_RANDOM_INIT);
    assert(ms@.spi.workers[0].wf());
    assert(ms@.spi.workers[1] == SpiSlaveView::Dummy);
    assert(ms@.spi.workers[2] == SpiSlaveView::Dummy);
    ms
}

} // verus!
