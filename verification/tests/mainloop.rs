use exrmips::dev_spiflash::{spi_flash_param_mx66u2g45g, spi_flash_param_s25fl164k};
use exrmips::dev_spi::SpiSlave;
use exrmips::generate_machine_state;
use exrmips::mainloop::{
    begin_instruction,
    clock_check_due,
    execute,
    should_run,
    step,
    wall_clock_tick,
    yield_due,
    LoopState,
};
use exrmips::mem::store_word;
use exrmips::procstate::{MachineState, Reg};

fn loop_machine() -> MachineState {
    let mut ms = generate_machine_state(spi_flash_param_s25fl164k(), &[0u8; 8]);
    for i in 0..16 {
        store_word(&mut ms, 0x8000_1000 + 4 * i, 0).unwrap();
    }
    ms.reg.pc = 0x8000_1000;
    ms
}

#[test]
fn new_registers_are_zero() {
    let r = Reg::new();
    assert!(r.r.iter().all(|x| *x == 0));
    assert!(r.cp0.iter().all(|x| *x == 0));
    assert_eq!((r.pc, r.hi, r.lo), (0, 0, 0));
    assert!(!r.delay_en && !r.ll_sc);
    assert!(!r.pc_cache.valid && !r.dr_cache[0].valid && !r.dw_cache[1].valid);
}

#[test]
fn machine_at_reset() {
    let image = [1u8, 2, 3];
    let ms = generate_machine_state(spi_flash_param_s25fl164k(), &image);
    assert_eq!(ms.reg.pc, 0xbfc0_0000);
    assert_eq!(ms.mem.mem0.len(), 64 * 1024 * 1024);
    assert!(ms.tlbcache.iter().all(|x| *x == 32));
    assert!(ms.tlb.iter().all(|e| !e.lo[0].field_valid && !e.lo[1].field_valid));
    assert_eq!(ms.emu.breakmask, 0xffff_ffff);
    assert_eq!(ms.emu.nexec_insts, 0);
    assert!(!ms.sleep_req && !ms.misc.reset_request);
    match &ms.spi.workers[0] {
        SpiSlave::Flash(f) => {
            assert_eq!(f.mem.len(), 8 * 1024 * 1024);
            assert_eq!(&f.mem[0..5], &[1, 2, 3, 0xff, 0xff]);
            assert_eq!(f.mem[8 * 1024 * 1024 - 1], 0xff);
            assert_eq!(f.param.capacity_id, 0x17);
        },
        SpiSlave::Dummy(_) => panic!("no flash on chip select 0"),
    }
    assert!(matches!(ms.spi.workers[1], SpiSlave::Dummy(_)));
    assert!(matches!(ms.spi.workers[2], SpiSlave::Dummy(_)));
}

#[test]
fn machine_with_the_large_flash() {
    let ms = generate_machine_state(spi_flash_param_mx66u2g45g(), &[9u8; 16]);
    match &ms.spi.workers[0] {
        SpiSlave::Flash(f) => {
            assert_eq!(f.mem.len(), 256 * 1024 * 1024);
            assert_eq!(f.mem[15], 9);
            assert_eq!(f.mem[16], 0xff);
            assert_eq!(f.param.manufacturer_id, 0xc2);
        },
        SpiSlave::Dummy(_) => panic!("no flash on chip select 0"),
    }
}

#[test]
fn step_counts_instructions() {
    let mut ms = loop_machine();
    for _ in 0..3 {
        assert!(step(&mut ms));
    }
    assert_eq!(ms.emu.nexec_insts, 3);
    assert_eq!(ms.reg.pc, 0x8000_100c);
}

#[test]
fn step_stops_at_an_unknown_instruction() {
    let mut ms = loop_machine();
    store_word(&mut ms, 0x8000_1004, 0xffff_ffff).unwrap();
    assert!(step(&mut ms));
    assert!(!step(&mut ms));
    assert_eq!(ms.emu.nexec_insts, 1);
    assert_eq!(ms.reg.pc, 0x8000_1004);
}

#[test]
fn execute_dispatches_on_bit_0_of_the_program_counter() {
    let mut ms = loop_machine();
    // 0x6a55 is li $2, 0x55 in MIPS16e and an unknown shift in MIPS32
    ms.reg.pc = 0x8000_1001;
    assert!(execute(&mut ms, 0x6a55));
    assert_eq!(ms.reg.r[2], 0x55);
    ms.reg.pc = 0x8000_1000;
    // 0x00221821 is addu in MIPS32
    ms.reg.r[1] = 1;
    ms.reg.r[2] = 2;
    assert!(execute(&mut ms, 0x0022_1821));
    assert_eq!(ms.reg.r[3], 3);
}

#[test]
fn breakpoint_sets_the_stop() {
    let mut ms = loop_machine();
    ms.emu.breakpoint = 0x8000_1008;
    ms.emu.runafterbreak = 2;
    assert!(should_run(&ms.emu));
    assert!(step(&mut ms));
    assert!(step(&mut ms));
    assert!(!ms.emu.debug);
    assert!(step(&mut ms));
    assert!(ms.emu.debug);
    assert_eq!(ms.emu.stopcount, 4);
    assert!(should_run(&ms.emu));
    assert!(step(&mut ms));
    assert!(should_run(&ms.emu));
    assert!(step(&mut ms));
    assert!(!should_run(&ms.emu));
}

#[test]
fn break_counter_breaks_at_an_instruction_number() {
    let mut ms = loop_machine();
    ms.emu.breakpoint = 0;
    ms.emu.breakcounter = 2;
    ms.emu.runafterbreak = 10;
    let _ = begin_instruction(&mut ms);
    assert!(!ms.emu.debug);
    ms.emu.nexec_insts = 2;
    let _ = begin_instruction(&mut ms);
    assert!(ms.emu.debug);
    assert_eq!(ms.emu.stopcount, 12);
}

#[test]
fn tick_synchronises_the_counter() {
    let mut ms = loop_machine();
    let mut ls = LoopState::new();
    for _ in 0..5 {
        assert!(step(&mut ms));
    }
    ms.stdin_ch.push_input(b'z');
    assert!(!wall_clock_tick(&mut ms, &mut ls, 1000, 0));
    assert_eq!(ms.emu.execrate, 5000);
    assert_eq!(ls.prev_exec_insts, 5);
    assert_eq!(ms.reg.c0_count_currenttime, 1000);
    assert_eq!(ms.reg.c0_count_ninst_in_ctime, 5);
    // the poll latched the byte
    assert!(ms.uart.buffered);
    assert_eq!(ms.uart.buf, b'z');
    for _ in 0..3 {
        assert!(step(&mut ms));
    }
    assert!(!wall_clock_tick(&mut ms, &mut ls, 2000, 0));
    assert_eq!(ms.emu.execrate, 3000);
}

#[test]
fn single_ctrl_c_becomes_a_break_after_the_grace_period() {
    let mut ms = loop_machine();
    let mut ls = LoopState::new();
    assert!(!wall_clock_tick(&mut ms, &mut ls, 5_000_000, 1));
    assert_eq!(ls.prev_ctrlc_num, 1);
    assert_eq!(ls.prev_ctrlc_trig_time, 5_000_000);
    assert!(!ms.uart.break_request);
    assert!(!wall_clock_tick(&mut ms, &mut ls, 5_999_999, 1));
    assert!(!ms.uart.break_request);
    assert!(!wall_clock_tick(&mut ms, &mut ls, 6_000_000, 1));
    assert!(ms.uart.break_request);
    assert_eq!(ls.prev_ctrlc_trig_time, 0);
    assert!(!ms.misc.reset_request);
}

#[test]
fn two_ctrl_c_within_a_second_ask_for_reset() {
    let mut ms = loop_machine();
    let mut ls = LoopState::new();
    assert!(!wall_clock_tick(&mut ms, &mut ls, 5_000_000, 1));
    assert!(wall_clock_tick(&mut ms, &mut ls, 5_500_000, 2));
    assert!(ms.misc.reset_request);
    assert_eq!(ls.prev_ctrlc_trig_time, 0);
    assert!(!ms.uart.break_request);
}

#[test]
fn reset_request_of_the_guest_ends_the_run_at_the_tick() {
    let mut ms = loop_machine();
    let mut ls = LoopState::new();
    store_word(&mut ms, 0xb806_001c, 0x0100_0000).unwrap();
    assert!(wall_clock_tick(&mut ms, &mut ls, 1000, 0));
}

#[test]
fn cooperative_host_looks_at_the_clock_every_10000_instructions() {
    assert!(!clock_check_due(10_000, 0));
    assert!(clock_check_due(10_001, 0));
    assert!(!clock_check_due(25_000, 15_000));
    assert!(clock_check_due(25_001, 15_000));
    assert!(!clock_check_due(u64::MAX, u64::MAX - 5));
}

#[test]
fn cooperative_host_yields_after_20_milliseconds_or_on_wait() {
    assert!(!yield_due(20_000, 0, false));
    assert!(yield_due(20_001, 0, false));
    assert!(yield_due(5, 0, true));
    assert!(!yield_due(50_000, 40_000, false));
    assert!(!yield_due(u64::MAX, u64::MAX - 5, false));
}

#[test]
fn tick_without_new_ctrl_c_leaves_the_ctrl_c_state() {
    let mut ms = loop_machine();
    let mut ls = LoopState::new();
    assert!(!wall_clock_tick(&mut ms, &mut ls, 100, 0));
    assert_eq!(ls.prev_ctrlc_num, 0);
    assert_eq!(ls.prev_ctrlc_trig_time, 0);
    assert!(!ms.uart.break_request);
}
