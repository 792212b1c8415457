use exrmips::cp0::{load, load_counter, load_counter_long, load_counter_precise, store, store_counter};
use exrmips::cp0def::{
    setting,
    C0_BADVADDR,
    C0_CAUSE,
    C0_COMPARE,
    C0_CONFIG,
    C0_CONFIG1,
    C0_CONFIG2,
    C0_CONFIG3,
    C0_CONTEXT,
    C0_COUNT,
    C0_EBASE,
    C0_ENTRYHI,
    C0_ENTRYLO0,
    C0_EPC,
    C0_ERROREPC,
    C0_HWRENA,
    C0_INDEX,
    C0_INTCTL,
    C0_PAGEMASK,
    C0_PRID,
    C0_RANDOM,
    C0_STATUS,
    C0_WIRED,
};
use exrmips::dev_spiflash::spi_flash_param_s25fl164k;
use exrmips::exception::{prepare_exception, prepare_interrupt};
use exrmips::exec_mips32::exec;
use exrmips::generate_machine_state;
use exrmips::mainloop::{end_instruction, step};
use exrmips::mem::store_word;
use exrmips::procstate::MachineState;

fn cp0_machine() -> MachineState {
    let mut ms = generate_machine_state(spi_flash_param_s25fl164k(), &[0u8; 8]);
    ms.reg.pc = 0x8000_1000;
    ms
}

fn cp0_round_trip(rs: (u32, u32), v: u32) -> u32 {
    let mut ms = cp0_machine();
    store(&mut ms, rs, v);
    load(&mut ms, rs)
}

#[test]
fn masked_registers_follow_their_descriptor() {
    for rs in [
        C0_STATUS, C0_CAUSE, C0_ENTRYHI, C0_ENTRYLO0, C0_INDEX, C0_PAGEMASK, C0_WIRED, C0_HWRENA,
        C0_EBASE, C0_CONFIG, C0_CONFIG1, C0_CONFIG2, C0_CONFIG3, C0_PRID, C0_INTCTL,
    ] {
        let s = setting(rs).unwrap();
        for v in [0u32, 0xffff_ffff, 0x1234_5678, 0xa5a5_a5a5] {
            let want = (((v & s.mask_w) | s.const_val) & s.mask_r) | s.const_val;
            assert_eq!(cp0_round_trip(rs, v), want);
        }
    }
}

#[test]
fn exact_values_of_masked_registers() {
    assert_eq!(cp0_round_trip(C0_STATUS, 0xffff_ffff), 0x3d6f_ff1f);
    assert_eq!(cp0_round_trip(C0_EBASE, 0x1234_5678), 0x9234_5000);
    assert_eq!(cp0_round_trip(C0_ENTRYHI, 0xffff_ffff), 0xffff_e0ff);
    assert_eq!(cp0_round_trip(C0_ENTRYLO0, 0xffff_ffff), 0x03ff_ffff);
    assert_eq!(cp0_round_trip(C0_INDEX, 0xffff_ffff), 0x8000_003f);
    assert_eq!(cp0_round_trip(C0_PAGEMASK, 0xffff_ffff), 0x1fff_e000);
    assert_eq!(cp0_round_trip(C0_WIRED, 0xffff_ffff), 0x3f);
    assert_eq!(cp0_round_trip(C0_HWRENA, 0xffff_ffff), 0x2000_000f);
    assert_eq!(cp0_round_trip(C0_CONFIG, 0), 0x8000_0480);
    assert_eq!(cp0_round_trip(C0_CONFIG, 0xffff_ffff), 0x800c_0483);
    assert_eq!(cp0_round_trip(C0_CONFIG1, 0x1234), 0xbea3_5190);
    assert_eq!(cp0_round_trip(C0_CONFIG2, 0xffff_ffff), 0x8000_1000);
    assert_eq!(cp0_round_trip(C0_CONFIG3, 0xffff_ffff), 0x0000_2000);
    assert_eq!(cp0_round_trip(C0_PRID, 0xffff_ffff), 0x0001_9700);
    assert_eq!(cp0_round_trip(C0_INTCTL, 0xffff_ffff), 0xf600_01e0);
    // Cause: software writes DC, IV, WP and the two software interrupts
    assert_eq!(cp0_round_trip(C0_CAUSE, 0xffff_ffff), 0x08c0_0300);
}

#[test]
fn reset_values_of_coprocessor_0() {
    let mut ms = cp0_machine();
    assert_eq!(load(&mut ms, C0_STATUS), 0x0040_0004);
    assert_eq!(load(&mut ms, C0_CONFIG), 0x8004_0482);
    assert_eq!(load(&mut ms, C0_CONFIG1), 0xbea3_5190);
    assert_eq!(load(&mut ms, C0_EBASE), 0x8000_0000);
    assert_eq!(load(&mut ms, C0_PRID), 0x0001_9700);
    assert_eq!(load(&mut ms, C0_RANDOM), 31);
    assert_eq!(load(&mut ms, C0_INDEX), 0);
}

#[test]
fn read_only_registers_ignore_stores() {
    let mut ms = cp0_machine();
    store(&mut ms, C0_RANDOM, 5);
    assert_eq!(load(&mut ms, C0_RANDOM), 31);
    ms.reg.set_c0(C0_RANDOM, 0xffff_ffc7);
    assert_eq!(load(&mut ms, C0_RANDOM), 7);
    ms.reg.set_c0(C0_BADVADDR, 0x1234);
    ms.reg.set_c0(C0_EPC, 0x5678);
    ms.reg.set_c0(C0_CONTEXT, 0x9abc);
    store(&mut ms, C0_BADVADDR, 1);
    store(&mut ms, C0_EPC, 2);
    store(&mut ms, C0_CONTEXT, 3);
    assert_eq!(load(&mut ms, C0_BADVADDR), 0x1234);
    assert_eq!(load(&mut ms, C0_EPC), 0x5678);
    assert_eq!(load(&mut ms, C0_CONTEXT), 0x9abc);
}

#[test]
fn unlisted_registers_are_plain_storage() {
    assert_eq!(cp0_round_trip((20, 0), 0xdead_beef), 0xdead_beef);
    assert_eq!(cp0_round_trip(C0_ERROREPC, 0x8765_4321), 0x8765_4321);
    // register and selector are cut to their bits
    let mut ms = cp0_machine();
    store(&mut ms, (20 + 32, 16), 0x55);
    assert_eq!(load(&mut ms, (20, 0)), 0x55);
}

#[test]
fn count_runs_with_instructions_and_time() {
    let mut ms = cp0_machine();
    assert_eq!(load_counter(&mut ms), 0);
    ms.emu.nexec_insts = 1000;
    assert_eq!(load_counter(&mut ms), 1000);
    assert_eq!(load_counter_precise(&mut ms), 1000);
    assert_eq!(load(&mut ms, C0_COUNT), 1000);
    // 10 microseconds later, synchronised at instruction 1000
    ms.reg.c0_count_currenttime = 10;
    ms.reg.c0_count_ninst_in_ctime = 1000;
    ms.emu.nexec_insts = 1007;
    assert_eq!(load_counter_long(&mut ms), 2007);
    ms.reg.c0_count_currenttime = 30_000_000;
    assert_eq!(load_counter_long(&mut ms), 6_000_000_007);
    assert_eq!(load_counter(&mut ms), 6_000_000_007u64 as u32);
}

#[test]
fn store_to_count_moves_the_base_time() {
    let mut ms = cp0_machine();
    ms.reg.c0_count_currenttime = 100;
    store_counter(&mut ms, 1000);
    assert_eq!(ms.reg.c0_count_basetime, 95);
    assert_eq!(load_counter(&mut ms), 1000);
    store(&mut ms, C0_COUNT, 401);
    assert_eq!(ms.reg.c0_count_basetime, 98);
    assert_eq!(load(&mut ms, C0_COUNT), 400);
    // a base time before zero wraps
    store_counter(&mut ms, 40_000);
    assert_eq!(ms.reg.c0_count_basetime, 100u64.wrapping_sub(200));
    assert_eq!(load_counter(&mut ms), 40_000);
}

#[test]
fn compare_deadline_in_this_or_the_next_period() {
    let mut ms = cp0_machine();
    ms.reg.c0_count_currenttime = 30_000_000;
    ms.emu.nexec_insts = 7;
    // the counter is 0x1_65a0_bc07
    assert_eq!(load_counter_long(&mut ms), 0x1_65a0_bc07);
    store(&mut ms, C0_COMPARE, 0x7000_0000);
    assert_eq!(ms.reg.c0_compare_long, 0x1_7000_0000);
    assert_eq!(load(&mut ms, C0_COMPARE), 0x7000_0000);
    store(&mut ms, C0_COMPARE, 0x6000_0000);
    assert_eq!(ms.reg.c0_compare_long, 0x2_6000_0000);
    store(&mut ms, C0_COMPARE, 0x65a0_bc07);
    assert_eq!(ms.reg.c0_compare_long, 0x2_65a0_bc07);
}

#[test]
fn store_to_compare_withdraws_the_timer_interrupt() {
    let mut ms = cp0_machine();
    ms.reg.set_c0(C0_CAUSE, 0x4000_8400);
    store(&mut ms, C0_COMPARE, 100);
    assert_eq!(ms.reg.c0(C0_CAUSE), 0x0000_0400);
}

#[test]
fn timer_interrupt_is_taken_when_count_passes_compare() {
    let mut ms = cp0_machine();
    for i in 0..64 {
        store_word(&mut ms, 0x8000_1000 + 4 * i, 0).unwrap();
    }
    // interrupts enabled, only the timer unmasked, no BEV
    ms.reg.set_c0(C0_STATUS, 0x0000_8001);
    store(&mut ms, C0_COMPARE, 10);
    assert_eq!(ms.reg.c0_compare_long, 10);
    for _ in 0..10 {
        assert!(step(&mut ms));
    }
    assert_eq!(ms.reg.c0(C0_CAUSE) & 0x4000_8000, 0);
    assert_eq!(ms.reg.pc, 0x8000_1028);
    assert!(step(&mut ms));
    assert_eq!(ms.reg.c0(C0_CAUSE) & 0x4000_8000, 0x4000_8000);
    assert_eq!(ms.reg.pc, 0x8000_0180);
    assert_eq!(ms.reg.c0(C0_STATUS) & 2, 2);
    assert_eq!(ms.reg.c0(C0_EPC), 0x8000_102c);
    assert_eq!((ms.reg.c0(C0_CAUSE) >> 2) & 0x1f, 0);
    assert_eq!(ms.emu.nexec_insts, 11);
}

#[test]
fn masked_timer_interrupt_stays_pending() {
    let mut ms = cp0_machine();
    for i in 0..16 {
        store_word(&mut ms, 0x8000_1000 + 4 * i, 0).unwrap();
    }
    // interrupts enabled but the timer masked
    ms.reg.set_c0(C0_STATUS, 0x0000_0001);
    store(&mut ms, C0_COMPARE, 2);
    for _ in 0..5 {
        assert!(step(&mut ms));
    }
    assert_eq!(ms.reg.c0(C0_CAUSE) & 0x4000_8000, 0x4000_8000);
    assert_eq!(ms.reg.pc, 0x8000_1014);
    // at exception level nothing is taken either
    ms.reg.set_c0(C0_STATUS, 0x0000_8003);
    assert!(step(&mut ms));
    assert_eq!(ms.reg.pc, 0x8000_1018);
}

#[test]
fn external_interrupt_follows_the_uart() {
    let mut ms = cp0_machine();
    ms.reg.c0_compare_long = u64::MAX;
    ms.uart.int_enable = 1;
    ms.uart.int_ident = 4;
    ms.misc.int_mask = 8;
    end_instruction(&mut ms);
    assert_eq!(ms.reg.c0(C0_CAUSE) & 0x4000, 0x4000);
    ms.misc.int_mask = 0;
    end_instruction(&mut ms);
    assert_eq!(ms.reg.c0(C0_CAUSE) & 0x4000, 0);
    assert_eq!(ms.emu.nexec_insts, 2);
}

#[test]
fn interrupt_vectors() {
    let mut ms = cp0_machine();
    ms.reg.set_c0(C0_STATUS, 0);
    ms.reg.set_c0(C0_EBASE, 0x8012_3000);
    prepare_interrupt(&mut ms, 0x80);
    assert_eq!(ms.reg.pc, 0x8012_3180);
    assert_eq!(ms.reg.c0(C0_CAUSE) & 0xff00, 0x8000);
    assert_eq!(ms.reg.c0(C0_EPC), 0x8000_1000);
    assert_eq!(ms.reg.c0(C0_STATUS) & 2, 2);
    let mut ms = cp0_machine();
    ms.reg.set_c0(C0_STATUS, 0);
    ms.reg.set_c0(C0_CAUSE, 0x0080_0000);
    prepare_interrupt(&mut ms, 0x40);
    assert_eq!(ms.reg.pc, 0x8000_0200);
    let mut ms = cp0_machine();
    ms.reg.set_c0(C0_STATUS, 0x0040_0000);
    prepare_interrupt(&mut ms, 0x40);
    assert_eq!(ms.reg.pc, 0xbfc0_0380);
    let mut ms = cp0_machine();
    ms.reg.set_c0(C0_STATUS, 0x0040_0000);
    ms.reg.set_c0(C0_CAUSE, 0x0080_0000);
    prepare_interrupt(&mut ms, 0x40);
    assert_eq!(ms.reg.pc, 0xbfc0_0400);
}

#[test]
fn exception_vectors() {
    // cache error
    let mut ms = cp0_machine();
    ms.reg.set_c0(C0_STATUS, 0);
    ms.reg.set_c0(C0_EBASE, 0x8012_3000);
    prepare_exception(&mut ms, 30, 0);
    assert_eq!(ms.reg.pc, 0xa012_3100);
    assert_eq!(ms.reg.c0(C0_STATUS) & 6, 4);
    let mut ms = cp0_machine();
    prepare_exception(&mut ms, 30, 0);
    assert_eq!(ms.reg.pc, 0xbfc0_0300);
    // refill with and without EXL, with and without BEV
    let mut ms = cp0_machine();
    ms.reg.set_c0(C0_STATUS, 0);
    ms.reg.set_c0(C0_EBASE, 0x8012_3000);
    prepare_exception(&mut ms, 32, 0x1000_0000);
    assert_eq!(ms.reg.pc, 0x8012_3000);
    let mut ms = cp0_machine();
    ms.reg.set_c0(C0_STATUS, 2);
    prepare_exception(&mut ms, 33, 0x1000_0000);
    assert_eq!(ms.reg.pc, 0x8000_0180);
    assert_eq!((ms.reg.c0(C0_CAUSE) >> 2) & 0x1f, 3);
    let mut ms = cp0_machine();
    ms.reg.set_c0(C0_STATUS, 0x0040_0000);
    prepare_exception(&mut ms, 32, 0x1000_0000);
    assert_eq!(ms.reg.pc, 0xbfc0_0200);
    let mut ms = cp0_machine();
    ms.reg.set_c0(C0_STATUS, 0x0040_0002);
    prepare_exception(&mut ms, 32, 0x1000_0000);
    assert_eq!(ms.reg.pc, 0xbfc0_0380);
    // everything else
    let mut ms = cp0_machine();
    ms.reg.set_c0(C0_STATUS, 0);
    ms.reg.set_c0(C0_EBASE, 0x8012_3000);
    prepare_exception(&mut ms, 8, 0);
    assert_eq!(ms.reg.pc, 0x8012_3180);
}

#[test]
fn exception_at_exception_level_uses_error_epc() {
    let mut ms = cp0_machine();
    ms.reg.set_c0(C0_STATUS, 2);
    ms.reg.set_c0(C0_EPC, 0x1111);
    ms.reg.set_c0(C0_CAUSE, 0x8000_0000);
    prepare_exception(&mut ms, 8, 0);
    assert_eq!(ms.reg.c0(C0_ERROREPC), 0x8000_1000);
    assert_eq!(ms.reg.c0(C0_EPC), 0x1111);
    // BD stays as it was
    assert_eq!(ms.reg.c0(C0_CAUSE) & 0x8000_0000, 0x8000_0000);
    assert_eq!((ms.reg.c0(C0_CAUSE) >> 2) & 0x1f, 8);
}

#[test]
fn address_error_sets_bad_vaddr_only() {
    let mut ms = cp0_machine();
    ms.reg.set_c0(C0_STATUS, 0);
    ms.reg.set_c0(C0_ENTRYHI, 0x0000_0007);
    prepare_exception(&mut ms, 4, 0x8000_4001);
    assert_eq!(ms.reg.c0(C0_BADVADDR), 0x8000_4001);
    assert_eq!(ms.reg.c0(C0_ENTRYHI), 7);
    assert_eq!(ms.reg.c0(C0_CONTEXT), 0);
}

#[test]
fn coprocessor_unusable_records_the_unit() {
    let mut ms = cp0_machine();
    ms.reg.set_c0(C0_STATUS, 0);
    prepare_exception(&mut ms, 11, 1);
    assert_eq!(ms.reg.c0(C0_CAUSE) & 0x3000_0000, 0x1000_0000);
    assert_eq!((ms.reg.c0(C0_CAUSE) >> 2) & 0x1f, 11);
    // another exception clears the unit again
    ms.reg.set_c0(C0_STATUS, 0);
    prepare_exception(&mut ms, 8, 3);
    assert_eq!(ms.reg.c0(C0_CAUSE) & 0x3000_0000, 0);
}

#[test]
fn mtc0_and_mfc0() {
    let mut ms = cp0_machine();
    ms.reg.r[2] = 0xffff_ffff;
    // mtc0 $2, Status ; mfc0 $3, Status ; mfc0 $2, PRId
    assert!(exec(&mut ms, 0x4082_6000));
    assert_eq!(ms.reg.c0(C0_STATUS), 0x3d6f_ff1f);
    assert!(exec(&mut ms, 0x4003_6000));
    assert_eq!(ms.reg.r[3], 0x3d6f_ff1f);
    assert!(exec(&mut ms, 0x4002_7800));
    assert_eq!(ms.reg.r[2], 0x0001_9700);
    assert_eq!(ms.reg.pc, 0x8000_100c);
    // mfc0 $2, EBase is selector 1 of register 15
    assert!(exec(&mut ms, 0x4002_7801));
    assert_eq!(ms.reg.r[2], 0x8000_0000);
}

#[test]
fn di_and_ei() {
    let mut ms = cp0_machine();
    ms.reg.set_c0(C0_STATUS, 0x0000_ff01);
    assert!(exec(&mut ms, 0x4162_6000));
    assert_eq!(ms.reg.r[2], 0x0000_ff01);
    assert_eq!(ms.reg.c0(C0_STATUS), 0x0000_ff00);
    assert!(exec(&mut ms, 0x4162_6020));
    assert_eq!(ms.reg.r[2], 0x0000_ff00);
    assert_eq!(ms.reg.c0(C0_STATUS), 0x0000_ff01);
    assert_eq!(ms.reg.pc, 0x8000_1008);
}

#[test]
fn coprocessor_0_is_closed_to_user_mode() {
    let mut ms = cp0_machine();
    ms.reg.set_c0(C0_STATUS, 0x10);
    assert!(exec(&mut ms, 0x4002_7800));
    assert_eq!((ms.reg.c0(C0_CAUSE) >> 2) & 0x1f, 11);
    assert_eq!(ms.reg.c0(C0_CAUSE) & 0x3000_0000, 0);
    // with CU0 it is open
    let mut ms = cp0_machine();
    ms.reg.set_c0(C0_STATUS, 0x1000_0010);
    assert!(exec(&mut ms, 0x4002_7800));
    assert_eq!(ms.reg.r[2], 0x0001_9700);
}

#[test]
fn eret_returns_by_level() {
    let mut ms = cp0_machine();
    ms.reg.set_c0(C0_STATUS, 0x0000_0003);
    ms.reg.set_c0(C0_EPC, 0x8000_2000);
    ms.reg.set_c0(C0_ERROREPC, 0x8000_3000);
    assert!(exec(&mut ms, 0x4200_0018));
    assert_eq!(ms.reg.pc, 0x8000_2000);
    assert_eq!(ms.reg.c0(C0_STATUS), 1);
    ms.reg.set_c0(C0_STATUS, 0x0000_0007);
    assert!(exec(&mut ms, 0x4200_0018));
    assert_eq!(ms.reg.pc, 0x8000_3000);
    assert_eq!(ms.reg.c0(C0_STATUS), 3);
}

#[test]
fn wait_asks_the_host_to_sleep() {
    let mut ms = cp0_machine();
    assert!(!ms.sleep_req);
    assert!(exec(&mut ms, 0x4200_0020));
    assert!(ms.sleep_req);
    assert_eq!(ms.reg.pc, 0x8000_1004);
}

#[test]
fn unknown_coprocessor_0_encodings() {
    let mut ms = cp0_machine();
    assert!(!exec(&mut ms, 0x4200_0001));
    assert!(!exec(&mut ms, 0x4040_0000));
    assert_eq!(ms.reg.pc, 0x8000_1000);
    // next to DI and EI: known, and does nothing
    assert!(exec(&mut ms, 0x4160_0000));
    assert_eq!(ms.reg.pc, 0x8000_1000);
}
