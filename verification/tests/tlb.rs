use exrmips::cp0def::{
    C0_BADVADDR,
    C0_CAUSE,
    C0_CONTEXT,
    C0_ENTRYHI,
    C0_ENTRYLO0,
    C0_ENTRYLO1,
    C0_EPC,
    C0_INDEX,
    C0_PAGEMASK,
    C0_RANDOM,
    C0_STATUS,
    C0_WIRED,
};
use exrmips::dev_spiflash::spi_flash_param_s25fl164k;
use exrmips::exec_mips32::exec;
use exrmips::generate_machine_state;
use exrmips::mem::{load_word, store_word};
use exrmips::procstate::MachineState;
use exrmips::tlb::{lookup, probe, tlb_write, write_with_index, write_with_random, TLBEntry};

fn tlb_machine() -> MachineState {
    let mut ms = generate_machine_state(spi_flash_param_s25fl164k(), &[0u8; 8]);
    ms.reg.set_c0(C0_STATUS, 0);
    ms.reg.pc = 0x8000_1000;
    ms
}

fn tlb_map(ms: &mut MachineState, index: u32, entryhi: u32, lo0: u32, lo1: u32) {
    ms.reg.set_c0(C0_ENTRYHI, entryhi);
    ms.reg.set_c0(C0_ENTRYLO0, lo0);
    ms.reg.set_c0(C0_ENTRYLO1, lo1);
    ms.reg.set_c0(C0_PAGEMASK, 0);
    ms.reg.set_c0(C0_INDEX, index);
    write_with_index(ms);
}

#[test]
fn new_entry_is_empty() {
    let e = TLBEntry::new();
    assert_eq!((e.entryhi, e.entrylo0, e.entrylo1), (0, 0, 0));
    assert_eq!((e.field_asid, e.field_pmask, e.field_vpn2), (0, 0, 0));
    assert!(!e.field_g);
    assert!(!e.lo[0].field_valid && !e.lo[1].field_valid);
    assert!(!e.lo[0].field_dirty && !e.lo[1].field_dirty);
}

#[test]
fn write_derives_the_fields() {
    let mut ms = tlb_machine();
    tlb_map(&mut ms, 3, 0x1000_0005, 0x8006, 0xc003);
    let e = ms.tlb[3];
    assert_eq!(e.entryhi, 0x1000_0005);
    assert_eq!(e.field_vpn2, 0x1000_0000);
    assert_eq!(e.field_asid, 5);
    assert!(!e.field_g);
    assert_eq!(e.lo[0].field_pfn, 0x0020_0000);
    assert!(e.lo[0].field_valid && e.lo[0].field_dirty);
    assert_eq!(e.lo[1].field_pfn, 0x0030_0000);
    assert!(e.lo[1].field_valid && !e.lo[1].field_dirty);
    // both G bits are needed
    tlb_map(&mut ms, 4, 0x2000_0005, 0x8007, 0xc003);
    assert!(ms.tlb[4].field_g);
}

#[test]
fn lookup_translates_even_and_odd_page() {
    let mut ms = tlb_machine();
    tlb_map(&mut ms, 3, 0x1000_0005, 0x8006, 0xc002);
    assert_eq!(lookup(&mut ms, 5, false, 0x1000_0123), Ok(0x0020_0123));
    assert_eq!(lookup(&mut ms, 5, true, 0x1000_0123), Ok(0x0020_0123));
    assert_eq!(lookup(&mut ms, 5, false, 0x1000_1123), Ok(0x0030_0123));
}

#[test]
fn store_to_a_clean_page_is_a_modification_fault() {
    let mut ms = tlb_machine();
    tlb_map(&mut ms, 3, 0x1000_0005, 0x8006, 0xc002);
    assert_eq!(lookup(&mut ms, 5, true, 0x1000_1123), Err(1));
}

#[test]
fn invalid_half_is_no_refill() {
    let mut ms = tlb_machine();
    tlb_map(&mut ms, 3, 0x1000_0005, 0x8006, 0);
    assert_eq!(lookup(&mut ms, 5, false, 0x1000_1123), Err(2));
    assert_eq!(lookup(&mut ms, 5, true, 0x1000_1123), Err(3));
    // the other half still translates
    assert_eq!(lookup(&mut ms, 5, false, 0x1000_0123), Ok(0x0020_0123));
}

#[test]
fn no_match_is_a_refill() {
    let mut ms = tlb_machine();
    assert_eq!(lookup(&mut ms, 5, false, 0x1000_0123), Err(32));
    assert_eq!(lookup(&mut ms, 5, true, 0x1000_0123), Err(33));
    tlb_map(&mut ms, 3, 0x1000_0005, 0x8006, 0xc002);
    // another address space
    assert_eq!(lookup(&mut ms, 6, false, 0x1000_0123), Err(32));
    // another page pair
    assert_eq!(lookup(&mut ms, 5, false, 0x1000_2123), Err(32));
}

#[test]
fn global_entry_matches_every_address_space() {
    let mut ms = tlb_machine();
    tlb_map(&mut ms, 3, 0x1000_0005, 0x8007, 0xc003);
    assert_eq!(lookup(&mut ms, 6, false, 0x1000_0123), Ok(0x0020_0123));
}

#[test]
fn lookup_remembers_the_entry_in_the_index_cache() {
    let mut ms = tlb_machine();
    tlb_map(&mut ms, 3, 0x1000_0005, 0x8006, 0xc002);
    // the write installed the hint for the even page
    assert_eq!(ms.tlbcache[0x1000_0000 >> 12 & 0x3ff], 3);
    assert_eq!(ms.tlbcache[(0x1000_1000 >> 12) & 0x3ff], 32);
    assert_eq!(lookup(&mut ms, 5, false, 0x1000_1123), Ok(0x0030_0123));
    assert_eq!(ms.tlbcache[(0x1000_1000 >> 12) & 0x3ff], 3);
}

#[test]
fn stale_hint_is_checked_before_use() {
    let mut ms = tlb_machine();
    tlb_map(&mut ms, 3, 0x1000_0005, 0x8006, 0xc002);
    // point the bucket of another page at entry 3
    ms.tlbcache[(0x3000_0000 >> 12) & 0x3ff] = 3;
    assert_eq!(lookup(&mut ms, 5, false, 0x3000_0123), Err(32));
}

#[test]
fn rewrite_evicts_the_old_hint() {
    let mut ms = tlb_machine();
    tlb_map(&mut ms, 3, 0x1000_0005, 0x8006, 0xc002);
    tlb_map(&mut ms, 3, 0x1234_0005, 0x8006, 0xc002);
    assert_eq!(ms.tlbcache[(0x1000_0000 >> 12) & 0x3ff], 32);
    assert_eq!(ms.tlbcache[(0x1234_0000 >> 12) & 0x3ff], 3);
    assert_eq!(lookup(&mut ms, 5, false, 0x1000_0123), Err(32));
}

#[test]
fn index_wraps_at_the_number_of_entries() {
    let mut ms = tlb_machine();
    ms.reg.set_c0(C0_ENTRYHI, 0x1000_0005);
    ms.reg.set_c0(C0_ENTRYLO0, 0x8006);
    ms.reg.set_c0(C0_ENTRYLO1, 0xc002);
    tlb_write(&mut ms, 35);
    assert_eq!(ms.tlb[3].entryhi, 0x1000_0005);
    tlb_write(&mut ms, 0x8000_0041);
    assert_eq!(ms.tlb[1].entryhi, 0x1000_0005);
}

#[test]
fn tlb_write_empties_all_address_caches() {
    let mut ms = tlb_machine();
    let _ = load_word(&mut ms, 0x8000_4000);
    store_word(&mut ms, 0x8000_4000, 1).unwrap();
    assert!(ms.reg.dr_cache[1].valid && ms.reg.dw_cache[1].valid);
    tlb_map(&mut ms, 3, 0x1000_0005, 0x8006, 0xc002);
    assert!(!ms.reg.pc_cache.valid);
    assert!(!ms.reg.dr_cache[0].valid && !ms.reg.dr_cache[1].valid);
    assert!(!ms.reg.dw_cache[0].valid && !ms.reg.dw_cache[1].valid);
}

#[test]
fn probe_finds_the_entry_just_written() {
    let mut ms = tlb_machine();
    tlb_map(&mut ms, 9, 0x1000_0005, 0x8006, 0xc002);
    ms.reg.set_c0(C0_INDEX, 0);
    probe(&mut ms);
    assert_eq!(ms.reg.c0(C0_INDEX), 9);
    assert_eq!(ms.reg.c0(C0_INDEX) & 0x8000_0000, 0);
}

#[test]
fn probe_sets_the_failure_bit_on_a_miss() {
    let mut ms = tlb_machine();
    tlb_map(&mut ms, 9, 0x1000_0005, 0x8006, 0xc002);
    ms.reg.set_c0(C0_ENTRYHI, 0x1000_2005);
    ms.reg.set_c0(C0_INDEX, 7);
    probe(&mut ms);
    assert_eq!(ms.reg.c0(C0_INDEX), 0x8000_0007);
    // another address space
    ms.reg.set_c0(C0_ENTRYHI, 0x1000_0006);
    ms.reg.set_c0(C0_INDEX, 0);
    probe(&mut ms);
    assert_eq!(ms.reg.c0(C0_INDEX), 0x8000_0000);
}

#[test]
fn probe_takes_the_lowest_match() {
    let mut ms = tlb_machine();
    tlb_map(&mut ms, 9, 0x1000_0005, 0x8006, 0xc002);
    tlb_map(&mut ms, 4, 0x1000_0005, 0x8006, 0xc002);
    probe(&mut ms);
    assert_eq!(ms.reg.c0(C0_INDEX), 4);
}

#[test]
fn random_write_counts_down_and_writes_where_it_lands() {
    let mut ms = tlb_machine();
    assert_eq!(ms.reg.c0(C0_RANDOM), 31);
    ms.reg.set_c0(C0_ENTRYHI, 0x1000_0005);
    ms.reg.set_c0(C0_ENTRYLO0, 0x8006);
    ms.reg.set_c0(C0_ENTRYLO1, 0xc002);
    write_with_random(&mut ms);
    assert_eq!(ms.reg.c0(C0_RANDOM), 30);
    assert_eq!(ms.tlb[30].entryhi, 0x1000_0005);
    assert_eq!(ms.tlb[31].entryhi, 0);
    write_with_random(&mut ms);
    assert_eq!(ms.reg.c0(C0_RANDOM), 29);
    assert_eq!(ms.tlb[29].entryhi, 0x1000_0005);
}

#[test]
fn random_wraps_at_the_wired_entries() {
    let mut ms = tlb_machine();
    ms.reg.set_c0(C0_WIRED, 30);
    ms.reg.set_c0(C0_RANDOM, 31);
    write_with_random(&mut ms);
    assert_eq!(ms.reg.c0(C0_RANDOM), 30);
    write_with_random(&mut ms);
    assert_eq!(ms.reg.c0(C0_RANDOM), 31);
    // out of range
    ms.reg.set_c0(C0_RANDOM, 40);
    write_with_random(&mut ms);
    assert_eq!(ms.reg.c0(C0_RANDOM), 31);
}

#[test]
fn load_with_an_empty_tlb_takes_the_refill_vector() {
    let mut ms = tlb_machine();
    ms.reg.set_c0(C0_ENTRYHI, 0x0000_0007);
    ms.reg.set_c0(C0_CONTEXT, 0xff80_0000);
    ms.reg.r[1] = 0x1000_0000;
    // lw $2, 0($1)
    assert!(exec(&mut ms, 0x8c22_0000));
    assert_eq!((ms.reg.c0(C0_CAUSE) >> 2) & 0x1f, 2);
    assert_eq!(ms.reg.c0(C0_EPC), 0x8000_1000);
    assert_eq!(ms.reg.c0(C0_ENTRYHI) & !0x1fff, 0x1000_0000);
    assert_eq!(ms.reg.c0(C0_ENTRYHI) & 0xff, 7);
    assert_eq!(ms.reg.c0(C0_BADVADDR), 0x1000_0000);
    assert_eq!(ms.reg.c0(C0_CONTEXT), 0xff88_0000);
    assert_eq!(ms.reg.pc, 0x8000_0000);
    assert_eq!(ms.reg.c0(C0_STATUS) & 2, 2);
}

#[test]
fn store_with_an_empty_tlb_takes_the_refill_vector() {
    let mut ms = tlb_machine();
    ms.reg.r[1] = 0x1000_2004;
    // sw $2, 0($1)
    assert!(exec(&mut ms, 0xac22_0000));
    assert_eq!((ms.reg.c0(C0_CAUSE) >> 2) & 0x1f, 3);
    assert_eq!(ms.reg.c0(C0_BADVADDR), 0x1000_2004);
    assert_eq!(ms.reg.c0(C0_ENTRYHI) & !0x1fff, 0x1000_2000);
    assert_eq!(ms.reg.pc, 0x8000_0000);
}

#[test]
fn refill_at_exception_level_takes_the_general_vector() {
    let mut ms = tlb_machine();
    ms.reg.set_c0(C0_STATUS, 2);
    ms.reg.r[1] = 0x2000_0000;
    assert!(exec(&mut ms, 0x8c22_0000));
    assert_eq!(ms.reg.pc, 0x8000_0180);
}

#[test]
fn invalid_entry_takes_the_general_vector() {
    let mut ms = tlb_machine();
    tlb_map(&mut ms, 3, 0x1000_0000, 0, 0);
    ms.reg.r[1] = 0x1000_0000;
    assert!(exec(&mut ms, 0x8c22_0000));
    assert_eq!((ms.reg.c0(C0_CAUSE) >> 2) & 0x1f, 2);
    assert_eq!(ms.reg.pc, 0x8000_0180);
}

#[test]
fn mapped_access_reaches_main_memory() {
    let mut ms = tlb_machine();
    tlb_map(&mut ms, 3, 0x1000_0000, 0x8006, 0xc006);
    store_word(&mut ms, 0x1000_0010, 0xfeed_f00d).unwrap();
    assert_eq!(load_word(&mut ms, 0x8020_0010), Ok(0xfeed_f00d));
    assert_eq!(load_word(&mut ms, 0x1000_0010), Ok(0xfeed_f00d));
    store_word(&mut ms, 0xc000_0000, 1).unwrap_err();
}

#[test]
fn tlb_instructions() {
    let mut ms = tlb_machine();
    ms.reg.set_c0(C0_ENTRYHI, 0x1000_0005);
    ms.reg.set_c0(C0_ENTRYLO0, 0x8006);
    ms.reg.set_c0(C0_ENTRYLO1, 0xc002);
    ms.reg.set_c0(C0_INDEX, 6);
    // tlbwi, tlbp, tlbwr
    assert!(exec(&mut ms, 0x4200_0002));
    assert_eq!(ms.tlb[6].entryhi, 0x1000_0005);
    ms.reg.set_c0(C0_INDEX, 0);
    assert!(exec(&mut ms, 0x4200_0008));
    assert_eq!(ms.reg.c0(C0_INDEX), 6);
    assert!(exec(&mut ms, 0x4200_0006));
    assert_eq!(ms.tlb[30].entryhi, 0x1000_0005);
    assert_eq!(ms.reg.pc, 0x8000_100c);
}
