use exrmips::cp0def::C0_STATUS;
use exrmips::dev_spiflash::spi_flash_param_s25fl164k;
use exrmips::exec_mips32::exec;
use exrmips::generate_machine_state;
use exrmips::mainloop::begin_instruction;
use exrmips::mem::{
    accsize_align,
    get_phy_addr,
    load_byte,
    load_halfword,
    load_word,
    store_byte,
    store_halfword,
    store_word,
    wrdata_align,
    MemRegion,
};
use exrmips::procstate::MachineState;

fn mem_machine() -> MachineState {
    let image: Vec<u8> = (0..64u32).map(|i| (i as u8).wrapping_mul(3).wrapping_add(1)).collect();
    let mut ms = generate_machine_state(spi_flash_param_s25fl164k(), &image);
    ms.reg.pc = 0x8000_1000;
    ms
}

#[test]
fn main_memory_starts_filled_with_ff() {
    let m = MemRegion::new();
    assert_eq!(m.mem0.len(), 64 * 1024 * 1024);
    assert!(m.mem0.iter().all(|b| *b == 0xff));
}

#[test]
fn word_round_trip_at_every_word_offset() {
    let mut ms = mem_machine();
    for i in 0..4u32 {
        let addr = 0x8000_4000 + 4 * i;
        store_word(&mut ms, addr, 0x1122_3344 + i).unwrap();
        assert_eq!(load_word(&mut ms, addr), Ok(0x1122_3344 + i));
    }
}

#[test]
fn big_endian_byte_order_in_main_memory() {
    let mut ms = mem_machine();
    store_word(&mut ms, 0x8000_4000, 0x1122_3344).unwrap();
    assert_eq!(load_byte(&mut ms, 0x8000_4000), Ok(0x11));
    assert_eq!(load_byte(&mut ms, 0x8000_4001), Ok(0x22));
    assert_eq!(load_byte(&mut ms, 0x8000_4002), Ok(0x33));
    assert_eq!(load_byte(&mut ms, 0x8000_4003), Ok(0x44));
    assert_eq!(load_halfword(&mut ms, 0x8000_4000), Ok(0x1122));
    assert_eq!(load_halfword(&mut ms, 0x8000_4002), Ok(0x3344));
    assert_eq!(ms.mem.mem0[0x4000], 0x11);
    assert_eq!(ms.mem.mem0[0x4003], 0x44);
}

#[test]
fn halfword_round_trip_at_both_offsets() {
    let mut ms = mem_machine();
    store_word(&mut ms, 0x8000_4000, 0).unwrap();
    store_halfword(&mut ms, 0x8000_4000, 0xabcd).unwrap();
    store_halfword(&mut ms, 0x8000_4002, 0x1_ef01).unwrap();
    assert_eq!(load_halfword(&mut ms, 0x8000_4000), Ok(0xabcd));
    assert_eq!(load_halfword(&mut ms, 0x8000_4002), Ok(0xef01));
    assert_eq!(load_word(&mut ms, 0x8000_4000), Ok(0xabcd_ef01));
}

#[test]
fn byte_round_trip_at_every_offset() {
    let mut ms = mem_machine();
    for i in 0..4u32 {
        store_byte(&mut ms, 0x8000_4000 + i, 0xa0 + i as u8).unwrap();
    }
    for i in 0..4u32 {
        assert_eq!(load_byte(&mut ms, 0x8000_4000 + i), Ok(0xa0 + i));
    }
    assert_eq!(load_word(&mut ms, 0x8000_4000), Ok(0xa0a1_a2a3));
}

#[test]
fn misaligned_accesses_are_address_errors() {
    let mut ms = mem_machine();
    assert_eq!(load_word(&mut ms, 0x8000_4001), Err(4));
    assert_eq!(load_word(&mut ms, 0x8000_4002), Err(4));
    assert_eq!(load_halfword(&mut ms, 0x8000_4001), Err(4));
    assert_eq!(store_word(&mut ms, 0x8000_4002, 0), Err(5));
    assert_eq!(store_halfword(&mut ms, 0x8000_4003, 0), Err(5));
    assert_eq!(load_word(&mut ms, 0x8000_4000), Ok(0xffff_ffff));
}

#[test]
fn kernel_segments_are_closed_to_user_and_supervisor() {
    let mut ms = mem_machine();
    ms.reg.set_c0(C0_STATUS, 0x10);
    assert_eq!(load_word(&mut ms, 0x8000_4000), Err(4));
    assert_eq!(store_word(&mut ms, 0xa000_4000, 1), Err(5));
    assert_eq!(load_word(&mut ms, 0xc000_0000), Err(4));
    ms.reg.set_c0(C0_STATUS, 0x08);
    assert_eq!(load_word(&mut ms, 0x8000_4000), Err(4));
    assert_eq!(store_word(&mut ms, 0xe000_0000, 1), Err(5));
    // with the exception level set the mode bits do not count
    ms.reg.set_c0(C0_STATUS, 0x12);
    assert_eq!(load_word(&mut ms, 0x8000_4000), Ok(0xffff_ffff));
}

#[test]
fn error_level_maps_low_addresses_to_themselves() {
    let mut ms = mem_machine();
    assert_eq!(get_phy_addr(&mut ms, 0x0000_4000, false), Ok(0x0000_4000));
    assert_eq!(get_phy_addr(&mut ms, 0x1fff_fffc, true), Ok(0x1fff_fffc));
    // at and above 2^29 the TLB is asked, and it is empty
    assert_eq!(get_phy_addr(&mut ms, 0x2000_0000, false), Err(32));
    assert_eq!(get_phy_addr(&mut ms, 0x2000_0000, true), Err(33));
    ms.reg.set_c0(C0_STATUS, 0);
    assert_eq!(get_phy_addr(&mut ms, 0x0000_4000, false), Err(32));
}

#[test]
fn unmapped_segments_strip_the_top_bits() {
    let mut ms = mem_machine();
    assert_eq!(get_phy_addr(&mut ms, 0x8123_4567, false), Ok(0x0123_4567));
    assert_eq!(get_phy_addr(&mut ms, 0xa123_4567, true), Ok(0x0123_4567));
    // the reset vector region mirrors into the ROM window
    assert_eq!(get_phy_addr(&mut ms, 0xbfc0_0000, false), Ok(0x1f00_0000));
    assert_eq!(get_phy_addr(&mut ms, 0x9fc0_1234, false), Ok(0x1f00_1234));
    assert_eq!(get_phy_addr(&mut ms, 0xbfff_fffc, false), Ok(0x1f3f_fffc));
    assert_eq!(get_phy_addr(&mut ms, 0xbfbf_fffc, false), Ok(0x1fbf_fffc));
    // mapped kernel segments ask the TLB
    assert_eq!(get_phy_addr(&mut ms, 0xc000_0000, false), Err(32));
    assert_eq!(get_phy_addr(&mut ms, 0xe000_0000, true), Err(33));
}

#[test]
fn remap_disable_turns_the_mirror_off() {
    let mut ms = mem_machine();
    ms.spi.control = 1 << 6;
    assert_eq!(get_phy_addr(&mut ms, 0xbfc0_0000, false), Ok(0x1fc0_0000));
}

#[test]
fn main_memory_aliases_beyond_its_size() {
    let mut ms = mem_machine();
    store_word(&mut ms, 0x8400_0010, 0x5566_7788).unwrap();
    assert_eq!(load_word(&mut ms, 0x8000_0010), Ok(0x5566_7788));
    assert_eq!(load_word(&mut ms, 0xa800_0010), Ok(0x5566_7788));
}

#[test]
fn rom_window_reads_the_flash() {
    let mut ms = mem_machine();
    // image byte i is 3 i + 1
    assert_eq!(load_word(&mut ms, 0xbfc0_0000), Ok(0x0104_070a));
    assert_eq!(load_word(&mut ms, 0xbf00_0004), Ok(0x0d10_1316));
    assert_eq!(load_halfword(&mut ms, 0xbf00_0002), Ok(0x070a));
    assert_eq!(load_byte(&mut ms, 0xbf00_0005), Ok(0x10));
    // behind the image the flash is erased
    assert_eq!(load_word(&mut ms, 0xbf00_0100), Ok(0xffff_ffff));
    // stores to the window outside the SPI registers go nowhere
    store_word(&mut ms, 0xbf00_0100, 0).unwrap();
    assert_eq!(load_word(&mut ms, 0xbf00_0100), Ok(0xffff_ffff));
}

#[test]
fn rom_window_wraps_at_the_flash_size() {
    let mut ms = mem_machine();
    // 8 MiB device in a 16 MiB window
    assert_eq!(load_word(&mut ms, 0xbf80_0000), Ok(0x0104_070a));
}

#[test]
fn spi_registers_show_in_gpio_mode_only() {
    let mut ms = mem_machine();
    store_word(&mut ms, 0xbf00_0004, 0x43).unwrap();
    assert_eq!(ms.spi.control, 0x43);
    // flash mode: the window shows the flash
    assert_eq!(load_word(&mut ms, 0xbf00_0004), Ok(0x0d10_1316));
    store_word(&mut ms, 0xbf00_0000, 1).unwrap();
    assert_eq!(ms.spi.function_select, 1);
    assert_eq!(load_word(&mut ms, 0xbf00_0004), Ok(0x43));
    assert_eq!(load_byte(&mut ms, 0xbf00_0007), Ok(0x43));
    assert_eq!(load_word(&mut ms, 0xbf00_0100), Ok(0));
}

#[test]
fn remap_toggle_empties_all_address_caches() {
    let mut ms = mem_machine();
    let _ = begin_instruction(&mut ms);
    let _ = load_word(&mut ms, 0x0000_4000);
    let _ = load_word(&mut ms, 0x8000_4000);
    store_word(&mut ms, 0x0000_4000, 1).unwrap();
    store_word(&mut ms, 0x8000_4000, 1).unwrap();
    assert!(ms.reg.pc_cache.valid);
    assert!(ms.reg.dr_cache[0].valid && ms.reg.dr_cache[1].valid);
    assert!(ms.reg.dw_cache[0].valid && ms.reg.dw_cache[1].valid);
    // a write that leaves the remap bit alone keeps them
    store_word(&mut ms, 0xbf00_0004, 0x03).unwrap();
    assert!(ms.reg.pc_cache.valid && ms.reg.dr_cache[0].valid && ms.reg.dr_cache[1].valid);
    // a write that sets it empties all five
    store_word(&mut ms, 0xbf00_0004, 0x43).unwrap();
    assert!(!ms.reg.pc_cache.valid);
    assert!(!ms.reg.dr_cache[0].valid && !ms.reg.dr_cache[1].valid);
    assert!(!ms.reg.dw_cache[0].valid && !ms.reg.dw_cache[1].valid);
    assert_eq!(ms.spi.control, 0x43);
}

#[test]
fn address_cache_follows_mode_changes() {
    let mut ms = mem_machine();
    assert_eq!(load_word(&mut ms, 0x0000_4000), Ok(0xffff_ffff));
    // without the error level the cached translation no longer applies
    ms.reg.set_c0(C0_STATUS, 0);
    assert_eq!(load_word(&mut ms, 0x0000_4000), Err(32));
}

#[test]
fn gpio_registers() {
    let mut ms = mem_machine();
    store_word(&mut ms, 0xb804_0000, 0x0000_00f0).unwrap();
    store_word(&mut ms, 0xb804_0008, 0x0000_0011).unwrap();
    assert_eq!(ms.gpio.oe, 0xf0);
    assert_eq!(ms.gpio.out, 0x11);
    store_word(&mut ms, 0xb804_000c, 0x0000_0102).unwrap();
    assert_eq!(ms.gpio.out, 0x113);
    store_word(&mut ms, 0xb804_0010, 0x0000_0101).unwrap();
    assert_eq!(ms.gpio.out, 0x012);
    assert_eq!(load_word(&mut ms, 0xb804_0000), Ok(0xf0));
    assert_eq!(load_word(&mut ms, 0xb804_0008), Ok(0x12));
    assert_eq!(load_byte(&mut ms, 0xb804_000b), Ok(0x12));
    assert_eq!(load_word(&mut ms, 0xb804_0004), Ok(0));
    // a byte store goes to its lane
    store_byte(&mut ms, 0xb804_0000, 0xab).unwrap();
    assert_eq!(ms.gpio.oe, 0xab00_0000);
}

#[test]
fn reset_block_registers() {
    let mut ms = mem_machine();
    assert_eq!(load_word(&mut ms, 0xb806_0090), Ok(0x1123));
    assert_eq!(load_word(&mut ms, 0xb806_00b0), Ok(0x0714));
    assert_eq!(load_halfword(&mut ms, 0xb806_0092), Ok(0x1123));
    store_word(&mut ms, 0xb806_0014, 0x0000_0008).unwrap();
    assert_eq!(ms.misc.int_mask, 8);
    assert_eq!(load_word(&mut ms, 0xb806_0014), Ok(8));
    assert_eq!(load_word(&mut ms, 0xb806_0010), Ok(0));
    assert!(!ms.misc.reset_request);
    store_word(&mut ms, 0xb806_001c, 0x0000_0001).unwrap();
    assert!(!ms.misc.reset_request);
    store_word(&mut ms, 0xb806_001c, 0x0100_0000).unwrap();
    assert!(ms.misc.reset_request);
    assert_eq!(load_word(&mut ms, 0xb806_0020), Ok(0));
}

#[test]
fn misc_interrupt_status_follows_the_uart() {
    let mut ms = mem_machine();
    ms.uart.int_enable = 1;
    ms.uart.int_ident = 4;
    assert_eq!(load_word(&mut ms, 0xb806_0010), Ok(8));
    ms.uart.int_ident = 1;
    assert_eq!(load_word(&mut ms, 0xb806_0010), Ok(0));
}

#[test]
fn clock_registers_read_constants() {
    let mut ms = mem_machine();
    assert_eq!(load_word(&mut ms, 0xb805_0008), Ok(0x0010_0000));
    assert_eq!(load_word(&mut ms, 0xb805_0000), Ok(0));
    assert_eq!(load_word(&mut ms, 0xb811_61c0), Ok(0x0828_0000));
    assert_eq!(load_word(&mut ms, 0xb811_61c4), Ok(0x4000_0000));
    assert_eq!(load_word(&mut ms, 0xb810_7044), Ok(2));
    assert_eq!(load_word(&mut ms, 0xb810_7040), Ok(0));
    // nothing is mapped here
    assert_eq!(load_word(&mut ms, 0xb900_0000), Ok(0));
    store_word(&mut ms, 0xb900_0000, 5).unwrap();
}

#[test]
fn lanes_of_a_register_access() {
    assert_eq!(accsize_align(1, 0x1000, 0x1122_3344), 0x11);
    assert_eq!(accsize_align(1, 0x1001, 0x1122_3344), 0x22);
    assert_eq!(accsize_align(1, 0x1002, 0x1122_3344), 0x33);
    assert_eq!(accsize_align(1, 0x1003, 0x1122_3344), 0x44);
    assert_eq!(accsize_align(2, 0x1000, 0x1122_3344), 0x1122);
    assert_eq!(accsize_align(4, 0x1000, 0x1122_3344), 0x1122_3344);
    assert_eq!(wrdata_align(1, 0x1000, 0xab), 0xab00_0000);
    assert_eq!(wrdata_align(1, 0x1001, 0xab), 0x00ab_0000);
    assert_eq!(wrdata_align(1, 0x1002, 0xab), 0x0000_ab00);
    assert_eq!(wrdata_align(1, 0x1003, 0x1ab), 0x0000_00ab);
    assert_eq!(wrdata_align(2, 0x1000, 0xabcd), 0xabcd_0000);
    assert_eq!(wrdata_align(4, 0x1000, 0xabcd), 0xabcd);
}

#[test]
fn loads_extend_by_their_kind() {
    let mut ms = mem_machine();
    store_word(&mut ms, 0x8000_4000, 0x80ff_8001).unwrap();
    ms.reg.r[1] = 0x8000_4000;
    // lb, lbu, lh, lhu, lw $2, 0($1)
    assert!(exec(&mut ms, 0x8022_0000));
    assert_eq!(ms.reg.r[2], 0xffff_ff80);
    assert!(exec(&mut ms, 0x9022_0000));
    assert_eq!(ms.reg.r[2], 0x80);
    assert!(exec(&mut ms, 0x8422_0000));
    assert_eq!(ms.reg.r[2], 0xffff_80ff);
    assert!(exec(&mut ms, 0x9422_0000));
    assert_eq!(ms.reg.r[2], 0x80ff);
    assert!(exec(&mut ms, 0x8c22_0000));
    assert_eq!(ms.reg.r[2], 0x80ff_8001);
    assert_eq!(ms.reg.pc, 0x8000_1014);
    // lw $2, -4($1) with a negative offset
    store_word(&mut ms, 0x8000_3ffc, 7).unwrap();
    assert!(exec(&mut ms, 0x8c22_fffc));
    assert_eq!(ms.reg.r[2], 7);
}

#[test]
fn stores_by_their_kind() {
    let mut ms = mem_machine();
    store_word(&mut ms, 0x8000_4000, 0).unwrap();
    ms.reg.r[1] = 0x8000_4000;
    ms.reg.r[2] = 0x1234_5678;
    // sb, then sh at +2, then sw at +4
    assert!(exec(&mut ms, 0xa022_0000));
    assert!(exec(&mut ms, 0xa422_0002));
    assert!(exec(&mut ms, 0xac22_0004));
    assert_eq!(load_word(&mut ms, 0x8000_4000), Ok(0x7800_5678));
    assert_eq!(load_word(&mut ms, 0x8000_4004), Ok(0x1234_5678));
    // sw to an odd address faults with the address error of a store
    assert!(exec(&mut ms, 0xac22_0001));
    assert_eq!((ms.reg.c0(exrmips::cp0def::C0_CAUSE) >> 2) & 0x1f, 5);
    assert_eq!(ms.reg.c0(exrmips::cp0def::C0_BADVADDR), 0x8000_4001);
}

#[test]
fn lwl_and_lwr_merge_an_unaligned_word() {
    let mut ms = mem_machine();
    store_word(&mut ms, 0x8000_4000, 0x0011_2233).unwrap();
    store_word(&mut ms, 0x8000_4004, 0x4455_6677).unwrap();
    ms.reg.r[1] = 0x8000_4000;
    ms.reg.r[2] = 0xaaaa_aaaa;
    // lwl $2, 1($1) ; lwr $2, 4($1): the word at offset 1
    assert!(exec(&mut ms, 0x8822_0001));
    assert_eq!(ms.reg.r[2], 0x1122_33aa);
    assert!(exec(&mut ms, 0x9822_0004));
    assert_eq!(ms.reg.r[2], 0x1122_3344);
}

#[test]
fn lwl_then_lwr_at_the_last_byte_gives_the_aligned_word() {
    let mut ms = mem_machine();
    store_word(&mut ms, 0x8000_4000, 0x0011_2233).unwrap();
    ms.reg.r[1] = 0x8000_4000;
    ms.reg.r[2] = 0xaaaa_aaaa;
    assert!(exec(&mut ms, 0x8822_0003));
    assert_eq!(ms.reg.r[2], 0x33aa_aaaa);
    assert!(exec(&mut ms, 0x9822_0003));
    assert_eq!(ms.reg.r[2], 0x0011_2233);
}

#[test]
fn lwl_then_lwr_at_other_offsets_leaves_none_of_the_register() {
    for k in 0..4u32 {
        let mut a = mem_machine();
        let mut b = mem_machine();
        for ms in [&mut a, &mut b] {
            store_word(ms, 0x8000_4000, 0x0011_2233).unwrap();
            ms.reg.r[1] = 0x8000_4000;
        }
        a.reg.r[2] = 0xaaaa_aaaa;
        b.reg.r[2] = 0x5555_5555;
        for ms in [&mut a, &mut b] {
            assert!(exec(ms, 0x8822_0000 | k));
            assert!(exec(ms, 0x9822_0000 | k));
        }
        assert_eq!(a.reg.r[2], b.reg.r[2]);
    }
    // at offset 1 the result is not the aligned word
    let mut ms = mem_machine();
    store_word(&mut ms, 0x8000_4000, 0x0011_2233).unwrap();
    ms.reg.r[1] = 0x8000_4000;
    assert!(exec(&mut ms, 0x8822_0001));
    assert!(exec(&mut ms, 0x9822_0001));
    assert_eq!(ms.reg.r[2], 0x1122_0011);
}

#[test]
fn swl_and_swr_store_an_unaligned_word() {
    let mut ms = mem_machine();
    store_word(&mut ms, 0x8000_4000, 0xaaaa_aaaa).unwrap();
    store_word(&mut ms, 0x8000_4004, 0xbbbb_bbbb).unwrap();
    ms.reg.r[1] = 0x8000_4000;
    ms.reg.r[2] = 0x1122_3344;
    // swl $2, 1($1) ; swr $2, 4($1)
    assert!(exec(&mut ms, 0xa822_0001));
    assert_eq!(load_word(&mut ms, 0x8000_4000), Ok(0xaa11_2233));
    assert!(exec(&mut ms, 0xb822_0004));
    assert_eq!(load_word(&mut ms, 0x8000_4004), Ok(0x44bb_bbbb));
    assert_eq!(ms.reg.pc, 0x8000_1008);
}
