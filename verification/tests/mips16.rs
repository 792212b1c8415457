use exrmips::cp0def::{C0_BADVADDR, C0_CAUSE, C0_STATUS};
use exrmips::dev_spiflash::spi_flash_param_s25fl164k;
use exrmips::exec_mips16::exec;
use exrmips::generate_machine_state;
use exrmips::mainloop::{begin_instruction, execute, step};
use exrmips::mem::{load_byte, load_halfword, load_word, store_word};
use exrmips::procstate::MachineState;

fn m16_machine() -> MachineState {
    let mut ms = generate_machine_state(spi_flash_param_s25fl164k(), &[0u8; 8]);
    ms.reg.pc = 0x8000_1001;
    ms.reg.r[2] = 0x8000_4000;
    ms.reg.r[3] = 0x0000_00f0;
    ms.reg.r[29] = 0x8000_5000;
    ms
}

fn m16_run(inst: u32) -> MachineState {
    let mut ms = m16_machine();
    assert!(exec(&mut ms, inst));
    ms
}

#[test]
fn li_loads_an_immediate() {
    let ms = m16_run(0x6a55);
    assert_eq!(ms.reg.r[2], 0x55);
    assert_eq!(ms.reg.pc, 0x8000_1003);
    // register fields 0 and 1 stand for $16 and $17
    assert_eq!(m16_run(0x6807).reg.r[16], 7);
    assert_eq!(m16_run(0x6907).reg.r[17], 7);
    assert_eq!(m16_run(0x6f07).reg.r[7], 7);
}

#[test]
fn extended_li_has_16_bits_and_is_4_bytes_long() {
    let ms = m16_run(0xf222_6a14);
    assert_eq!(ms.reg.r[2], 0x1234);
    assert_eq!(ms.reg.pc, 0x8000_1005);
}

#[test]
fn addiu_forms() {
    assert_eq!(m16_run(0x4aff).reg.r[2], 0x8000_3fff);
    assert_eq!(m16_run(0xf7ff_4a10).reg.r[2], 0x8000_3ff0);
    // addiu $2, sp, 12
    assert_eq!(m16_run(0x0203).reg.r[2], 0x8000_500c);
    // addiu sp, -16
    assert_eq!(m16_run(0x63fe).reg.r[29], 0x8000_4ff0);
    // addiu $3, $2, -1
    assert_eq!(m16_run(0x426f).reg.r[3], 0x8000_3fff);
    // addiu $2, pc, 8
    assert_eq!(m16_run(0x0a02).reg.r[2], 0x8000_1008);
}

#[test]
fn pc_relative_base_in_a_delay_slot_is_the_branch() {
    let mut ms = m16_machine();
    ms.reg.delay_en = true;
    ms.reg.pc_prev_jump = 0x8000_0ff1;
    ms.reg.pc_delay = 0x8000_2001;
    assert!(exec(&mut ms, 0x0a02));
    assert_eq!(ms.reg.r[2], 0x8000_0ff8);
    assert_eq!(ms.reg.pc, 0x8000_2001);
    assert!(!ms.reg.delay_en);
}

#[test]
fn branches_have_no_delay_slot() {
    let ms = m16_run(0x1004);
    assert_eq!(ms.reg.pc, 0x8000_100b);
    assert!(!ms.reg.delay_en);
    assert_eq!(ms.reg.pc_prev_jump, 0x8000_1001);
    assert_eq!(m16_run(0x17fe).reg.pc, 0x8000_0fff);
    // beqz $2 with $2 not zero, bnez $2
    assert_eq!(m16_run(0x2203).reg.pc, 0x8000_1003);
    assert_eq!(m16_run(0x2a03).reg.pc, 0x8000_1009);
    let mut ms = m16_machine();
    ms.reg.r[2] = 0;
    assert!(exec(&mut ms, 0x2203));
    assert_eq!(ms.reg.pc, 0x8000_1009);
}

#[test]
fn branches_on_the_t_register() {
    let mut ms = m16_machine();
    ms.reg.r[24] = 0;
    assert!(exec(&mut ms, 0x6002));
    assert_eq!(ms.reg.pc, 0x8000_1007);
    assert!(exec(&mut ms, 0x6102));
    assert_eq!(ms.reg.pc, 0x8000_1009);
}

#[test]
fn shifts() {
    assert_eq!(m16_run(0x326c).reg.r[2], 0x780);
    // a shift amount of 0 stands for 8
    assert_eq!(m16_run(0x3262).reg.r[2], 0);
    let mut ms = m16_machine();
    ms.reg.r[3] = 0x8000_0000;
    assert!(exec(&mut ms, 0x3267));
    assert_eq!(ms.reg.r[2], 0xc000_0000);
    // extended: five bits of shift amount, here 20
    let mut ms = m16_machine();
    ms.reg.r[3] = 0x0000_0fff;
    assert!(exec(&mut ms, 0xf500_3260));
    assert_eq!(ms.reg.r[2], 0xfff0_0000);
    assert_eq!(ms.reg.pc, 0x8000_1005);
}

#[test]
fn three_register_arithmetic() {
    assert_eq!(m16_run(0xe271).reg.r[4], 0x8000_40f0);
    assert_eq!(m16_run(0xe273).reg.r[4], 0x8000_3f10);
    let mut ms = m16_machine();
    assert!(!exec(&mut ms, 0xe270));
}

#[test]
fn two_register_operations() {
    assert_eq!(m16_run(0xea6a).reg.r[24], 0x8000_40f0);
    assert_eq!(m16_run(0xea6b).reg.r[2], 0xffff_ff10);
    assert_eq!(m16_run(0xea6c).reg.r[2], 0);
    assert_eq!(m16_run(0xea6f).reg.r[2], 0xffff_ff0f);
    assert_eq!(m16_run(0xea62).reg.r[24], 1);
    assert_eq!(m16_run(0xea63).reg.r[24], 0);
    assert_eq!(m16_run(0xea6d).reg.r[2], 0x8000_40f0);
    assert_eq!(m16_run(0xea6e).reg.r[2], 0x8000_40f0);
}

#[test]
fn compare_and_set_on_immediates() {
    let mut ms = m16_machine();
    ms.reg.r[2] = 3;
    assert!(exec(&mut ms, 0x5205));
    assert_eq!(ms.reg.r[24], 1);
    ms.reg.r[2] = 0xffff_ffff;
    assert!(exec(&mut ms, 0x5205));
    assert_eq!(ms.reg.r[24], 1);
    assert!(exec(&mut ms, 0x5a05));
    assert_eq!(ms.reg.r[24], 0);
    assert!(exec(&mut ms, 0x7205));
    assert_eq!(ms.reg.r[24], 0xffff_fffa);
}

#[test]
fn variable_shifts_and_conversions() {
    let mut ms = m16_machine();
    ms.reg.r[2] = 4;
    ms.reg.r[3] = 0x8000_00f0;
    // sllv, srlv, srav $3 by $2
    assert!(exec(&mut ms, 0xea64));
    assert_eq!(ms.reg.r[3], 0x0000_0f00);
    assert!(exec(&mut ms, 0xea66));
    assert_eq!(ms.reg.r[3], 0x0000_00f0);
    ms.reg.r[3] = 0x8000_00f0;
    assert!(exec(&mut ms, 0xea67));
    assert_eq!(ms.reg.r[3], 0xf800_000f);
    ms.reg.r[2] = 0x1234_8081;
    assert!(exec(&mut ms, 0xeab1));
    assert_eq!(ms.reg.r[2], 0xffff_8081);
    assert!(exec(&mut ms, 0xea91));
    assert_eq!(ms.reg.r[2], 0xffff_ff81);
    assert!(exec(&mut ms, 0xea31));
    assert_eq!(ms.reg.r[2], 0x0000_ff81);
    assert!(exec(&mut ms, 0xea11));
    assert_eq!(ms.reg.r[2], 0x0000_0081);
    assert!(!exec(&mut ms, 0xea51));
}

#[test]
fn multiply_and_divide() {
    let mut ms = m16_machine();
    ms.reg.r[2] = 0xffff_fffe;
    ms.reg.r[3] = 3;
    assert!(exec(&mut ms, 0xea78));
    assert_eq!((ms.reg.hi, ms.reg.lo), (0xffff_ffff, 0xffff_fffa));
    assert!(exec(&mut ms, 0xea79));
    assert_eq!((ms.reg.hi, ms.reg.lo), (2, 0xffff_fffa));
    assert!(exec(&mut ms, 0xea7a));
    assert_eq!((ms.reg.hi, ms.reg.lo), (0xffff_fffe, 0));
    assert!(exec(&mut ms, 0xea7b));
    assert_eq!((ms.reg.hi, ms.reg.lo), (2, 0x5555_5554));
    assert!(exec(&mut ms, 0xea12));
    assert_eq!(ms.reg.r[2], 0x5555_5554);
    assert!(exec(&mut ms, 0xea10));
    assert_eq!(ms.reg.r[2], 2);
    ms.reg.r[3] = 0;
    assert!(exec(&mut ms, 0xea7a));
    assert_eq!((ms.reg.hi, ms.reg.lo), (0, 0));
}

#[test]
fn moves_between_the_register_sets() {
    let ms = m16_run(0x6593);
    assert_eq!(ms.reg.r[20], 0xf0);
    assert_eq!(ms.reg.pc, 0x8000_1003);
    let mut ms = m16_machine();
    ms.reg.r[20] = 0x77;
    assert!(exec(&mut ms, 0x6774));
    assert_eq!(ms.reg.r[3], 0x77);
}

#[test]
fn loads_and_stores() {
    let mut ms = m16_machine();
    store_word(&mut ms, 0x8000_4008, 0x8182_8384).unwrap();
    store_word(&mut ms, 0x8000_4000, 0x0080_ff7f).unwrap();
    // lw $3, 8($2)
    assert!(exec(&mut ms, 0x9a62));
    assert_eq!(ms.reg.r[3], 0x8182_8384);
    // lb, lbu $3, 1($2)
    assert!(exec(&mut ms, 0x8261));
    assert_eq!(ms.reg.r[3], 0xffff_ff80);
    assert!(exec(&mut ms, 0xa261));
    assert_eq!(ms.reg.r[3], 0x80);
    // lh, lhu $3, 2($2)
    assert!(exec(&mut ms, 0x8a61));
    assert_eq!(ms.reg.r[3], 0xffff_ff7f);
    assert!(exec(&mut ms, 0xaa61));
    assert_eq!(ms.reg.r[3], 0xff7f);
    assert_eq!(ms.reg.pc, 0x8000_100b);
    ms.reg.r[3] = 0x1122_3344;
    // sw $3, 8($2) ; sb $3, 1($2) ; sh $3, 2($2)
    assert!(exec(&mut ms, 0xda62));
    assert!(exec(&mut ms, 0xc261));
    assert!(exec(&mut ms, 0xca61));
    assert_eq!(load_word(&mut ms, 0x8000_4008), Ok(0x1122_3344));
    assert_eq!(load_byte(&mut ms, 0x8000_4001), Ok(0x44));
    assert_eq!(load_halfword(&mut ms, 0x8000_4002), Ok(0x3344));
}

#[test]
fn stack_and_pc_relative_accesses() {
    let mut ms = m16_machine();
    ms.reg.r[31] = 0xaaaa_5555;
    // sw $2, 4(sp) ; lw $2, 4(sp) ; sw ra, 4(sp)
    assert!(exec(&mut ms, 0xd201));
    assert_eq!(load_word(&mut ms, 0x8000_5004), Ok(0x8000_4000));
    ms.reg.r[2] = 0;
    assert!(exec(&mut ms, 0x9201));
    assert_eq!(ms.reg.r[2], 0x8000_4000);
    assert!(exec(&mut ms, 0x6201));
    assert_eq!(load_word(&mut ms, 0x8000_5004), Ok(0xaaaa_5555));
    // lw $2, 8(pc) at 0x80001007
    store_word(&mut ms, 0x8000_100c, 0x0bad_cafe).unwrap();
    assert_eq!(ms.reg.pc, 0x8000_1007);
    assert!(exec(&mut ms, 0xb202));
    assert_eq!(ms.reg.r[2], 0x0bad_cafe);
}

#[test]
fn extended_load_uses_a_signed_offset() {
    let mut ms = m16_machine();
    store_word(&mut ms, 0x8000_3ff0, 0x600d_f00d).unwrap();
    // lw $3, -16($2): EXTEND with immediate 0xfff0
    assert!(exec(&mut ms, 0xf7ff_9a70));
    assert_eq!(ms.reg.r[3], 0x600d_f00d);
    assert_eq!(ms.reg.pc, 0x8000_1005);
}

#[test]
fn faulting_load_takes_the_exception() {
    let mut ms = m16_machine();
    ms.reg.set_c0(C0_STATUS, 0);
    ms.reg.r[2] = 0x8000_4001;
    assert!(exec(&mut ms, 0x9a62));
    assert_eq!((ms.reg.c0(C0_CAUSE) >> 2) & 0x1f, 4);
    assert_eq!(ms.reg.c0(C0_BADVADDR), 0x8000_4009);
    assert_eq!(ms.reg.pc, 0x8000_0180);
    assert_eq!(ms.reg.r[3], 0xf0);
}

#[test]
fn jumps_through_registers() {
    // jr $2
    let ms = m16_run(0xea00);
    assert!(ms.reg.delay_en);
    assert_eq!(ms.reg.pc, 0x8000_1003);
    assert_eq!(ms.reg.pc_delay, 0x8000_4000);
    // jalr $2
    let ms = m16_run(0xea40);
    assert!(ms.reg.delay_en);
    assert_eq!(ms.reg.r[31], 0x8000_1005);
    // jrc $2: at once
    let ms = m16_run(0xea80);
    assert!(!ms.reg.delay_en);
    assert_eq!(ms.reg.pc, 0x8000_4000);
    // jalrc $2
    let ms = m16_run(0xeac0);
    assert!(!ms.reg.delay_en);
    assert_eq!(ms.reg.pc, 0x8000_4000);
    assert_eq!(ms.reg.r[31], 0x8000_1003);
    // jr ra, jrc ra
    let mut ms = m16_machine();
    ms.reg.r[31] = 0x8000_6001;
    assert!(exec(&mut ms, 0xe820));
    assert_eq!(ms.reg.pc_delay, 0x8000_6001);
    let mut ms = m16_machine();
    ms.reg.r[31] = 0x8000_6001;
    assert!(exec(&mut ms, 0xe8a0));
    assert_eq!(ms.reg.pc, 0x8000_6001);
}

#[test]
fn jal_keeps_the_mode_and_jalx_switches_it() {
    let ms = m16_run(0x1800_0800);
    assert_eq!(ms.reg.r[31], 0x8000_1007);
    assert_eq!(ms.reg.pc, 0x8000_1005);
    assert_eq!(ms.reg.pc_delay, 0x8000_2001);
    assert!(ms.reg.delay_en);
    let ms = m16_run(0x1c00_0800);
    assert_eq!(ms.reg.pc_delay, 0x8000_2000);
    assert_eq!(ms.reg.r[31], 0x8000_1007);
}

#[test]
fn save_pushes_and_restore_pops() {
    let mut ms = m16_machine();
    ms.reg.r[31] = 0x3131_3131;
    ms.reg.r[17] = 0x1717_1717;
    ms.reg.r[16] = 0x1616_1616;
    // save ra, s0, s1, frame of 16 bytes
    assert!(exec(&mut ms, 0x64f2));
    assert_eq!(ms.reg.r[29], 0x8000_4ff0);
    assert_eq!(load_word(&mut ms, 0x8000_4ffc), Ok(0x3131_3131));
    assert_eq!(load_word(&mut ms, 0x8000_4ff8), Ok(0x1717_1717));
    assert_eq!(load_word(&mut ms, 0x8000_4ff4), Ok(0x1616_1616));
    assert_eq!(ms.reg.pc, 0x8000_1003);
    ms.reg.r[31] = 0;
    ms.reg.r[17] = 0;
    ms.reg.r[16] = 0;
    assert!(exec(&mut ms, 0x6472));
    assert_eq!(ms.reg.r[29], 0x8000_5000);
    assert_eq!(ms.reg.r[31], 0x3131_3131);
    assert_eq!(ms.reg.r[17], 0x1717_1717);
    assert_eq!(ms.reg.r[16], 0x1616_1616);
}

#[test]
fn save_with_frame_size_zero_means_128_bytes() {
    // save with no registers
    assert_eq!(m16_run(0x6480).reg.r[29], 0x8000_4f80);
    let mut ms = m16_machine();
    ms.reg.r[29] = 0x8000_4f80;
    assert!(exec(&mut ms, 0x6400));
    assert_eq!(ms.reg.r[29], 0x8000_5000);
}

#[test]
fn extended_save_and_restore() {
    let mut ms = m16_machine();
    for i in 0..32 {
        if i != 29 {
            ms.reg.r[i] = 0x0101_0101 * i as u32;
        }
    }
    // xsregs = 2, aregs = 5 (one argument, one static), ra, s0, s1, frame 160
    assert!(exec(&mut ms, 0xf215_64f4));
    assert_eq!(ms.reg.r[29], 0x8000_5000 - 160);
    assert_eq!(load_word(&mut ms, 0x8000_5000), Ok(0x0404_0404));
    assert_eq!(load_word(&mut ms, 0x8000_4ffc), Ok(0x1f1f_1f1f));
    assert_eq!(load_word(&mut ms, 0x8000_4ff8), Ok(0x1313_1313));
    assert_eq!(load_word(&mut ms, 0x8000_4ff4), Ok(0x1212_1212));
    assert_eq!(load_word(&mut ms, 0x8000_4ff0), Ok(0x1111_1111));
    assert_eq!(load_word(&mut ms, 0x8000_4fec), Ok(0x1010_1010));
    assert_eq!(load_word(&mut ms, 0x8000_4fe8), Ok(0x0707_0707));
    assert_eq!(load_word(&mut ms, 0x8000_4fe4), Ok(0xffff_ffff));
    assert_eq!(ms.reg.pc, 0x8000_1005);
    for i in [31, 19, 18, 17, 16, 7] {
        ms.reg.r[i] = 0;
    }
    assert!(exec(&mut ms, 0xf215_6474));
    assert_eq!(ms.reg.r[29], 0x8000_5000);
    for i in [31usize, 19, 18, 17, 16, 7] {
        assert_eq!(ms.reg.r[i], 0x0101_0101 * i as u32);
    }
}

#[test]
fn extended_save_of_all_registers() {
    let mut ms = m16_machine();
    for i in 0..32 {
        if i != 29 {
            ms.reg.r[i] = 0x0101_0101 * i as u32;
        }
    }
    // xsregs = 7, aregs = 14 (four arguments), ra, frame 64
    assert!(exec(&mut ms, 0xf70e_64c8));
    assert_eq!(ms.reg.r[29], 0x8000_5000 - 64);
    for i in 0..4u32 {
        assert_eq!(load_word(&mut ms, 0x8000_5000 + 4 * i), Ok(0x0101_0101 * (4 + i)));
    }
    assert_eq!(load_word(&mut ms, 0x8000_4ffc), Ok(0x1f1f_1f1f));
    assert_eq!(load_word(&mut ms, 0x8000_4ff8), Ok(0x1e1e_1e1e));
    for i in 0..6u32 {
        assert_eq!(load_word(&mut ms, 0x8000_4ff4 - 4 * i), Ok(0x0101_0101 * (23 - i)));
    }
    assert_eq!(load_word(&mut ms, 0x8000_4fdc), Ok(0xffff_ffff));
}

#[test]
fn save_that_faults_leaves_the_stack_pointer() {
    let mut ms = m16_machine();
    ms.reg.set_c0(C0_STATUS, 0);
    ms.reg.r[29] = 0x1000_0008;
    assert!(exec(&mut ms, 0x64f2));
    assert_eq!(ms.reg.r[29], 0x1000_0008);
    assert_eq!((ms.reg.c0(C0_CAUSE) >> 2) & 0x1f, 3);
    assert_eq!(ms.reg.c0(C0_BADVADDR), 0x1000_0004);
    assert_eq!(ms.reg.pc, 0x8000_0000);
}

#[test]
fn unknown_encodings() {
    let mut ms = m16_machine();
    // EXTEND and JAL as a single halfword, an unused opcode, SDBBP, BREAK
    for inst in [0xf000, 0x1800, 0x3800, 0xe801, 0xe805, 0x3261, 0x4010, 0x6600, 0xe8e0] {
        assert!(!exec(&mut ms, inst));
    }
    assert_eq!(ms.reg.pc, 0x8000_1001);
}

#[test]
fn extend_prefix_makes_the_fetch_read_two_halfwords() {
    let mut image = vec![0u8; 0x110];
    image[0x100..0x104].copy_from_slice(&[0xf2, 0x22, 0x6a, 0x14]);
    let mut ms = generate_machine_state(spi_flash_param_s25fl164k(), &image);
    ms.reg.pc = 0xbfc0_0101;
    let inst = begin_instruction(&mut ms);
    assert_eq!(inst, 0xf222_6a14);
    assert!(execute(&mut ms, inst));
    assert_eq!(ms.reg.r[2], 0x1234);
    assert_eq!(ms.reg.pc, 0xbfc0_0105);
}

#[test]
fn plain_halfword_is_fetched_alone() {
    let mut image = vec![0u8; 0x110];
    image[0x100..0x104].copy_from_slice(&[0x6a, 0x55, 0x6b, 0x66]);
    let mut ms = generate_machine_state(spi_flash_param_s25fl164k(), &image);
    ms.reg.pc = 0xbfc0_0101;
    assert_eq!(begin_instruction(&mut ms), 0x6a55);
    assert!(step(&mut ms));
    assert!(step(&mut ms));
    assert_eq!(ms.reg.r[2], 0x55);
    assert_eq!(ms.reg.r[3], 0x66);
    assert_eq!(ms.reg.pc, 0xbfc0_0105);
}

#[test]
fn jal_is_fetched_as_two_halfwords() {
    let mut image = vec![0u8; 0x110];
    image[0x100..0x104].copy_from_slice(&[0x18, 0x00, 0x08, 0x00]);
    let mut ms = generate_machine_state(spi_flash_param_s25fl164k(), &image);
    ms.reg.pc = 0xbfc0_0101;
    assert_eq!(begin_instruction(&mut ms), 0x1800_0800);
}
