use exrmips::cp0def::{C0_BADVADDR, C0_CAUSE, C0_EPC, C0_STATUS};
use exrmips::dev_spiflash::spi_flash_param_s25fl164k;
use exrmips::generate_machine_state;
use exrmips::mainloop::step;
use exrmips::mem::{store_halfword, store_word};
use exrmips::procstate::MachineState;

fn branch_machine(code: &[u32]) -> MachineState {
    let mut ms = generate_machine_state(spi_flash_param_s25fl164k(), &[0u8; 8]);
    for (i, w) in code.iter().enumerate() {
        store_word(&mut ms, 0x8000_1000 + 4 * i as u32, *w).unwrap();
    }
    ms.reg.pc = 0x8000_1000;
    ms
}

#[test]
fn taken_branch_arms_the_delay_slot_for_one_instruction() {
    // beq $1, $2, +3 ; addiu $3, $0, 1
    let mut ms = branch_machine(&[0x1022_0003, 0x2403_0001, 0, 0, 0]);
    ms.reg.r[1] = 4;
    ms.reg.r[2] = 4;
    assert!(step(&mut ms));
    assert!(ms.reg.delay_en);
    assert_eq!(ms.reg.pc, 0x8000_1004);
    assert_eq!(ms.reg.pc_prev_jump, 0x8000_1000);
    assert_eq!(ms.reg.pc_delay, 0x8000_1010);
    assert!(step(&mut ms));
    assert!(!ms.reg.delay_en);
    assert_eq!(ms.reg.r[3], 1);
    assert_eq!(ms.reg.pc, 0x8000_1010);
    assert!(step(&mut ms));
    assert!(!ms.reg.delay_en);
    assert_eq!(ms.reg.pc, 0x8000_1014);
}

#[test]
fn branch_not_taken_falls_through() {
    let mut ms = branch_machine(&[0x1022_0003, 0x2403_0001, 0]);
    ms.reg.r[1] = 4;
    ms.reg.r[2] = 5;
    assert!(step(&mut ms));
    assert!(!ms.reg.delay_en);
    assert_eq!(ms.reg.pc, 0x8000_1004);
    assert!(step(&mut ms));
    assert_eq!(ms.reg.r[3], 1);
    assert_eq!(ms.reg.pc, 0x8000_1008);
}

#[test]
fn backward_branch() {
    // bne $1, $2, -1 at 0x80001000: target is the branch itself
    let mut ms = branch_machine(&[0x1422_ffff, 0]);
    ms.reg.r[1] = 1;
    assert!(step(&mut ms));
    assert!(step(&mut ms));
    assert_eq!(ms.reg.pc, 0x8000_1000);
}

#[test]
fn likely_branch_not_taken_skips_the_delay_slot() {
    // beql $1, $2, +3 ; addiu $3, $0, 1
    let mut ms = branch_machine(&[0x5022_0003, 0x2403_0001, 0]);
    ms.reg.r[1] = 4;
    ms.reg.r[2] = 5;
    assert!(step(&mut ms));
    assert!(!ms.reg.delay_en);
    assert_eq!(ms.reg.pc, 0x8000_1008);
    assert!(step(&mut ms));
    assert_eq!(ms.reg.r[3], 0);
}

#[test]
fn likely_branch_taken_runs_the_delay_slot() {
    let mut ms = branch_machine(&[0x5022_0003, 0x2403_0001, 0, 0, 0]);
    ms.reg.r[1] = 4;
    ms.reg.r[2] = 4;
    assert!(step(&mut ms));
    assert!(step(&mut ms));
    assert_eq!(ms.reg.r[3], 1);
    assert_eq!(ms.reg.pc, 0x8000_1010);
}

#[test]
fn bal_links_behind_the_delay_slot() {
    let mut ms = branch_machine(&[0x0411_0002, 0, 0, 0]);
    assert!(step(&mut ms));
    assert_eq!(ms.reg.r[31], 0x8000_1008);
    assert!(step(&mut ms));
    assert_eq!(ms.reg.pc, 0x8000_100c);
}

#[test]
fn branches_on_sign() {
    // bltz $1, +2
    let mut ms = branch_machine(&[0x0420_0002, 0, 0, 0]);
    ms.reg.r[1] = 0x8000_0000;
    assert!(step(&mut ms));
    assert!(ms.reg.delay_en);
    // bgezal $1, +2 not taken still links
    let mut ms = branch_machine(&[0x0431_0002, 0, 0, 0]);
    ms.reg.r[1] = 0x8000_0000;
    assert!(step(&mut ms));
    assert!(!ms.reg.delay_en);
    assert_eq!(ms.reg.r[31], 0x8000_1008);
    // bgezl $1, +2 not taken skips
    let mut ms = branch_machine(&[0x0423_0002, 0, 0, 0]);
    ms.reg.r[1] = 0x8000_0000;
    assert!(step(&mut ms));
    assert_eq!(ms.reg.pc, 0x8000_1008);
    // blez $1 / bgtz $1
    let mut ms = branch_machine(&[0x1820_0002, 0, 0, 0]);
    ms.reg.r[1] = 0;
    assert!(step(&mut ms));
    assert!(ms.reg.delay_en);
    let mut ms = branch_machine(&[0x1c20_0002, 0, 0, 0]);
    ms.reg.r[1] = 0;
    assert!(step(&mut ms));
    assert!(!ms.reg.delay_en);
}

#[test]
fn blez_with_a_second_register_is_not_known() {
    let mut ms = branch_machine(&[0x1821_0002, 0]);
    assert!(!step(&mut ms));
    assert_eq!(ms.reg.pc, 0x8000_1000);
}

#[test]
fn jumps_within_the_region() {
    // j 0x80002000
    let mut ms = branch_machine(&[0x0800_0800, 0]);
    assert!(step(&mut ms));
    assert!(step(&mut ms));
    assert_eq!(ms.reg.pc, 0x8000_2000);
    // jal 0x80002000
    let mut ms = branch_machine(&[0x0c00_0800, 0]);
    assert!(step(&mut ms));
    assert_eq!(ms.reg.r[31], 0x8000_1008);
    assert!(step(&mut ms));
    assert_eq!(ms.reg.pc, 0x8000_2000);
}

#[test]
fn jalr_links_to_its_register() {
    // jalr $31, $5
    let mut ms = branch_machine(&[0x00a0_f809, 0]);
    ms.reg.r[5] = 0x8000_3000;
    assert!(step(&mut ms));
    assert_eq!(ms.reg.r[31], 0x8000_1008);
    assert!(step(&mut ms));
    assert_eq!(ms.reg.pc, 0x8000_3000);
}

#[test]
fn exception_in_a_delay_slot_records_the_branch() {
    // beq $0, $0, +3 ; lw $2, 0($1) with $1 unmapped
    let mut ms = branch_machine(&[0x1000_0003, 0x8c22_0000, 0]);
    ms.reg.set_c0(C0_STATUS, 0);
    ms.reg.r[1] = 0x1000_0000;
    assert!(step(&mut ms));
    assert!(step(&mut ms));
    assert_eq!(ms.reg.c0(C0_EPC), 0x8000_1000);
    assert_ne!(ms.reg.c0(C0_CAUSE) & 0x8000_0000, 0);
    assert!(!ms.reg.delay_en);
    assert_eq!(ms.reg.c0(C0_BADVADDR), 0x1000_0000);
    assert_eq!(ms.reg.pc, 0x8000_0000);
}

#[test]
fn exception_outside_a_delay_slot_records_the_instruction() {
    let mut ms = branch_machine(&[0, 0x8c22_0000, 0]);
    ms.reg.set_c0(C0_STATUS, 0);
    // a stale BD bit goes away
    ms.reg.set_c0(C0_CAUSE, 0x8000_0000);
    ms.reg.r[1] = 0x1000_0000;
    assert!(step(&mut ms));
    assert!(step(&mut ms));
    assert_eq!(ms.reg.c0(C0_EPC), 0x8000_1004);
    assert_eq!(ms.reg.c0(C0_CAUSE) & 0x8000_0000, 0);
}

#[test]
fn jr_to_an_odd_address_enters_mips16e() {
    // jr $5 ; nop
    let mut ms = branch_machine(&[0x00a0_0008, 0]);
    // li $2, 0x55 in MIPS16e
    store_halfword(&mut ms, 0x8000_2000, 0x6a55).unwrap();
    ms.reg.r[5] = 0x8000_2001;
    assert!(step(&mut ms));
    assert!(step(&mut ms));
    assert_eq!(ms.reg.pc, 0x8000_2001);
    assert!(step(&mut ms));
    assert_eq!(ms.reg.r[2], 0x55);
    assert_eq!(ms.reg.pc, 0x8000_2003);
}

#[test]
fn jalx_switches_mode_and_jr_ra_switches_back() {
    // jalx 0x80002000 ; nop ; ori $6, $0, 0x77
    let mut ms = branch_machine(&[0x7400_0800, 0, 0x3406_0077]);
    // callee in MIPS16e: jr ra ; li $2, 1
    store_halfword(&mut ms, 0x8000_2000, 0xe820).unwrap();
    store_halfword(&mut ms, 0x8000_2002, 0x6a01).unwrap();
    assert!(step(&mut ms));
    assert_eq!(ms.reg.r[31], 0x8000_1008);
    assert!(step(&mut ms));
    assert_eq!(ms.reg.pc, 0x8000_2001);
    assert!(step(&mut ms));
    assert!(ms.reg.delay_en);
    assert_eq!(ms.reg.pc, 0x8000_2003);
    assert!(step(&mut ms));
    assert_eq!(ms.reg.r[2], 1);
    assert_eq!(ms.reg.pc, 0x8000_1008);
    assert!(step(&mut ms));
    assert_eq!(ms.reg.r[6], 0x77);
    assert_eq!(ms.reg.pc, 0x8000_100c);
}

#[test]
fn misaligned_program_counter_is_an_address_error() {
    let mut ms = branch_machine(&[0]);
    // a nop at the general exception vector
    store_word(&mut ms, 0x8000_0180, 0).unwrap();
    ms.reg.set_c0(C0_STATUS, 0);
    ms.reg.pc = 0x8000_1002;
    assert!(step(&mut ms));
    assert_eq!((ms.reg.c0(C0_CAUSE) >> 2) & 0x1f, 4);
    assert_eq!(ms.reg.c0(C0_BADVADDR), 0x8000_1002);
    assert_eq!(ms.reg.c0(C0_EPC), 0x8000_1002);
    // the nop at the vector was fetched and executed
    assert_eq!(ms.reg.pc, 0x8000_0184);
}
