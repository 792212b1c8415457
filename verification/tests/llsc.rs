use exrmips::cp0def::{C0_ERROREPC, C0_STATUS};
use exrmips::dev_spiflash::spi_flash_param_s25fl164k;
use exrmips::exec_mips32::exec;
use exrmips::generate_machine_state;
use exrmips::mem::{load_word, store_word};
use exrmips::procstate::MachineState;

fn llsc_machine() -> MachineState {
    let mut ms = generate_machine_state(spi_flash_param_s25fl164k(), &[0u8; 8]);
    ms.reg.pc = 0x8000_1000;
    store_word(&mut ms, 0x8000_3000, 0x1111_1111).unwrap();
    ms.reg.r[1] = 0x8000_3000;
    ms.reg.r[3] = 0xdead_beef;
    ms
}

#[test]
fn ll_then_sc_succeeds() {
    let mut ms = llsc_machine();
    assert!(exec(&mut ms, 0xc022_0000));
    assert_eq!(ms.reg.r[2], 0x1111_1111);
    assert!(ms.reg.ll_sc);
    assert!(exec(&mut ms, 0xe023_0000));
    assert_eq!(ms.reg.r[3], 1);
    assert_eq!(load_word(&mut ms, 0x8000_3000), Ok(0xdead_beef));
    assert_eq!(ms.reg.pc, 0x8000_1008);
}

#[test]
fn eret_between_ll_and_sc_makes_sc_fail() {
    let mut ms = llsc_machine();
    ms.reg.set_c0(C0_ERROREPC, 0x8000_1004);
    assert!(exec(&mut ms, 0xc022_0000));
    assert!(ms.reg.ll_sc);
    assert!(exec(&mut ms, 0x4200_0018));
    assert!(!ms.reg.ll_sc);
    assert_eq!(ms.reg.pc, 0x8000_1004);
    assert!(exec(&mut ms, 0xe023_0000));
    assert_eq!(ms.reg.r[3], 0);
    assert_eq!(load_word(&mut ms, 0x8000_3000), Ok(0x1111_1111));
    assert_eq!(ms.reg.pc, 0x8000_1008);
}

#[test]
fn sc_without_ll_fails() {
    let mut ms = llsc_machine();
    assert!(exec(&mut ms, 0xe023_0000));
    assert_eq!(ms.reg.r[3], 0);
    assert_eq!(load_word(&mut ms, 0x8000_3000), Ok(0x1111_1111));
}

#[test]
fn other_instructions_keep_the_link() {
    let mut ms = llsc_machine();
    assert!(exec(&mut ms, 0xc022_0000));
    // addu, sw to another address, lw, syscall
    assert!(exec(&mut ms, 0x0022_1821));
    ms.reg.r[4] = 0x8000_3100;
    assert!(exec(&mut ms, 0xac82_0000));
    assert!(exec(&mut ms, 0x8c82_0000));
    assert!(exec(&mut ms, 0x0000_000c));
    assert!(ms.reg.ll_sc);
}

#[test]
fn ll_that_faults_still_sets_the_link() {
    let mut ms = llsc_machine();
    ms.reg.set_c0(C0_STATUS, 0);
    ms.reg.r[1] = 0x1000_0000;
    assert!(exec(&mut ms, 0xc022_0000));
    assert!(ms.reg.ll_sc);
    assert_eq!(ms.reg.pc, 0x8000_0000);
}

#[test]
fn sc_that_faults_leaves_its_register() {
    let mut ms = llsc_machine();
    ms.reg.ll_sc = true;
    ms.reg.r[1] = 0x8000_3001;
    assert!(exec(&mut ms, 0xe023_0000));
    assert_eq!(ms.reg.r[3], 0xdead_beef);
    assert_eq!(ms.reg.pc, 0xbfc0_0380);
}
