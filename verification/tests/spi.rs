use exrmips::dev_spi::{
    init,
    read_reg,
    remove,
    write_reg,
    DummySPIDevice,
    IoSPI,
    SPIWorker,
    SpiSlave,
};
use exrmips::dev_spiflash::{
    deselect,
    generate_flash,
    select,
    spi_flash_param_mx66u2g45g,
    spi_flash_param_s25fl164k,
    SPIFlash,
    SFDP_MX66U2G45G,
    SFDP_S25FL164K,
};

fn spi_flash(size: usize) -> SPIFlash {
    let data: Vec<u8> = (0..size).map(|i| (i % 251) as u8).collect();
    generate_flash(spi_flash_param_s25fl164k(), data)
}

fn spi_command(flash: &mut SPIFlash, bytes: &[u8]) -> Vec<u8> {
    select(flash);
    let out = bytes.iter().map(|b| exrmips::dev_spiflash::write(flash, *b as u32)).collect();
    deselect(flash);
    out
}

#[test]
fn flash_parts() {
    let p = spi_flash_param_s25fl164k();
    assert_eq!(p.capacity, 8 * 1024 * 1024);
    assert_eq!((p.block_size, p.sector_size, p.page_size), (65536, 4096, 1));
    assert_eq!((p.manufacturer_id, p.devicetype_id, p.capacity_id), (0x01, 0x40, 0x17));
    assert_eq!(p.device_id, 0x15);
    assert_eq!(p.sfdp, SFDP_S25FL164K.to_vec());
    let p = spi_flash_param_mx66u2g45g();
    assert_eq!(p.capacity, 256 * 1024 * 1024);
    assert_eq!((p.manufacturer_id, p.devicetype_id, p.capacity_id), (0xc2, 0x25, 0x3c));
    assert_eq!(p.sfdp, SFDP_MX66U2G45G.to_vec());
    assert_eq!(p.sfdp.len(), 288);
}

#[test]
fn dummy_device_answers_zero() {
    let mut d = DummySPIDevice {};
    assert!(d.init() && d.select() && d.deselect() && d.remove());
    assert_eq!(d.write(0x9f), 0);
}

#[test]
fn jedec_id() {
    let mut f = spi_flash(4096);
    assert_eq!(spi_command(&mut f, &[0x9f, 0, 0, 0, 0]), vec![0xff, 0x01, 0x40, 0x17, 0xff]);
}

#[test]
fn read_gives_bytes_from_the_address_on() {
    let mut f = spi_flash(4096);
    let out = spi_command(&mut f, &[0x03, 0x00, 0x01, 0x02, 0xff, 0xff, 0xff]);
    assert_eq!(out, vec![0xff, 0xff, 0xff, 0xff, 7, 8, 9]);
    // 0x102 = 258 = 251 + 7
}

#[test]
fn read_wraps_at_the_size() {
    let mut f = spi_flash(4096);
    let out = spi_command(&mut f, &[0x03, 0x00, 0x10, 0x01, 0xff]);
    assert_eq!(out[4], 1);
    let out = spi_command(&mut f, &[0x03, 0x00, 0x0f, 0xff, 0xff, 0xff]);
    assert_eq!(&out[4..], &[(4095 % 251) as u8, 0]);
}

#[test]
fn fast_read_has_a_dummy_byte() {
    let mut f = spi_flash(4096);
    for cmd in [0x0b, 0x3b, 0x6b] {
        let out = spi_command(&mut f, &[cmd, 0x00, 0x00, 0x05, 0xff, 0xff, 0xff]);
        assert_eq!(out, vec![0xff, 0xff, 0xff, 0xff, 0xff, 5, 6]);
    }
}

#[test]
fn four_byte_address_reads() {
    let mut f = spi_flash(4096);
    let out = spi_command(&mut f, &[0x13, 0x00, 0x00, 0x00, 0x05, 0xff, 0xff]);
    assert_eq!(out, vec![0xff, 0xff, 0xff, 0xff, 0xff, 5, 6]);
    let out = spi_command(&mut f, &[0x0c, 0x00, 0x00, 0x01, 0x02, 0xff, 0xff, 0xff]);
    assert_eq!(out, vec![0xff, 0xff, 0xff, 0xff, 0xff, 0xff, 7, 8]);
}

#[test]
fn program_needs_write_enable() {
    let mut f = spi_flash(4096);
    spi_command(&mut f, &[0x02, 0x00, 0x00, 0x10, 0xaa, 0xbb]);
    assert_eq!(&f.mem[0x10..0x12], &[0x10, 0x11]);
    spi_command(&mut f, &[0x06]);
    assert_eq!(f.sr[0] & 2, 2);
    spi_command(&mut f, &[0x02, 0x00, 0x00, 0x10, 0xaa, 0xbb]);
    assert_eq!(&f.mem[0x10..0x13], &[0xaa, 0xbb, 0x12]);
    spi_command(&mut f, &[0x04]);
    assert_eq!(f.sr[0] & 2, 0);
    spi_command(&mut f, &[0x12, 0x00, 0x00, 0x00, 0x10, 0xcc]);
    assert_eq!(f.mem[0x10], 0xaa);
    spi_command(&mut f, &[0x06]);
    spi_command(&mut f, &[0x12, 0x00, 0x00, 0x00, 0x10, 0xcc]);
    assert_eq!(f.mem[0x10], 0xcc);
}

#[test]
fn sector_erase_fills_the_sector() {
    let mut f = spi_flash(3 * 4096);
    spi_command(&mut f, &[0x20, 0x00, 0x10, 0x80]);
    assert_eq!(f.mem[0x1080], (0x1080 % 251) as u8);
    spi_command(&mut f, &[0x06]);
    spi_command(&mut f, &[0x20, 0x00, 0x10, 0x80]);
    assert!(f.mem[0x1000..0x2000].iter().all(|b| *b == 0xff));
    assert_eq!(f.mem[0x0fff], (0x0fff % 251) as u8);
    assert_eq!(f.mem[0x2000], (0x2000 % 251) as u8);
    assert_eq!(f.addr, 0x1000);
    // with a four byte address
    spi_command(&mut f, &[0x21, 0x00, 0x00, 0x20, 0x00]);
    assert!(f.mem[0x2000..0x3000].iter().all(|b| *b == 0xff));
    assert_eq!(f.mem[0x0000], 0);
}

#[test]
fn block_erase_fills_the_block() {
    let mut f = spi_flash(3 * 65536);
    spi_command(&mut f, &[0x06]);
    spi_command(&mut f, &[0xd8, 0x01, 0x23, 0x45]);
    assert!(f.mem[0x10000..0x20000].iter().all(|b| *b == 0xff));
    assert_eq!(f.mem[0xffff], (0xffff % 251) as u8);
    assert_eq!(f.mem[0x20000], (0x20000 % 251) as u8);
    spi_command(&mut f, &[0xdc, 0x00, 0x02, 0x00, 0x00]);
    assert!(f.mem[0x20000..0x30000].iter().all(|b| *b == 0xff));
}

#[test]
fn erase_wraps_in_a_small_device() {
    let mut f = spi_flash(100);
    spi_command(&mut f, &[0x06]);
    spi_command(&mut f, &[0x20, 0x00, 0x00, 0x00]);
    assert!(f.mem.iter().all(|b| *b == 0xff));
}

#[test]
fn status_registers() {
    let mut f = spi_flash(4096);
    f.sr = [0x03, 0x55, 0x66];
    assert_eq!(spi_command(&mut f, &[0x05, 0, 0]), vec![0xff, 0x02, 0xff]);
    assert_eq!(spi_command(&mut f, &[0x35, 0]), vec![0xff, 0x55]);
    assert_eq!(spi_command(&mut f, &[0x33, 0]), vec![0xff, 0x66]);
    assert!(!f.error);
}

#[test]
fn sfdp_table() {
    let mut f = spi_flash(4096);
    let out = spi_command(&mut f, &[0x5a, 0, 0, 0, 0, 0xff, 0xff, 0xff, 0xff]);
    assert_eq!(&out[5..], &[0x53, 0x46, 0x44, 0x50]);
    let out = spi_command(&mut f, &[0x5a, 0, 0, 0x93, 0, 0xff, 0xff]);
    assert_eq!(&out[5..], &[0xff, 0xff]);
    let out = spi_command(&mut f, &[0x5a, 0, 0, 0x80, 0, 0xff, 0xff]);
    assert_eq!(&out[5..], &[0xee, 0xff]);
}

#[test]
fn unknown_command_sets_the_error_flag() {
    let mut f = spi_flash(4096);
    select(&mut f);
    assert_eq!(exrmips::dev_spiflash::write(&mut f, 0xab), 0xff);
    assert!(f.error);
    assert_eq!(f.flash_cnt, 1);
    deselect(&mut f);
    assert!(!f.error && !f.selected);
    assert_eq!(f.flash_cnt, 0);
    assert_eq!(f.flash_buf[0], 0);
}

#[test]
fn select_keeps_a_command_in_progress() {
    let mut f = spi_flash(4096);
    select(&mut f);
    exrmips::dev_spiflash::write(&mut f, 0x03);
    exrmips::dev_spiflash::write(&mut f, 0x00);
    select(&mut f);
    assert_eq!(f.flash_cnt, 2);
    assert_eq!(f.flash_buf[0], 0x03);
}

#[test]
fn long_command_does_not_overrun_the_buffer() {
    let mut f = spi_flash(4096);
    select(&mut f);
    exrmips::dev_spiflash::write(&mut f, 0x03);
    for _ in 0..100 {
        exrmips::dev_spiflash::write(&mut f, 0x00);
    }
    assert_eq!(f.flash_cnt, 101);
    assert_eq!(f.flash_buf[0], 0x03);
    // 101 bytes: command, 3 address bytes, 97 data bytes
    assert_eq!(f.addr, 97);
}

#[test]
fn master_registers() {
    let mut spi = IoSPI::new();
    init(&mut spi);
    for (i, addr) in [0x00u32, 0x04, 0x08, 0x0c, 0x10, 0x18].iter().enumerate() {
        write_reg(&mut spi, 0x1f00_0000 + addr, 0x100 + i as u32);
    }
    assert_eq!(spi.function_select, 0x100);
    assert_eq!(spi.control, 0x101);
    assert_eq!(spi.io_control, 0x102);
    assert_eq!(spi.read_data_addr, 0x103);
    assert_eq!(spi.shift_dataout, 0x104);
    assert_eq!(spi.shift_datain, 0x105);
    assert_eq!(read_reg(&spi, 0x04), 0x101);
    assert_eq!(read_reg(&spi, 0x07), 0x101);
    assert_eq!(read_reg(&spi, 0x18), 0x105);
    assert_eq!(read_reg(&spi, 0x1c), 0);
    write_reg(&mut spi, 0x1c, 5);
    assert_eq!(read_reg(&spi, 0x14), 0);
    remove(&mut spi);
}

#[test]
fn master_shifts_a_command_through_chip_select_0() {
    let mut spi = IoSPI::new();
    spi.workers[0] = SpiSlave::Flash(spi_flash(4096));
    write_reg(&mut spi, 0x10, 0x9f00_0000);
    // enable, chip select 0, 32 bits
    write_reg(&mut spi, 0x14, 0x9000_0020);
    assert_eq!(spi.shift_datain, 0xff01_4017);
    // the enable bit clears, the chip select stays
    assert_eq!(spi.shift_count, 0x1000_0020);
    match &spi.workers[0] {
        SpiSlave::Flash(f) => {
            assert!(f.selected);
            assert_eq!(f.flash_cnt, 4);
        },
        SpiSlave::Dummy(_) => panic!("the flash is gone"),
    }
}

#[test]
fn master_terminate_deselects() {
    let mut spi = IoSPI::new();
    spi.workers[0] = SpiSlave::Flash(spi_flash(4096));
    write_reg(&mut spi, 0x10, 0x0000_009f);
    // enable, chip select 0, terminate, 8 bits
    write_reg(&mut spi, 0x14, 0x9400_0008);
    assert_eq!(spi.shift_datain, 0xff);
    assert_eq!(spi.shift_count, 0x0400_0008);
    match &spi.workers[0] {
        SpiSlave::Flash(f) => assert!(!f.selected),
        SpiSlave::Dummy(_) => panic!("the flash is gone"),
    }
}

#[test]
fn master_splits_a_command_over_several_shifts() {
    let mut spi = IoSPI::new();
    spi.workers[0] = SpiSlave::Flash(spi_flash(4096));
    // read command and address in one shift of 32 bits
    write_reg(&mut spi, 0x10, 0x0300_0102);
    write_reg(&mut spi, 0x14, 0x9000_0020);
    // two data bytes, then terminate
    write_reg(&mut spi, 0x10, 0);
    write_reg(&mut spi, 0x14, 0x9400_0010);
    assert_eq!(spi.shift_datain, 0x0708);
}

#[test]
fn chip_select_without_enable_changes_nothing() {
    let mut spi = IoSPI::new();
    spi.workers[0] = SpiSlave::Flash(spi_flash(4096));
    write_reg(&mut spi, 0x14, 0x1000_0008);
    assert_eq!(spi.shift_count, 0x1000_0008);
    match &spi.workers[0] {
        SpiSlave::Flash(f) => assert!(!f.selected),
        SpiSlave::Dummy(_) => panic!("the flash is gone"),
    }
}

#[test]
fn dummy_slots_shift_in_zeros() {
    let mut spi = IoSPI::new();
    spi.shift_datain = 0x1234;
    write_reg(&mut spi, 0x10, 0x9f00_0000);
    write_reg(&mut spi, 0x14, 0xa000_0020);
    assert_eq!(spi.shift_datain, 0);
}

#[test]
fn remove_deselects_the_flash() {
    let mut spi = IoSPI::new();
    let mut f = spi_flash(4096);
    select(&mut f);
    spi.workers[0] = SpiSlave::Flash(f);
    remove(&mut spi);
    match &spi.workers[0] {
        SpiSlave::Flash(f) => assert!(!f.selected),
        SpiSlave::Dummy(_) => panic!("the flash is gone"),
    }
}
