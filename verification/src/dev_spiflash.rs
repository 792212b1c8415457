//! A serial NOR flash on the SPI bus: a state machine over the bytes of one
//! command, from select to deselect.
use vstd::prelude::*;
use vstd::slice::slice_to_vec;
use crate::dev_spi::SPIWorker;

verus! {

pub const FLASH_BUF_SIZE: usize = 64;

pub const SPI_FLASH_NUM: usize = 1;

pub const FLASH_CMD_ID: u8 = 0x9F;

pub const FLASH_CMD_READ: u8 = 0x03;

pub const FLASH_CMD_FAST_READ: u8 = 0x0B;

pub const FLASH_CMD_FAST_READ_DUAL: u8 = 0x3B;

pub const FLASH_CMD_FAST_READ_QUAD: u8 = 0x6B;

pub const FLASH_CMD_CONT_READ_RESET: u8 = 0xFF;

pub const FLASH_CMD_WRITE_ENABLE: u8 = 0x06;

pub const FLASH_CMD_WRITE_DISABLE: u8 = 0x04;

pub const FLASH_CMD_READ_SFDP: u8 = 0x5A;

pub const FLASH_CMD_BLOCK_ERASE: u8 = 0xD8;

pub const FLASH_CMD_SECTOR_ERASE: u8 = 0x20;

pub const FLASH_CMD_PAGE_PROGRAM: u8 = 0x02;

pub const FLASH_CMD_READ_SR1: u8 = 0x05;

pub const FLASH_CMD_READ_SR2: u8 = 0x35;

pub const FLASH_CMD_READ_SR3: u8 = 0x33;

pub const FLASH_CMD_READ4B: u8 = 0x13;

pub const FLASH_CMD_FAST_READ4B: u8 = 0x0C;

pub const FLASH_CMD_BLOCK_ERASE4B: u8 = 0xDC;

pub const FLASH_CMD_SECTOR_ERASE4B: u8 = 0x21;

pub const FLASH_CMD_PAGE_PROGRAM4B: u8 = 0x12;

/// Write enable latch of status register 1.
pub const SPI_FLASH_SR1_WE: u8 = 0x02;

/// Busy flag of status register 1.
pub const SPI_FLASH_SR1_BUSY: u8 = 0x01;

/// SFDP table of the 8 MiB part.
pub const SFDP_S25FL164K: [u8; 148] = [
    0x53, 0x46, 0x44, 0x50, 0x00, 0x01, 0x02, 0xff, 0x00, 0x00, 0x01, 0x09, 0x80, 0x00, 0x00, 0xFF,
    0xEF, 0x00, 0x01, 0x04, 0xA4, 0x00, 0x00, 0xFF, 0x01, 0x00, 0x01, 0x00, 0xA4, 0x00, 0x00, 0xFF,
    0xFF, 0xFF, 0xFF, 0xFF, 0xFF, 0xFF, 0xFF, 0xFF, 0xFF, 0xFF, 0xFF, 0xFF, 0xFF, 0xFF, 0xFF, 0xFF,
    0xFF, 0xFF, 0xFF, 0xFF, 0xFF, 0xFF, 0xFF, 0xFF, 0xFF, 0xFF, 0xFF, 0xFF, 0xFF, 0xFF, 0xFF, 0xFF,
    0xFF, 0xFF, 0xFF, 0xFF, 0xFF, 0xFF, 0xFF, 0xFF, 0xFF, 0xFF, 0xFF, 0xFF, 0xFF, 0xFF, 0xFF, 0xFF,
    0xFF, 0xFF, 0xFF, 0xFF, 0xFF, 0xFF, 0xFF, 0xFF, 0xFF, 0xFF, 0xFF, 0xFF, 0xFF, 0xFF, 0xFF, 0xFF,
    0xFF, 0xFF, 0xFF, 0xFF, 0xFF, 0xFF, 0xFF, 0xFF, 0xFF, 0xFF, 0xFF, 0xFF, 0xFF, 0xFF, 0xFF, 0xFF,
    0xE5, 0x20, 0xF1, 0xFF, 0xFF, 0xFF, 0xFF, 0x02, 0x44, 0xEB, 0x08, 0x6B, 0x08, 0x3B, 0x80, 0xBB,
    0xEE, 0xFF, 0xFF, 0xFF, 0xFF, 0xFF, 0xFF, 0xFF, 0xFF, 0xFF, 0xFF, 0xFF, 0x0C, 0x20, 0x00, 0xFF,
    0x00, 0xFF, 0x00, 0xFF,
];

/// SFDP table of the 256 MiB part.
pub const SFDP_MX66U2G45G: [u8; 288] = [
    0x53, 0x46, 0x44, 0x50, 0x06, 0x01, 0x02, 0xff, 0x00, 0x06, 0x01, 0x10, 0x30, 0x00, 0x00, 0xFF,
    0xC2, 0x00, 0x01, 0x04, 0x10, 0x01, 0x00, 0xFF, 0x84, 0x00, 0x01, 0x02, 0xC0, 0x00, 0x00, 0xFF,
    0xff, 0xff, 0xff, 0xff, 0xff, 0xff, 0xff, 0xff, 0xff, 0xff, 0xff, 0xff, 0xff, 0xff, 0xff, 0xff,
    0xE5, 0x20, 0xFB, 0xFF, 0xFF, 0xFF, 0xFF, 0xFF, 0x44, 0xEB, 0x08, 0x6B, 0x08, 0x3B, 0x04, 0xBB,
    0xFE, 0xFF, 0xFF, 0xFF, 0xFF, 0xFF, 0x00, 0xFF, 0xFF, 0xFF, 0x44, 0xEB, 0x0c, 0x20, 0x0f, 0x52,
    0x10, 0xD8, 0x00, 0xFF, 0x87, 0x49, 0xB5, 0x00, 0x84, 0xD2, 0x04, 0xE2, 0x44, 0x03, 0x67, 0x38,
    0x30, 0xB0, 0x30, 0xB0, 0xF7, 0xBD, 0xD5, 0x5C, 0x4A, 0x9E, 0x29, 0xFF, 0xF0, 0x50, 0xF9, 0x85,
    0xff, 0xff, 0xff, 0xff, 0xff, 0xff, 0xff, 0xff, 0xff, 0xff, 0xff, 0xff, 0xff, 0xff, 0xff, 0xff,
    0xff, 0xff, 0xff, 0xff, 0xff, 0xff, 0xff, 0xff, 0xff, 0xff, 0xff, 0xff, 0xff, 0xff, 0xff, 0xff,
    0xff, 0xff, 0xff, 0xff, 0xff, 0xff, 0xff, 0xff, 0xff, 0xff, 0xff, 0xff, 0xff, 0xff, 0xff, 0xff,
    0xff, 0xff, 0xff, 0xff, 0xff, 0xff, 0xff, 0xff, 0xff, 0xff, 0xff, 0xff, 0xff, 0xff, 0xff, 0xff,
    0xff, 0xff, 0xff, 0xff, 0xff, 0xff, 0xff, 0xff, 0xff, 0xff, 0xff, 0xff, 0xff, 0xff, 0xff, 0xff,
    0x7F, 0x8F, 0xFF, 0xFF, 0x21, 0x5C, 0xDC, 0xFF, 0xff, 0xff, 0xff, 0xff, 0xff, 0xff, 0xff, 0xff,
    0xff, 0xff, 0xff, 0xff, 0xff, 0xff, 0xff, 0xff, 0xff, 0xff, 0xff, 0xff, 0xff, 0xff, 0xff, 0xff,
    0xff, 0xff, 0xff, 0xff, 0xff, 0xff, 0xff, 0xff, 0xff, 0xff, 0xff, 0xff, 0xff, 0xff, 0xff, 0xff,
    0xff, 0xff, 0xff, 0xff, 0xff, 0xff, 0xff, 0xff, 0xff, 0xff, 0xff, 0xff, 0xff, 0xff, 0xff, 0xff,
    0xff, 0xff, 0xff, 0xff, 0xff, 0xff, 0xff, 0xff, 0xff, 0xff, 0xff, 0xff, 0xff, 0xff, 0xff, 0xff,
    0x00, 0x20, 0x50, 0x16, 0x9D, 0xF9, 0xC0, 0x64, 0x85, 0xCB, 0xFF, 0xFF, 0xFF, 0xFF, 0xFF, 0xFF,
];

/// What tells one flash part from another.
pub struct SPIFlashParam {
    /// Size in bytes.
    pub capacity: u32,
    pub block_size: u32,
    pub sector_size: u32,
    pub page_size: u32,
    pub device_id: u32,
    pub manufacturer_id: u8,
    pub devicetype_id: u8,
    pub capacity_id: u8,
    pub sfdp: Vec<u8>,
}

#[verifier::ext_equal]
pub struct SPIFlashParamView {
    pub capacity: u32,
    pub block_size: u32,
    pub sector_size: u32,
    pub page_size: u32,
    pub device_id: u32,
    pub manufacturer_id: u8,
    pub devicetype_id: u8,
    pub capacity_id: u8,
    pub sfdp: Seq<u8>,
}

impl View for SPIFlashParam {
    type V = SPIFlashParamView;

    open spec fn view(&self) -> SPIFlashParamView {
        SPIFlashParamView {
            capacity: self.capacity,
            block_size: self.block_size,
            sector_size: self.sector_size,
            page_size: self.page_size,
            device_id: self.device_id,
            manufacturer_id: self.manufacturer_id,
            devicetype_id: self.devicetype_id,
            capacity_id: self.capacity_id,
            sfdp: self.sfdp@,
        }
    }
}

/// The 8 MiB part.
pub fn spi_flash_param_s25fl164k() -> (p: SPIFlashParam)
    ensures
        p@ == (SPIFlashParamView {
            capacity: 0x00800000,
            block_size: 0x10000,
            sector_size: 0x1000,
            page_size: 1,
            device_id: 0x15,
            manufacturer_id: 0x01,
            devicetype_id: 0x40,
            capacity_id: 0x17,
            sfdp: SFDP_S25FL164K@,
        }),
{
    SPIFlashParam {
        capacity: 0x00800000,
        block_size: 0x10000,
        sector_size: 0x1000,
        page_size: 1,
        device_id: 0x15,
        manufacturer_id: 0x01,
        devicetype_id: 0x40,
        capacity_id: 0x17,
        sfdp: slice_to_vec(SFDP_S25FL164K.as_slice()),
    }
}

/// The 256 MiB part.
pub fn spi_flash_param_mx66u2g45g() -> (p: SPIFlashParam)
    ensures
        p@ == (SPIFlashParamView {
            capacity: 0x10000000,
            block_size: 0x10000,
            sector_size: 0x1000,
            page_size: 1,
            device_id: 0x3c,
            manufacturer_id: 0xc2,
            devicetype_id: 0x25,
            capacity_id: 0x3c,
            sfdp: SFDP_MX66U2G45G@,
        }),
{
    SPIFlashParam {
        capacity: 0x10000000,
        block_size: 0x10000,
        sector_size: 0x1000,
        page_size: 1,
        device_id: 0x3c,
        manufacturer_id: 0xc2,
        devicetype_id: 0x25,
        capacity_id: 0x3c,
        sfdp: slice_to_vec(SFDP_MX66U2G45G.as_slice()),
    }
}

pub struct SPIFlash {
    pub selected: bool,
    /// The command in progress is not one that the device knows.
    pub error: bool,
    pub sr: [u8; 3],
    /// The first bytes of the command in progress; byte 0 is the command.
    pub flash_buf: [u8; 64],
    pub mem: Vec<u8>,
    /// Number of bytes received since select.
    pub flash_cnt: u32,
    /// The latched address.
    pub addr: u32,
    pub param: SPIFlashParam,
}

#[verifier::ext_equal]
pub struct SPIFlashView {
    pub selected: bool,
    pub error: bool,
    pub sr: [u8; 3],
    pub flash_buf: [u8; 64],
    pub mem: Seq<u8>,
    pub flash_cnt: u32,
    pub addr: u32,
    pub param: SPIFlashParamView,
}

impl View for SPIFlash {
    type V = SPIFlashView;

    open spec fn view(&self) -> SPIFlashView {
        SPIFlashView {
            selected: self.selected,
            error: self.error,
            sr: self.sr,
            flash_buf: self.flash_buf,
            mem: self.mem@,
            flash_cnt: self.flash_cnt,
            addr: self.addr,
            param: self.param@,
        }
    }
}

/// The latched address after byte number `count` of a command whose address
/// has `n` bytes, most significant first: the first byte replaces the
/// address, the others are or-ed in.
pub open spec fn latch(addr: u32, count: u32, val: u32, n: u32) -> u32 {
    if count == 1 {
        val << ((8 * (n - 1)) as u32)
    } else if 2 <= count <= n {
        addr | (val << ((8 * (n - count)) as u32))
    } else {
        addr
    }
}

/// Position of byte number `i` of a unit that starts at `addr`, in a device
/// of `len` bytes: addresses wrap at 32 bits and are taken modulo the size.
pub open spec fn erase_position(len: nat, addr: u32, i: int) -> int {
    (addr.wrapping_add(i as u32) as int) % (len as int)
}

/// The contents after the first `k` bytes from `addr` on were set to 0xff.
pub open spec fn erased(mem: Seq<u8>, addr: u32, k: nat) -> Seq<u8>
    decreases k,
{
    if k == 0 {
        mem
    } else {
        erased(mem, addr, (k - 1) as nat).update(erase_position(mem.len(), addr, k - 1), 0xffu8)
    }
}

impl SPIFlashView {
    /// The device holds at least one byte.
    pub open spec fn wf(&self) -> bool {
        0 < self.mem.len()
    }

    pub open spec fn write_enabled(&self) -> bool {
        self.sr[0] & SPI_FLASH_SR1_WE != 0
    }

    pub open spec fn remove(self) -> SPIFlashView {
        SPIFlashView { selected: false, ..self }
    }

    /// Select starts a new command, unless one is in progress.
    pub open spec fn select(self) -> SPIFlashView {
        if !self.selected {
            SPIFlashView {
                flash_cnt: 0,
                flash_buf: vstd::array::spec_array_update(self.flash_buf, 0, 0u8),
                error: false,
                selected: true,
                ..self
            }
        } else {
            self
        }
    }

    /// Deselect ends the command in progress.
    pub open spec fn deselect(self) -> SPIFlashView {
        SPIFlashView {
            flash_cnt: 0,
            flash_buf: vstd::array::spec_array_update(self.flash_buf, 0, 0u8),
            error: false,
            selected: false,
            ..self
        }
    }

    /// The byte under the latched address, the address taken modulo the size.
    pub open spec fn mem_byte(&self) -> u8 {
        self.mem[(self.addr as int) % (self.mem.len() as int)]
    }

    /// A read command with `n` address bytes and `dummy` bytes between
    /// address and data: the data phase gives one byte and advances the
    /// address.
    pub open spec fn cmd_read(self, count: u32, val: u32, n: u32, dummy: u32) -> (SPIFlashView, u8) {
        if count <= n {
            (SPIFlashView { addr: latch(self.addr, count, val, n), ..self }, 0xffu8)
        } else if count <= n + dummy {
            (self, 0xffu8)
        } else {
            (SPIFlashView { addr: self.addr.wrapping_add(1), ..self }, self.mem_byte())
        }
    }

    /// An erase command with `n` address bytes over units of `size` bytes:
    /// with the last address byte, and the write enable latch set, the
    /// address is aligned down and the unit is filled with 0xff.
    pub open spec fn cmd_erase(self, count: u32, val: u32, n: u32, size: u32) -> (SPIFlashView, u8) {
        let a = latch(self.addr, count, val, n);
        if count == n && self.write_enabled() {
            let base = a & !(size.wrapping_sub(1));
            (SPIFlashView { addr: base, mem: erased(self.mem, base, size as nat), ..self }, 0xffu8)
        } else {
            (SPIFlashView { addr: a, ..self }, 0xffu8)
        }
    }

    /// A program command with `n` address bytes: each data byte is stored
    /// if the write enable latch is set, and advances the address.
    pub open spec fn cmd_program(self, count: u32, val: u32, n: u32) -> (SPIFlashView, u8) {
        if count <= n {
            (SPIFlashView { addr: latch(self.addr, count, val, n), ..self }, 0xffu8)
        } else {
            (
                SPIFlashView {
                    addr: self.addr.wrapping_add(1),
                    mem: if self.write_enabled() {
                        self.mem.update((self.addr as int) % (self.mem.len() as int), val as u8)
                    } else {
                        self.mem
                    },
                    ..self
                },
                0xffu8,
            )
        }
    }

    /// Read of the SFDP table: byte 3 of the command is the address; from
    /// byte 5 on each byte gives one table entry, 0xff beyond its end.
    pub open spec fn cmd_sfdp(self, count: u32, val: u32) -> (SPIFlashView, u8) {
        if count == 3 {
            (SPIFlashView { addr: val, ..self }, 0xffu8)
        } else if count <= 4 {
            (self, 0xffu8)
        } else {
            (
                SPIFlashView { addr: self.addr.wrapping_add(1), error: true, ..self },
                if (self.addr as int) < self.param.sfdp.len() {
                    self.param.sfdp[self.addr as int]
                } else {
                    0xffu8
                },
            )
        }
    }

    /// Read of the JEDEC identification.
    pub open spec fn cmd_id(self, count: u32) -> (SPIFlashView, u8) {
        (
            self,
            if count == 1 {
                self.param.manufacturer_id
            } else if count == 2 {
                self.param.devicetype_id
            } else if count == 3 {
                self.param.capacity_id
            } else {
                0xffu8
            },
        )
    }

    /// Read of status register `i`: the byte after the command gives the
    /// register, the busy flag of register 1 always clear.
    pub open spec fn cmd_status(self, count: u32, i: int) -> (SPIFlashView, u8) {
        (
            self,
            if count == 1 {
                if i == 0 {
                    self.sr[0] & !SPI_FLASH_SR1_BUSY
                } else {
                    self.sr[i]
                }
            } else {
                0xffu8
            },
        )
    }

    /// The device after it received byte `val`, and the byte it sent
    /// meanwhile.
    pub open spec fn write(self, val: u32) -> (SPIFlashView, u8) {
        let count = self.flash_cnt;
        let f = SPIFlashView {
            flash_cnt: count.wrapping_add(1),
            flash_buf: if count < FLASH_BUF_SIZE {
                vstd::array::spec_array_update(self.flash_buf, count as int, val as u8)
            } else {
                self.flash_buf
            },
            ..self
        };
        let cmd = f.flash_buf[0];
        if cmd == FLASH_CMD_ID {
            f.cmd_id(count)
        } else if cmd == FLASH_CMD_READ {
            f.cmd_read(count, val, 3, 0)
        } else if cmd == FLASH_CMD_FAST_READ || cmd == FLASH_CMD_FAST_READ_DUAL || cmd
            == FLASH_CMD_FAST_READ_QUAD {
            f.cmd_read(count, val, 3, 1)
        } else if cmd == FLASH_CMD_READ4B {
            f.cmd_read(count, val, 4, 0)
        } else if cmd == FLASH_CMD_FAST_READ4B {
            f.cmd_read(count, val, 4, 1)
        } else if cmd == FLASH_CMD_READ_SFDP {
            f.cmd_sfdp(count, val)
        } else if cmd == FLASH_CMD_BLOCK_ERASE {
            f.cmd_erase(count, val, 3, f.param.block_size)
        } else if cmd == FLASH_CMD_SECTOR_ERASE {
            f.cmd_erase(count, val, 3, f.param.sector_size)
        } else if cmd == FLASH_CMD_PAGE_PROGRAM {
            f.cmd_program(count, val, 3)
        } else if cmd == FLASH_CMD_BLOCK_ERASE4B {
            f.cmd_erase(count, val, 4, f.param.block_size)
        } else if cmd == FLASH_CMD_SECTOR_ERASE4B {
            f.cmd_erase(count, val, 4, f.param.sector_size)
        } else if cmd == FLASH_CMD_PAGE_PROGRAM4B {
            f.cmd_program(count, val, 4)
        } else if cmd == FLASH_CMD_READ_SR1 {
            f.cmd_status(count, 0)
        } else if cmd == FLASH_CMD_READ_SR2 {
            f.cmd_status(count, 1)
        } else if cmd == FLASH_CMD_READ_SR3 {
            f.cmd_status(count, 2)
        } else if cmd == FLASH_CMD_WRITE_ENABLE {
            (
                SPIFlashView {
                    sr: vstd::array::spec_array_update(f.sr, 0, f.sr[0] | SPI_FLASH_SR1_WE),
                    ..f
                },
                0xffu8,
            )
        } else if cmd == FLASH_CMD_WRITE_DISABLE {
            (
                SPIFlashView {
                    sr: vstd::array::spec_array_update(f.sr, 0, f.sr[0] & !SPI_FLASH_SR1_WE),
                    ..f
                },
                0xffu8,
            )
        } else {
            (SPIFlashView { error: true, ..f }, 0xffu8)
        }
    }
}

/// A deselected flash device of the given part with the given contents.
pub fn generate_flash(param: SPIFlashParam, data: Vec<u8>) -> (flash: SPIFlash)
    requires
        data@.len() > 0,
    ensures
        flash@.wf(),
        flash@.mem == data@,
        flash@.param == param@,
        !flash@.selected,
        !flash@.error,
        flash@.flash_cnt == 0,
        flash@.addr == 0,
        forall|i: int| 0 <= i < 3 ==> flash@.sr[i] == 0,
        forall|i: int| 0 <= i < 64 ==> flash@.flash_buf[i] == 0,
{
    SPIFlash {
        selected: false,
        error: false,
        sr: [0, 0, 0],
        flash_buf: [0;64],
        mem: data,
        flash_cnt: 0,
        addr: 0,
        param: param,
    }
}

pub fn remove(flash: &mut SPIFlash)
    ensures
        final(flash)@ == old(flash)@.remove(),
{
    flash.selected = false;
}

pub fn select(flash: &mut SPIFlash)
    ensures
        final(flash)@ == old(flash)@.select(),
{
    if !flash.selected {
        flash.flash_cnt = 0;
        flash.flash_buf[0] = 0;
        flash.error = false;
        flash.selected = true;
    }
}

pub fn deselect(flash: &mut SPIFlash)
    ensures
        final(flash)@ == old(flash)@.deselect(),
{
    flash.flash_cnt = 0;
    flash.flash_buf[0] = 0;
    flash.error = false;
    flash.selected = false;
}

fn latch_addr(flash: &mut SPIFlash, count: u32, val: u32, n: u32)
    requires
        3 <= n <= 4,
    ensures
        final(flash)@ == (SPIFlashView {
            addr: latch(old(flash)@.addr, count, val, n),
            ..old(flash)@
        }),
{
    if count == 1 {
        flash.addr = val << (8 * (n - 1));
    } else if 2 <= count && count <= n {
        flash.addr = flash.addr | (val << (8 * (n - count)));
    }
}

fn mem_index(flash: &SPIFlash) -> (i: usize)
    requires
        flash@.wf(),
    ensures
        i as int == (flash@.addr as int) % (flash@.mem.len() as int),
        i < flash@.mem.len(),
{
    (flash.addr as usize) % flash.mem.len()
}

fn read_cmd(flash: &mut SPIFlash, count: u32, val: u32, n: u32, dummy: u32) -> (r: u8)
    requires
        old(flash)@.wf(),
        3 <= n <= 4,
        dummy <= 1,
    ensures
        (final(flash)@, r) == old(flash)@.cmd_read(count, val, n, dummy),
{
    if count <= n {
        latch_addr(flash, count, val, n);
        0xff
    } else if count <= n + dummy {
        0xff
    } else {
        let i = mem_index(flash);
        let r = flash.mem[i];
        flash.addr = flash.addr.wrapping_add(1);
        r
    }
}

fn erase_cmd(flash: &mut SPIFlash, count: u32, val: u32, n: u32, size: u32) -> (r: u8)
    requires
        old(flash)@.wf(),
        3 <= n <= 4,
    ensures
        (final(flash)@, r) == old(flash)@.cmd_erase(count, val, n, size),
        final(flash)@.wf(),
{
    latch_addr(flash, count, val, n);
    if count == n && 0 != (flash.sr[0] & SPI_FLASH_SR1_WE) {
        flash.addr = flash.addr & !(size.wrapping_sub(1));
        let base = flash.addr;
        let len = flash.mem.len();
        let ghost mem0 = flash.mem@;
        let ghost f0 = flash@;
        let mut i: u32 = 0;
        while i < size
            invariant
                i <= size,
                len == mem0.len(),
                len > 0,
                flash.mem@.len() == mem0.len(),
                flash.mem@ == erased(mem0, base, i as nat),
                flash@ == (SPIFlashView { mem: flash.mem@, ..f0 }),
            decreases size - i,
        {
            let k = (base.wrapping_add(i) as usize) % len;
            flash.mem[k] = 0xff;
            i = i + 1;
        }
    }
    0xff
}

fn program_cmd(flash: &mut SPIFlash, count: u32, val: u32, n: u32) -> (r: u8)
    requires
        old(flash)@.wf(),
        3 <= n <= 4,
    ensures
        (final(flash)@, r) == old(flash)@.cmd_program(count, val, n),
        final(flash)@.wf(),
{
    if count <= n {
        latch_addr(flash, count, val, n);
    } else {
        if 0 != (flash.sr[0] & SPI_FLASH_SR1_WE) {
            let i = mem_index(flash);
            flash.mem[i] = val as u8;
        }
        flash.addr = flash.addr.wrapping_add(1);
    }
    0xff
}

fn sfdp_cmd(flash: &mut SPIFlash, count: u32, val: u32) -> (r: u8)
    ensures
        (final(flash)@, r) == old(flash)@.cmd_sfdp(count, val),
{
    if count == 3 {
        flash.addr = val;
        0xff
    } else if count <= 4 {
        0xff
    } else {
        let mut r: u8 = 0xff;
        if (flash.addr as usize) < flash.param.sfdp.len() {
            r = flash.param.sfdp[flash.addr as usize];
        }
        flash.addr = flash.addr.wrapping_add(1);
        flash.error = true;
        r
    }
}

fn id_cmd(flash: &SPIFlash, count: u32) -> (r: u8)
    ensures
        (flash@, r) == flash@.cmd_id(count),
{
    if count == 1 {
        flash.param.manufacturer_id
    } else if count == 2 {
        flash.param.devicetype_id
    } else if count == 3 {
        flash.param.capacity_id
    } else {
        0xff
    }
}

fn status_cmd(flash: &SPIFlash, count: u32, i: usize) -> (r: u8)
    requires
        i < 3,
    ensures
        (flash@, r) == flash@.cmd_status(count, i as int),
{
    if count == 1 {
        if i == 0 {
            flash.sr[0] & !SPI_FLASH_SR1_BUSY
        } else {
            flash.sr[i]
        }
    } else {
        0xff
    }
}

/// Receives one byte of a command and gives the byte that the device sends
/// meanwhile.
pub fn write(flash: &mut SPIFlash, val: u32) -> (r: u8)
    requires
        old(flash)@.wf(),
    ensures
        (final(flash)@, r) == old(flash)@.write(val),
        final(flash)@.wf(),
{
    let count: u32 = flash.flash_cnt;
    flash.flash_cnt = flash.flash_cnt.wrapping_add(1);
    if (count as usize) < FLASH_BUF_SIZE {
        flash.flash_buf[count as usize] = val as u8;
    }
    let cmd = flash.flash_buf[0];
    if cmd == FLASH_CMD_ID {
        id_cmd(flash, count)
    } else if cmd == FLASH_CMD_READ {
        read_cmd(flash, count, val, 3, 0)
    } else if cmd == FLASH_CMD_FAST_READ || cmd == FLASH_CMD_FAST_READ_DUAL || cmd
        == FLASH_CMD_FAST_READ_QUAD {
        read_cmd(flash, count, val, 3, 1)
    } else if cmd == FLASH_CMD_READ4B {
        read_cmd(flash, count, val, 4, 0)
    } else if cmd == FLASH_CMD_FAST_READ4B {
        read_cmd(flash, count, val, 4, 1)
    } else if cmd == FLASH_CMD_READ_SFDP {
        sfdp_cmd(flash, count, val)
    } else if cmd == FLASH_CMD_BLOCK_ERASE {
        let size = flash.param.block_size;
        erase_cmd(flash, count, val, 3, size)
    } else if cmd == FLASH_CMD_SECTOR_ERASE {
        let size = flash.param.sector_size;
        erase_cmd(flash, count, val, 3, size)
    } else if cmd == FLASH_CMD_PAGE_PROGRAM {
        program_cmd(flash, count, val, 3)
    } else if cmd == FLASH_CMD_BLOCK_ERASE4B {
        let size = flash.param.block_size;
        erase_cmd(flash, count, val, 4, size)
    } else if cmd == FLASH_CMD_SECTOR_ERASE4B {
        let size = flash.param.sector_size;
        erase_cmd(flash, count, val, 4, size)
    } else if cmd == FLASH_CMD_PAGE_PROGRAM4B {
        program_cmd(flash, count, val, 4)
    } else if cmd == FLASH_CMD_READ_SR1 {
        status_cmd(flash, count, 0)
    } else if cmd == FLASH_CMD_READ_SR2 {
        status_cmd(flash, count, 1)
    } else if cmd == FLASH_CMD_READ_SR3 {
        status_cmd(flash, count, 2)
    } else if cmd == FLASH_CMD_WRITE_ENABLE {
        flash.sr[0] = flash.sr[0] | SPI_FLASH_SR1_WE;
        0xff
    } else if cmd == FLASH_CMD_WRITE_DISABLE {
        flash.sr[0] = flash.sr[0] & !SPI_FLASH_SR1_WE;
        0xff
    } else {
        flash.error = true;
        0xff
    }
}

impl SPIWorker for SPIFlash {
    fn init(&mut self) -> (r: bool)
        ensures
            r,
            final(self)@ == old(self)@,
    {
        true
    }

    fn remove(&mut self) -> (r: bool)
        ensures
            r,
            final(self)@ == old(self)@.remove(),
    {
        remove(self);
        true
    }

    fn select(&mut self) -> (r: bool)
        ensures
            r,
            final(self)@ == old(self)@.select(),
    {
        select(self);
        true
    }

    fn deselect(&mut self) -> (r: bool)
        ensures
            r,
            final(self)@ == old(self)@.deselect(),
    {
        deselect(self);
        true
    }

    fn write(&mut self, d: u8) -> (r: u8)
        ensures
            old(self)@.wf() ==> (final(self)@, r) == old(self)@.write(d as u32) && final(self)@.wf(),
    {
        if self.mem.len() > 0 {
            write(self, d as u32)
        } else {
            0xff
        }
    }
}

/// Erasing changes no position outside the unit and leaves 0xff in every
/// position of it: position `p` of the result is 0xff if it is the position
/// of some byte `i < k` of the unit, and is unchanged otherwise.
pub proof fn lemma_erased(mem: Seq<u8>, addr: u32, k: nat, p: int)
    requires
        0 < mem.len(),
        0 <= p < mem.len(),
    ensures
        erased(mem, addr, k).len() == mem.len(),
        erased(mem, addr, k)[p] == (if exists|i: int|
            0 <= i < k && #[trigger] erase_position(mem.len(), addr, i) == p {
            0xffu8
        } else {
            mem[p]
        }),
    decreases k,
{
    if k > 0 {
        lemma_erased(mem, addr, (k - 1) as nat, p);
        let last = erase_position(mem.len(), addr, k - 1);
        if last != p {
            if exists|i: int| 0 <= i < k && #[trigger] erase_position(mem.len(), addr, i) == p {
                let i = choose|i: int|
                    0 <= i < k && #[trigger] erase_position(mem.len(), addr, i) == p;
                assert(0 <= i < k - 1 && erase_position(mem.len(), addr, i) == p);
            }
        }
    }
}

} // verus!
