//! The SPI master and its three slave slots.
use vstd::prelude::*;
use crate::dev_spiflash::{SPIFlash, SPIFlashView, FLASH_CMD_READ};

verus! {

pub const SPI0_BASE_ADDRESS: u32 = 0x1f000000;

pub const SPI_ADDR_SIZE: u32 = 0x1c;

pub const SPI_ADDR_MASK: u32 = 0x1f;

pub const SPI_MAX_SLAVES: u32 = 3;

pub const SPI_FUNC_SEL_REG: u32 = 0x00;

pub const SPI_CTRL_REG: u32 = 0x04;

pub const SPI_IO_CTRL_REG: u32 = 0x08;

pub const SPI_READ_DATA_REG: u32 = 0x0c;

pub const SPI_SHIFT_DATAOUT_REG: u32 = 0x10;

pub const SPI_SHIFT_CNT_REG: u32 = 0x14;

pub const SPI_SHIFT_DATAIN_REG: u32 = 0x18;

pub const SPI_CTRL_BIT_REMAP_DISABLE: u32 = 6;

pub const SPI_CTRL_REMAP_DISABLE: u32 = 0x00000040;

pub const SPI_SHIFT_CNT_BIT_TERMINATE: u32 = 26;

pub const SPI_SHIFT_CNT_BIT_SHIFT_CLKOUT: u32 = 27;

pub const SPI_SHIFT_CNT_BIT_SHIFT_CHNL_CS0: u32 = 28;

pub const SPI_SHIFT_CNT_BIT_SHIFT_CHNL_CS1: u32 = 29;

pub const SPI_SHIFT_CNT_BIT_SHIFT_CHNL_CS2: u32 = 30;

pub const SPI_SHIFT_CNT_BIT_SHIFT_EN: u32 = 31;

pub const SPI_SHIFT_CNT_TERMINATE: u32 = 0x04000000;

pub const SPI_SHIFT_CNT_SHIFT_EN: u32 = 0x80000000;

pub const SPI_SHIFT_CNT_SHIFT_COUNT_MASK: u32 = 0x7f;

/// What a device on the SPI bus offers.
pub trait SPIWorker {
    fn init(&mut self) -> bool;

    fn remove(&mut self) -> bool;

    fn select(&mut self) -> bool;

    fn deselect(&mut self) -> bool;

    fn write(&mut self, d: u8) -> u8;
}

/// A device that ignores what it is sent and answers 0.
#[derive(Clone, Copy, PartialEq, Eq, Structural, Debug)]
pub struct DummySPIDevice {}

impl SPIWorker for DummySPIDevice {
    fn init(&mut self) -> (r: bool)
        ensures
            r,
            *final(self) == *old(self),
    {
        true
    }

    fn remove(&mut self) -> (r: bool)
        ensures
            r,
            *final(self) == *old(self),
    {
        true
    }

    fn select(&mut self) -> (r: bool)
        ensures
            r,
            *final(self) == *old(self),
    {
        true
    }

    fn deselect(&mut self) -> (r: bool)
        ensures
            r,
            *final(self) == *old(self),
    {
        true
    }

    fn write(&mut self, d: u8) -> (r: u8)
        ensures
            r == 0,
            *final(self) == *old(self),
    {
        0
    }
}

/// What sits in a slave slot.
pub enum SpiSlave {
    Dummy(DummySPIDevice),
    Flash(SPIFlash),
}

#[verifier::ext_equal]
pub enum SpiSlaveView {
    Dummy,
    Flash(SPIFlashView),
}

impl View for SpiSlave {
    type V = SpiSlaveView;

    open spec fn view(&self) -> SpiSlaveView {
        match *self {
            SpiSlave::Dummy(_) => SpiSlaveView::Dummy,
            SpiSlave::Flash(f) => SpiSlaveView::Flash(f@),
        }
    }
}

impl SpiSlaveView {
    pub open spec fn wf(&self) -> bool {
        match *self {
            SpiSlaveView::Dummy => true,
            SpiSlaveView::Flash(f) => f.wf(),
        }
    }

    pub open spec fn remove(self) -> SpiSlaveView {
        match self {
            SpiSlaveView::Dummy => self,
            SpiSlaveView::Flash(f) => SpiSlaveView::Flash(f.remove()),
        }
    }

    pub open spec fn select(self) -> SpiSlaveView {
        match self {
            SpiSlaveView::Dummy => self,
            SpiSlaveView::Flash(f) => SpiSlaveView::Flash(f.select()),
        }
    }

    pub open spec fn deselect(self) -> SpiSlaveView {
        match self {
            SpiSlaveView::Dummy => self,
            SpiSlaveView::Flash(f) => SpiSlaveView::Flash(f.deselect()),
        }
    }

    /// The device after one byte was shifted out to it, and the byte that it
    /// shifted in.
    pub open spec fn write(self, d: u8) -> (SpiSlaveView, u8) {
        match self {
            SpiSlaveView::Dummy => (self, 0u8),
            SpiSlaveView::Flash(f) => (SpiSlaveView::Flash(f.write(d as u32).0), f.write(d as u32).1),
        }
    }
}

pub struct IoSPI {
    pub function_select: u32,
    pub control: u32,
    pub io_control: u32,
    pub read_data_addr: u32,
    pub shift_dataout: u32,
    pub shift_count: u32,
    pub shift_datain: u32,
    pub workers: [SpiSlave; 3],
}

#[verifier::ext_equal]
pub struct IoSPIView {
    pub function_select: u32,
    pub control: u32,
    pub io_control: u32,
    pub read_data_addr: u32,
    pub shift_dataout: u32,
    pub shift_count: u32,
    pub shift_datain: u32,
    pub workers: Seq<SpiSlaveView>,
}

impl View for IoSPI {
    type V = IoSPIView;

    open spec fn view(&self) -> IoSPIView {
        IoSPIView {
            function_select: self.function_select,
            control: self.control,
            io_control: self.io_control,
            read_data_addr: self.read_data_addr,
            shift_dataout: self.shift_dataout,
            shift_count: self.shift_count,
            shift_datain: self.shift_datain,
            workers: Seq::new(3, |i: int| self.workers[i]@),
        }
    }
}

impl IoSPIView {
    pub open spec fn wf(&self) -> bool {
        &&& self.workers.len() == 3
        &&& forall|i: int| 0 <= i < 3 ==> (#[trigger] self.workers[i]).wf()
    }

    pub open spec fn with_worker(self, i: int, w: SpiSlaveView) -> IoSPIView {
        IoSPIView { workers: self.workers.update(i, w), ..self }
    }
}

impl IoSPI {
    /// A master with all registers zero and a dummy device in every slot.
    pub fn new() -> (spi: Self)
        ensures
            spi@.function_select == 0,
            spi@.control == 0,
            spi@.io_control == 0,
            spi@.read_data_addr == 0,
            spi@.shift_dataout == 0,
            spi@.shift_count == 0,
            spi@.shift_datain == 0,
            spi@.workers =~= seq![SpiSlaveView::Dummy, SpiSlaveView::Dummy, SpiSlaveView::Dummy],
            spi@.wf(),
    {
        Self {
            function_select: 0,
            control: 0,
            io_control: 0,
            read_data_addr: 0,
            shift_dataout: 0,
            shift_count: 0,
            shift_datain: 0,
            workers: [
                SpiSlave::Dummy(DummySPIDevice {  }),
                SpiSlave::Dummy(DummySPIDevice {  }),
                SpiSlave::Dummy(DummySPIDevice {  }),
            ],
        }
    }
}


impl SPIWorker for SpiSlave {
    fn init(&mut self) -> (r: bool)
        ensures
            r,
            final(self)@ == old(self)@,
    {
        match self {
            SpiSlave::Dummy(d) => d.init(),
            SpiSlave::Flash(f) => f.init(),
        }
    }

    fn remove(&mut self) -> (r: bool)
        ensures
            r,
            final(self)@ == old(self)@.remove(),
    {
        match self {
            SpiSlave::Dummy(d) => d.remove(),
            SpiSlave::Flash(f) => f.remove(),
        }
    }

    fn select(&mut self) -> (r: bool)
        ensures
            r,
            final(self)@ == old(self)@.select(),
    {
        match self {
            SpiSlave::Dummy(d) => d.select(),
            SpiSlave::Flash(f) => f.select(),
        }
    }

    fn deselect(&mut self) -> (r: bool)
        ensures
            r,
            final(self)@ == old(self)@.deselect(),
    {
        match self {
            SpiSlave::Dummy(d) => d.deselect(),
            SpiSlave::Flash(f) => f.deselect(),
        }
    }

    fn write(&mut self, d: u8) -> (r: u8)
        ensures
            old(self)@.wf() ==> (final(self)@, r) == old(self)@.write(d) && final(self)@.wf(),
    {
        match self {
            SpiSlave::Dummy(x) => x.write(d),
            SpiSlave::Flash(f) => f.write(d),
        }
    }
}

/// The bit of the shift count register that enables chip select `i`.
pub open spec fn spec_cnl_mask(i: int) -> u32 {
    if i == 0 {
        0x10000000
    } else if i == 1 {
        0x20000000
    } else {
        0x40000000
    }
}

pub fn cnl_mask(i: usize) -> (m: u32)
    ensures
        m == spec_cnl_mask(i as int),
{
    if i == 0 {
        0x10000000
    } else if i == 1 {
        0x20000000
    } else {
        0x40000000
    }
}

/// Byte number `j` of the data-out register, counted from the least
/// significant; bytes beyond the register are zero.
pub open spec fn out_byte(outdata: u32, j: int) -> u8 {
    if 0 <= j < 4 {
        ((outdata >> ((8 * j) as u32)) & 0xff) as u8
    } else {
        0u8
    }
}

/// A transfer of `cnt` bytes of `outdata`, most significant first, after
/// its first `k` bytes: the device, and the bytes received so far with the
/// first one in the most significant place.
pub open spec fn shifted(w: SpiSlaveView, outdata: u32, cnt: int, k: nat) -> (SpiSlaveView, u32)
    decreases k,
{
    if k == 0 {
        (w, 0u32)
    } else {
        let prev = shifted(w, outdata, cnt, (k - 1) as nat);
        let step = prev.0.write(out_byte(outdata, cnt - k));
        (step.0, (prev.1 << 8) | (step.1 as u32))
    }
}

impl IoSPIView {
    /// The value of the register at `addr`.
    pub open spec fn read_reg(&self, addr: u32) -> u32 {
        let reg = (addr & SPI_ADDR_MASK) & 0xfffffffc;
        if reg == SPI_FUNC_SEL_REG {
            self.function_select
        } else if reg == SPI_CTRL_REG {
            self.control
        } else if reg == SPI_IO_CTRL_REG {
            self.io_control
        } else if reg == SPI_READ_DATA_REG {
            self.read_data_addr
        } else if reg == SPI_SHIFT_DATAOUT_REG {
            self.shift_dataout
        } else if reg == SPI_SHIFT_CNT_REG {
            self.shift_count
        } else if reg == SPI_SHIFT_DATAIN_REG {
            self.shift_datain
        } else {
            0
        }
    }

    /// A change of chip select `i` between the old shift count and `d`
    /// selects or deselects the device, but only with shifting enabled and a
    /// shift count above zero.
    pub open spec fn chip_select(self, i: int, d: u32) -> IoSPIView {
        if (d ^ self.shift_count) & spec_cnl_mask(i) != 0 && d & SPI_SHIFT_CNT_SHIFT_EN != 0 && (d
            & SPI_SHIFT_CNT_SHIFT_COUNT_MASK) > 0 {
            if d & spec_cnl_mask(i) != 0 {
                self.with_worker(i, self.workers[i].select())
            } else {
                self.with_worker(i, self.workers[i].deselect())
            }
        } else {
            self
        }
    }

    /// The transfer on chip select `i`, if `d` enables it: the bytes of the
    /// data-out register go to the device and what comes back is the
    /// data-in register; with the terminate bit the device is deselected and
    /// the chip select bit of `d` is cleared. Gives the master and `d`.
    pub open spec fn channel(self, i: int, d: u32) -> (IoSPIView, u32) {
        if d & spec_cnl_mask(i) != 0 {
            let cnt = ((d & SPI_SHIFT_CNT_SHIFT_COUNT_MASK) / 8) as int;
            let s = if (d & SPI_SHIFT_CNT_SHIFT_COUNT_MASK) > 0 {
                let r = shifted(self.workers[i], self.shift_dataout, cnt, cnt as nat);
                IoSPIView { shift_datain: r.1, ..self.with_worker(i, r.0) }
            } else {
                self
            };
            if d & SPI_SHIFT_CNT_TERMINATE != 0 {
                (s.with_worker(i, s.workers[i].deselect()), d & !spec_cnl_mask(i))
            } else {
                (s, d)
            }
        } else {
            (self, d)
        }
    }

    /// A write of `d` to the shift count register.
    pub open spec fn write_shift_count(self, d: u32) -> IoSPIView {
        let s = self.chip_select(0, d).chip_select(1, d).chip_select(2, d);
        if d & SPI_SHIFT_CNT_SHIFT_EN != 0 {
            let c0 = s.channel(0, d);
            let c1 = c0.0.channel(1, c0.1);
            let c2 = c1.0.channel(2, c1.1);
            IoSPIView { shift_count: c2.1 & !SPI_SHIFT_CNT_SHIFT_EN, ..c2.0 }
        } else {
            IoSPIView { shift_count: d, ..s }
        }
    }

    /// The master after `data` was written to the register at `addr`.
    pub open spec fn write_reg(self, addr: u32, data: u32) -> IoSPIView {
        let reg = (addr & SPI_ADDR_MASK) & 0xfffffffc;
        if reg == SPI_FUNC_SEL_REG {
            IoSPIView { function_select: data, ..self }
        } else if reg == SPI_CTRL_REG {
            IoSPIView { control: data, ..self }
        } else if reg == SPI_IO_CTRL_REG {
            IoSPIView { io_control: data, ..self }
        } else if reg == SPI_READ_DATA_REG {
            IoSPIView { read_data_addr: data, ..self }
        } else if reg == SPI_SHIFT_DATAOUT_REG {
            IoSPIView { shift_dataout: data, ..self }
        } else if reg == SPI_SHIFT_CNT_REG {
            self.write_shift_count(data)
        } else if reg == SPI_SHIFT_DATAIN_REG {
            IoSPIView { shift_datain: data, ..self }
        } else {
            self
        }
    }

    /// The master after every device was told that it is removed.
    pub open spec fn remove(self) -> IoSPIView {
        IoSPIView { workers: Seq::new(3, |i: int| self.workers[i].remove()), ..self }
    }
}

/// Tells every device that the bus is up.
pub fn init(spi: &mut IoSPI)
    ensures
        final(spi)@ == old(spi)@,
{
    let _ = spi.workers[0].init();
    let _ = spi.workers[1].init();
    let _ = spi.workers[2].init();
}

/// Tells every device that it is removed from the bus.
pub fn remove(spi: &mut IoSPI)
    ensures
        final(spi)@ == old(spi)@.remove(),
{
    let _ = spi.workers[0].remove();
    let _ = spi.workers[1].remove();
    let _ = spi.workers[2].remove();
}

/// Reads the register at `addr`.
pub fn read_reg(spi: &IoSPI, addr: u32) -> (v: u32)
    ensures
        v == spi@.read_reg(addr),
{
    let reg = (addr & SPI_ADDR_MASK) & 0xfffffffc;
    if reg == SPI_FUNC_SEL_REG {
        spi.function_select
    } else if reg == SPI_CTRL_REG {
        spi.control
    } else if reg == SPI_IO_CTRL_REG {
        spi.io_control
    } else if reg == SPI_READ_DATA_REG {
        spi.read_data_addr
    } else if reg == SPI_SHIFT_DATAOUT_REG {
        spi.shift_dataout
    } else if reg == SPI_SHIFT_CNT_REG {
        spi.shift_count
    } else if reg == SPI_SHIFT_DATAIN_REG {
        spi.shift_datain
    } else {
        0
    }
}

fn chip_select(spi: &mut IoSPI, i: usize, d: u32)
    requires
        i < 3,
        old(spi)@.wf(),
    ensures
        final(spi)@ == old(spi)@.chip_select(i as int, d),
        final(spi)@.wf(),
{
    if 0 != ((d ^ spi.shift_count) & cnl_mask(i)) && 0 != (d & SPI_SHIFT_CNT_SHIFT_EN) && (d
        & SPI_SHIFT_CNT_SHIFT_COUNT_MASK) > 0 {
        if 0 != (d & cnl_mask(i)) {
            let _ = spi.workers[i].select();
        } else {
            let _ = spi.workers[i].deselect();
        }
        assert(spi@.workers =~= old(spi)@.chip_select(i as int, d).workers);
    }
}

fn shift_out(w: &mut SpiSlave, outdata: u32, cnt: u32) -> (indata: u32)
    requires
        old(w)@.wf(),
    ensures
        (final(w)@, indata) == shifted(old(w)@, outdata, cnt as int, cnt as nat),
        final(w)@.wf(),
{
    let mut indata: u32 = 0;
    let mut k: u32 = 0;
    while k < cnt
        invariant
            k <= cnt,
            w@.wf(),
            (w@, indata) == shifted(old(w)@, outdata, cnt as int, k as nat),
        decreases cnt - k,
    {
        let j = cnt - k - 1;
        let b: u8 = if j < 4 {
            ((outdata >> (8 * j)) & 0xff) as u8
        } else {
            0
        };
        let got = w.write(b);
        indata = (indata << 8) | (got as u32);
        k = k + 1;
    }
    indata
}

fn channel(spi: &mut IoSPI, i: usize, d: u32) -> (d2: u32)
    requires
        i < 3,
        old(spi)@.wf(),
    ensures
        (final(spi)@, d2) == old(spi)@.channel(i as int, d),
        final(spi)@.wf(),
{
    let d0 = d;
    let mut d = d;
    if 0 != (d & cnl_mask(i)) {
        if (d & SPI_SHIFT_CNT_SHIFT_COUNT_MASK) > 0 {
            let cnt: u32 = (d & SPI_SHIFT_CNT_SHIFT_COUNT_MASK) / 8;
            let outdata = spi.shift_dataout;
            assert(spi@.workers[i as int].wf());
            let indata = shift_out(&mut spi.workers[i], outdata, cnt);
            spi.shift_datain = indata;
        }
        let ghost mid = spi@;
        if 0 != (d & SPI_SHIFT_CNT_TERMINATE) {
            let _ = spi.workers[i].deselect();
            d = d & !cnl_mask(i);
            assert(spi@.workers =~= mid.workers.update(i as int, mid.workers[i as int].deselect()));
        }
        assert(spi@.workers =~= old(spi)@.channel(i as int, d0).0.workers);
    }
    d
}

/// Writes `data` to the register at `addr`. A write to the shift count
/// register runs the transfer that it describes.
pub fn write_reg(spi: &mut IoSPI, addr: u32, data: u32)
    requires
        old(spi)@.wf(),
    ensures
        final(spi)@ == old(spi)@.write_reg(addr, data),
        final(spi)@.wf(),
{
    let reg = (addr & SPI_ADDR_MASK) & 0xfffffffc;
    if reg == SPI_FUNC_SEL_REG {
        spi.function_select = data;
    } else if reg == SPI_CTRL_REG {
        spi.control = data;
    } else if reg == SPI_IO_CTRL_REG {
        spi.io_control = data;
    } else if reg == SPI_READ_DATA_REG {
        spi.read_data_addr = data;
    } else if reg == SPI_SHIFT_DATAOUT_REG {
        spi.shift_dataout = data;
    } else if reg == SPI_SHIFT_CNT_REG {
        let mut d: u32 = data;
        chip_select(spi, 0, d);
        chip_select(spi, 1, d);
        chip_select(spi, 2, d);
        if 0 != (d & SPI_SHIFT_CNT_SHIFT_EN) {
            d = channel(spi, 0, d);
            d = channel(spi, 1, d);
            d = channel(spi, 2, d);
            d = d & !SPI_SHIFT_CNT_SHIFT_EN;
        }
        spi.shift_count = d;
    } else if reg == SPI_SHIFT_DATAIN_REG {
        spi.shift_datain = data;
    }
}


impl SpiSlaveView {
    /// The device after it was selected and sent a read command for the
    /// 24-bit address `spi_addr`.
    pub open spec fn read_command(self, spi_addr: u32) -> SpiSlaveView {
        self.select().write(FLASH_CMD_READ).0.write(((spi_addr >> 16) & 0xff) as u8).0.write(
            ((spi_addr >> 8) & 0xff) as u8,
        ).0.write((spi_addr & 0xff) as u8).0
    }
}

impl IoSPIView {
    /// A read of `n` bytes from address `spi_addr` of the device on chip
    /// select 0, as the memory-mapped ROM window does it: select, read
    /// command, `n` data bytes, deselect. Gives the master and the bytes,
    /// the first one in the most significant place.
    pub open spec fn rom_read(self, spi_addr: u32, n: int) -> (IoSPIView, u32) {
        let r = shifted(self.workers[0].read_command(spi_addr), 0xffffffff, n, n as nat);
        (self.with_worker(0, r.0.deselect()), r.1)
    }
}

/// Reads `n` bytes from address `spi_addr` of the device on chip select 0.
pub fn rom_read(spi: &mut IoSPI, spi_addr: u32, n: u32) -> (data: u32)
    requires
        old(spi)@.wf(),
    ensures
        (final(spi)@, data) == old(spi)@.rom_read(spi_addr, n as int),
        final(spi)@.wf(),
{
    assert(spi@.workers[0].wf());
    let _ = spi.workers[0].select();
    let _ = spi.workers[0].write(FLASH_CMD_READ);
    let _ = spi.workers[0].write(((spi_addr >> 16) & 0xff) as u8);
    let _ = spi.workers[0].write(((spi_addr >> 8) & 0xff) as u8);
    let _ = spi.workers[0].write((spi_addr & 0xff) as u8);
    let data = shift_out(&mut spi.workers[0], 0xffffffff, n);
    let _ = spi.workers[0].deselect();
    assert(spi@.workers =~= old(spi)@.rom_read(spi_addr, n as int).0.workers);
    data
}

} // verus!
