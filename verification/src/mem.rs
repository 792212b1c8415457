//! The memory dispatcher: virtual-to-physical translation and the routing of
//! physical accesses to main memory, the ROM window and the peripherals.
use vstd::prelude::*;
use crate::addr_cache::AddrCache;
use crate::bits::lemma_and_le_u32;
use crate::config::{
    DRAM_ADDR_MASK,
    DRAM_SIZE,
    RAM_AREA_ADDR,
    RAM_AREA_SIZE,
    ROM_AREA_ADDR,
    ROM_AREA_SIZE,
};
use crate::cp0def::{
    mode_is_in_error,
    mode_is_supervisor,
    mode_is_user,
    C0_ENTRYHI,
    C0_ENTRYHI_ASID_MASK,
    C0_STATUS,
    C0_STATUS_MODE_MASK,
    EXCEPT_CODE_ADDR_ERR_LOAD,
    EXCEPT_CODE_ADDR_ERR_STORE,
};
use crate::dev_soc::{
    misc_int_status,
    read_misc_int_status_reg,
    GPIO_BASE_REG,
    PLL_BASE_REG,
    PLL_CPU_DDR_CLK_CTRL_REG,
    PLL_CPU_DDR_CLK_CTRL_VAL,
    PLL_SRIF_CPU_DPLL1_REG,
    PLL_SRIF_CPU_DPLL1_VAL,
    PLL_SRIF_CPU_DPLL2_REG,
    PLL_SRIF_CPU_DPLL2_VAL,
    PLL_SRIF_CPU_DPLL_BASE_REG,
    RST_BASE_REG,
    RST_BOOTSTRAP_REG,
    RST_BOOTSTRAP_VAL,
    RST_MISC_INTERRUPT_MASK_REG,
    RST_MISC_INTERRUPT_STATUS_REG,
    RST_RESET_FULL_CHIP,
    RST_RESET_REG,
    RST_REVISION_ID_REG,
    RST_REVISION_ID_VAL,
    RTC_BASE_REG,
};
use crate::dev_soc::{IoGPIO, IoMisc};
use crate::dev_spi::{
    SPI0_BASE_ADDRESS,
    SPI_ADDR_SIZE,
    SPI_CTRL_REG,
    SPI_CTRL_REMAP_DISABLE,
    SPI_FUNC_SEL_REG,
};
use crate::dev_uart::{IOADDR_UART0_BASE, IOADDR_UART_SIZE};
use crate::exception::prepare_exception;
use crate::exec_mips16::{MIPS16E_OP_EXTEND, MIPS16E_OP_JAL};
use crate::mips::{kseg01_to_paddr, KSEG0, KSEG2, KSEG3};
use crate::procstate::{MachineState, MachineView, Reg};

verus! {

/// Main memory.
pub struct MemRegion {
    pub mem0: Vec<u8>,
}

impl View for MemRegion {
    type V = Seq<u8>;

    open spec fn view(&self) -> Seq<u8> {
        self.mem0@
    }
}

impl MemRegion {
    /// Main memory of `DRAM_SIZE` bytes, each 0xff.
    pub fn new() -> (m: Self)
        ensures
            m@.len() == DRAM_SIZE,
            forall|i: int| 0 <= i < DRAM_SIZE ==> m@[i] == 0xffu8,
    {
        Self { mem0: vec![0xffu8; DRAM_SIZE] }
    }
}

/// An access of `n` bytes at `addr` lies in the RAM area.
pub open spec fn in_ram(addr: u32, n: int) -> bool {
    addr >= RAM_AREA_ADDR && addr + n <= RAM_AREA_ADDR + RAM_AREA_SIZE
}

/// An access of `n` bytes at `addr` lies in the ROM area.
pub open spec fn in_rom(addr: u32, n: int) -> bool {
    addr >= ROM_AREA_ADDR && addr + n <= ROM_AREA_ADDR + ROM_AREA_SIZE
}

/// `addr` lies in the `size` bytes from `base` on.
pub open spec fn in_block(addr: u32, base: u32, size: u32) -> bool {
    addr >= base && addr < base + size
}

/// Where a physical address of the RAM area lies in main memory: the RAM
/// area aliases onto it.
pub open spec fn dram_index(addr: u32) -> int {
    (addr & DRAM_ADDR_MASK) as int
}

/// The word at `addr` of main memory, most significant byte first.
pub open spec fn dram_read_word(mem: Seq<u8>, addr: u32) -> u32 {
    ((mem[dram_index(addr)] as u32) << 24) | ((mem[dram_index(addr.wrapping_add(1))] as u32) << 16)
        | ((mem[dram_index(addr.wrapping_add(2))] as u32) << 8) | (mem[dram_index(
        addr.wrapping_add(3),
    )] as u32)
}

/// The halfword at `addr` of main memory, most significant byte first.
pub open spec fn dram_read_halfword(mem: Seq<u8>, addr: u32) -> u32 {
    ((mem[dram_index(addr)] as u32) << 8) | (mem[dram_index(addr.wrapping_add(1))] as u32)
}

/// Main memory after the word `data` was stored at `addr`, most significant
/// byte first.
pub open spec fn dram_write_word(mem: Seq<u8>, addr: u32, data: u32) -> Seq<u8> {
    mem.update(dram_index(addr), ((data >> 24) & 0xff) as u8).update(
        dram_index(addr.wrapping_add(1)),
        ((data >> 16) & 0xff) as u8,
    ).update(dram_index(addr.wrapping_add(2)), ((data >> 8) & 0xff) as u8).update(
        dram_index(addr.wrapping_add(3)),
        (data & 0xff) as u8,
    )
}

/// Main memory after the low halfword of `data` was stored at `addr`.
pub open spec fn dram_write_halfword(mem: Seq<u8>, addr: u32, data: u32) -> Seq<u8> {
    mem.update(dram_index(addr), ((data >> 8) & 0xff) as u8).update(
        dram_index(addr.wrapping_add(1)),
        (data & 0xff) as u8,
    )
}

/// The lane of a 32-bit register value that an access of `width` bytes at
/// `addr` reads: byte 0 of a word is bits 31..24, halfword 0 is bits 31..16.
pub open spec fn spec_accsize_align(width: u32, addr: u32, val: u32) -> u32 {
    if width == 2 {
        if addr & 2 == 0 {
            (val >> 16) & 0xffff
        } else {
            val & 0xffff
        }
    } else if width == 1 {
        if addr & 3 == 0 {
            (val >> 24) & 0xff
        } else if addr & 3 == 1 {
            (val >> 16) & 0xff
        } else if addr & 3 == 2 {
            (val >> 8) & 0xff
        } else {
            val & 0xff
        }
    } else {
        val
    }
}

/// The 32-bit register value that carries `val` in the lane that an access
/// of `width` bytes at `addr` writes.
pub open spec fn spec_wrdata_align(width: u32, addr: u32, val: u32) -> u32 {
    if width == 2 {
        if addr & 2 == 0 {
            (val << 16) & 0xffff0000
        } else {
            val & 0xffff
        }
    } else if width == 1 {
        if addr & 3 == 0 {
            (val << 24) & 0xff000000
        } else if addr & 3 == 1 {
            (val << 16) & 0x00ff0000
        } else if addr & 3 == 2 {
            (val << 8) & 0x0000ff00
        } else {
            val & 0x000000ff
        }
    } else {
        val
    }
}

/// The address error of a load or a store.
pub open spec fn spec_addr_error(is_write: bool) -> u32 {
    if is_write {
        EXCEPT_CODE_ADDR_ERR_STORE
    } else {
        EXCEPT_CODE_ADDR_ERR_LOAD
    }
}

/// The physical address of an address of the unmapped kernel segments.
/// While the SPI control register does not disable it, the top 4 MiB, where
/// the reset vector lies, are mirrored into the ROM window.
pub open spec fn unmapped_paddr(control: u32, addr: u32) -> u32 {
    let paddr = kseg01_to_paddr(addr);
    if control & SPI_CTRL_REMAP_DISABLE == 0 && paddr >= 0x1fc00000 {
        paddr & 0xff3fffff
    } else {
        paddr
    }
}

/// Which of the two data caches serves `vaddr`: 0 for the lowest 256 MiB.
pub open spec fn cache_half(vaddr: u32) -> int {
    if vaddr & 0xf0000000 == 0 {
        0
    } else {
        1
    }
}

/// What a read of the GPIO block gives.
pub open spec fn gpio_read(gpio: IoGPIO, width: u32, paddr: u32) -> u32 {
    let off = ((paddr & 0xfffffffc) - GPIO_BASE_REG) as u32;
    if off == 0x00 {
        spec_accsize_align(width, paddr, gpio.oe)
    } else if off == 0x08 {
        spec_accsize_align(width, paddr, gpio.out)
    } else {
        0
    }
}

/// The GPIO block after a write: output enable at 0x00, output at 0x08, set
/// bits at 0x0c, clear bits at 0x10.
pub open spec fn gpio_write(gpio: IoGPIO, width: u32, paddr: u32, data: u32) -> IoGPIO {
    let off = ((paddr & 0xfffffffc) - GPIO_BASE_REG) as u32;
    let w = spec_wrdata_align(width, paddr, data);
    if off == 0x00 {
        IoGPIO { oe: w, ..gpio }
    } else if off == 0x08 {
        IoGPIO { out: w, ..gpio }
    } else if off == 0x0c {
        IoGPIO { out: gpio.out | w, ..gpio }
    } else if off == 0x10 {
        IoGPIO { out: gpio.out & !w, ..gpio }
    } else {
        gpio
    }
}

/// What a read of the reset block gives.
pub open spec fn rst_read(m: MachineView, width: u32, paddr: u32) -> u32 {
    let a = paddr & 0xfffffffc;
    if a == RST_MISC_INTERRUPT_STATUS_REG {
        spec_accsize_align(width, paddr, misc_int_status(m.uart.int_enable, m.uart.int_ident))
    } else if a == RST_BOOTSTRAP_REG {
        spec_accsize_align(width, paddr, RST_BOOTSTRAP_VAL)
    } else if a == RST_REVISION_ID_REG {
        spec_accsize_align(width, paddr, RST_REVISION_ID_VAL)
    } else if a == RST_MISC_INTERRUPT_MASK_REG {
        spec_accsize_align(width, paddr, m.misc.int_mask)
    } else {
        0
    }
}

/// The reset block after a write: the interrupt mask, and the request for a
/// reset of the whole chip.
pub open spec fn rst_write(misc: IoMisc, paddr: u32, data: u32) -> IoMisc {
    let a = paddr & 0xfffffffc;
    if a == RST_MISC_INTERRUPT_MASK_REG {
        IoMisc { int_mask: data, ..misc }
    } else if a == RST_RESET_REG {
        IoMisc { reset_request: data & RST_RESET_FULL_CHIP != 0, ..misc }
    } else {
        misc
    }
}

/// What a read of the blocks with constant registers (RTC, PLL, SRIF) gives.
pub open spec fn const_read(width: u32, paddr: u32) -> u32 {
    let a = paddr & 0xfffffffc;
    if in_block(paddr, RTC_BASE_REG, 0x5c) {
        if a - RTC_BASE_REG == 0x44 {
            spec_accsize_align(width, paddr, 2)
        } else {
            0
        }
    } else if in_block(paddr, PLL_BASE_REG, 0x100) {
        if a == PLL_CPU_DDR_CLK_CTRL_REG {
            spec_accsize_align(width, paddr, PLL_CPU_DDR_CLK_CTRL_VAL)
        } else {
            0
        }
    } else if in_block(paddr, PLL_SRIF_CPU_DPLL_BASE_REG, 0x100) {
        if a == PLL_SRIF_CPU_DPLL1_REG {
            spec_accsize_align(width, paddr, PLL_SRIF_CPU_DPLL1_VAL)
        } else if a == PLL_SRIF_CPU_DPLL2_REG {
            spec_accsize_align(width, paddr, PLL_SRIF_CPU_DPLL2_VAL)
        } else {
            0
        }
    } else {
        0
    }
}

impl MachineView {
    /// The word at physical address `addr`: from main memory, from the
    /// flash behind the ROM window, or zero.
    pub open spec fn read_phys_word(self, addr: u32) -> (MachineView, u32) {
        if in_ram(addr, 4) {
            (self, dram_read_word(self.mem, addr))
        } else if in_rom(addr, 4) {
            let r = self.spi.rom_read((addr - ROM_AREA_ADDR) as u32, 4);
            (MachineView { spi: r.0, ..self }, r.1)
        } else {
            (self, 0)
        }
    }

    /// The halfword at physical address `addr`.
    pub open spec fn read_phys_halfword(self, addr: u32) -> (MachineView, u32) {
        if in_ram(addr, 2) {
            (self, dram_read_halfword(self.mem, addr))
        } else if in_rom(addr, 2) {
            let r = self.spi.rom_read((addr - ROM_AREA_ADDR) as u32, 2);
            (MachineView { spi: r.0, ..self }, r.1)
        } else {
            (self, 0)
        }
    }

    /// The byte at physical address `addr`.
    pub open spec fn read_phys_byte(self, addr: u32) -> (MachineView, u8) {
        if in_ram(addr, 1) {
            (self, self.mem[dram_index(addr)])
        } else if in_rom(addr, 1) {
            let r = self.spi.rom_read((addr - ROM_AREA_ADDR) as u32, 1);
            (MachineView { spi: r.0, ..self }, r.1 as u8)
        } else {
            (self, 0)
        }
    }

    /// A physical read of `width` bytes from main memory or the flash.
    pub open spec fn read_phys(self, addr: u32, width: u32) -> (MachineView, u32) {
        if width == 1 {
            (self.read_phys_byte(addr).0, self.read_phys_byte(addr).1 as u32)
        } else if width == 2 {
            self.read_phys_halfword(addr)
        } else {
            self.read_phys_word(addr)
        }
    }

    /// A physical write of `width` bytes: only main memory takes it.
    pub open spec fn write_phys(self, addr: u32, width: u32, data: u32) -> MachineView {
        if width == 1 {
            if in_ram(addr, 1) {
                MachineView { mem: self.mem.update(dram_index(addr), data as u8), ..self }
            } else {
                self
            }
        } else if width == 2 {
            if in_ram(addr, 2) {
                MachineView { mem: dram_write_halfword(self.mem, addr, data), ..self }
            } else {
                self
            }
        } else {
            if in_ram(addr, 4) {
                MachineView { mem: dram_write_word(self.mem, addr, data), ..self }
            } else {
                self
            }
        }
    }

    /// The address-space identifier in force.
    pub open spec fn asid(&self) -> u32 {
        self.reg.spec_c0(C0_ENTRYHI) & C0_ENTRYHI_ASID_MASK
    }

    /// The bits of Status that decide how an address is translated.
    pub open spec fn translation_mode(&self) -> u32 {
        self.reg.spec_c0(C0_STATUS) & C0_STATUS_MODE_MASK
    }

    /// The full translation of a virtual address, by segment and mode.
    pub open spec fn get_phy_addr(self, addr: u32, is_write: bool) -> (
        MachineView,
        Result<u32, u32>,
    ) {
        let status = self.reg.spec_c0(C0_STATUS);
        if addr < KSEG0 {
            if mode_is_in_error(status) && addr < 0x20000000 {
                (self, Ok(addr))
            } else {
                self.tlb_lookup(self.asid(), is_write, addr)
            }
        } else if mode_is_user(status) {
            (self, Err(spec_addr_error(is_write)))
        } else if addr < KSEG2 {
            if mode_is_supervisor(status) {
                (self, Err(spec_addr_error(is_write)))
            } else {
                (self, Ok(unmapped_paddr(self.spi.control, addr)))
            }
        } else if addr < KSEG3 {
            self.tlb_lookup(self.asid(), is_write, addr)
        } else {
            if mode_is_supervisor(status) {
                (self, Err(spec_addr_error(is_write)))
            } else {
                self.tlb_lookup(self.asid(), is_write, addr)
            }
        }
    }

    /// The translation of a data address: from the data cache of its half
    /// of the address space if that hits, else in full, and then recorded.
    pub open spec fn data_translate(self, vaddr: u32, is_write: bool) -> (
        MachineView,
        Result<u32, u32>,
    ) {
        let h = cache_half(vaddr);
        let cache = if is_write {
            self.reg.dw_cache[h]
        } else {
            self.reg.dr_cache[h]
        };
        if cache.hits(vaddr, self.asid(), self.translation_mode()) {
            (self, Ok(cache.translate(vaddr)))
        } else {
            let r = self.get_phy_addr(vaddr, is_write);
            match r.1 {
                Ok(paddr) => {
                    let filled = AddrCache::filled(
                        vaddr,
                        self.asid(),
                        self.translation_mode(),
                        paddr,
                    );
                    (
                        r.0.with_reg(
                            if is_write {
                                Reg {
                                    dw_cache: vstd::array::spec_array_update(
                                        r.0.reg.dw_cache,
                                        h,
                                        filled,
                                    ),
                                    ..r.0.reg
                                }
                            } else {
                                Reg {
                                    dr_cache: vstd::array::spec_array_update(
                                        r.0.reg.dr_cache,
                                        h,
                                        filled,
                                    ),
                                    ..r.0.reg
                                }
                            },
                        ),
                        Ok(paddr),
                    )
                },
                Err(e) => (r.0, Err(e)),
            }
        }
    }

    /// The translation of the program counter: from the fetch cache if that
    /// hits, else in full, and then recorded.
    pub open spec fn fetch_translate(self) -> (MachineView, Result<u32, u32>) {
        let pc = self.reg.pc;
        if self.reg.pc_cache.hits(pc, self.asid(), self.translation_mode()) {
            (self, Ok(self.reg.pc_cache.translate(pc)))
        } else {
            let r = self.get_phy_addr(pc, false);
            match r.1 {
                Ok(paddr) => (
                    r.0.with_reg(
                        Reg {
                            pc_cache: AddrCache::filled(
                                pc,
                                self.asid(),
                                self.translation_mode(),
                                paddr,
                            ),
                            ..r.0.reg
                        },
                    ),
                    Ok(paddr),
                ),
                Err(e) => (r.0, Err(e)),
            }
        }
    }

    /// A load of `width` bytes from physical address `paddr`, routed by
    /// region.
    pub open spec fn load_routed(self, paddr: u32, width: u32) -> (MachineView, u32) {
        let align_addr = paddr & 0xfffffffc;
        if in_block(paddr, RAM_AREA_ADDR, RAM_AREA_SIZE) {
            self.read_phys(paddr, width)
        } else if in_block(paddr, ROM_AREA_ADDR, ROM_AREA_SIZE) {
            if self.spi.read_reg(SPI_FUNC_SEL_REG) & 1 != 0 {
                if in_block(paddr, SPI0_BASE_ADDRESS, SPI_ADDR_SIZE) {
                    (self, spec_accsize_align(width, paddr, self.spi.read_reg(align_addr)))
                } else {
                    (self, 0)
                }
            } else {
                self.read_phys(paddr, width)
            }
        } else if in_block(paddr, IOADDR_UART0_BASE, IOADDR_UART_SIZE) {
            let r = self.uart.read_reg(self.stdin_ch, align_addr);
            (
                MachineView { uart: r.0, stdin_ch: r.1, ..self },
                spec_accsize_align(width, paddr, r.2 as u32),
            )
        } else if in_block(paddr, GPIO_BASE_REG, 0x100) {
            (self, gpio_read(self.gpio, width, paddr))
        } else if in_block(paddr, RST_BASE_REG, 0x100) {
            (self, rst_read(self, width, paddr))
        } else {
            (self, const_read(width, paddr))
        }
    }

    /// A store of `width` bytes to physical address `paddr`, routed by
    /// region. A write to the SPI control register that changes the remap
    /// bit invalidates all address-translation caches.
    pub open spec fn store_routed(self, paddr: u32, width: u32, data: u32) -> MachineView {
        let align_addr = paddr & 0xfffffffc;
        if in_block(paddr, RAM_AREA_ADDR, RAM_AREA_SIZE) {
            self.write_phys(paddr, width, data)
        } else if paddr >= SPI0_BASE_ADDRESS && paddr <= SPI0_BASE_ADDRESS + SPI_ADDR_SIZE {
            let m = if in_block(paddr, (SPI0_BASE_ADDRESS + SPI_CTRL_REG) as u32, 4) && (
            self.spi.control ^ data) & SPI_CTRL_REMAP_DISABLE != 0 {
                self.with_reg(self.reg.with_caches_cleared())
            } else {
                self
            };
            MachineView {
                spi: m.spi.write_reg(align_addr, spec_wrdata_align(width, paddr, data)),
                ..m
            }
        } else if in_block(paddr, IOADDR_UART0_BASE, IOADDR_UART_SIZE) {
            let r = self.uart.write_reg(
                self.stdin_ch,
                align_addr,
                spec_wrdata_align(width, paddr, data) as u8,
            );
            MachineView { uart: r.0, stdin_ch: r.1, ..self }
        } else if in_block(paddr, GPIO_BASE_REG, 0x100) {
            MachineView { gpio: gpio_write(self.gpio, width, paddr, data), ..self }
        } else if in_block(paddr, RST_BASE_REG, 0x100) {
            MachineView { misc: rst_write(self.misc, paddr, data), ..self }
        } else {
            self
        }
    }

    /// A load of `width` bytes from virtual address `vaddr`.
    pub open spec fn load_memory(self, vaddr: u32, width: u32) -> (MachineView, Result<u32, u32>) {
        let t = self.data_translate(vaddr, false);
        match t.1 {
            Ok(paddr) => (t.0.load_routed(paddr, width).0, Ok(t.0.load_routed(paddr, width).1)),
            Err(e) => (t.0, Err(e)),
        }
    }

    /// A store of `width` bytes to virtual address `vaddr`.
    pub open spec fn store_memory(self, vaddr: u32, width: u32, data: u32) -> (
        MachineView,
        Result<(), u32>,
    ) {
        let t = self.data_translate(vaddr, true);
        match t.1 {
            Ok(paddr) => (t.0.store_routed(paddr, width, data), Ok(())),
            Err(e) => (t.0, Err(e)),
        }
    }

    pub open spec fn load_byte(self, addr: u32) -> (MachineView, Result<u32, u32>) {
        self.load_memory(addr, 1)
    }

    /// A halfword load: an odd address is an address error.
    pub open spec fn load_halfword(self, addr: u32) -> (MachineView, Result<u32, u32>) {
        if addr & 1 != 0 {
            (self, Err(EXCEPT_CODE_ADDR_ERR_LOAD))
        } else {
            self.load_memory(addr, 2)
        }
    }

    /// A word load: an address that is no multiple of four is an address
    /// error.
    pub open spec fn load_word(self, addr: u32) -> (MachineView, Result<u32, u32>) {
        if addr & 3 != 0 {
            (self, Err(EXCEPT_CODE_ADDR_ERR_LOAD))
        } else {
            self.load_memory(addr, 4)
        }
    }

    pub open spec fn store_byte(self, addr: u32, data: u8) -> (MachineView, Result<(), u32>) {
        self.store_memory(addr, 1, data as u32)
    }

    /// A halfword store: an odd address is an address error.
    pub open spec fn store_halfword(self, addr: u32, data: u32) -> (MachineView, Result<(), u32>) {
        if addr & 1 != 0 {
            (self, Err(EXCEPT_CODE_ADDR_ERR_STORE))
        } else {
            self.store_memory(addr, 2, data)
        }
    }

    /// A word store: an address that is no multiple of four is an address
    /// error.
    pub open spec fn store_word(self, addr: u32, data: u32) -> (MachineView, Result<(), u32>) {
        if addr & 3 != 0 {
            (self, Err(EXCEPT_CODE_ADDR_ERR_STORE))
        } else {
            self.store_memory(addr, 4, data)
        }
    }

    /// The second halfword of a MIPS16e instruction whose first halfword is
    /// `first`: it is read from the address after the program counter,
    /// which is translated in full.
    pub open spec fn fetch_second(self, first: u32) -> (MachineView, Result<u32, (u32, u32)>) {
        let nextaddr = self.reg.pc.wrapping_add(1);
        let t = self.get_phy_addr(nextaddr, false);
        match t.1 {
            Ok(paddr) => {
                let h = t.0.read_phys_halfword(paddr);
                (h.0, Ok((first << 16) | h.1))
            },
            Err(e) => (t.0, Err((e, nextaddr))),
        }
    }

    /// The instruction at physical address `paddr`. An odd program counter
    /// is MIPS16e mode: one halfword is read, and a second one behind an
    /// EXTEND or JAL halfword.
    pub open spec fn fetch_at(self, paddr: u32) -> (MachineView, Result<u32, (u32, u32)>) {
        if self.reg.pc & 1 != 0 {
            let h = self.read_phys_halfword(paddr & 0xfffffffe);
            let op = (h.1 >> 11) & 0x1f;
            if op == MIPS16E_OP_EXTEND || op == MIPS16E_OP_JAL {
                h.0.fetch_second(h.1)
            } else {
                (h.0, Ok(h.1))
            }
        } else {
            let w = self.read_phys_word(paddr & 0xfffffffc);
            (w.0, Ok(w.1))
        }
    }

    /// One attempt to fetch the instruction at the program counter. A fault
    /// gives the exception code and the faulting address. A program counter
    /// with bit 1 set and bit 0 clear is misaligned.
    pub open spec fn try_fetch(self) -> (MachineView, Result<u32, (u32, u32)>) {
        let pc = self.reg.pc;
        if pc & 3 == 2 {
            (self, Err((EXCEPT_CODE_ADDR_ERR_LOAD, pc)))
        } else {
            let t = self.fetch_translate();
            match t.1 {
                Err(e) => (t.0, Err((e, pc))),
                Ok(paddr) => t.0.fetch_at(paddr),
            }
        }
    }

    /// The fetch of the next instruction. A fault is taken as an exception
    /// and the fetch is made again at the vector, where it cannot fault.
    pub open spec fn fetch_instruction(self) -> (MachineView, u32) {
        let t = self.try_fetch();
        match t.1 {
            Ok(inst) => (t.0, inst),
            Err(f) => {
                let t2 = t.0.with_reg(t.0.reg.prepare_exception(f.0, f.1)).try_fetch();
                (
                    t2.0,
                    match t2.1 {
                        Ok(inst) => inst,
                        Err(_) => 0,
                    },
                )
            },
        }
    }
}

#[verifier::when_used_as_spec(spec_accsize_align)]
pub fn accsize_align(width: u32, addr: u32, val: u32) -> (r: u32)
    ensures
        r == spec_accsize_align(width, addr, val),
{
    if width == 2 {
        if addr & 2 == 0 {
            (val >> 16) & 0xffff
        } else {
            val & 0xffff
        }
    } else if width == 1 {
        if addr & 3 == 0 {
            (val >> 24) & 0xff
        } else if addr & 3 == 1 {
            (val >> 16) & 0xff
        } else if addr & 3 == 2 {
            (val >> 8) & 0xff
        } else {
            val & 0xff
        }
    } else {
        val
    }
}

#[verifier::when_used_as_spec(spec_wrdata_align)]
pub fn wrdata_align(width: u32, addr: u32, val: u32) -> (r: u32)
    ensures
        r == spec_wrdata_align(width, addr, val),
{
    if width == 2 {
        if addr & 2 == 0 {
            (val << 16) & 0xffff0000
        } else {
            val & 0xffff
        }
    } else if width == 1 {
        if addr & 3 == 0 {
            (val << 24) & 0xff000000
        } else if addr & 3 == 1 {
            (val << 16) & 0x00ff0000
        } else if addr & 3 == 2 {
            (val << 8) & 0x0000ff00
        } else {
            val & 0x000000ff
        }
    } else {
        val
    }
}

fn addr_error(is_write: bool) -> (e: u32)
    ensures
        e == spec_addr_error(is_write),
{
    if is_write {
        EXCEPT_CODE_ADDR_ERR_STORE
    } else {
        EXCEPT_CODE_ADDR_ERR_LOAD
    }
}

fn dram_idx(addr: u32) -> (i: usize)
    ensures
        i as int == dram_index(addr),
        i < DRAM_SIZE,
{
    proof {
        lemma_and_le_u32(addr, DRAM_ADDR_MASK);
    }
    (addr & DRAM_ADDR_MASK) as usize
}

fn ram_holds(addr: u32, n: u32) -> (r: bool)
    requires
        n <= 4,
    ensures
        r == in_ram(addr, n as int),
{
    (addr as u64) + (n as u64) <= (RAM_AREA_ADDR as u64) + (RAM_AREA_SIZE as u64)
}

fn rom_holds(addr: u32, n: u32) -> (r: bool)
    requires
        n <= 4,
    ensures
        r == in_rom(addr, n as int),
{
    addr >= ROM_AREA_ADDR && (addr as u64) + (n as u64) <= (ROM_AREA_ADDR as u64) + (
    ROM_AREA_SIZE as u64)
}

fn block_holds(addr: u32, base: u32, size: u32) -> (r: bool)
    ensures
        r == in_block(addr, base, size),
{
    addr >= base && (addr as u64) < (base as u64) + (size as u64)
}

pub fn read_phys_mem_word(ms: &mut MachineState, addr: u32) -> (v: u32)
    requires
        old(ms)@.wf(),
    ensures
        (final(ms)@, v) == old(ms)@.read_phys_word(addr),
        final(ms)@.wf(),
{
    if ram_holds(addr, 4) {
        let b0 = ms.mem.mem0[dram_idx(addr)];
        let b1 = ms.mem.mem0[dram_idx(addr.wrapping_add(1))];
        let b2 = ms.mem.mem0[dram_idx(addr.wrapping_add(2))];
        let b3 = ms.mem.mem0[dram_idx(addr.wrapping_add(3))];
        return ((b0 as u32) << 24) | ((b1 as u32) << 16) | ((b2 as u32) << 8) | (b3 as u32);
    }
    if rom_holds(addr, 4) {
        return crate::dev_spi::rom_read(&mut ms.spi, addr - ROM_AREA_ADDR, 4);
    }
    0
}

pub fn write_phys_mem_word(ms: &mut MachineState, addr: u32, data: u32)
    requires
        old(ms)@.wf(),
    ensures
        final(ms)@ == old(ms)@.write_phys(addr, 4, data),
        final(ms)@.wf(),
{
    if ram_holds(addr, 4) {
        let i0 = dram_idx(addr);
        let i1 = dram_idx(addr.wrapping_add(1));
        let i2 = dram_idx(addr.wrapping_add(2));
        let i3 = dram_idx(addr.wrapping_add(3));
        ms.mem.mem0[i0] = ((data >> 24) & 0xff) as u8;
        ms.mem.mem0[i1] = ((data >> 16) & 0xff) as u8;
        ms.mem.mem0[i2] = ((data >> 8) & 0xff) as u8;
        ms.mem.mem0[i3] = (data & 0xff) as u8;
    }
}

pub fn read_phys_mem_halfword(ms: &mut MachineState, addr: u32) -> (v: u32)
    requires
        old(ms)@.wf(),
    ensures
        (final(ms)@, v) == old(ms)@.read_phys_halfword(addr),
        final(ms)@.wf(),
{
    if ram_holds(addr, 2) {
        let b0 = ms.mem.mem0[dram_idx(addr)];
        let b1 = ms.mem.mem0[dram_idx(addr.wrapping_add(1))];
        return ((b0 as u32) << 8) | (b1 as u32);
    }
    if rom_holds(addr, 2) {
        return crate::dev_spi::rom_read(&mut ms.spi, addr - ROM_AREA_ADDR, 2);
    }
    0
}

pub fn write_phys_mem_halfword(ms: &mut MachineState, addr: u32, data: u32)
    requires
        old(ms)@.wf(),
    ensures
        final(ms)@ == old(ms)@.write_phys(addr, 2, data),
        final(ms)@.wf(),
{
    if ram_holds(addr, 2) {
        let i0 = dram_idx(addr);
        let i1 = dram_idx(addr.wrapping_add(1));
        ms.mem.mem0[i0] = ((data >> 8) & 0xff) as u8;
        ms.mem.mem0[i1] = (data & 0xff) as u8;
    }
}

pub fn read_phys_mem_byte(ms: &mut MachineState, addr: u32) -> (v: u8)
    requires
        old(ms)@.wf(),
    ensures
        (final(ms)@, v) == old(ms)@.read_phys_byte(addr),
        final(ms)@.wf(),
{
    if ram_holds(addr, 1) {
        return ms.mem.mem0[dram_idx(addr)];
    }
    if rom_holds(addr, 1) {
        return crate::dev_spi::rom_read(&mut ms.spi, addr - ROM_AREA_ADDR, 1) as u8;
    }
    0
}

pub fn write_phys_mem_byte(ms: &mut MachineState, addr: u32, data: u8)
    requires
        old(ms)@.wf(),
    ensures
        final(ms)@ == old(ms)@.write_phys(addr, 1, data as u32),
        final(ms)@.wf(),
{
    if ram_holds(addr, 1) {
        let i0 = dram_idx(addr);
        ms.mem.mem0[i0] = data;
    }
}

fn read_phys(ms: &mut MachineState, addr: u32, width: u32) -> (v: u32)
    requires
        old(ms)@.wf(),
    ensures
        (final(ms)@, v) == old(ms)@.read_phys(addr, width),
        final(ms)@.wf(),
{
    if width == 1 {
        read_phys_mem_byte(ms, addr) as u32
    } else if width == 2 {
        read_phys_mem_halfword(ms, addr)
    } else {
        read_phys_mem_word(ms, addr)
    }
}

fn write_phys(ms: &mut MachineState, addr: u32, width: u32, data: u32)
    requires
        old(ms)@.wf(),
    ensures
        final(ms)@ == old(ms)@.write_phys(addr, width, data),
        final(ms)@.wf(),
{
    if width == 1 {
        write_phys_mem_byte(ms, addr, data as u8);
        assert((data as u8) as u32 as u8 == data as u8) by (bit_vector);
    } else if width == 2 {
        write_phys_mem_halfword(ms, addr, data);
    } else {
        write_phys_mem_word(ms, addr, data);
    }
}

/// Translates a virtual address in full, by segment and mode.
pub fn get_phy_addr(ms: &mut MachineState, addr: u32, is_write: bool) -> (r: Result<u32, u32>)
    ensures
        (final(ms)@, r) == old(ms)@.get_phy_addr(addr, is_write),
{
    let c0_status: u32 = ms.reg.c0(C0_STATUS);
    let asid: u32 = ms.reg.c0(C0_ENTRYHI) & C0_ENTRYHI_ASID_MASK;
    if addr < KSEG0 {
        if mode_is_in_error(c0_status) && addr < 0x20000000 {
            return Ok(addr);
        } else {
            return crate::tlb::lookup(ms, asid, is_write, addr);
        }
    }
    if mode_is_user(c0_status) {
        return Err(addr_error(is_write));
    }
    if addr < KSEG2 {
        if mode_is_supervisor(c0_status) {
            return Err(addr_error(is_write));
        }
        let paddr = kseg01_to_paddr(addr);
        if 0 == (ms.spi.control & SPI_CTRL_REMAP_DISABLE) && paddr >= 0x1fc00000 {
            return Ok(paddr & 0xff3fffff);
        } else {
            return Ok(paddr);
        }
    }
    if addr < KSEG3 {
        return crate::tlb::lookup(ms, asid, is_write, addr);
    }
    if mode_is_supervisor(c0_status) {
        return Err(addr_error(is_write));
    }
    crate::tlb::lookup(ms, asid, is_write, addr)
}

fn data_translate(ms: &mut MachineState, vaddr: u32, is_write: bool) -> (r: Result<u32, u32>)
    ensures
        (final(ms)@, r) == old(ms)@.data_translate(vaddr, is_write),
{
    let asid: u32 = ms.reg.c0(C0_ENTRYHI) & C0_ENTRYHI_ASID_MASK;
    let mode: u32 = ms.reg.c0(C0_STATUS) & C0_STATUS_MODE_MASK;
    let h: usize = if vaddr & 0xf0000000 == 0 {
        0
    } else {
        1
    };
    if is_write {
        if ms.reg.dw_cache[h].check(vaddr, asid, mode) {
            Ok(ms.reg.dw_cache[h].get_addr(vaddr))
        } else {
            match get_phy_addr(ms, vaddr, true) {
                Ok(paddr) => {
                    ms.reg.dw_cache[h].set(vaddr, asid, mode, paddr);
                    Ok(paddr)
                },
                Err(e) => Err(e),
            }
        }
    } else {
        if ms.reg.dr_cache[h].check(vaddr, asid, mode) {
            Ok(ms.reg.dr_cache[h].get_addr(vaddr))
        } else {
            match get_phy_addr(ms, vaddr, false) {
                Ok(paddr) => {
                    ms.reg.dr_cache[h].set(vaddr, asid, mode, paddr);
                    Ok(paddr)
                },
                Err(e) => Err(e),
            }
        }
    }
}

fn fetch_translate(ms: &mut MachineState) -> (r: Result<u32, u32>)
    ensures
        (final(ms)@, r) == old(ms)@.fetch_translate(),
{
    let asid: u32 = ms.reg.c0(C0_ENTRYHI) & C0_ENTRYHI_ASID_MASK;
    let mode: u32 = ms.reg.c0(C0_STATUS) & C0_STATUS_MODE_MASK;
    let pc = ms.reg.pc;
    if ms.reg.pc_cache.check(pc, asid, mode) {
        Ok(ms.reg.pc_cache.get_addr(pc))
    } else {
        match get_phy_addr(ms, pc, false) {
            Ok(paddr) => {
                ms.reg.pc_cache.set(pc, asid, mode, paddr);
                Ok(paddr)
            },
            Err(e) => Err(e),
        }
    }
}

fn load_routed(ms: &mut MachineState, paddr: u32, width: u32) -> (v: u32)
    requires
        old(ms)@.wf(),
    ensures
        (final(ms)@, v) == old(ms)@.load_routed(paddr, width),
        final(ms)@.wf(),
{
    let align_addr: u32 = paddr & 0xfffffffc;
    if block_holds(paddr, RAM_AREA_ADDR, RAM_AREA_SIZE) {
        read_phys(ms, paddr, width)
    } else if block_holds(paddr, ROM_AREA_ADDR, ROM_AREA_SIZE) {
        if 0 != (crate::dev_spi::read_reg(&ms.spi, SPI_FUNC_SEL_REG) & 1) {
            if block_holds(paddr, SPI0_BASE_ADDRESS, SPI_ADDR_SIZE) {
                accsize_align(width, paddr, crate::dev_spi::read_reg(&ms.spi, align_addr))
            } else {
                0
            }
        } else {
            read_phys(ms, paddr, width)
        }
    } else if block_holds(paddr, IOADDR_UART0_BASE, IOADDR_UART_SIZE) {
        let v = crate::dev_uart::read_reg(&mut ms.uart, &mut ms.stdin_ch, align_addr);
        accsize_align(width, paddr, v as u32)
    } else if block_holds(paddr, GPIO_BASE_REG, 0x100) {
        proof {
            assert(paddr >= 0x18040000 ==> paddr & 0xfffffffc >= 0x18040000) by (bit_vector);
        }
        let off = align_addr - GPIO_BASE_REG;
        if off == 0x00 {
            accsize_align(width, paddr, ms.gpio.oe)
        } else if off == 0x08 {
            accsize_align(width, paddr, ms.gpio.out)
        } else {
            0
        }
    } else if block_holds(paddr, RST_BASE_REG, 0x100) {
        if align_addr == RST_MISC_INTERRUPT_STATUS_REG {
            accsize_align(width, paddr, read_misc_int_status_reg(ms))
        } else if align_addr == RST_BOOTSTRAP_REG {
            accsize_align(width, paddr, RST_BOOTSTRAP_VAL)
        } else if align_addr == RST_REVISION_ID_REG {
            accsize_align(width, paddr, RST_REVISION_ID_VAL)
        } else if align_addr == RST_MISC_INTERRUPT_MASK_REG {
            accsize_align(width, paddr, ms.misc.int_mask)
        } else {
            0
        }
    } else if block_holds(paddr, RTC_BASE_REG, 0x5c) {
        proof {
            assert(paddr >= 0x18107000 ==> paddr & 0xfffffffc >= 0x18107000) by (bit_vector);
        }
        if align_addr - RTC_BASE_REG == 0x44 {
            accsize_align(width, paddr, 2)
        } else {
            0
        }
    } else if block_holds(paddr, PLL_BASE_REG, 0x100) {
        if align_addr == PLL_CPU_DDR_CLK_CTRL_REG {
            accsize_align(width, paddr, PLL_CPU_DDR_CLK_CTRL_VAL)
        } else {
            0
        }
    } else if block_holds(paddr, PLL_SRIF_CPU_DPLL_BASE_REG, 0x100) {
        if align_addr == PLL_SRIF_CPU_DPLL1_REG {
            accsize_align(width, paddr, PLL_SRIF_CPU_DPLL1_VAL)
        } else if align_addr == PLL_SRIF_CPU_DPLL2_REG {
            accsize_align(width, paddr, PLL_SRIF_CPU_DPLL2_VAL)
        } else {
            0
        }
    } else {
        0
    }
}

fn store_routed(ms: &mut MachineState, paddr: u32, width: u32, data: u32)
    requires
        old(ms)@.wf(),
    ensures
        final(ms)@ == old(ms)@.store_routed(paddr, width, data),
        final(ms)@.wf(),
{
    let align_addr: u32 = paddr & 0xfffffffc;
    if block_holds(paddr, RAM_AREA_ADDR, RAM_AREA_SIZE) {
        write_phys(ms, paddr, width, data);
    } else if paddr >= SPI0_BASE_ADDRESS && paddr <= SPI0_BASE_ADDRESS + SPI_ADDR_SIZE {
        if block_holds(paddr, SPI0_BASE_ADDRESS + SPI_CTRL_REG, 4) && ((ms.spi.control ^ data)
            & SPI_CTRL_REMAP_DISABLE) != 0 {
            ms.reg.clear_caches();
        }
        crate::dev_spi::write_reg(&mut ms.spi, align_addr, wrdata_align(width, paddr, data));
    } else if block_holds(paddr, IOADDR_UART0_BASE, IOADDR_UART_SIZE) {
        crate::dev_uart::write_reg(
            &mut ms.uart,
            &mut ms.stdin_ch,
            align_addr,
            wrdata_align(width, paddr, data) as u8,
        );
    } else if block_holds(paddr, GPIO_BASE_REG, 0x100) {
        proof {
            assert(paddr >= 0x18040000 ==> paddr & 0xfffffffc >= 0x18040000) by (bit_vector);
        }
        let off = align_addr - GPIO_BASE_REG;
        let w = wrdata_align(width, paddr, data);
        if off == 0x00 {
            ms.gpio.oe = w;
        } else if off == 0x08 {
            ms.gpio.out = w;
        } else if off == 0x0c {
            ms.gpio.out = ms.gpio.out | w;
        } else if off == 0x10 {
            ms.gpio.out = ms.gpio.out & !w;
        }
    } else if block_holds(paddr, RST_BASE_REG, 0x100) {
        if align_addr == RST_MISC_INTERRUPT_MASK_REG {
            ms.misc.int_mask = data;
        } else if align_addr == RST_RESET_REG {
            ms.misc.reset_request = 0 != (data & RST_RESET_FULL_CHIP);
        }
    }
}

fn load_memory(ms: &mut MachineState, vaddr: u32, acc_width: u32) -> (r: Result<u32, u32>)
    requires
        old(ms)@.wf(),
    ensures
        (final(ms)@, r) == old(ms)@.load_memory(vaddr, acc_width),
        final(ms)@.wf(),
{
    match data_translate(ms, vaddr, false) {
        Ok(paddr) => Ok(load_routed(ms, paddr, acc_width)),
        Err(e) => Err(e),
    }
}

fn store_memory(ms: &mut MachineState, vaddr: u32, acc_width: u32, data: u32) -> (r: Result<
    (),
    u32,
>)
    requires
        old(ms)@.wf(),
    ensures
        (final(ms)@, r) == old(ms)@.store_memory(vaddr, acc_width, data),
        final(ms)@.wf(),
{
    match data_translate(ms, vaddr, true) {
        Ok(paddr) => {
            store_routed(ms, paddr, acc_width, data);
            Ok(())
        },
        Err(e) => Err(e),
    }
}

/// Loads the byte at virtual address `addr`.
pub fn load_byte(ms: &mut MachineState, addr: u32) -> (r: Result<u32, u32>)
    requires
        old(ms)@.wf(),
    ensures
        (final(ms)@, r) == old(ms)@.load_byte(addr),
        final(ms)@.wf(),
{
    load_memory(ms, addr, 1)
}

/// Loads the halfword at virtual address `addr`.
pub fn load_halfword(ms: &mut MachineState, addr: u32) -> (r: Result<u32, u32>)
    requires
        old(ms)@.wf(),
    ensures
        (final(ms)@, r) == old(ms)@.load_halfword(addr),
        final(ms)@.wf(),
{
    if (addr & 1) != 0 {
        return Err(EXCEPT_CODE_ADDR_ERR_LOAD);
    }
    load_memory(ms, addr, 2)
}

/// Loads the word at virtual address `addr`.
pub fn load_word(ms: &mut MachineState, addr: u32) -> (r: Result<u32, u32>)
    requires
        old(ms)@.wf(),
    ensures
        (final(ms)@, r) == old(ms)@.load_word(addr),
        final(ms)@.wf(),
{
    if (addr & 3) != 0 {
        return Err(EXCEPT_CODE_ADDR_ERR_LOAD);
    }
    load_memory(ms, addr, 4)
}

/// Stores a byte at virtual address `addr`.
pub fn store_byte(ms: &mut MachineState, addr: u32, data: u8) -> (r: Result<(), u32>)
    requires
        old(ms)@.wf(),
    ensures
        (final(ms)@, r) == old(ms)@.store_byte(addr, data),
        final(ms)@.wf(),
{
    store_memory(ms, addr, 1, data as u32)
}

/// Stores the low halfword of `data` at virtual address `addr`.
pub fn store_halfword(ms: &mut MachineState, addr: u32, data: u32) -> (r: Result<(), u32>)
    requires
        old(ms)@.wf(),
    ensures
        (final(ms)@, r) == old(ms)@.store_halfword(addr, data),
        final(ms)@.wf(),
{
    if (addr & 1) != 0 {
        return Err(EXCEPT_CODE_ADDR_ERR_STORE);
    }
    store_memory(ms, addr, 2, data)
}

/// Stores a word at virtual address `addr`.
pub fn store_word(ms: &mut MachineState, addr: u32, data: u32) -> (r: Result<(), u32>)
    requires
        old(ms)@.wf(),
    ensures
        (final(ms)@, r) == old(ms)@.store_word(addr, data),
        final(ms)@.wf(),
{
    if (addr & 3) != 0 {
        return Err(EXCEPT_CODE_ADDR_ERR_STORE);
    }
    store_memory(ms, addr, 4, data)
}

fn fetch_second(ms: &mut MachineState, first: u32) -> (r: Result<u32, (u32, u32)>)
    requires
        old(ms)@.wf(),
    ensures
        (final(ms)@, r) == old(ms)@.fetch_second(first),
        final(ms)@.wf(),
{
    let nextaddr: u32 = ms.reg.pc.wrapping_add(1);
    match get_phy_addr(ms, nextaddr, false) {
        Ok(paddr) => {
            let second = read_phys_mem_halfword(ms, paddr);
            Ok((first << 16) | second)
        },
        Err(e) => Err((e, nextaddr)),
    }
}

fn fetch_at(ms: &mut MachineState, paddr: u32) -> (r: Result<u32, (u32, u32)>)
    requires
        old(ms)@.wf(),
    ensures
        (final(ms)@, r) == old(ms)@.fetch_at(paddr),
        final(ms)@.wf(),
{
    if 0 != (ms.reg.pc & 1) {
        let inst: u32 = read_phys_mem_halfword(ms, paddr & 0xfffffffe);
        let op: u32 = (inst >> 11) & 0x1f;
        if op == MIPS16E_OP_EXTEND || op == MIPS16E_OP_JAL {
            fetch_second(ms, inst)
        } else {
            Ok(inst)
        }
    } else {
        Ok(read_phys_mem_word(ms, paddr & 0xfffffffc))
    }
}

fn try_fetch(ms: &mut MachineState) -> (r: Result<u32, (u32, u32)>)
    requires
        old(ms)@.wf(),
    ensures
        (final(ms)@, r) == old(ms)@.try_fetch(),
        final(ms)@.wf(),
{
    let pc = ms.reg.pc;
    if (pc & 3) == 2 {
        return Err((EXCEPT_CODE_ADDR_ERR_LOAD, pc));
    }
    match fetch_translate(ms) {
        Ok(paddr) => fetch_at(ms, paddr),
        Err(e) => Err((e, pc)),
    }
}

/// Fetches the instruction at the program counter. A fault is taken as an
/// exception and the instruction at the vector is fetched.
pub fn fetch_instruction(ms: &mut MachineState) -> (inst: u32)
    requires
        old(ms)@.wf(),
    ensures
        (final(ms)@, inst) == old(ms)@.fetch_instruction(),
        final(ms)@.wf(),
{
    match try_fetch(ms) {
        Ok(inst) => inst,
        Err(f) => {
            prepare_exception(ms, f.0, f.1);
            match try_fetch(ms) {
                Ok(inst) => inst,
                Err(_) => 0,
            }
        },
    }
}

} // verus!
