//! Register blocks of the system-on-chip that the firmware touches while it
//! boots: reset and miscellaneous interrupts, GPIO, PLL, RTC.
use vstd::prelude::*;
use crate::dev_uart::UART_REG_INTID_NO_INT;
use crate::procstate::MachineState;

verus! {

pub const APB_BASE_REG: u32 = 0x18000000;

pub const USB_CFG_BASE_REG: u32 = 0x18030000;

pub const GPIO_BASE_REG: u32 = 0x18040000;

pub const PLL_BASE_REG: u32 = 0x18050000;

pub const RST_BASE_REG: u32 = 0x18060000;

pub const GMAC_BASE_REG: u32 = 0x18070000;

pub const RTC_BASE_REG: u32 = 0x18107000;

pub const PLL_SRIF_BASE_REG: u32 = 0x18116000;

pub const PCIE_RC0_CTRL_BASE_REG: u32 = 0x180F0000;

pub const PCIE_RC1_CTRL_BASE_REG: u32 = 0x18280000;

pub const RST_MISC_INTERRUPT_STATUS_REG: u32 = 0x18060010;

pub const RST_MISC_INTERRUPT_MASK_REG: u32 = 0x18060014;

pub const RST_GLOBALINTERRUPT_STATUS_REG: u32 = 0x18060018;

pub const RST_RESET_REG: u32 = 0x1806001C;

/// Bit 24 of the reset register asks for a reset of the whole chip.
pub const RST_RESET_FULL_CHIP: u32 = 0x01000000;

pub const RST_BOOTSTRAP_REG: u32 = 0x180600B0;

/// What the bootstrap register reads as: a 40 MHz reference clock.
pub const RST_BOOTSTRAP_VAL: u32 = 0x00000714;

pub const RST_REVISION_ID_REG: u32 = 0x18060090;

pub const RST_REVISION_ID_MAJOR_AR9342_VAL: u32 = 0x1120;

/// What the revision register reads as: `RST_REVISION_ID_MAJOR_AR9342_VAL | 3`.
pub const RST_REVISION_ID_VAL: u32 = 0x1123;

pub const PLL_CPU_DDR_CLK_CTRL_REG: u32 = 0x18050008;

/// What the clock control register reads as: the CPU clock comes from the CPU PLL.
pub const PLL_CPU_DDR_CLK_CTRL_VAL: u32 = 0x00100000;

pub const PLL_SRIF_CPU_DPLL_BASE_REG: u32 = 0x181161C0;

pub const PLL_SRIF_CPU_DPLL1_REG: u32 = 0x181161C0;

pub const PLL_SRIF_CPU_DPLL2_REG: u32 = 0x181161C4;

/// refdiv = 1, nint = 10, nfrac = 0.
pub const PLL_SRIF_CPU_DPLL1_VAL: u32 = 0x08280000;

/// outdiv = 0.
pub const PLL_SRIF_CPU_DPLL2_VAL: u32 = 0x40000000;

/// Bit of the miscellaneous interrupt registers that stands for the UART.
pub const MISC_INT_UART: u32 = 0x00000008;

#[derive(Clone, Copy, PartialEq, Eq, Structural, Debug)]
pub struct IoMisc {
    pub int_mask: u32,
    pub reset_request: bool,
}

impl IoMisc {
    pub fn new() -> (m: Self)
        ensures
            m == (IoMisc { int_mask: 0, reset_request: false }),
    {
        Self { int_mask: 0, reset_request: false }
    }
}

#[derive(Clone, Copy, PartialEq, Eq, Structural, Debug)]
pub struct IoGPIO {
    pub oe: u32,
    pub out: u32,
}

impl IoGPIO {
    pub fn new() -> (g: Self)
        ensures
            g == (IoGPIO { oe: 0, out: 0 }),
    {
        Self { oe: 0, out: 0 }
    }
}

/// The miscellaneous interrupt status: bit 3 is set while the UART has an
/// interrupt enabled and one pending.
pub open spec fn misc_int_status(int_enable: u8, int_ident: u8) -> u32 {
    if int_enable != 0 && int_ident != UART_REG_INTID_NO_INT {
        MISC_INT_UART
    } else {
        0
    }
}

pub fn read_misc_int_status_reg(ms: &MachineState) -> (v: u32)
    ensures
        v == misc_int_status(ms.uart.int_enable, ms.uart.int_ident),
{
    let uart_int: bool = 0 != ms.uart.int_enable && ms.uart.int_ident != UART_REG_INTID_NO_INT;
    if uart_int {
        MISC_INT_UART
    } else {
        0
    }
}

} // verus!
