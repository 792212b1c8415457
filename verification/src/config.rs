//! Build-time parameters of the emulated system.
use vstd::prelude::*;

verus! {

/// CPU clock in Hz.
pub const FREQ_CPU: u32 = 400000000;

/// Number of CPU cycles per tick of the Count register (the value RDHWR 3 reports).
pub const CPU_FREQ_COUNT_RESOLUTION: u32 = 2;

/// Interval of the host timer that drives the wall-clock synchronisation.
pub const SYSTEM_TIMER_INTERVAL_IN_USEC: u32 = 1000;

/// Count ticks per microsecond of wall-clock time:
/// `FREQ_CPU / (CPU_FREQ_COUNT_RESOLUTION * 1_000_000)`.
pub const COUNT_TICKS_PER_USEC: u64 = 200;

pub const NUM_TLB_ENTRY: u32 = 32;

pub const TLB_CACHE_BITS: usize = 10;

pub const TLB_CACHE_SIZE: usize = 1024;

/// The RAM area covers at most 256 MiB of physical address space.
pub const RAM_AREA_ADDR: u32 = 0x00000000;

pub const RAM_AREA_SIZE: u32 = 0x10000000;

/// Main memory is 2^26 bytes (64 MiB); the RAM area aliases onto it.
pub const DRAM_ADDR_WIDTH: u32 = 26;

pub const DRAM_SIZE: usize = 0x04000000;

pub const DRAM_ADDR_MASK: u32 = 0x03ffffff;

/// The ROM area covers at most 16 MiB of physical address space.
pub const ROM_AREA_ADDR: u32 = 0x1f000000;

pub const ROM_AREA_SIZE: u32 = 0x01000000;

} // verus!
