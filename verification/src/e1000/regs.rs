//! Register numbers (in 32-bit words from the start of BAR0) and bits.

use vstd::prelude::*;

verus! {

/// Device control.
pub const CTL: usize = 0x00000 / 4;

/// Device status.
pub const STAT: usize = 0x00008 / 4;

/// Flow control address, low.
pub const FCAL: usize = 0x00028 / 4;

/// Flow control address, high.
pub const FCAH: usize = 0x0002C / 4;

/// Flow control type.
pub const FCT: usize = 0x00030 / 4;

/// Interrupt cause read. Reading it acknowledges the interrupt.
pub const ICR: usize = 0x000C0 / 4;

/// Interrupt mask set.
pub const IMS: usize = 0x000D0 / 4;

/// Flow control transmit timer value.
pub const FCTTV: usize = 0x00170 / 4;

/// Receive address, low.
pub const RAL: usize = 0x05400 / 4;

/// Receive address, high.
pub const RAH: usize = 0x05404 / 4;

/// Auto-speed detection enable.
pub const CTL_ASDE: u32 = 0x0000_0020;

/// Set link up.
pub const CTL_SLU: u32 = 0x0000_0040;

/// Device reset.
pub const CTL_RST: u32 = 0x0400_0000;

/// Size of the register window that is mapped.
pub const MMIO_SIZE: u64 = 0x20000;

} // verus!
