//! Intel e1000 network controller: registers, reset, interrupts.

pub mod embassy;
pub mod mmio_regs;
pub mod regs;
pub mod reset;

pub use embassy::E1000Embassy;
pub use mmio_regs::MmioRegs;
pub use reset::{reset_device, ResetOutcome};
