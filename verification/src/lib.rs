//! Drivers and hardware support for small x86_64 kernels.

pub mod bytes;
pub mod dma;
pub mod driver;
pub mod e1000;
pub mod hal;
pub mod hyperv;
pub mod kernel;
pub mod net;
pub mod regs;
pub mod text;
