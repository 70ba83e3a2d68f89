//! Hardware abstraction for x86_64.

pub mod apic;
pub mod boot;
pub mod cpu_local;
pub mod heap;
pub mod limine_boot;
pub mod memory;
pub mod pci;
pub mod smp;
pub mod time;
pub mod vector_alloc;

pub use boot::{init, Config, Peripherals};
pub use limine_boot::LimineBootInfo;
