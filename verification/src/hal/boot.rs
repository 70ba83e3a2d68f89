//! HAL initialization.

use super::limine_boot::LimineBootInfo;
use super::memory::MemoryMapper;
use super::pci::PciBus;
use vstd::prelude::*;

verus! {

/// HAL configuration.
#[derive(Debug, Clone, Copy, PartialEq, Eq, Structural)]
pub struct Config {
    pub serial_port: u16,
    pub heap_size: usize,
}

impl Default for Config {
    fn default() -> (config: Self)
        ensures
            config.serial_port == 0x3F8,
            config.heap_size == 8 * 1024 * 1024,
    {
        Config { serial_port: 0x3F8, heap_size: 8 * 1024 * 1024 }
    }
}

/// A serial port, by its I/O base.
#[derive(Debug, Clone, Copy, PartialEq, Eq, Structural)]
pub struct Serial {
    pub port: u16,
}

/// Platform peripherals returned by [`init`].
pub struct Peripherals {
    pub serial: Serial,
    pub pci: PciBus,
    pub memory: MemoryMapper,
}

/// Whether the HAL has been initialized.
#[derive(Debug, Clone, Copy, PartialEq, Eq, Structural)]
pub struct HalState {
    initialized: bool,
}

impl HalState {
    /// Whether the HAL has been initialized.
    pub closed spec fn ready(&self) -> bool {
        self.initialized
    }

    /// Nothing initialized yet.
    pub fn new() -> (state: Self)
        ensures
            !state.ready(),
    {
        HalState { initialized: false }
    }

    /// Whether the HAL has been initialized.
    pub fn is_initialized(&self) -> (r: bool)
        ensures
            r == self.ready(),
    {
        self.initialized
    }
}

/// Initialize the HAL. Can only be called once.
///
/// The bootloader provides the physical memory mapping offset and the kernel
/// virtual/physical base offset. The serial port and the heap
/// (`config.heap_size` bytes) are set up by the caller, in this order, with
/// what is returned.
pub fn init(state: &mut HalState, boot_info: &LimineBootInfo<'_>, config: &Config) -> (p:
    Peripherals)
    requires
        !old(state).ready(),
    ensures
        final(state).ready(),
        p.serial.port == config.serial_port,
        p.memory.phys() == boot_info.hhdm_offset,
        p.memory.kernel() == boot_info.kernel_offset,
{
    state.initialized = true;
    let serial = Serial { port: config.serial_port };
    let memory = MemoryMapper::new(boot_info.hhdm_offset, boot_info.kernel_offset);
    Peripherals { serial, pci: PciBus, memory }
}

/// What initialization hands out is what it was told: the serial port of the
/// configuration, and the offsets of the bootloader, each in its place. The HAL
/// is initialized then, and was not before.
pub proof fn hal_is_set_up_as_told(
    info: &LimineBootInfo<'_>,
    config: &Config,
    p: Peripherals,
    phys: u64,
    kernel: u64,
)
    ensures
        forall|state: &mut HalState| #[trigger]
            call_ensures(init, (state, info, config), p) && !(*state).ready() ==> {
                &&& (*final(state)).ready()
                &&& p.serial.port == config.serial_port
                &&& call_ensures(MemoryMapper::phys_offset, (&p.memory,), phys) ==> phys
                    == info.hhdm_offset
                &&& call_ensures(MemoryMapper::kernel_offset, (&p.memory,), kernel) ==> kernel
                    == info.kernel_offset
            },
{
}

/// The HAL says whether it has been initialized; a new one has not been.
pub proof fn hal_says_whether_it_is_set_up(state: HalState, r: bool, config: Config)
    ensures
        call_ensures(HalState::new, (), state) && call_ensures(
            HalState::is_initialized,
            (&state,),
            r,
        ) ==> !r,
        call_ensures(HalState::is_initialized, (&state,), r) ==> r == state.ready(),
        call_ensures(<Config as Default>::default, (), config) ==> config == (Config {
            serial_port: 0x3F8,
            heap_size: 8388608,
        }),
{
}

} // verus!
