//! Driver traits, `ProbeCtx`, and `ProbedNic`.

use super::error::ProbeError;
use crate::hal::cpu_local::{known, CpuLocals};
use crate::hal::pci::PciDevice;
use crate::hal::vector_alloc::{is_least, CpuId, InstalledIsr, VectorAllocator};
use crate::hyperv::{ChannelOffer, VmBus};
use vstd::prelude::*;

verus! {

/// Capabilities passed into a driver's `probe`.
///
/// `hw` is whatever the platform gives its drivers to work with: DMA memory,
/// mappings of device memory, the ports of configuration space. `vmbus` is
/// `None` where the host is not Hyper-V at all; PCI drivers never touch it.
pub struct ProbeCtx<H> {
    pub hw: H,
    /// Size of the IOAPIC's redirection table.
    pub irq_pins: u32,
    pub irq_alloc: VectorAllocator,
    pub cpus: CpuLocals,
    pub vmbus: Option<VmBus>,
}

/// An IOAPIC pin and what it is to be routed to.
#[derive(Debug, Clone, Copy, PartialEq, Eq, Structural)]
pub struct IrqRoute {
    /// The pin.
    pub line: u8,
    /// The vector it raises, with the driver's handler installed.
    pub isr: InstalledIsr,
    /// The LAPIC it is delivered to.
    pub apic_id: u8,
}

/// Whether a PCI interrupt line can be routed.
pub open spec fn line_is_valid(line: u8, irq_pins: u32) -> bool {
    line != 0xFF && line < irq_pins
}

/// What asking for an ISR for `line` gives, and what it leaves of the vectors:
/// the least free vector, on the boot CPU, if the line can be routed and a
/// vector is to be had.
pub open spec fn isr_installed(
    line: u8,
    irq_pins: u32,
    cpus: CpuLocals,
    before: Set<u8>,
    after: Set<u8>,
    r: Result<IrqRoute, ProbeError>,
) -> bool {
    match r {
        Ok(route) => {
            &&& line_is_valid(line, irq_pins)
            &&& is_least(before, route.isr.vector)
            &&& after == before.remove(route.isr.vector)
            &&& route.line == line
            &&& route.isr.cpu_id == CpuId::Bsp
            &&& route.apic_id == match known(cpus@, CpuId::Bsp) {
                Some(local) => local.apic_id,
                None => 0,
            }
        },
        Err(e) => {
            &&& after == before
            &&& if line_is_valid(line, irq_pins) {
                &&& e == ProbeError::NoFreeVector
                &&& before == Set::<u8>::empty()
            } else {
                e == ProbeError::InvalidIrqLine(line)
            }
        },
    }
}

impl<H> ProbeCtx<H> {
    /// Install an INTx-line ISR for a PCI device. Allocates an IDT vector; the
    /// caller points the IDT entry at its handler and then routes the IOAPIC
    /// pin, as the result says.
    ///
    /// `line` is the PCI interrupt line from config space offset 0x3C.
    pub fn install_pci_isr(&mut self, line: u8) -> (r: Result<IrqRoute, ProbeError>)
        ensures
            final(self).hw == old(self).hw,
            final(self).irq_pins == old(self).irq_pins,
            final(self).cpus == old(self).cpus,
            final(self).vmbus == old(self).vmbus,
            isr_installed(
                line,
                old(self).irq_pins,
                old(self).cpus,
                old(self).irq_alloc.free(),
                final(self).irq_alloc.free(),
                r,
            ),
    {
        if line == 0xFF || line as u32 >= self.irq_pins {
            return Err(ProbeError::InvalidIrqLine(line));
        }
        match self.irq_alloc.allocate() {
            Some(vector) => {
                let isr = InstalledIsr { vector, cpu_id: CpuId::Bsp };
                let apic_id: u8 = isr.cpu_id.apic_id(&self.cpus);
                Ok(IrqRoute { line, isr, apic_id })
            },
            None => Err(ProbeError::NoFreeVector),
        }
    }
}

/// PCI driver. Implemented per-device-family (e1000, tulip, ...).
pub trait PciDriver: Send + Sync {
    fn name(&self) -> &'static str;

    /// Priority for multi-NIC selection; lower wins.
    fn priority(&self) -> u8;

    /// Whether it drives a device.
    fn matches(&self, dev: &PciDevice) -> bool;
}

/// A PCI driver that can bring its devices up, on hardware `H`. A device that
/// is up is an `N`.
pub trait PciProbe<H, N>: PciDriver {
    /// Bring the device up. What comes of it is up to the device.
    fn probe(&self, dev: PciDevice, ctx: &mut ProbeCtx<H>) -> Result<N, ProbeError>;
}

/// VMBus driver. Implemented per-synthetic-device family (NetVSC, ...).
pub trait VmBusDriver: Send + Sync {
    fn name(&self) -> &'static str;

    /// Priority for multi-NIC selection; lower wins.
    fn priority(&self) -> u8;

    /// Whether it drives a device.
    fn matches(&self, offer: &ChannelOffer) -> bool;
}

/// A VMBus driver that can bring its devices up, on hardware `H`. A device
/// that is up is an `N`.
pub trait VmBusProbe<H, N>: VmBusDriver {
    /// Bring the device up. What comes of it is up to the host.
    fn probe(&self, offer: ChannelOffer, ctx: &mut ProbeCtx<H>) -> Result<N, ProbeError>;
}

/// Wrapper around a successfully-probed NIC that preserves driver identity.
pub struct ProbedNic<N> {
    pub driver: N,
    pub priority: u8,
    pub name: &'static str,
}

impl<N> ProbedNic<N> {
    pub fn new(driver: N, priority: u8, name: &'static str) -> (nic: Self)
        ensures
            nic.driver == driver,
            nic.priority == priority,
            nic.name == name,
    {
        ProbedNic { driver, priority, name }
    }
}

/// `i` is the NIC to use: the first of those with the least priority.
pub open spec fn is_primary<N>(nics: Seq<ProbedNic<N>>, i: int) -> bool {
    &&& 0 <= i < nics.len()
    &&& forall|j: int| 0 <= j < nics.len() ==> nics[i].priority <= (#[trigger] nics[j]).priority
    &&& forall|j: int| 0 <= j < i ==> nics[i].priority < (#[trigger] nics[j]).priority
}

/// The NIC to use among those that probed: the first of those with the least
/// priority. There is none only where no NIC probed.
pub fn select_primary<N>(nics: &Vec<ProbedNic<N>>) -> (r: Option<usize>)
    ensures
        match r {
            Some(i) => is_primary(nics@, i as int),
            None => nics@.len() == 0,
        },
{
    let n: usize = nics.len();
    if n == 0 {
        return None;
    }
    let mut best: usize = 0;
    let mut i: usize = 1;
    while i < n
        invariant
            1 <= i <= n,
            n == nics@.len(),
            best < i,
            forall|j: int|
                0 <= j < i ==> nics@[best as int].priority <= (#[trigger] nics@[j]).priority,
            forall|j: int|
                0 <= j < best ==> nics@[best as int].priority < (#[trigger] nics@[j]).priority,
        decreases n - i,
    {
        if nics[i].priority < nics[best].priority {
            best = i;
        }
        i += 1;
    }
    Some(best)
}

/// What asking for an interrupt gives. A line that is 255 or beyond the pins is
/// refused by its number; where no vector is free, that is said; otherwise the
/// line is routed to the lowest vector that is free, on the boot CPU, by its
/// APIC id, and that vector alone is taken.
pub proof fn interrupt_is_routed<H>(line: u8, r: Result<IrqRoute, ProbeError>)
    ensures
        forall|ctx: &mut ProbeCtx<H>| #[trigger]
            call_ensures(ProbeCtx::<H>::install_pci_isr, (ctx, line), r) ==> {
                let free = (*ctx).irq_alloc.free();
                let left = (*final(ctx)).irq_alloc.free();
                &&& (*final(ctx)).hw == (*ctx).hw
                &&& (*final(ctx)).irq_pins == (*ctx).irq_pins
                &&& (*final(ctx)).cpus == (*ctx).cpus
                &&& (*final(ctx)).vmbus == (*ctx).vmbus
                &&& r is Ok <==> line != 255 && line < (*ctx).irq_pins && exists|v: u8|
                    #[trigger] free.contains(v)
                &&& match r {
                    Ok(route) => {
                        &&& route.line == line
                        &&& free.contains(route.isr.vector)
                        &&& forall|v: u8| v < route.isr.vector ==> !#[trigger] free.contains(v)
                        &&& forall|v: u8|
                            #[trigger] left.contains(v) <==> free.contains(v) && v
                                != route.isr.vector
                        &&& route.isr.cpu_id == CpuId::Bsp
                        &&& (*ctx).cpus@[0] matches Some(local) ==> route.apic_id == local.apic_id
                        &&& (*ctx).cpus@[0] is None ==> route.apic_id == 0
                    },
                    Err(e) => {
                        &&& left == free
                        &&& line == 255 || line >= (*ctx).irq_pins ==> e
                            == ProbeError::InvalidIrqLine(line)
                        &&& line != 255 && line < (*ctx).irq_pins ==> e == ProbeError::NoFreeVector
                    },
                }
            },
{
    assert forall|ctx: &mut ProbeCtx<H>| #[trigger]
        call_ensures(ProbeCtx::<H>::install_pci_isr, (ctx, line), r) && r is Ok implies {
        let free = (*ctx).irq_alloc.free();
        &&& exists|v: u8| #[trigger] free.contains(v)
        &&& (*ctx).cpus@[0] matches Some(local) ==> r->Ok_0.apic_id == local.apic_id
        &&& (*ctx).cpus@[0] is None ==> r->Ok_0.apic_id == 0
    } by {
        assert((*ctx).irq_alloc.free().contains(r->Ok_0.isr.vector));
        (*ctx).cpus.has_every_slot();
    }
}

/// The NIC that is used has the lowest priority number, and comes before every
/// other that has it; there is none only where there is no NIC.
pub proof fn lowest_priority_is_used<N>(nics: &Vec<ProbedNic<N>>, r: Option<usize>)
    requires
        call_ensures(select_primary::<N>, (nics,), r),
    ensures
        r is Some <==> nics@.len() > 0,
        r matches Some(i) ==> {
            &&& i < nics@.len()
            &&& forall|j: int|
                0 <= j < nics@.len() ==> nics@[i as int].priority <= (#[trigger] nics@[j]).priority
            &&& forall|j: int|
                0 <= j < nics@.len() && (#[trigger] nics@[j]).priority == nics@[i as int].priority
                    ==> i <= j
        },
{
}

/// A NIC that probed keeps who drives it, its priority and its name.
pub proof fn probed_nic_keeps_its_driver<N>(
    driver: N,
    priority: u8,
    name: &'static str,
    nic: ProbedNic<N>,
)
    requires
        call_ensures(ProbedNic::<N>::new, (driver, priority, name), nic),
    ensures
        nic.driver == driver,
        nic.priority == priority,
        nic.name == name,
{
}

} // verus!
