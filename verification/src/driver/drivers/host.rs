//! What the in-tree drivers share.

use super::e1000::{e1000_probed, is_e1000, E1000Driver};
use super::tulip::{is_tulip, tulip_probed, TulipDriver};
use crate::driver::driver::{isr_installed, IrqRoute, PciDriver, PciProbe, ProbeCtx};
use crate::driver::error::ProbeError;
use crate::hal::pci::{at, words_lie_there, PciBus, PciDevice};
use crate::e1000::reset::{
    reset_device, reset_is_so, reset_ops, reset_readings, was_reset, ResetOutcome,
};
use crate::hyperv::{HvError, VmBus};
use crate::regs::{since, RegOp, RegisterAccess, Traced};
use vstd::prelude::*;

verus! {

/// Largest Ethernet frame without its checksum, the transmission unit of the
/// PCI NICs.
pub const ETHERNET_MTU: usize = 1514;

/// PCI interrupt line.
pub const PCI_INTERRUPT_LINE: u8 = 0x3C;

/// How the control and status registers of a tulip are reached.
#[derive(Debug, Clone, Copy, PartialEq, Eq, Structural)]
pub enum CsrAccess {
    /// Through I/O ports.
    Io(u16),
    /// In memory, at a virtual address.
    Mmio(usize),
}

/// A PCI NIC, by how its registers are reached.
#[derive(Debug, Clone, Copy, PartialEq, Eq, Structural)]
pub enum NicAt {
    /// An e1000, with its registers at a virtual address.
    E1000(usize),
    Tulip(CsrAccess),
}

/// A platform on which NICs can be brought up: it maps device memory, sets up
/// rings in DMA memory, and installs interrupt handlers.
pub trait NicHost: Sized {
    /// The registers of a device, in mapped memory.
    type Regs: RegisterAccess;

    /// A NIC that is up.
    type Nic;

    /// Map device memory and say where it is.
    fn map_mmio(&mut self, phys: u64, size: u64) -> usize;

    /// The registers at a virtual address.
    fn registers(&mut self, base: usize) -> Self::Regs;

    /// A device did not come out of reset: there is nothing more that can be
    /// done with it.
    fn reset_timed_out(&mut self);

    /// Tell the interrupt handler of a NIC how its registers are reached.
    fn publish(&mut self, nic: NicAt);

    /// Set up the rings of a NIC and read its hardware address.
    fn set_up(&mut self, nic: NicAt) -> Self::Nic;

    /// Point a vector at the interrupt handler of a NIC, and an interrupt pin
    /// at the vector.
    fn route(&mut self, nic: NicAt, route: IrqRoute);

    /// Let a NIC raise interrupts.
    fn enable_interrupts(&mut self, nic: &mut Self::Nic);

    /// The hardware address of a NIC.
    fn mac(&mut self, nic: &Self::Nic) -> [u8; 6];

    /// Send a frame.
    fn transmit(&mut self, nic: &mut Self::Nic, frame: &[u8]);

    /// Bring up the NetVSC that a VMBus offers.
    fn netvsc(&mut self, vmbus: &mut VmBus) -> Result<Self::Nic, HvError>;
}

/// Something that a platform did.
pub enum HostAct<N> {
    /// Device memory was mapped.
    Mapped { phys: u64, size: u64, base: usize },
    /// The device with registers at `base` was reset, by these accesses.
    Reset { base: usize, ops: Seq<RegOp>, outcome: ResetOutcome },
    /// A device was given up.
    GaveUp,
    /// An interrupt handler was told of its NIC.
    Published(NicAt),
    /// A NIC was set up.
    SetUp { at: NicAt, nic: N },
    /// An interrupt was routed to the handler of a NIC.
    Routed { at: NicAt, route: IrqRoute },
    /// A NIC may raise interrupts.
    Enabled { before: N, after: N },
    /// A frame was handed to a NIC.
    Transmitted { before: N, after: N, frame: Seq<u8> },
}

/// Whether an interrupt is routed to the handler of a NIC only when the handler
/// knows the NIC, and a NIC may raise interrupts only when one is routed.
pub open spec fn wired_in_order<N>(acts: Seq<HostAct<N>>) -> bool {
    &&& forall|i: int|
        0 <= i < acts.len() ==> (#[trigger] acts[i] matches HostAct::Routed { at, .. } ==> exists|
            j: int,
        | 0 <= j < i && #[trigger] acts[j] == HostAct::<N>::Published(at))
    &&& forall|i: int|
        0 <= i < acts.len() ==> (#[trigger] acts[i] is Enabled ==> exists|j: int|
            0 <= j < i && #[trigger] acts[j] is Routed)
}

/// A platform, together with a record of what it did. The record exists only
/// in proofs.
pub struct Hosted<H: NicHost> {
    inner: H,
    acts: Ghost<Seq<HostAct<H::Nic>>>,
}

/// The hardware that the in-tree drivers work with: a platform and
/// configuration space.
pub struct Platform<H: NicHost, C> {
    pub host: Hosted<H>,
    pub cfg: Traced<C>,
}

impl<H: NicHost> Hosted<H> {
    /// Everything the platform did, in order.
    pub closed spec fn acts(&self) -> Seq<HostAct<H::Nic>> {
        self.acts@
    }

    /// The platform.
    pub closed spec fn host(&self) -> H {
        self.inner
    }

    /// A platform that has not done anything yet.
    pub fn new(inner: H) -> (hosted: Self)
        ensures
            hosted.host() == inner,
            hosted.acts() == Seq::<HostAct<H::Nic>>::empty(),
    {
        Hosted { inner, acts: Ghost(Seq::empty()) }
    }

    /// The platform.
    pub fn inner(&self) -> (inner: &H)
        ensures
            *inner == self.host(),
    {
        &self.inner
    }

    /// Map device memory, as the platform does it.
    pub fn map_mmio(&mut self, phys: u64, size: u64) -> (base: usize)
        ensures
            final(self).acts() == old(self).acts().push(HostAct::Mapped { phys, size, base }),
            exists|host: &mut H|
                *host == old(self).host() && *final(host) == final(self).host()
                    && #[trigger] call_ensures(<H as NicHost>::map_mmio, (host, phys, size), base),
    {
        let base: usize = self.inner.map_mmio(phys, size);
        proof {
            self.acts@ = self.acts@.push(HostAct::Mapped { phys, size, base });
        }
        base
    }

    /// Reset the e1000 with registers at `base`, by a call of
    /// [`reset_device`] on the registers that the platform gives.
    pub fn reset(&mut self, base: usize) -> (outcome: ResetOutcome)
        ensures
            exists|ctl: u32, values: Seq<u32>|
                reset_readings(values, outcome) && final(self).acts() == old(self).acts().push(
                    HostAct::Reset {
                        base,
                        ops: #[trigger] reset_ops(ctl, values, outcome),
                        outcome,
                    },
                ),
            exists|host: &mut H, regs: H::Regs, traced: &mut Traced<H::Regs>|
                {
                    &&& *host == old(self).host()
                    &&& *final(host) == final(self).host()
                    &&& #[trigger] call_ensures(<H as NicHost>::registers, (host, base), regs)
                    &&& (*traced).regs() == regs
                    &&& (*traced).trace() == Seq::<RegOp>::empty()
                    &&& #[trigger] call_ensures(reset_device::<H::Regs>, (traced,), outcome)
                    &&& final(self).acts() == old(self).acts().push(
                        HostAct::Reset { base, ops: (*final(traced)).trace(), outcome },
                    )
                },
    {
        let mut regs = Traced::new(self.inner.registers(base));
        let outcome = reset_device(&mut regs);
        proof {
            let ops = regs.trace();
            assert(since(Seq::empty(), ops) =~= ops);
            self.acts@ = self.acts@.push(HostAct::Reset { base, ops, outcome });
        }
        outcome
    }

    /// Give up a device that did not come out of reset.
    pub fn reset_timed_out(&mut self)
        ensures
            final(self).acts() == old(self).acts().push(HostAct::GaveUp),
            exists|host: &mut H|
                *host == old(self).host() && *final(host) == final(self).host()
                    && #[trigger] call_ensures(<H as NicHost>::reset_timed_out, (host,), ()),
    {
        self.inner.reset_timed_out();
        proof {
            self.acts@ = self.acts@.push(HostAct::GaveUp);
        }
    }

    /// Tell an interrupt handler of its NIC.
    pub fn publish(&mut self, nic: NicAt)
        ensures
            final(self).acts() == old(self).acts().push(HostAct::Published(nic)),
            exists|host: &mut H|
                *host == old(self).host() && *final(host) == final(self).host()
                    && #[trigger] call_ensures(<H as NicHost>::publish, (host, nic), ()),
    {
        self.inner.publish(nic);
        proof {
            self.acts@ = self.acts@.push(HostAct::Published(nic));
        }
    }

    /// Set up a NIC.
    pub fn set_up(&mut self, at: NicAt) -> (nic: H::Nic)
        ensures
            final(self).acts() == old(self).acts().push(HostAct::SetUp { at, nic }),
            exists|host: &mut H|
                *host == old(self).host() && *final(host) == final(self).host()
                    && #[trigger] call_ensures(<H as NicHost>::set_up, (host, at), nic),
    {
        let nic = self.inner.set_up(at);
        proof {
            self.acts@ = self.acts@.push(HostAct::SetUp { at, nic });
        }
        nic
    }

    /// Route an interrupt to the handler of a NIC.
    pub fn route(&mut self, at: NicAt, route: IrqRoute)
        ensures
            final(self).acts() == old(self).acts().push(HostAct::Routed { at, route }),
            exists|host: &mut H|
                *host == old(self).host() && *final(host) == final(self).host()
                    && #[trigger] call_ensures(<H as NicHost>::route, (host, at, route), ()),
    {
        self.inner.route(at, route);
        proof {
            self.acts@ = self.acts@.push(HostAct::Routed { at, route });
        }
    }

    /// Let a NIC raise interrupts.
    pub fn enable_interrupts(&mut self, nic: &mut H::Nic)
        ensures
            final(self).acts() == old(self).acts().push(
                HostAct::Enabled { before: *old(nic), after: *final(nic) },
            ),
            exists|host: &mut H, it: &mut H::Nic|
                *host == old(self).host() && *final(host) == final(self).host() && *it == *old(nic)
                    && *final(it) == *final(nic) && #[trigger] call_ensures(
                    <H as NicHost>::enable_interrupts,
                    (host, it),
                    (),
                ),
    {
        let ghost before = *nic;
        self.inner.enable_interrupts(nic);
        proof {
            self.acts@ = self.acts@.push(HostAct::Enabled { before, after: *nic });
        }
    }

    /// The hardware address of a NIC.
    pub fn mac(&mut self, nic: &H::Nic) -> (mac: [u8; 6])
        ensures
            final(self).acts() == old(self).acts(),
            exists|host: &mut H|
                *host == old(self).host() && *final(host) == final(self).host()
                    && #[trigger] call_ensures(<H as NicHost>::mac, (host, nic), mac),
    {
        self.inner.mac(nic)
    }

    /// Send a frame.
    pub fn transmit(&mut self, nic: &mut H::Nic, frame: &[u8])
        ensures
            final(self).acts() == old(self).acts().push(
                HostAct::Transmitted { before: *old(nic), after: *final(nic), frame: frame@ },
            ),
            exists|host: &mut H, it: &mut H::Nic|
                *host == old(self).host() && *final(host) == final(self).host() && *it == *old(nic)
                    && *final(it) == *final(nic) && #[trigger] call_ensures(
                    <H as NicHost>::transmit,
                    (host, it, frame),
                    (),
                ),
    {
        let ghost before = *nic;
        self.inner.transmit(nic, frame);
        proof {
            self.acts@ = self.acts@.push(
                HostAct::Transmitted { before, after: *nic, frame: frame@ },
            );
        }
    }

    /// Bring up the NetVSC that a VMBus offers.
    pub fn netvsc(&mut self, vmbus: &mut VmBus) -> (r: Result<H::Nic, HvError>)
        ensures
            final(self).acts() == old(self).acts(),
            exists|host: &mut H, bus: &mut VmBus|
                *host == old(self).host() && *final(host) == final(self).host() && *bus == *old(
                    vmbus,
                ) && *final(bus) == *final(vmbus) && #[trigger] call_ensures(
                    <H as NicHost>::netvsc,
                    (host, bus),
                    r,
                ),
    {
        self.inner.netvsc(vmbus)
    }
}

/// Any in-tree PCI driver.
pub enum InTreePci {
    E1000(E1000Driver),
    Tulip(TulipDriver),
}

impl InTreePci {
    /// The name of the driver.
    pub open spec fn label(self) -> Seq<char> {
        match self {
            InTreePci::E1000(_) => "e1000"@,
            InTreePci::Tulip(_) => "tulip"@,
        }
    }

    /// The priority of the driver.
    pub open spec fn rank(self) -> u8 {
        match self {
            InTreePci::E1000(_) => 20,
            InTreePci::Tulip(_) => 30,
        }
    }

    /// Whether the driver drives a device.
    pub open spec fn drives(self, dev: PciDevice) -> bool {
        match self {
            InTreePci::E1000(_) => is_e1000(dev),
            InTreePci::Tulip(_) => is_tulip(dev),
        }
    }
}

impl PciDriver for InTreePci {
    fn name(&self) -> (name: &'static str)
        ensures
            name@ == self.label(),
    {
        match self {
            InTreePci::E1000(d) => d.name(),
            InTreePci::Tulip(d) => d.name(),
        }
    }

    fn priority(&self) -> (priority: u8)
        ensures
            priority == self.rank(),
    {
        match self {
            InTreePci::E1000(d) => d.priority(),
            InTreePci::Tulip(d) => d.priority(),
        }
    }

    fn matches(&self, dev: &PciDevice) -> (r: bool)
        ensures
            r == self.drives(*dev),
    {
        match self {
            InTreePci::E1000(d) => d.matches(dev),
            InTreePci::Tulip(d) => d.matches(dev),
        }
    }
}

impl<H: NicHost, C: RegisterAccess> PciProbe<Platform<H, C>, H::Nic> for InTreePci {
    fn probe(&self, dev: PciDevice, ctx: &mut ProbeCtx<Platform<H, C>>) -> (r: Result<
        H::Nic,
        ProbeError,
    >)
        ensures
            match self {
                InTreePci::E1000(_) => e1000_probed(*old(ctx), *final(ctx), dev, r),
                InTreePci::Tulip(_) => tulip_probed(*old(ctx), *final(ctx), dev, r),
            },
    {
        match self {
            InTreePci::E1000(d) => d.probe(dev, ctx),
            InTreePci::Tulip(d) => d.probe(dev, ctx),
        }
    }
}

/// Whether only the hardware and the free vectors differ.
pub open spec fn same_machine<H>(before: ProbeCtx<H>, after: ProbeCtx<H>) -> bool {
    &&& after.irq_pins == before.irq_pins
    &&& after.cpus == before.cpus
    &&& after.vmbus == before.vmbus
}

/// What routing the interrupt of a device does and gives, where configuration
/// space says `word` of its interrupt line.
pub open spec fn irq_routed<H: NicHost, C>(
    before: ProbeCtx<Platform<H, C>>,
    after: ProbeCtx<Platform<H, C>>,
    dev: PciDevice,
    nic: NicAt,
    word: u32,
    r: Result<IrqRoute, ProbeError>,
) -> bool {
    &&& same_machine(before, after)
    &&& after.hw.cfg.trace() == before.hw.cfg.trace().push(line_read(dev, word))
    &&& isr_installed(
        (word % 256) as u8,
        before.irq_pins,
        before.cpus,
        before.irq_alloc.free(),
        after.irq_alloc.free(),
        r,
    )
    &&& after.hw.host.acts() == match r {
        Ok(route) => before.hw.host.acts().push(HostAct::Routed { at: nic, route }),
        Err(_) => before.hw.host.acts(),
    }
}

/// Reading the interrupt line of a device.
pub open spec fn line_read(dev: PciDevice, word: u32) -> RegOp {
    RegOp::Read { offset: at(dev.bus, dev.dev, dev.func, PCI_INTERRUPT_LINE), value: word }
}

/// Route the interrupt line that a device's configuration space names (low
/// byte of register 0x3C) to the handler of its NIC.
pub fn route_irq<H: NicHost, C: RegisterAccess>(
    dev: &PciDevice,
    ctx: &mut ProbeCtx<Platform<H, C>>,
    nic: NicAt,
) -> (r: Result<IrqRoute, ProbeError>)
    ensures
        exists|word: u32| #[trigger] irq_routed(*old(ctx), *final(ctx), *dev, nic, word, r),
{
    let word: u32 = PciBus.read_config(&mut ctx.hw.cfg, dev, PCI_INTERRUPT_LINE);
    let line: u8 = (word % 256) as u8;
    let r = ctx.install_pci_isr(line);
    if let Ok(route) = r {
        ctx.hw.host.route(nic, route);
    }
    assert(irq_routed(*old(ctx), *ctx, *dev, nic, word, r));
    r
}

/// The in-tree PCI drivers, as they say of themselves.
pub proof fn in_tree_drivers_are_these(
    driver: &InTreePci,
    dev: &PciDevice,
    name: &'static str,
    priority: u8,
    r: bool,
)
    ensures
        call_ensures(<InTreePci as PciDriver>::name, (driver,), name) ==> name@ == if *driver
            is E1000 {
            "e1000"@
        } else {
            "tulip"@
        },
        call_ensures(<InTreePci as PciDriver>::priority, (driver,), priority) ==> priority
            == if *driver is E1000 {
            20int
        } else {
            30
        },
        call_ensures(<InTreePci as PciDriver>::matches, (driver, dev), r) ==> (r <==> if *driver
            is E1000 {
            dev.vendor == 0x8086 && (dev.device == 0x100E || dev.device == 0x100F || dev.device
                == 0x10D3)
        } else {
            dev.vendor == 0x1011 && (dev.device == 0x0009 || dev.device == 0x0019)
        }),
{
}

/// The interrupt that is routed is that of the line in the low byte of the
/// device's word at 0x3C, to the handler of its NIC.
pub proof fn line_of_the_device_is_routed<H: NicHost, C: RegisterAccess>(
    dev: &PciDevice,
    nic: NicAt,
    r: Result<IrqRoute, ProbeError>,
)
    requires
        dev.dev < 32,
        dev.func < 8,
    ensures
        forall|ctx: &mut ProbeCtx<Platform<H, C>>| #[trigger]
            call_ensures(route_irq::<H, C>, (dev, ctx, nic), r) ==> {
                let n = (*ctx).hw.host.acts().len() as int;
                let acts = (*final(ctx)).hw.host.acts();
                let m = (*ctx).hw.cfg.trace().len() as int;
                let trace = (*final(ctx)).hw.cfg.trace();
                &&& (*final(ctx)).irq_pins == (*ctx).irq_pins
                &&& (*final(ctx)).cpus == (*ctx).cpus
                &&& (*final(ctx)).vmbus == (*ctx).vmbus
                &&& trace.len() == m + 1
                &&& trace[m] is Read
                &&& trace[m]->Read_offset == 0x8000_0000 + dev.bus * 0x1_0000 + dev.dev * 0x800
                    + dev.func * 0x100 + 0x3C
                &&& match r {
                    Ok(route) => {
                        &&& acts.len() == n + 1
                        &&& acts[n] == HostAct::<H::Nic>::Routed { at: nic, route }
                        &&& route.line == trace[m]->Read_value % 0x100
                        &&& route.line != 255 && route.line < (*ctx).irq_pins
                    },
                    Err(e) => {
                        let line = trace[m]->Read_value % 0x100;
                        &&& acts == (*ctx).hw.host.acts()
                        &&& e == if line == 255 || line >= (*ctx).irq_pins {
                            ProbeError::InvalidIrqLine(line as u8)
                        } else {
                            ProbeError::NoFreeVector
                        }
                    },
                }
            },
{
    words_lie_there(dev.bus, dev.dev, dev.func, 0x3C, 0);
}

/// The record of a platform tells of each thing it did once, as it was done,
/// behind those before.
pub proof fn acts_are_recorded<H: NicHost>(
    inner: H,
    hosted: Hosted<H>,
    phys: u64,
    size: u64,
    base: usize,
    at: NicAt,
    nic: H::Nic,
    route: IrqRoute,
)
    ensures
        call_ensures(Hosted::<H>::new, (inner,), hosted) ==> hosted.acts().len() == 0
            && hosted.host() == inner,
        forall|h: &mut Hosted<H>| #[trigger]
            call_ensures(Hosted::<H>::map_mmio, (h, phys, size), base) ==> {
                let before = (*h).acts();
                let after = (*final(h)).acts();
                let act: HostAct<H::Nic> = HostAct::Mapped { phys, size, base };
                &&& after.len() == before.len() + 1
                &&& after[before.len() as int] == act
                &&& forall|i: int| 0 <= i < before.len() ==> #[trigger] after[i] == before[i]
            },
        forall|h: &mut Hosted<H>| #[trigger]
            call_ensures(Hosted::<H>::reset_timed_out, (h,), ()) ==> {
                let before = (*h).acts();
                let after = (*final(h)).acts();
                let act: HostAct<H::Nic> = HostAct::GaveUp;
                &&& after.len() == before.len() + 1
                &&& after[before.len() as int] == act
                &&& forall|i: int| 0 <= i < before.len() ==> #[trigger] after[i] == before[i]
            },
        forall|h: &mut Hosted<H>| #[trigger]
            call_ensures(Hosted::<H>::publish, (h, at), ()) ==> {
                let before = (*h).acts();
                let after = (*final(h)).acts();
                let act: HostAct<H::Nic> = HostAct::Published(at);
                &&& after.len() == before.len() + 1
                &&& after[before.len() as int] == act
                &&& forall|i: int| 0 <= i < before.len() ==> #[trigger] after[i] == before[i]
            },
        forall|h: &mut Hosted<H>| #[trigger]
            call_ensures(Hosted::<H>::set_up, (h, at), nic) ==> {
                let before = (*h).acts();
                let after = (*final(h)).acts();
                let act: HostAct<H::Nic> = HostAct::SetUp { at, nic };
                &&& after.len() == before.len() + 1
                &&& after[before.len() as int] == act
                &&& forall|i: int| 0 <= i < before.len() ==> #[trigger] after[i] == before[i]
            },
        forall|h: &mut Hosted<H>| #[trigger]
            call_ensures(Hosted::<H>::route, (h, at, route), ()) ==> {
                let before = (*h).acts();
                let after = (*final(h)).acts();
                let act: HostAct<H::Nic> = HostAct::Routed { at, route };
                &&& after.len() == before.len() + 1
                &&& after[before.len() as int] == act
                &&& forall|i: int| 0 <= i < before.len() ==> #[trigger] after[i] == before[i]
            },
{
}

/// A device that is reset is reset where it was told, and the record has the
/// accesses of a reset with that outcome.
pub proof fn reset_is_recorded<H: NicHost>(base: usize, outcome: ResetOutcome)
    ensures
        forall|h: &mut Hosted<H>| #[trigger]
            call_ensures(Hosted::<H>::reset, (h, base), outcome) ==> {
                let n = (*h).acts().len() as int;
                let acts = (*final(h)).acts();
                &&& acts.len() == n + 1
                &&& acts[n] is Reset
                &&& acts[n]->Reset_base == base
                &&& acts[n]->Reset_outcome == outcome
                &&& was_reset(acts[n]->Reset_ops, outcome)
                &&& forall|i: int| 0 <= i < n ==> #[trigger] acts[i] == (*h).acts()[i]
            },
{
    assert forall|h: &mut Hosted<H>| #[trigger]
        call_ensures(Hosted::<H>::reset, (h, base), outcome) implies {
        let n = (*h).acts().len() as int;
        let acts = (*final(h)).acts();
        &&& acts.len() == n + 1
        &&& acts[n] is Reset
        &&& acts[n]->Reset_base == base
        &&& acts[n]->Reset_outcome == outcome
        &&& was_reset(acts[n]->Reset_ops, outcome)
        &&& forall|i: int| 0 <= i < n ==> #[trigger] acts[i] == (*h).acts()[i]
    } by {
        let (ctl, values) = choose|ctl: u32, values: Seq<u32>|
            reset_readings(values, outcome) && (*final(h)).acts() == (*h).acts().push(
                HostAct::Reset { base, ops: #[trigger] reset_ops(ctl, values, outcome), outcome },
            );
        reset_is_so(ctl, values, outcome);
    }
}

} // verus!
