//! DEC 21140/21143 Tulip PCI driver.

use super::host::{
    irq_routed, line_read, route_irq, same_machine, wired_in_order, CsrAccess, HostAct, NicAt,
    NicHost, Platform,
};
use crate::driver::driver::{isr_installed, IrqRoute, PciDriver, PciProbe, ProbeCtx};
use crate::driver::error::ProbeError;
use crate::hal::pci::{
    at, bar_address, bar_read, bar_reading_is_so, bus_mastered, bus_mastering_is_so,
    words_lie_there, PciBus, PciDevice,
};
use crate::regs::{extends, since, since_concat, since_push, RegOp, RegisterAccess, Traced};
use vstd::prelude::*;

verus! {

/// Digital Equipment Corporation.
pub const VENDOR_DEC: u16 = 0x1011;

/// Size of the register window that is mapped.
pub const MMIO_SIZE: u64 = 0x1000;

/// Number of the status register.
pub const CSR5: usize = 5;

/// Number of the interrupt enable register.
pub const CSR7: usize = 7;

/// Interrupts that are enabled: transmit (bit 0), receive (bit 6), abnormal
/// summary (bit 15), normal summary (bit 16).
pub const CSR7_ENABLED: u32 = 0x0001_8041;

/// Marker registered with the driver registry.
pub struct TulipDriver;

/// The devices of the family.
pub open spec fn is_tulip(dev: PciDevice) -> bool {
    dev.vendor == VENDOR_DEC && (dev.device == 0x0009 || dev.device == 0x0019)
}

/// Where the control and status registers of a device are.
#[derive(Debug, Clone, Copy, PartialEq, Eq, Structural)]
pub enum CsrBase {
    /// Behind I/O ports.
    Io(u16),
    /// In memory, at a physical address.
    Mmio(u64),
}

impl PciDriver for TulipDriver {
    fn name(&self) -> (name: &'static str)
        ensures
            name@ == "tulip"@,
    {
        "tulip"
    }

    fn priority(&self) -> (priority: u8)
        ensures
            priority == 30,
    {
        30
    }

    fn matches(&self, dev: &PciDevice) -> (r: bool)
        ensures
            r == is_tulip(*dev),
    {
        dev.vendor == VENDOR_DEC && (dev.device == 0x0009 || dev.device == 0x0019)
    }
}

/// How the registers are reached, once memory at `vaddr` is mapped to them if
/// they are in memory.
pub open spec fn csr_of(base: CsrBase, vaddr: usize) -> CsrAccess {
    match base {
        CsrBase::Io(port) => CsrAccess::Io(port),
        CsrBase::Mmio(_) => CsrAccess::Mmio(vaddr),
    }
}

/// What a platform does to bring up a tulip, as far as its interrupt can be
/// routed. The handler knows the registers before the device is set up.
pub open spec fn tulip_acts<N>(
    base: CsrBase,
    vaddr: usize,
    nic: N,
    route: Result<IrqRoute, ProbeError>,
    up: N,
) -> Seq<HostAct<N>> {
    let at = NicAt::Tulip(csr_of(base, vaddr));
    let mapped = match base {
        CsrBase::Io(_) => seq![],
        CsrBase::Mmio(phys) => seq![HostAct::Mapped { phys, size: MMIO_SIZE, base: vaddr }],
    };
    let wired = match route {
        Ok(route) => seq![HostAct::Routed { at, route }, HostAct::Enabled { before: nic, after: up }],
        Err(_) => seq![],
    };
    mapped + seq![HostAct::Published(at), HostAct::SetUp { at, nic }] + wired
}

/// What bringing up a tulip consists of.
pub struct TulipBringUp<N> {
    /// The accesses to configuration space that find the registers.
    pub opening: Seq<RegOp>,
    pub base: CsrBase,
    pub vaddr: usize,
    /// The NIC as it was set up.
    pub nic: N,
    /// What configuration space says of the interrupt line.
    pub word: u32,
    pub route: Result<IrqRoute, ProbeError>,
    /// The NIC with its interrupts on.
    pub up: N,
}

/// What probing a tulip does and gives, in the course `b`: it fails only where
/// its interrupt cannot be routed.
pub open spec fn tulip_brought_up<H: NicHost, C>(
    before: ProbeCtx<Platform<H, C>>,
    after: ProbeCtx<Platform<H, C>>,
    dev: PciDevice,
    b: TulipBringUp<H::Nic>,
    r: Result<H::Nic, ProbeError>,
) -> bool {
    &&& same_machine(before, after)
    &&& after.hw.cfg.trace() == before.hw.cfg.trace() + b.opening.push(line_read(dev, b.word))
    &&& opened(b.opening, dev, b.base)
    &&& isr_installed(
        (b.word % 256) as u8,
        before.irq_pins,
        before.cpus,
        before.irq_alloc.free(),
        after.irq_alloc.free(),
        b.route,
    )
    &&& after.hw.host.acts() == before.hw.host.acts() + tulip_acts(
        b.base,
        b.vaddr,
        b.nic,
        b.route,
        b.up,
    )
    &&& r == match b.route {
        Ok(_) => Ok(b.up),
        Err(e) => Err(e),
    }
}

/// What probing a tulip does and gives.
pub open spec fn tulip_probed<H: NicHost, C>(
    before: ProbeCtx<Platform<H, C>>,
    after: ProbeCtx<Platform<H, C>>,
    dev: PciDevice,
    r: Result<H::Nic, ProbeError>,
) -> bool {
    exists|b: TulipBringUp<H::Nic>| #[trigger] tulip_brought_up(before, after, dev, b, r)
}

/// A tulip is wired in order, in whatever course it is brought up.
pub proof fn tulip_is_wired_in_order<N>(b: TulipBringUp<N>)
    ensures
        wired_in_order(tulip_acts(b.base, b.vaddr, b.nic, b.route, b.up)),
{
    let acts = tulip_acts(b.base, b.vaddr, b.nic, b.route, b.up);
    if b.route is Ok {
        let at = NicAt::Tulip(csr_of(b.base, b.vaddr));
        assert(acts[acts.len() - 4] == HostAct::<N>::Published(at));
        assert(acts[acts.len() - 2] is Routed);
    }
}

impl<H: NicHost, C: RegisterAccess> PciProbe<Platform<H, C>, H::Nic> for TulipDriver {
    fn probe(&self, dev: PciDevice, ctx: &mut ProbeCtx<Platform<H, C>>) -> (r: Result<
        H::Nic,
        ProbeError,
    >)
        ensures
            tulip_probed(*old(ctx), *final(ctx), dev, r),
    {
        let base = self.open(&PciBus, &mut ctx.hw.cfg, &dev);
        let ghost opening = since(old(ctx).hw.cfg.trace(), ctx.hw.cfg.trace());
        assert(ctx.hw.cfg.trace() =~= old(ctx).hw.cfg.trace() + opening);
        let ghost mut vaddr: usize = 0;
        let csr = match base {
            CsrBase::Io(port) => CsrAccess::Io(port),
            CsrBase::Mmio(phys) => {
                let mapped: usize = ctx.hw.host.map_mmio(phys, MMIO_SIZE);
                proof {
                    vaddr = mapped;
                }
                CsrAccess::Mmio(mapped)
            },
        };
        let at = NicAt::Tulip(csr);
        // The handler must know the registers before the interrupt is wired.
        ctx.hw.host.publish(at);
        let mut nic = ctx.hw.host.set_up(at);
        let ghost first = nic;
        let ghost middle = *ctx;
        let route = route_irq(&dev, ctx, at);
        let ghost word = choose|word: u32| #[trigger] irq_routed(middle, *ctx, dev, at, word, route);
        match route {
            Ok(_) => {
                ctx.hw.host.enable_interrupts(&mut nic);
                proof {
                    let b = TulipBringUp { opening, base, vaddr, nic: first, word, route, up: nic };
                    assert(ctx.hw.host.acts() =~= old(ctx).hw.host.acts() + tulip_acts(
                        base,
                        vaddr,
                        first,
                        route,
                        nic,
                    ));
                    assert(tulip_brought_up(*old(ctx), *ctx, dev, b, Ok(nic)));
                }
                Ok(nic)
            },
            Err(e) => {
                proof {
                    let b = TulipBringUp { opening, base, vaddr, nic: first, word, route, up: first };
                    assert(ctx.hw.host.acts() =~= old(ctx).hw.host.acts() + tulip_acts(
                        base,
                        vaddr,
                        first,
                        route,
                        first,
                    ));
                    assert(tulip_brought_up(*old(ctx), *ctx, dev, b, Err(e)));
                }
                Err(e)
            },
        }
    }
}

/// What opening a device does and gives: it is made a bus master, and BAR 0
/// says where its registers are, bit 0 whether they are I/O ports.
pub open spec fn opened(ops: Seq<RegOp>, dev: PciDevice, base: CsrBase) -> bool {
    let raw = ops[4]->Read_value;
    &&& ops.len() >= 5
    &&& exists|readback: u16| #[trigger] bus_mastered(ops.take(4), dev, readback)
    &&& ops[4] is Read
    &&& ops[4]->Read_offset == at(dev.bus, dev.dev, dev.func, 0x10)
    &&& match base {
        CsrBase::Io(port) => {
            &&& raw % 2 == 1
            &&& ops.len() == 5
            &&& port == (raw - raw % 4) % 65536
        },
        CsrBase::Mmio(addr) => {
            &&& raw % 2 == 0
            &&& bar_read(ops.skip(5), dev, 0, addr)
        },
    }
}

impl TulipDriver {
    /// Make a device a bus master and find its registers.
    pub fn open<R: RegisterAccess>(&self, pci: &PciBus, cfg: &mut Traced<R>, dev: &PciDevice) -> (base:
        CsrBase)
        ensures
            extends(old(cfg).trace(), final(cfg).trace()),
            opened(since(old(cfg).trace(), final(cfg).trace()), *dev, base),
    {
        let ghost start = cfg.trace();
        let readback: u16 = pci.enable_bus_mastering(cfg, dev);
        let ghost mastered = cfg.trace();
        let raw: u32 = pci.read_config(cfg, dev, 0x10);
        let ghost middle = cfg.trace();
        let ghost known = since(start, middle);
        proof {
            since_push(start, mastered, middle.last());
            assert(known.take(4) =~= since(start, mastered));
            assert(bus_mastered(known.take(4), *dev, readback));
        }
        if raw % 2 == 1 {
            let port: u16 = ((raw - raw % 4) % 65536) as u16;
            CsrBase::Io(port)
        } else {
            let addr: u64 = pci.read_bar(cfg, dev, 0);
            proof {
                since_concat(start, middle, cfg.trace());
                let ops = since(start, cfg.trace());
                assert(ops.take(4) =~= known.take(4));
                assert(ops.skip(5) =~= since(middle, cfg.trace()));
            }
            CsrBase::Mmio(addr)
        }
    }

    /// Serve an interrupt: disable interrupts, clear the status bits that are
    /// set by writing them back, enable interrupts again.
    ///
    /// Registers are numbered as in the data sheet (CSR0, CSR1, ...).
    pub fn acknowledge_interrupt<R: RegisterAccess>(&self, regs: &mut Traced<R>) -> (status: u32)
        ensures
            final(regs).trace() == old(regs).trace() + seq![
                RegOp::Write { offset: CSR7, value: 0 },
                RegOp::Read { offset: CSR5, value: status },
                RegOp::Write { offset: CSR5, value: status },
                RegOp::Write { offset: CSR7, value: CSR7_ENABLED },
            ],
    {
        regs.write_reg(CSR7, 0);
        let status: u32 = regs.read_reg(CSR5);
        regs.write_reg(CSR5, status);
        regs.write_reg(CSR7, CSR7_ENABLED);
        assert(regs.trace() =~= old(regs).trace() + seq![
            RegOp::Write { offset: CSR7, value: 0 },
            RegOp::Read { offset: CSR5, value: status },
            RegOp::Write { offset: CSR5, value: status },
            RegOp::Write { offset: CSR7, value: CSR7_ENABLED },
        ]);
        status
    }
}

// ── What bringing up a tulip comes to ───────────────────────────────────

/// The driver says its name, its priority, and which devices are of its family:
/// two of DEC's.
pub proof fn tulip_is_this_family(
    driver: &TulipDriver,
    dev: &PciDevice,
    name: &'static str,
    priority: u8,
    r: bool,
)
    ensures
        call_ensures(<TulipDriver as PciDriver>::name, (driver,), name) ==> name@ == "tulip"@,
        call_ensures(<TulipDriver as PciDriver>::priority, (driver,), priority) ==> priority == 30,
        call_ensures(<TulipDriver as PciDriver>::matches, (driver, dev), r) ==> (r <==> dev.vendor
            == 0x1011 && (dev.device == 0x0009 || dev.device == 0x0019)),
        is_tulip(*dev) <==> dev.vendor == 0x1011 && (dev.device == 0x0009 || dev.device == 0x0019),
{
}

/// Where the registers of a device are, in what was read of it: behind ports
/// where bit 0 of its BAR 0 is set, at the port that the low sixteen bits name
/// without bits 0 and 1; else in memory, at the address that the BAR gives.
pub open spec fn opened_so(ops: Seq<RegOp>, dev: PciDevice, base: CsrBase) -> bool {
    let there = 0x8000_0000 + dev.bus * 0x1_0000 + dev.dev * 0x800 + dev.func * 0x100;
    let raw = ops[4]->Read_value;
    &&& ops.len() >= 5
    &&& ops[2] is Write && ops[2]->Write_offset == there + 4 && ops[2]->Write_value % 8 == 7
    &&& ops[4] is Read && ops[4]->Read_offset == there + 0x10
    &&& base is Io <==> raw % 2 == 1
    &&& match base {
        CsrBase::Io(port) => {
            &&& ops.len() == 5
            &&& port % 4 == 0
            &&& port <= raw % 0x1_0000 < port + 4
        },
        CsrBase::Mmio(addr) => {
            &&& ops[5] is Read && ops[5]->Read_offset == there + 0x10
            &&& addr == bar_address(ops[5]->Read_value, ops[6]->Read_value)
            &&& ops.len() == if ops[5]->Read_value / 2 % 4 == 2 {
                7int
            } else {
                6
            }
            &&& ops.len() == 7 ==> ops[6] is Read && ops[6]->Read_offset == there + 0x14
        },
    }
}

/// What opening a device consists of.
pub proof fn opening_is_so(ops: Seq<RegOp>, dev: PciDevice, base: CsrBase)
    requires
        dev.dev < 32,
        dev.func < 8,
        opened(ops, dev, base),
    ensures
        opened_so(ops, dev, base),
{
    let readback = choose|readback: u16| #[trigger] bus_mastered(ops.take(4), dev, readback);
    bus_mastering_is_so(ops.take(4), dev, readback);
    words_lie_there(dev.bus, dev.dev, dev.func, 0x10, 0);
    assert(ops[2] == ops.take(4)[2]);
    match base {
        CsrBase::Io(port) => {
            let raw = ops[4]->Read_value;
            assert(port % 4 == 0 && port <= raw % 0x1_0000 < port + 4) by {
                assert((raw - raw % 4) % 65536 == raw % 65536 - raw % 4);
            }
        },
        CsrBase::Mmio(addr) => {
            let rest = ops.skip(5);
            bar_reading_is_so(rest, dev, 0, addr);
            assert(rest[0] == ops[5]);
            if rest.len() == 2 {
                assert(rest[1] == ops[6]);
            }
        },
    }
}

/// A device that is opened gives its registers so.
pub proof fn tulip_is_opened<R: RegisterAccess>(
    driver: &TulipDriver,
    pci: &PciBus,
    dev: &PciDevice,
    base: CsrBase,
)
    requires
        dev.dev < 32,
        dev.func < 8,
    ensures
        forall|cfg: &mut Traced<R>| #[trigger]
            call_ensures(TulipDriver::open::<R>, (driver, pci, cfg, dev), base) ==> ({
                let ops = (*final(cfg)).trace().skip((*cfg).trace().len() as int);
                let dev = *dev;
                let there = 0x8000_0000 + dev.bus * 0x1_0000 + dev.dev * 0x800 + dev.func * 0x100;
                let raw = ops[4]->Read_value;
                &&& ops.len() >= 5
                &&& ops[2] is Write && ops[2]->Write_offset == there + 4 && ops[2]->Write_value % 8 == 7
                &&& ops[4] is Read && ops[4]->Read_offset == there + 0x10
                &&& base is Io <==> raw % 2 == 1
                &&& match base {
                    CsrBase::Io(port) => {
                        &&& ops.len() == 5
                        &&& port % 4 == 0
                        &&& port <= raw % 0x1_0000 < port + 4
                    },
                    CsrBase::Mmio(addr) => {
                        &&& ops[5] is Read && ops[5]->Read_offset == there + 0x10
                        &&& addr == bar_address(ops[5]->Read_value, ops[6]->Read_value)
                        &&& ops.len() == if ops[5]->Read_value / 2 % 4 == 2 {
                            7int
                        } else {
                            6
                        }
                        &&& ops.len() == 7 ==> ops[6] is Read && ops[6]->Read_offset == there + 0x14
                    },
                }
            }),
{
    assert forall|cfg: &mut Traced<R>| #[trigger]
        call_ensures(TulipDriver::open::<R>, (driver, pci, cfg, dev), base) implies opened_so(
        (*final(cfg)).trace().skip((*cfg).trace().len() as int),
        *dev,
        base,
    ) by {
        opening_is_so(since((*cfg).trace(), (*final(cfg)).trace()), *dev, base);
    }
}

/// What is done to a tulip that is brought up, act by act: where its registers
/// are in memory, 4 KiB of it are mapped; the handler is told of them; it is set
/// up there; and where its interrupt line can be routed it is routed and let
/// raise interrupts. What is given is the NIC that was set up, with its
/// interrupts on.
pub open spec fn tulip_went_up<H: NicHost, C>(
    before: ProbeCtx<Platform<H, C>>,
    after: ProbeCtx<Platform<H, C>>,
    dev: PciDevice,
    base: CsrBase,
    r: Result<H::Nic, ProbeError>,
) -> bool {
    let n = before.hw.host.acts().len() as int;
    let acts = after.hw.host.acts();
    let m = before.hw.cfg.trace().len() as int;
    let trace = after.hw.cfg.trace();
    let there = 0x8000_0000 + dev.bus * 0x1_0000 + dev.dev * 0x800 + dev.func * 0x100;
    let p: int = if base is Mmio {
        n + 1
    } else {
        n
    };
    let at = match base {
        CsrBase::Io(port) => NicAt::Tulip(CsrAccess::Io(port)),
        CsrBase::Mmio(_) => NicAt::Tulip(CsrAccess::Mmio(acts[n]->Mapped_base)),
    };
    &&& after.irq_pins == before.irq_pins
    &&& after.cpus == before.cpus
    &&& after.vmbus == before.vmbus
    &&& acts.take(n) == before.hw.host.acts()
    &&& trace.take(m) == before.hw.cfg.trace()
    &&& opened_so(trace.subrange(m, trace.len() - 1), dev, base)
    &&& trace.last() is Read
    &&& trace.last()->Read_offset == there + 0x3C
    &&& base matches CsrBase::Mmio(phys) ==> acts[n] is Mapped && acts[n]->Mapped_phys == phys
        && acts[n]->Mapped_size == 0x1000
    &&& acts[p] is Published && acts[p]->Published_0 == at
    &&& acts[p + 1] is SetUp && acts[p + 1]->SetUp_at == at
    &&& match r {
        Ok(nic) => {
            &&& acts.len() == p + 4
            &&& acts[p + 2] is Routed && acts[p + 2]->Routed_at == at
            &&& acts[p + 2]->Routed_route.line == trace.last()->Read_value % 0x100
            &&& before.irq_alloc.free().contains(acts[p + 2]->Routed_route.isr.vector)
            &&& acts[p + 3] is Enabled
            &&& acts[p + 3]->Enabled_before == acts[p + 1]->SetUp_nic
            &&& acts[p + 3]->Enabled_after == nic
        },
        Err(e) => {
            let line = trace.last()->Read_value % 0x100;
            &&& acts.len() == p + 2
            &&& after.irq_alloc.free() == before.irq_alloc.free()
            &&& e == if line == 255 || line >= before.irq_pins {
                ProbeError::InvalidIrqLine(line as u8)
            } else {
                ProbeError::NoFreeVector
            }
        },
    }
}

/// A tulip that is probed goes up so.
pub proof fn tulip_goes_up<H: NicHost, C: RegisterAccess>(
    driver: &TulipDriver,
    dev: PciDevice,
    r: Result<H::Nic, ProbeError>,
)
    requires
        dev.dev < 32,
        dev.func < 8,
    ensures
        forall|ctx: &mut ProbeCtx<Platform<H, C>>| #[trigger]
            call_ensures(
                <TulipDriver as PciProbe<Platform<H, C>, H::Nic>>::probe,
                (driver, dev, ctx),
                r,
            ) ==> exists|base: CsrBase|
                #![trigger tulip_went_up(*ctx, *final(ctx), dev, base, r)]
                {
                let before = *ctx;
                let after = *final(ctx);
                let n = before.hw.host.acts().len() as int;
                let acts = after.hw.host.acts();
                let m = before.hw.cfg.trace().len() as int;
                let trace = after.hw.cfg.trace();
                let there = 0x8000_0000 + dev.bus * 0x1_0000 + dev.dev * 0x800 + dev.func * 0x100;
                let p: int = if base is Mmio {
                    n + 1
                } else {
                    n
                };
                let at = match base {
                    CsrBase::Io(port) => NicAt::Tulip(CsrAccess::Io(port)),
                    CsrBase::Mmio(_) => NicAt::Tulip(CsrAccess::Mmio(acts[n]->Mapped_base)),
                };
                &&& after.irq_pins == before.irq_pins
                &&& after.cpus == before.cpus
                &&& after.vmbus == before.vmbus
                &&& acts.take(n) == before.hw.host.acts()
                &&& trace.take(m) == before.hw.cfg.trace()
                &&& opened_so(trace.subrange(m, trace.len() - 1), dev, base)
                &&& trace.last() is Read
                &&& trace.last()->Read_offset == there + 0x3C
                &&& base matches CsrBase::Mmio(phys) ==> acts[n] is Mapped && acts[n]->Mapped_phys == phys
                    && acts[n]->Mapped_size == 0x1000
                &&& acts[p] is Published && acts[p]->Published_0 == at
                &&& acts[p + 1] is SetUp && acts[p + 1]->SetUp_at == at
                &&& match r {
                    Ok(nic) => {
                        &&& acts.len() == p + 4
                        &&& acts[p + 2] is Routed && acts[p + 2]->Routed_at == at
                        &&& acts[p + 2]->Routed_route.line == trace.last()->Read_value % 0x100
                        &&& before.irq_alloc.free().contains(acts[p + 2]->Routed_route.isr.vector)
                        &&& acts[p + 3] is Enabled
                        &&& acts[p + 3]->Enabled_before == acts[p + 1]->SetUp_nic
                        &&& acts[p + 3]->Enabled_after == nic
                    },
                    Err(e) => {
                        let line = trace.last()->Read_value % 0x100;
                        &&& acts.len() == p + 2
                        &&& after.irq_alloc.free() == before.irq_alloc.free()
                        &&& e == if line == 255 || line >= before.irq_pins {
                            ProbeError::InvalidIrqLine(line as u8)
                        } else {
                            ProbeError::NoFreeVector
                        }
                    },
                }
            },
{
    assert forall|ctx: &mut ProbeCtx<Platform<H, C>>| #[trigger]
        call_ensures(
            <TulipDriver as PciProbe<Platform<H, C>, H::Nic>>::probe,
            (driver, dev, ctx),
            r,
        ) implies exists|base: CsrBase| #[trigger]
        tulip_went_up(*ctx, *final(ctx), dev, base, r) by {
        probed_tulip_went_up(*ctx, *final(ctx), dev, r);
    }
}

proof fn probed_tulip_went_up<H: NicHost, C: RegisterAccess>(
    before: ProbeCtx<Platform<H, C>>,
    after: ProbeCtx<Platform<H, C>>,
    dev: PciDevice,
    r: Result<H::Nic, ProbeError>,
)
    requires
        dev.dev < 32,
        dev.func < 8,
        tulip_probed(before, after, dev, r),
    ensures
        exists|base: CsrBase| #[trigger] tulip_went_up(before, after, dev, base, r),
{
    let b = choose|b: TulipBringUp<H::Nic>| #[trigger] tulip_brought_up(before, after, dev, b, r);
    let n = before.hw.host.acts().len() as int;
    let acts = after.hw.host.acts();
    let did = tulip_acts(b.base, b.vaddr, b.nic, b.route, b.up);
    let m = before.hw.cfg.trace().len() as int;
    let trace = after.hw.cfg.trace();
    opening_is_so(b.opening, dev, b.base);
    words_lie_there(dev.bus, dev.dev, dev.func, 0x3C, 0);
    assert(acts.take(n) =~= before.hw.host.acts());
    assert(trace.take(m) =~= before.hw.cfg.trace());
    assert(trace.subrange(m, trace.len() - 1) =~= b.opening);
    assert(trace.last() == line_read(dev, b.word));
    assert forall|i: int| 0 <= i < did.len() implies acts[n + i] == #[trigger] did[i] by {}
    let p: int = if b.base is Mmio {
        1
    } else {
        0
    };
    if b.base is Mmio {
        assert(acts[n] == did[0]);
    }
    assert(acts[n + p] == did[p]);
    assert(acts[n + p + 1] == did[p + 1]);
    if b.route is Ok {
        assert(acts[n + p + 2] == did[p + 2]);
        assert(acts[n + p + 3] == did[p + 3]);
    }
    assert(tulip_went_up(before, after, dev, b.base, r));
}

/// An interrupt is served: interrupts off, the status read and written back as
/// it was, and transmit, receive, abnormal and normal interrupts on again.
pub proof fn status_is_written_back<R: RegisterAccess>(driver: &TulipDriver, status: u32)
    ensures
        forall|regs: &mut Traced<R>| #[trigger]
            call_ensures(TulipDriver::acknowledge_interrupt::<R>, (driver, regs), status) ==> {
                let n = (*regs).trace().len() as int;
                let trace = (*final(regs)).trace();
                &&& trace.len() == n + 4
                &&& trace[n] == (RegOp::Write { offset: 7, value: 0 })
                &&& trace[n + 1] == (RegOp::Read { offset: 5, value: status })
                &&& trace[n + 2] == (RegOp::Write { offset: 5, value: status })
                &&& trace[n + 3] == (RegOp::Write { offset: 7, value: 0x1_8041 })
            },
{
}

} // verus!
