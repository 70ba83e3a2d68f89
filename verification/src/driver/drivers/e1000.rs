//! Intel e1000 PCI driver.

use super::host::{
    irq_routed, line_read, route_irq, same_machine, wired_in_order, HostAct, NicAt, NicHost,
    Platform,
};
use crate::driver::driver::{isr_installed, IrqRoute, PciDriver, PciProbe, ProbeCtx};
use crate::driver::error::ProbeError;
use crate::e1000::regs::{ICR, MMIO_SIZE};
use crate::e1000::reset::{reset_is_so, reset_ops, reset_readings, was_reset, ResetOutcome};
use crate::hal::pci::{
    bar_address, bar_read, bar_reading_is_so, bus_mastered, bus_mastering_is_so, words_lie_there,
    PciBus, PciDevice,
};
use crate::regs::{since, RegOp, RegisterAccess, Traced};
use vstd::prelude::*;

verus! {

/// Intel.
pub const VENDOR_INTEL: u16 = 0x8086;

/// Marker registered with the driver registry.
pub struct E1000Driver;

/// The devices of the family.
pub open spec fn is_e1000(dev: PciDevice) -> bool {
    &&& dev.vendor == VENDOR_INTEL
    &&& dev.device == 0x100E || dev.device == 0x100F || dev.device == 0x10D3
}

impl PciDriver for E1000Driver {
    fn name(&self) -> (name: &'static str)
        ensures
            name@ == "e1000"@,
    {
        "e1000"
    }

    fn priority(&self) -> (priority: u8)
        ensures
            priority == 20,
    {
        20
    }

    fn matches(&self, dev: &PciDevice) -> (r: bool)
        ensures
            r == is_e1000(*dev),
    {
        dev.vendor == VENDOR_INTEL && (dev.device == 0x100E || dev.device == 0x100F || dev.device
            == 0x10D3)
    }
}

/// What bringing up an e1000 consists of.
pub struct E1000BringUp<N> {
    /// The accesses to configuration space that find the registers.
    pub bar: Seq<RegOp>,
    pub phys: u64,
    /// Where the registers are mapped.
    pub base: usize,
    /// What the control register gave before and during the reset.
    pub ctl: u32,
    pub polls: Seq<u32>,
    pub outcome: ResetOutcome,
    /// The accesses to configuration space that make it a bus master.
    pub mastering: Seq<RegOp>,
    /// The NIC as it was set up.
    pub nic: N,
    /// What configuration space says of the interrupt line.
    pub word: u32,
    pub route: Result<IrqRoute, ProbeError>,
    /// The NIC with its interrupts on.
    pub up: N,
}

/// What a platform does to bring up an e1000: as far as the device comes out
/// of reset, and then as far as its interrupt can be routed.
pub open spec fn e1000_acts<N>(b: E1000BringUp<N>) -> Seq<HostAct<N>> {
    let at = NicAt::E1000(b.base);
    let reset = seq![
        HostAct::Mapped { phys: b.phys, size: MMIO_SIZE, base: b.base },
        HostAct::Reset {
            base: b.base,
            ops: reset_ops(b.ctl, b.polls, b.outcome),
            outcome: b.outcome,
        },
    ];
    let wired = match b.route {
        Ok(route) => seq![
            HostAct::Routed { at, route },
            HostAct::Enabled { before: b.nic, after: b.up },
        ],
        Err(_) => seq![],
    };
    match b.outcome {
        ResetOutcome::TimedOut => reset.push(HostAct::GaveUp),
        ResetOutcome::Complete => reset + seq![
            HostAct::SetUp { at, nic: b.nic },
            HostAct::Published(at),
        ] + wired,
    }
}

/// The accesses to configuration space that bringing up an e1000 makes. A
/// device that does not come out of reset is not made a bus master.
pub open spec fn e1000_config<N>(dev: PciDevice, b: E1000BringUp<N>) -> Seq<RegOp> {
    match b.outcome {
        ResetOutcome::TimedOut => b.bar,
        ResetOutcome::Complete => b.bar + b.mastering.push(line_read(dev, b.word)),
    }
}

/// What probing an e1000 does and gives, in the course `b`.
pub open spec fn e1000_brought_up<H: NicHost, C>(
    before: ProbeCtx<Platform<H, C>>,
    after: ProbeCtx<Platform<H, C>>,
    dev: PciDevice,
    b: E1000BringUp<H::Nic>,
    r: Result<H::Nic, ProbeError>,
) -> bool {
    &&& same_machine(before, after)
    &&& bar_read(b.bar, dev, 0, b.phys)
    &&& reset_readings(b.polls, b.outcome)
    &&& after.hw.cfg.trace() == before.hw.cfg.trace() + e1000_config(dev, b)
    &&& after.hw.host.acts() == before.hw.host.acts() + e1000_acts(b)
    &&& match b.outcome {
        ResetOutcome::TimedOut => {
            &&& after.irq_alloc.free() == before.irq_alloc.free()
            &&& r == Err::<H::Nic, ProbeError>(ProbeError::Driver("e1000 reset timeout"))
        },
        ResetOutcome::Complete => {
            &&& exists|readback: u16| #[trigger] bus_mastered(b.mastering, dev, readback)
            &&& isr_installed(
                (b.word % 256) as u8,
                before.irq_pins,
                before.cpus,
                before.irq_alloc.free(),
                after.irq_alloc.free(),
                b.route,
            )
            &&& r == match b.route {
                Ok(_) => Ok(b.up),
                Err(e) => Err(e),
            }
        },
    }
}

/// What probing an e1000 does and gives.
pub open spec fn e1000_probed<H: NicHost, C>(
    before: ProbeCtx<Platform<H, C>>,
    after: ProbeCtx<Platform<H, C>>,
    dev: PciDevice,
    r: Result<H::Nic, ProbeError>,
) -> bool {
    exists|b: E1000BringUp<H::Nic>| #[trigger] e1000_brought_up(before, after, dev, b, r)
}

/// An e1000 is wired in order, in whatever course it is brought up.
pub proof fn e1000_is_wired_in_order<N>(b: E1000BringUp<N>)
    ensures
        wired_in_order(e1000_acts(b)),
{
    let acts = e1000_acts(b);
    if b.outcome is Complete && b.route is Ok {
        assert(acts[3] == HostAct::<N>::Published(NicAt::E1000(b.base)));
        assert(acts[4] is Routed);
    }
}

impl<H: NicHost, C: RegisterAccess> PciProbe<Platform<H, C>, H::Nic> for E1000Driver {
    fn probe(&self, dev: PciDevice, ctx: &mut ProbeCtx<Platform<H, C>>) -> (r: Result<
        H::Nic,
        ProbeError,
    >)
        ensures
            e1000_probed(*old(ctx), *final(ctx), dev, r),
    {
        let ghost t0 = ctx.hw.cfg.trace();
        let phys: u64 = PciBus.read_bar(&mut ctx.hw.cfg, &dev, 0);
        let ghost t1 = ctx.hw.cfg.trace();
        let ghost bar = since(t0, t1);
        assert(t1 =~= t0 + bar);
        let base: usize = ctx.hw.host.map_mmio(phys, MMIO_SIZE);
        let ghost mapped = ctx.hw.host.acts();
        let outcome = ctx.hw.host.reset(base);
        let ghost (ctl, polls) = choose|ctl: u32, polls: Seq<u32>|
            reset_readings(polls, outcome) && ctx.hw.host.acts() == mapped.push(
                HostAct::Reset { base, ops: #[trigger] reset_ops(ctl, polls, outcome), outcome },
            );
        match outcome {
            ResetOutcome::TimedOut => {
                ctx.hw.host.reset_timed_out();
                let r = Err(ProbeError::Driver("e1000 reset timeout"));
                proof {
                    let b = E1000BringUp {
                        bar,
                        phys,
                        base,
                        ctl,
                        polls,
                        outcome,
                        mastering: Seq::empty(),
                        nic: arbitrary(),
                        word: 0,
                        route: arbitrary(),
                        up: arbitrary(),
                    };
                    assert(ctx.hw.host.acts() =~= old(ctx).hw.host.acts() + e1000_acts(b));
                    assert(e1000_brought_up(*old(ctx), *ctx, dev, b, r));
                }
                return r;
            },
            ResetOutcome::Complete => {},
        }
        let readback: u16 = PciBus.enable_bus_mastering(&mut ctx.hw.cfg, &dev);
        let ghost t2 = ctx.hw.cfg.trace();
        let ghost mastering = since(t1, t2);
        assert(t2 =~= t1 + mastering);
        assert(bus_mastered(mastering, dev, readback));
        let at = NicAt::E1000(base);
        let mut nic = ctx.hw.host.set_up(at);
        let ghost first = nic;
        // The handler must know the registers before the interrupt is wired.
        ctx.hw.host.publish(at);
        let ghost middle = *ctx;
        let route = route_irq(&dev, ctx, at);
        let ghost word = choose|word: u32| #[trigger] irq_routed(middle, *ctx, dev, at, word, route);
        let r = match route {
            Ok(_) => {
                ctx.hw.host.enable_interrupts(&mut nic);
                Ok(nic)
            },
            Err(e) => Err(e),
        };
        proof {
            let up = if r is Ok {
                r->Ok_0
            } else {
                first
            };
            let b = E1000BringUp {
                bar,
                phys,
                base,
                ctl,
                polls,
                outcome,
                mastering,
                nic: first,
                word,
                route,
                up,
            };
            assert(ctx.hw.cfg.trace() =~= t0 + e1000_config(dev, b));
            assert(ctx.hw.host.acts() =~= old(ctx).hw.host.acts() + e1000_acts(b));
            assert(e1000_brought_up(*old(ctx), *ctx, dev, b, r));
        }
        r
    }
}

impl E1000Driver {
    /// Acknowledge an interrupt: the cause register clears when it is read.
    pub fn acknowledge_interrupt<R: RegisterAccess>(&self, regs: &mut Traced<R>) -> (cause: u32)
        ensures
            final(regs).trace() == old(regs).trace().push(
                RegOp::Read { offset: ICR, value: cause },
            ),
    {
        regs.read_reg(ICR)
    }
}

// ── What bringing up an e1000 comes to ──────────────────────────────────

/// The driver says its name, its priority, and which devices are of its family:
/// three of Intel's.
pub proof fn e1000_is_this_family(
    driver: &E1000Driver,
    dev: &PciDevice,
    name: &'static str,
    priority: u8,
    r: bool,
)
    ensures
        call_ensures(<E1000Driver as PciDriver>::name, (driver,), name) ==> name@ == "e1000"@,
        call_ensures(<E1000Driver as PciDriver>::priority, (driver,), priority) ==> priority == 20,
        call_ensures(<E1000Driver as PciDriver>::matches, (driver, dev), r) ==> (r <==> dev.vendor
            == 0x8086 && (dev.device == 0x100E || dev.device == 0x100F || dev.device == 0x10D3)),
        is_e1000(*dev) <==> dev.vendor == 0x8086 && (dev.device == 0x100E || dev.device == 0x100F
            || dev.device == 0x10D3),
{
}

/// What is done to a device that is brought up, act by act: the memory that its
/// BAR 0 names is mapped, 128 KiB of it; it is reset there; and where it comes
/// out of reset it is made a bus master, set up there, told to the handler and,
/// where its interrupt line can be routed, routed and let raise interrupts. What
/// is given is the NIC that was set up, with its interrupts on.
spec fn e1000_went_up<H: NicHost, C>(
    before: ProbeCtx<Platform<H, C>>,
    after: ProbeCtx<Platform<H, C>>,
    dev: PciDevice,
    r: Result<H::Nic, ProbeError>,
) -> bool {
    let n = before.hw.host.acts().len() as int;
    let acts = after.hw.host.acts();
    let m = before.hw.cfg.trace().len() as int;
    let trace = after.hw.cfg.trace();
    let there = 0x8000_0000 + dev.bus * 0x1_0000 + dev.dev * 0x800 + dev.func * 0x100;
    let k: int = if trace[m]->Read_value / 2 % 4 == 2 {
        2
    } else {
        1
    };
    let base = acts[n]->Mapped_base;
    &&& after.irq_pins == before.irq_pins
    &&& after.cpus == before.cpus
    &&& after.vmbus == before.vmbus
    &&& acts.take(n) == before.hw.host.acts()
    &&& trace.take(m) == before.hw.cfg.trace()
    &&& trace[m] is Read && trace[m]->Read_offset == there + 0x10
    &&& k == 2 ==> trace[m + 1] is Read && trace[m + 1]->Read_offset == there + 0x14
    &&& acts[n] is Mapped
    &&& acts[n]->Mapped_phys == bar_address(trace[m]->Read_value, trace[m + 1]->Read_value)
    &&& acts[n]->Mapped_size == 0x2_0000
    &&& acts[n + 1] is Reset
    &&& acts[n + 1]->Reset_base == base
    &&& was_reset(acts[n + 1]->Reset_ops, acts[n + 1]->Reset_outcome)
    &&& match acts[n + 1]->Reset_outcome {
        ResetOutcome::TimedOut => {
            &&& acts.len() == n + 3
            &&& acts[n + 2] is GaveUp
            &&& trace.len() == m + k
            &&& r is Err && r->Err_0 == ProbeError::Driver("e1000 reset timeout")
            &&& after.irq_alloc.free() == before.irq_alloc.free()
        },
        ResetOutcome::Complete => {
            &&& trace.len() == m + k + 5
            &&& trace[m + k + 2] is Write
            &&& trace[m + k + 2]->Write_offset == there + 4
            &&& trace[m + k + 2]->Write_value % 8 == 7
            &&& trace[m + k + 4] is Read
            &&& trace[m + k + 4]->Read_offset == there + 0x3C
            &&& acts[n + 2] is SetUp
            &&& acts[n + 2]->SetUp_at == NicAt::E1000(base)
            &&& acts[n + 3] is Published
            &&& acts[n + 3]->Published_0 == NicAt::E1000(base)
            &&& match r {
                Ok(nic) => {
                    &&& acts.len() == n + 6
                    &&& acts[n + 4] is Routed
                    &&& acts[n + 4]->Routed_at == NicAt::E1000(base)
                    &&& acts[n + 4]->Routed_route.line == trace[m + k + 4]->Read_value % 0x100
                    &&& before.irq_alloc.free().contains(acts[n + 4]->Routed_route.isr.vector)
                    &&& acts[n + 5] is Enabled
                    &&& acts[n + 5]->Enabled_before == acts[n + 2]->SetUp_nic
                    &&& acts[n + 5]->Enabled_after == nic
                },
                Err(e) => {
                    let line = trace[m + k + 4]->Read_value % 0x100;
                    &&& acts.len() == n + 4
                    &&& after.irq_alloc.free() == before.irq_alloc.free()
                    &&& e == if line == 255 || line >= before.irq_pins {
                        ProbeError::InvalidIrqLine(line as u8)
                    } else {
                        ProbeError::NoFreeVector
                    }
                },
            }
        },
    }
}

/// An e1000 that is probed goes up so.
pub proof fn e1000_goes_up<H: NicHost, C: RegisterAccess>(
    driver: &E1000Driver,
    dev: PciDevice,
    r: Result<H::Nic, ProbeError>,
)
    requires
        dev.dev < 32,
        dev.func < 8,
    ensures
        forall|ctx: &mut ProbeCtx<Platform<H, C>>| #[trigger]
            call_ensures(
                <E1000Driver as PciProbe<Platform<H, C>, H::Nic>>::probe,
                (driver, dev, ctx),
                r,
            ) ==> {
                let before = *ctx;
                let after = *final(ctx);
                let n = before.hw.host.acts().len() as int;
                let acts = after.hw.host.acts();
                let m = before.hw.cfg.trace().len() as int;
                let trace = after.hw.cfg.trace();
                let there = 0x8000_0000 + dev.bus * 0x1_0000 + dev.dev * 0x800 + dev.func * 0x100;
                let k: int = if trace[m]->Read_value / 2 % 4 == 2 {
                    2
                } else {
                    1
                };
                let base = acts[n]->Mapped_base;
                &&& after.irq_pins == before.irq_pins
                &&& after.cpus == before.cpus
                &&& after.vmbus == before.vmbus
                &&& acts.take(n) == before.hw.host.acts()
                &&& trace.take(m) == before.hw.cfg.trace()
                &&& trace[m] is Read && trace[m]->Read_offset == there + 0x10
                &&& k == 2 ==> trace[m + 1] is Read && trace[m + 1]->Read_offset == there + 0x14
                &&& acts[n] is Mapped
                &&& acts[n]->Mapped_phys == bar_address(trace[m]->Read_value, trace[m + 1]->Read_value)
                &&& acts[n]->Mapped_size == 0x2_0000
                &&& acts[n + 1] is Reset
                &&& acts[n + 1]->Reset_base == base
                &&& was_reset(acts[n + 1]->Reset_ops, acts[n + 1]->Reset_outcome)
                &&& match acts[n + 1]->Reset_outcome {
                    ResetOutcome::TimedOut => {
                        &&& acts.len() == n + 3
                        &&& acts[n + 2] is GaveUp
                        &&& trace.len() == m + k
                        &&& r is Err && r->Err_0 == ProbeError::Driver("e1000 reset timeout")
                        &&& after.irq_alloc.free() == before.irq_alloc.free()
                    },
                    ResetOutcome::Complete => {
                        &&& trace.len() == m + k + 5
                        &&& trace[m + k + 2] is Write
                        &&& trace[m + k + 2]->Write_offset == there + 4
                        &&& trace[m + k + 2]->Write_value % 8 == 7
                        &&& trace[m + k + 4] is Read
                        &&& trace[m + k + 4]->Read_offset == there + 0x3C
                        &&& acts[n + 2] is SetUp
                        &&& acts[n + 2]->SetUp_at == NicAt::E1000(base)
                        &&& acts[n + 3] is Published
                        &&& acts[n + 3]->Published_0 == NicAt::E1000(base)
                        &&& match r {
                            Ok(nic) => {
                                &&& acts.len() == n + 6
                                &&& acts[n + 4] is Routed
                                &&& acts[n + 4]->Routed_at == NicAt::E1000(base)
                                &&& acts[n + 4]->Routed_route.line == trace[m + k + 4]->Read_value % 0x100
                                &&& before.irq_alloc.free().contains(acts[n + 4]->Routed_route.isr.vector)
                                &&& acts[n + 5] is Enabled
                                &&& acts[n + 5]->Enabled_before == acts[n + 2]->SetUp_nic
                                &&& acts[n + 5]->Enabled_after == nic
                            },
                            Err(e) => {
                                let line = trace[m + k + 4]->Read_value % 0x100;
                                &&& acts.len() == n + 4
                                &&& after.irq_alloc.free() == before.irq_alloc.free()
                                &&& e == if line == 255 || line >= before.irq_pins {
                                    ProbeError::InvalidIrqLine(line as u8)
                                } else {
                                    ProbeError::NoFreeVector
                                }
                            },
                        }
                    },
                }
            },
{
    assert forall|ctx: &mut ProbeCtx<Platform<H, C>>| #[trigger]
        call_ensures(
            <E1000Driver as PciProbe<Platform<H, C>, H::Nic>>::probe,
            (driver, dev, ctx),
            r,
        ) implies e1000_went_up(*ctx, *final(ctx), dev, r) by {
        probed_e1000_went_up(*ctx, *final(ctx), dev, r);
    }
}

proof fn probed_e1000_went_up<H: NicHost, C: RegisterAccess>(
    before: ProbeCtx<Platform<H, C>>,
    after: ProbeCtx<Platform<H, C>>,
    dev: PciDevice,
    r: Result<H::Nic, ProbeError>,
)
    requires
        dev.dev < 32,
        dev.func < 8,
        e1000_probed(before, after, dev, r),
    ensures
        e1000_went_up(before, after, dev, r),
{
    let b = choose|b: E1000BringUp<H::Nic>| #[trigger] e1000_brought_up(before, after, dev, b, r);
    let n = before.hw.host.acts().len() as int;
    let acts = after.hw.host.acts();
    let m = before.hw.cfg.trace().len() as int;
    let trace = after.hw.cfg.trace();
    let k = b.bar.len() as int;
    bar_reading_is_so(b.bar, dev, 0, b.phys);
    reset_is_so(b.ctl, b.polls, b.outcome);
    assert(acts.take(n) =~= before.hw.host.acts());
    assert(trace.take(m) =~= before.hw.cfg.trace());
    assert(trace[m] == b.bar[0]);
    if k == 2 {
        assert(trace[m + 1] == b.bar[1]);
    }
    assert(acts[n] == e1000_acts(b)[0]);
    assert(acts[n + 1] == e1000_acts(b)[1]);
    assert(acts[n + 2] == e1000_acts(b)[2]);
    if b.outcome is Complete {
        let readback = choose|readback: u16| #[trigger] bus_mastered(b.mastering, dev, readback);
        bus_mastering_is_so(b.mastering, dev, readback);
        words_lie_there(dev.bus, dev.dev, dev.func, 0x3C, 0);
        assert(trace[m + k + 2] == b.mastering[2]);
        assert(trace[m + k + 4] == line_read(dev, b.word));
        assert(acts[n + 3] == e1000_acts(b)[3]);
        if b.route is Ok {
            assert(acts[n + 4] == e1000_acts(b)[4]);
            assert(acts[n + 5] == e1000_acts(b)[5]);
        }
    }
}

/// An interrupt is acknowledged by reading the cause at 0xC0, once.
pub proof fn cause_is_read<R: RegisterAccess>(driver: &E1000Driver, cause: u32)
    ensures
        forall|regs: &mut Traced<R>| #[trigger]
            call_ensures(E1000Driver::acknowledge_interrupt::<R>, (driver, regs), cause) ==> (
            *final(regs)).trace() == (*regs).trace().push(
                RegOp::Read { offset: 0x30, value: cause },
            ),
{
}

} // verus!
