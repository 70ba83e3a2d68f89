//! How the kernels that know a single NIC bring it up.
//!
//! They look for it themselves, without the driver registry, and send one ARP
//! request through it, so that the virtual network learns where they are.

use crate::driver::drivers::e1000::VENDOR_INTEL;
use crate::driver::drivers::host::{
    line_read, wired_in_order, CsrAccess, HostAct, NicAt, NicHost, Platform, PCI_INTERRUPT_LINE,
};
use crate::driver::drivers::tulip::{
    opened, opened_so, opening_is_so, CsrBase, TulipDriver, VENDOR_DEC,
};
use crate::driver::driver::IrqRoute;
use crate::e1000::regs::MMIO_SIZE as E1000_MMIO_SIZE;
use crate::e1000::reset::{reset_is_so, reset_ops, reset_readings, was_reset, ResetOutcome};
use crate::hal::pci::{
    bar_address, bar_read, bar_reading_is_so, bus_mastered, bus_mastering_is_so, searched,
    words_lie_there, PciBus, PciDevice,
};
use crate::hal::vector_alloc::{CpuId, InstalledIsr};
use crate::net::arp::{
    arp_request, asks, build_arp_request, build_padded_request, padded_request, request_asks,
};
use crate::regs::{since, RegOp, RegisterAccess};
use vstd::prelude::*;

verus! {

/// The vector that the tulip's interrupt is routed to.
pub const TULIP_VECTOR: u8 = 33;

/// Why there is no NIC.
#[derive(Debug, Clone, Copy, PartialEq, Eq, Structural)]
pub enum NicFailure {
    /// There is none on the bus.
    NotFound,
    /// It did not come out of reset.
    ResetTimedOut,
}

/// A NIC that is up, with its hardware address.
pub struct NicUp<N> {
    pub nic: N,
    pub mac: [u8; 6],
}

/// The address of the guest on the virtual network.
pub open spec fn guest_ip() -> Seq<u8> {
    seq![10, 0, 2, 15]
}

/// The address of the gateway on the virtual network.
pub open spec fn gateway_ip() -> Seq<u8> {
    seq![10, 0, 2, 2]
}

/// The device ids of the e1000 family.
pub open spec fn e1000_ids() -> Seq<u16> {
    seq![0x100E, 0x100F, 0x10D3]
}

/// The device ids of the tulip family.
pub open spec fn tulip_ids() -> Seq<u16> {
    seq![0x0009, 0x0019]
}

/// Whether `mac` is the hardware address that a platform gave for a NIC.
pub open spec fn mac_asked<H: NicHost>(nic: H::Nic, mac: [u8; 6]) -> bool {
    exists|host: &mut H| #[trigger] call_ensures(<H as NicHost>::mac, (host, &nic), mac)
}

// ── e1000 ───────────────────────────────────────────────────────────────

/// What starting an e1000 consists of, once it is found.
pub struct E1000Start<N> {
    /// The accesses to configuration space that find the registers.
    pub bar: Seq<RegOp>,
    pub phys: u64,
    /// Where the registers are mapped.
    pub base: usize,
    /// What the control register gave before and during the reset.
    pub ctl: u32,
    pub polls: Seq<u32>,
    pub outcome: ResetOutcome,
    /// The accesses to configuration space that make it a bus master.
    pub mastering: Seq<RegOp>,
    pub readback: u16,
    /// The NIC as it was set up.
    pub nic: N,
}

/// What a platform does to start an e1000, as far as it comes out of reset.
pub open spec fn e1000_start_acts<N>(s: E1000Start<N>, up: NicUp<N>) -> Seq<HostAct<N>> {
    let reset = seq![
        HostAct::Mapped { phys: s.phys, size: E1000_MMIO_SIZE, base: s.base },
        HostAct::Reset {
            base: s.base,
            ops: reset_ops(s.ctl, s.polls, s.outcome),
            outcome: s.outcome,
        },
    ];
    match s.outcome {
        ResetOutcome::TimedOut => reset.push(HostAct::GaveUp),
        ResetOutcome::Complete => reset + seq![
            HostAct::SetUp { at: NicAt::E1000(s.base), nic: s.nic },
            HostAct::Transmitted {
                before: s.nic,
                after: up.nic,
                frame: arp_request(up.mac@, guest_ip(), gateway_ip()),
            },
        ],
    }
}

/// What starting an e1000 does and gives, once it is found: it is reset, made a
/// bus master and set up, and announces itself under its hardware address.
pub open spec fn e1000_started<H: NicHost, C>(
    before: Platform<H, C>,
    after: Platform<H, C>,
    search: Seq<RegOp>,
    dev: PciDevice,
    s: E1000Start<H::Nic>,
    r: Result<NicUp<H::Nic>, NicFailure>,
) -> bool {
    &&& bar_read(s.bar, dev, 0, s.phys)
    &&& reset_readings(s.polls, s.outcome)
    &&& match s.outcome {
        ResetOutcome::TimedOut => {
            &&& after.cfg.trace() == before.cfg.trace() + search + s.bar
            &&& after.host.acts() == before.host.acts() + e1000_start_acts(s, r->Ok_0)
            &&& r == Err::<NicUp<H::Nic>, NicFailure>(NicFailure::ResetTimedOut)
        },
        ResetOutcome::Complete => {
            &&& after.cfg.trace() == before.cfg.trace() + search + s.bar + s.mastering
            &&& bus_mastered(s.mastering, dev, s.readback)
            &&& r is Ok
            &&& mac_asked::<H>(s.nic, r->Ok_0.mac)
            &&& after.host.acts() == before.host.acts() + e1000_start_acts(s, r->Ok_0)
        },
    }
}

/// What looking for an e1000 and starting it does and gives.
pub open spec fn e1000_found<H: NicHost, C>(
    before: Platform<H, C>,
    after: Platform<H, C>,
    search: Seq<RegOp>,
    found: Option<PciDevice>,
    r: Result<NicUp<H::Nic>, NicFailure>,
) -> bool {
    &&& searched(search, VENDOR_INTEL, e1000_ids(), found)
    &&& match found {
        None => {
            &&& after.cfg.trace() == before.cfg.trace() + search
            &&& after.host == before.host
            &&& r == Err::<NicUp<H::Nic>, NicFailure>(NicFailure::NotFound)
        },
        Some(dev) => exists|s: E1000Start<H::Nic>| #[trigger]
            e1000_started(before, after, search, dev, s, r),
    }
}

/// Look for an e1000 and start it. The kernel has nothing to run on where this
/// fails.
pub fn kernel_main<H: NicHost, C: RegisterAccess>(hw: &mut Platform<H, C>) -> (r: Result<
    NicUp<H::Nic>,
    NicFailure,
>)
    ensures
        exists|search: Seq<RegOp>, found: Option<PciDevice>| #[trigger]
            e1000_found(*old(hw), *final(hw), search, found, r),
{
    let ids: [u16; 3] = [0x100E, 0x100F, 0x10D3];
    assert(ids@ =~= e1000_ids());
    let ghost t0 = hw.cfg.trace();
    let found = PciBus.find_device_any(&mut hw.cfg, VENDOR_INTEL, &ids);
    let ghost t1 = hw.cfg.trace();
    let ghost search = since(t0, t1);
    assert(t1 =~= t0 + search);
    let dev = match found {
        None => {
            let r = Err(NicFailure::NotFound);
            assert(e1000_found(*old(hw), *hw, search, found, r));
            return r;
        },
        Some(dev) => dev,
    };
    let phys: u64 = PciBus.read_bar(&mut hw.cfg, &dev, 0);
    let ghost t2 = hw.cfg.trace();
    let ghost bar = since(t1, t2);
    assert(t2 =~= t1 + bar);
    let base: usize = hw.host.map_mmio(phys, E1000_MMIO_SIZE);
    let ghost mapped = hw.host.acts();
    let outcome = hw.host.reset(base);
    let ghost (ctl, polls) = choose|ctl: u32, polls: Seq<u32>|
        reset_readings(polls, outcome) && hw.host.acts() == mapped.push(
            HostAct::Reset { base, ops: #[trigger] reset_ops(ctl, polls, outcome), outcome },
        );
    match outcome {
        ResetOutcome::TimedOut => {
            hw.host.reset_timed_out();
            let r = Err(NicFailure::ResetTimedOut);
            proof {
                let s = E1000Start {
                    bar,
                    phys,
                    base,
                    ctl,
                    polls,
                    outcome,
                    mastering: Seq::empty(),
                    readback: 0,
                    nic: arbitrary(),
                };
                assert(hw.host.acts() =~= old(hw).host.acts() + e1000_start_acts(s, r->Ok_0));
                assert(e1000_started(*old(hw), *hw, search, dev, s, r));
                assert(e1000_found(*old(hw), *hw, search, found, r));
            }
            return r;
        },
        ResetOutcome::Complete => {},
    }
    let readback: u16 = PciBus.enable_bus_mastering(&mut hw.cfg, &dev);
    let ghost mastering = since(t2, hw.cfg.trace());
    assert(hw.cfg.trace() =~= t2 + mastering);
    let mut nic = hw.host.set_up(NicAt::E1000(base));
    let ghost first = nic;
    let mac = hw.host.mac(&nic);
    let guest: [u8; 4] = [10, 0, 2, 15];
    let gateway: [u8; 4] = [10, 0, 2, 2];
    let frame = build_arp_request(&mac, &guest, &gateway);
    hw.host.transmit(&mut nic, &frame);
    let r = Ok(NicUp { nic, mac });
    proof {
        let s = E1000Start {
            bar,
            phys,
            base,
            ctl,
            polls,
            outcome,
            mastering,
            readback,
            nic: first,
        };
        assert(guest@ =~= guest_ip());
        assert(gateway@ =~= gateway_ip());
        assert(mac_asked::<H>(first, mac));
        assert(hw.host.acts() =~= old(hw).host.acts() + e1000_start_acts(s, r->Ok_0));
        assert(e1000_started(*old(hw), *hw, search, dev, s, r));
        assert(e1000_found(*old(hw), *hw, search, found, r));
    }
    r
}

// ── tulip ───────────────────────────────────────────────────────────────

/// What starting a tulip consists of, once it is found.
pub struct TulipStart<N> {
    /// The accesses to configuration space that find the registers.
    pub opening: Seq<RegOp>,
    pub base: CsrBase,
    /// The NIC as it was set up, and as it was when it had announced itself.
    pub nic: N,
    pub announced: N,
    /// What configuration space says of the interrupt line.
    pub word: u32,
}

/// How the registers are reached, where all of physical memory is mapped at
/// `offset`.
pub open spec fn direct_csr(base: CsrBase, offset: usize) -> CsrAccess {
    match base {
        CsrBase::Io(port) => CsrAccess::Io(port),
        CsrBase::Mmio(phys) => CsrAccess::Mmio((phys as usize).wrapping_add(offset)),
    }
}

/// What a platform does to start a tulip: its interrupt is routed last, to a
/// fixed vector.
pub open spec fn tulip_start_acts<N>(
    s: TulipStart<N>,
    offset: usize,
    up: NicUp<N>,
) -> Seq<HostAct<N>> {
    let at = NicAt::Tulip(direct_csr(s.base, offset));
    seq![
        HostAct::Published(at),
        HostAct::SetUp { at, nic: s.nic },
        HostAct::Transmitted {
            before: s.nic,
            after: s.announced,
            frame: padded_request(up.mac@, guest_ip(), gateway_ip()),
        },
        HostAct::Routed {
            at,
            route: IrqRoute {
                line: (s.word % 256) as u8,
                isr: InstalledIsr { vector: TULIP_VECTOR, cpu_id: CpuId::Bsp },
                apic_id: 0,
            },
        },
        HostAct::Enabled { before: s.announced, after: up.nic },
    ]
}

/// A tulip is wired in order, in whatever course it is started.
pub proof fn tulip_start_is_wired_in_order<N>(s: TulipStart<N>, offset: usize, up: NicUp<N>)
    ensures
        wired_in_order(tulip_start_acts(s, offset, up)),
{
    let acts = tulip_start_acts(s, offset, up);
    assert(acts[0] == HostAct::<N>::Published(NicAt::Tulip(direct_csr(s.base, offset))));
    assert(acts[3] is Routed);
}

/// What starting a tulip does and gives, once it is found: it is set up and
/// announces itself under its hardware address, and then its interrupt is
/// routed.
pub open spec fn tulip_started<H: NicHost, C>(
    before: Platform<H, C>,
    after: Platform<H, C>,
    offset: usize,
    search: Seq<RegOp>,
    dev: PciDevice,
    s: TulipStart<H::Nic>,
    up: NicUp<H::Nic>,
) -> bool {
    &&& opened(s.opening, dev, s.base)
    &&& after.cfg.trace() == before.cfg.trace() + search + s.opening.push(line_read(dev, s.word))
    &&& mac_asked::<H>(s.nic, up.mac)
    &&& after.host.acts() == before.host.acts() + tulip_start_acts(s, offset, up)
}

/// What looking for a tulip and starting it does and gives.
pub open spec fn tulip_found<H: NicHost, C>(
    before: Platform<H, C>,
    after: Platform<H, C>,
    offset: usize,
    search: Seq<RegOp>,
    found: Option<PciDevice>,
    r: Result<NicUp<H::Nic>, NicFailure>,
) -> bool {
    &&& searched(search, VENDOR_DEC, tulip_ids(), found)
    &&& match found {
        None => {
            &&& after.cfg.trace() == before.cfg.trace() + search
            &&& after.host == before.host
            &&& r == Err::<NicUp<H::Nic>, NicFailure>(NicFailure::NotFound)
        },
        Some(dev) => r matches Ok(up) && exists|s: TulipStart<H::Nic>| #[trigger]
            tulip_started(before, after, offset, search, dev, s, up),
    }
}

/// Look for a tulip and start it. Its registers are used where they already
/// are: all of physical memory is mapped at `offset`. The kernel has nothing to
/// run on where there is no tulip.
pub fn tulip_main<H: NicHost, C: RegisterAccess>(hw: &mut Platform<H, C>, offset: usize) -> (r:
    Result<NicUp<H::Nic>, NicFailure>)
    ensures
        exists|search: Seq<RegOp>, found: Option<PciDevice>| #[trigger]
            tulip_found(*old(hw), *final(hw), offset, search, found, r),
{
    let ids: [u16; 2] = [0x0009, 0x0019];
    assert(ids@ =~= tulip_ids());
    let ghost t0 = hw.cfg.trace();
    let found = PciBus.find_device_any(&mut hw.cfg, VENDOR_DEC, &ids);
    let ghost t1 = hw.cfg.trace();
    let ghost search = since(t0, t1);
    assert(t1 =~= t0 + search);
    let dev = match found {
        None => {
            let r = Err(NicFailure::NotFound);
            assert(tulip_found(*old(hw), *hw, offset, search, found, r));
            return r;
        },
        Some(dev) => dev,
    };
    let base = TulipDriver.open(&PciBus, &mut hw.cfg, &dev);
    let ghost opening = since(t1, hw.cfg.trace());
    assert(hw.cfg.trace() =~= t1 + opening);
    let csr = match base {
        CsrBase::Io(port) => CsrAccess::Io(port),
        CsrBase::Mmio(phys) => CsrAccess::Mmio((phys as usize).wrapping_add(offset)),
    };
    let at = NicAt::Tulip(csr);
    hw.host.publish(at);
    let mut nic = hw.host.set_up(at);
    let ghost first = nic;
    let mac = hw.host.mac(&nic);
    let guest: [u8; 4] = [10, 0, 2, 15];
    let gateway: [u8; 4] = [10, 0, 2, 2];
    let frame = build_padded_request(&mac, &guest, &gateway);
    hw.host.transmit(&mut nic, &frame);
    let ghost announced = nic;
    let word: u32 = PciBus.read_config(&mut hw.cfg, &dev, PCI_INTERRUPT_LINE);
    let isr = InstalledIsr { vector: TULIP_VECTOR, cpu_id: CpuId::Bsp };
    let route = IrqRoute { line: (word % 256) as u8, isr, apic_id: 0 };
    hw.host.route(at, route);
    hw.host.enable_interrupts(&mut nic);
    let r = Ok(NicUp { nic, mac });
    proof {
        let up = r->Ok_0;
        let s = TulipStart { opening, base, nic: first, announced, word };
        assert(guest@ =~= guest_ip());
        assert(gateway@ =~= gateway_ip());
        assert(mac_asked::<H>(first, mac));
        assert(hw.host.acts() =~= old(hw).host.acts() + tulip_start_acts(s, offset, up));
        assert(hw.cfg.trace() =~= t0 + search + opening.push(line_read(dev, word)));
        assert(tulip_started(*old(hw), *hw, offset, search, dev, s, up));
        assert(tulip_found(*old(hw), *hw, offset, search, found, r));
    }
    r
}

// ── What starting a NIC comes to ────────────────────────────────────────

/// What is done to an e1000 that is started, act by act: the memory that its
/// BAR 0 names is mapped, 128 KiB of it; it is reset there; and where it comes
/// out of reset it is made a bus master and set up there, and asks, under the
/// hardware address that the platform gives for it, from 10.0.2.15 for 10.0.2.2.
/// What is given is that NIC, after it asked, with that address.
spec fn e1000_was_started<H: NicHost, C>(
    before: Platform<H, C>,
    after: Platform<H, C>,
    search: Seq<RegOp>,
    dev: PciDevice,
    r: Result<NicUp<H::Nic>, NicFailure>,
) -> bool {
    let n = before.host.acts().len() as int;
    let acts = after.host.acts();
    let m = (before.cfg.trace().len() + search.len()) as int;
    let trace = after.cfg.trace();
    let there = 0x8000_0000 + dev.bus * 0x1_0000 + dev.dev * 0x800 + dev.func * 0x100;
    let k: int = if trace[m]->Read_value / 2 % 4 == 2 {
        2
    } else {
        1
    };
    let base = acts[n]->Mapped_base;
    &&& acts.take(n) == before.host.acts()
    &&& trace.take(m) == before.cfg.trace() + search
    &&& trace[m] is Read && trace[m]->Read_offset == there + 0x10
    &&& k == 2 ==> trace[m + 1] is Read && trace[m + 1]->Read_offset == there + 0x14
    &&& acts[n] is Mapped
    &&& acts[n]->Mapped_phys == bar_address(trace[m]->Read_value, trace[m + 1]->Read_value)
    &&& acts[n]->Mapped_size == 0x2_0000
    &&& acts[n + 1] is Reset
    &&& acts[n + 1]->Reset_base == base
    &&& was_reset(acts[n + 1]->Reset_ops, acts[n + 1]->Reset_outcome)
    &&& match acts[n + 1]->Reset_outcome {
        ResetOutcome::TimedOut => {
            &&& acts.len() == n + 3
            &&& acts[n + 2] is GaveUp
            &&& trace.len() == m + k
            &&& r is Err && r->Err_0 == NicFailure::ResetTimedOut
        },
        ResetOutcome::Complete => {
            &&& trace.len() == m + k + 4
            &&& trace[m + k + 2] is Write
            &&& trace[m + k + 2]->Write_offset == there + 4
            &&& trace[m + k + 2]->Write_value % 8 == 7
            &&& acts.len() == n + 4
            &&& acts[n + 2] is SetUp
            &&& acts[n + 2]->SetUp_at == NicAt::E1000(base)
            &&& acts[n + 3] is Transmitted
            &&& acts[n + 3]->Transmitted_before == acts[n + 2]->SetUp_nic
            &&& r is Ok
            &&& acts[n + 3]->Transmitted_after == r->Ok_0.nic
            &&& mac_asked::<H>(acts[n + 2]->SetUp_nic, r->Ok_0.mac)
            &&& acts[n + 3]->Transmitted_frame.len() == 42
            &&& asks(
                acts[n + 3]->Transmitted_frame,
                r->Ok_0.mac@,
                seq![10u8, 0, 2, 15],
                seq![10u8, 0, 2, 2],
            )
        },
    }
}

/// The kernel looks for three of Intel's devices on bus 0, starts the one it
/// finds, and fails where it finds none, without having touched anything else.
pub proof fn kernel_starts_an_e1000<H: NicHost, C: RegisterAccess>(
    ids: Seq<u16>,
    r: Result<NicUp<H::Nic>, NicFailure>,
)
    requires
        ids == seq![0x100Eu16, 0x100F, 0x10D3],
    ensures
        forall|hw: &mut Platform<H, C>| #[trigger]
            call_ensures(kernel_main::<H, C>, (hw,), r) ==> exists|
                search: Seq<RegOp>,
                found: Option<PciDevice>,
            |
                {
                    &&& #[trigger] searched(search, 0x8086, ids, found)
                    &&& match found {
                        None => {
                            &&& (*final(hw)).cfg.trace() == (*hw).cfg.trace() + search
                            &&& (*final(hw)).host == (*hw).host
                            &&& r is Err && r->Err_0 == NicFailure::NotFound
                        },
                        Some(dev) => {
                            let before = *hw;
                            let after = *final(hw);
                            let n = before.host.acts().len() as int;
                            let acts = after.host.acts();
                            let m = (before.cfg.trace().len() + search.len()) as int;
                            let trace = after.cfg.trace();
                            let there = 0x8000_0000 + dev.bus * 0x1_0000 + dev.dev * 0x800 + dev.func * 0x100;
                            let k: int = if trace[m]->Read_value / 2 % 4 == 2 {
                                2
                            } else {
                                1
                            };
                            let base = acts[n]->Mapped_base;
                            &&& acts.take(n) == before.host.acts()
                            &&& trace.take(m) == before.cfg.trace() + search
                            &&& trace[m] is Read && trace[m]->Read_offset == there + 0x10
                            &&& k == 2 ==> trace[m + 1] is Read && trace[m + 1]->Read_offset == there + 0x14
                            &&& acts[n] is Mapped
                            &&& acts[n]->Mapped_phys == bar_address(trace[m]->Read_value, trace[m + 1]->Read_value)
                            &&& acts[n]->Mapped_size == 0x2_0000
                            &&& acts[n + 1] is Reset
                            &&& acts[n + 1]->Reset_base == base
                            &&& was_reset(acts[n + 1]->Reset_ops, acts[n + 1]->Reset_outcome)
                            &&& match acts[n + 1]->Reset_outcome {
                                ResetOutcome::TimedOut => {
                                    &&& acts.len() == n + 3
                                    &&& acts[n + 2] is GaveUp
                                    &&& trace.len() == m + k
                                    &&& r is Err && r->Err_0 == NicFailure::ResetTimedOut
                                },
                                ResetOutcome::Complete => {
                                    &&& trace.len() == m + k + 4
                                    &&& trace[m + k + 2] is Write
                                    &&& trace[m + k + 2]->Write_offset == there + 4
                                    &&& trace[m + k + 2]->Write_value % 8 == 7
                                    &&& acts.len() == n + 4
                                    &&& acts[n + 2] is SetUp
                                    &&& acts[n + 2]->SetUp_at == NicAt::E1000(base)
                                    &&& acts[n + 3] is Transmitted
                                    &&& acts[n + 3]->Transmitted_before == acts[n + 2]->SetUp_nic
                                    &&& r is Ok
                                    &&& acts[n + 3]->Transmitted_after == r->Ok_0.nic
                                    &&& ({
                                        let nic = acts[n + 2]->SetUp_nic;
                                        let mac = r->Ok_0.mac;
                                        exists|host: &mut H| #[trigger] call_ensures(<H as NicHost>::mac, (host, &nic), mac)
                                    })
                                    &&& acts[n + 3]->Transmitted_frame.len() == 42
                                    &&& asks(
                                        acts[n + 3]->Transmitted_frame,
                                        r->Ok_0.mac@,
                                        seq![10u8, 0, 2, 15],
                                        seq![10u8, 0, 2, 2],
                                    )
                                },
                            }
                        },
                    }
                },
{
    assert forall|hw: &mut Platform<H, C>| #[trigger]
        call_ensures(kernel_main::<H, C>, (hw,), r) implies exists|
        search: Seq<RegOp>,
        found: Option<PciDevice>,
    |
        {
            &&& #[trigger] searched(search, 0x8086, ids, found)
            &&& match found {
                None => {
                    &&& (*final(hw)).cfg.trace() == (*hw).cfg.trace() + search
                    &&& (*final(hw)).host == (*hw).host
                    &&& r is Err && r->Err_0 == NicFailure::NotFound
                },
                Some(dev) => e1000_was_started(*hw, *final(hw), search, dev, r),
            }
        } by {
        let (search, found) = choose|search: Seq<RegOp>, found: Option<PciDevice>| #[trigger]
            e1000_found(*hw, *final(hw), search, found, r);
        assert(e1000_ids() =~= ids);
        assert(searched(search, 0x8086, ids, found));
        if let Some(dev) = found {
            let s = choose|s: E1000Start<H::Nic>| #[trigger]
                e1000_started(*hw, *final(hw), search, dev, s, r);
            e1000_started_so(*hw, *final(hw), search, dev, s, r);
        }
    }
}

proof fn e1000_started_so<H: NicHost, C: RegisterAccess>(
    before: Platform<H, C>,
    after: Platform<H, C>,
    search: Seq<RegOp>,
    dev: PciDevice,
    s: E1000Start<H::Nic>,
    r: Result<NicUp<H::Nic>, NicFailure>,
)
    requires
        dev.dev < 32,
        dev.func < 8,
        e1000_started(before, after, search, dev, s, r),
    ensures
        e1000_was_started(before, after, search, dev, r),
{
    let n = before.host.acts().len() as int;
    let acts = after.host.acts();
    let did = e1000_start_acts(s, r->Ok_0);
    let m = (before.cfg.trace().len() + search.len()) as int;
    let trace = after.cfg.trace();
    let k = s.bar.len() as int;
    bar_reading_is_so(s.bar, dev, 0, s.phys);
    reset_is_so(s.ctl, s.polls, s.outcome);
    assert(acts.take(n) =~= before.host.acts());
    assert(trace.take(m) =~= before.cfg.trace() + search);
    assert(trace[m] == s.bar[0]);
    if k == 2 {
        assert(trace[m + 1] == s.bar[1]);
    }
    assert(acts[n] == did[0]);
    assert(acts[n + 1] == did[1]);
    assert(acts[n + 2] == did[2]);
    if s.outcome is Complete {
        bus_mastering_is_so(s.mastering, dev, s.readback);
        assert(trace[m + k + 2] == s.mastering[2]);
        assert(acts[n + 3] == did[3]);
        assert(guest_ip() =~= seq![10u8, 0, 2, 15]);
        assert(gateway_ip() =~= seq![10u8, 0, 2, 2]);
        request_asks(r->Ok_0.mac@, guest_ip(), gateway_ip());
    }
}

/// What is done to a tulip that is started, act by act: its registers are
/// reached where they are, at their port, or in memory at the offset behind
/// their physical address; the handler is told of them, it is set up there, and
/// asks, under the hardware address that the platform gives for it, from
/// 10.0.2.15 for 10.0.2.2; then the line in its configuration space is routed to
/// vector 33 of the boot CPU and it is let raise interrupts. What is given is
/// that NIC, with its interrupts on, with that address.
pub open spec fn tulip_was_started<H: NicHost, C>(
    before: Platform<H, C>,
    after: Platform<H, C>,
    offset: usize,
    search: Seq<RegOp>,
    dev: PciDevice,
    base: CsrBase,
    up: NicUp<H::Nic>,
) -> bool {
    let n = before.host.acts().len() as int;
    let acts = after.host.acts();
    let m = (before.cfg.trace().len() + search.len()) as int;
    let trace = after.cfg.trace();
    let there = 0x8000_0000 + dev.bus * 0x1_0000 + dev.dev * 0x800 + dev.func * 0x100;
    let at = acts[n]->Published_0;
    &&& acts.take(n) == before.host.acts()
    &&& trace.take(m) == before.cfg.trace() + search
    &&& opened_so(trace.subrange(m, trace.len() - 1), dev, base)
    &&& trace.last() is Read
    &&& trace.last()->Read_offset == there + 0x3C
    &&& acts.len() == n + 5
    &&& acts[n] is Published
    &&& base matches CsrBase::Io(port) ==> at == NicAt::Tulip(CsrAccess::Io(port))
    &&& base matches CsrBase::Mmio(phys) ==> (phys + offset <= usize::MAX ==> at == NicAt::Tulip(
        CsrAccess::Mmio((phys + offset) as usize),
    ))
    &&& acts[n + 1] is SetUp && acts[n + 1]->SetUp_at == at
    &&& acts[n + 2] is Transmitted
    &&& acts[n + 2]->Transmitted_before == acts[n + 1]->SetUp_nic
    &&& mac_asked::<H>(acts[n + 1]->SetUp_nic, up.mac)
    &&& acts[n + 2]->Transmitted_frame.len() == 60
    &&& asks(
        acts[n + 2]->Transmitted_frame,
        up.mac@,
        seq![10u8, 0, 2, 15],
        seq![10u8, 0, 2, 2],
    )
    &&& forall|i: int| 42 <= i < 60 ==> #[trigger] acts[n + 2]->Transmitted_frame[i] == 0
    &&& acts[n + 3] is Routed && acts[n + 3]->Routed_at == at
    &&& acts[n + 3]->Routed_route.line == trace.last()->Read_value % 0x100
    &&& acts[n + 3]->Routed_route.isr.vector == 33
    &&& acts[n + 3]->Routed_route.isr.cpu_id == CpuId::Bsp
    &&& acts[n + 3]->Routed_route.apic_id == 0
    &&& acts[n + 4] is Enabled
    &&& acts[n + 4]->Enabled_before == acts[n + 2]->Transmitted_after
    &&& acts[n + 4]->Enabled_after == up.nic
}

/// The kernel looks for two of DEC's devices on bus 0, starts the one it finds,
/// and fails where it finds none, without having touched anything else.
pub proof fn kernel_starts_a_tulip<H: NicHost, C: RegisterAccess>(
    offset: usize,
    ids: Seq<u16>,
    r: Result<NicUp<H::Nic>, NicFailure>,
)
    requires
        ids == seq![0x0009u16, 0x0019],
    ensures
        forall|hw: &mut Platform<H, C>| #[trigger]
            call_ensures(tulip_main::<H, C>, (hw, offset), r) ==> exists|
                search: Seq<RegOp>,
                found: Option<PciDevice>,
            |
                {
                    &&& #[trigger] searched(search, 0x1011, ids, found)
                    &&& match found {
                        None => {
                            &&& (*final(hw)).cfg.trace() == (*hw).cfg.trace() + search
                            &&& (*final(hw)).host == (*hw).host
                            &&& r is Err && r->Err_0 == NicFailure::NotFound
                        },
                        Some(dev) => r is Ok && exists|base: CsrBase|
                            #![trigger tulip_was_started(*hw, *final(hw), offset, search, dev, base, r->Ok_0)]
                            {
                            let before = *hw;
                            let after = *final(hw);
                            let up = r->Ok_0;
                            let n = before.host.acts().len() as int;
                            let acts = after.host.acts();
                            let m = (before.cfg.trace().len() + search.len()) as int;
                            let trace = after.cfg.trace();
                            let there = 0x8000_0000 + dev.bus * 0x1_0000 + dev.dev * 0x800 + dev.func * 0x100;
                            let at = acts[n]->Published_0;
                            &&& acts.take(n) == before.host.acts()
                            &&& trace.take(m) == before.cfg.trace() + search
                            &&& opened_so(trace.subrange(m, trace.len() - 1), dev, base)
                            &&& trace.last() is Read
                            &&& trace.last()->Read_offset == there + 0x3C
                            &&& acts.len() == n + 5
                            &&& acts[n] is Published
                            &&& base matches CsrBase::Io(port) ==> at == NicAt::Tulip(CsrAccess::Io(port))
                            &&& base matches CsrBase::Mmio(phys) ==> (phys + offset <= usize::MAX ==> at == NicAt::Tulip(
                                CsrAccess::Mmio((phys + offset) as usize),
                            ))
                            &&& acts[n + 1] is SetUp && acts[n + 1]->SetUp_at == at
                            &&& acts[n + 2] is Transmitted
                            &&& acts[n + 2]->Transmitted_before == acts[n + 1]->SetUp_nic
                            &&& ({
                                let nic = acts[n + 1]->SetUp_nic;
                                let mac = up.mac;
                                exists|host: &mut H| #[trigger] call_ensures(<H as NicHost>::mac, (host, &nic), mac)
                            })
                            &&& acts[n + 2]->Transmitted_frame.len() == 60
                            &&& asks(
                                acts[n + 2]->Transmitted_frame,
                                up.mac@,
                                seq![10u8, 0, 2, 15],
                                seq![10u8, 0, 2, 2],
                            )
                            &&& forall|i: int| 42 <= i < 60 ==> #[trigger] acts[n + 2]->Transmitted_frame[i] == 0
                            &&& acts[n + 3] is Routed && acts[n + 3]->Routed_at == at
                            &&& acts[n + 3]->Routed_route.line == trace.last()->Read_value % 0x100
                            &&& acts[n + 3]->Routed_route.isr.vector == 33
                            &&& acts[n + 3]->Routed_route.isr.cpu_id == CpuId::Bsp
                            &&& acts[n + 3]->Routed_route.apic_id == 0
                            &&& acts[n + 4] is Enabled
                            &&& acts[n + 4]->Enabled_before == acts[n + 2]->Transmitted_after
                            &&& acts[n + 4]->Enabled_after == up.nic
                        },
                    }
                },
{
    assert forall|hw: &mut Platform<H, C>| #[trigger]
        call_ensures(tulip_main::<H, C>, (hw, offset), r) implies exists|
        search: Seq<RegOp>,
        found: Option<PciDevice>,
    |
        {
            &&& #[trigger] searched(search, 0x1011, ids, found)
            &&& match found {
                None => {
                    &&& (*final(hw)).cfg.trace() == (*hw).cfg.trace() + search
                    &&& (*final(hw)).host == (*hw).host
                    &&& r is Err && r->Err_0 == NicFailure::NotFound
                },
                Some(dev) => r is Ok && exists|base: CsrBase| #[trigger]
                    tulip_was_started(*hw, *final(hw), offset, search, dev, base, r->Ok_0),
            }
        } by {
        let (search, found) = choose|search: Seq<RegOp>, found: Option<PciDevice>| #[trigger]
            tulip_found(*hw, *final(hw), offset, search, found, r);
        assert(tulip_ids() =~= ids);
        assert(searched(search, 0x1011, ids, found));
        if let Some(dev) = found {
            let s = choose|s: TulipStart<H::Nic>| #[trigger]
                tulip_started(*hw, *final(hw), offset, search, dev, s, r->Ok_0);
            tulip_started_so(*hw, *final(hw), offset, search, dev, s, r->Ok_0);
        }
    }
}

proof fn tulip_started_so<H: NicHost, C: RegisterAccess>(
    before: Platform<H, C>,
    after: Platform<H, C>,
    offset: usize,
    search: Seq<RegOp>,
    dev: PciDevice,
    s: TulipStart<H::Nic>,
    up: NicUp<H::Nic>,
)
    requires
        dev.dev < 32,
        dev.func < 8,
        tulip_started(before, after, offset, search, dev, s, up),
    ensures
        tulip_was_started(before, after, offset, search, dev, s.base, up),
{
    let n = before.host.acts().len() as int;
    let acts = after.host.acts();
    let did = tulip_start_acts(s, offset, up);
    let m = (before.cfg.trace().len() + search.len()) as int;
    let trace = after.cfg.trace();
    opening_is_so(s.opening, dev, s.base);
    words_lie_there(dev.bus, dev.dev, dev.func, 0x3C, 0);
    assert(acts.take(n) =~= before.host.acts());
    assert(trace.take(m) =~= before.cfg.trace() + search);
    assert(trace.subrange(m, trace.len() - 1) =~= s.opening);
    assert(trace.last() == line_read(dev, s.word));
    assert(acts[n] == did[0]);
    assert(acts[n + 1] == did[1]);
    assert(acts[n + 2] == did[2]);
    assert(acts[n + 3] == did[3]);
    assert(acts[n + 4] == did[4]);
    assert(guest_ip() =~= seq![10u8, 0, 2, 15]);
    assert(gateway_ip() =~= seq![10u8, 0, 2, 2]);
    request_asks(up.mac@, guest_ip(), gateway_ip());
}

} // verus!
