use embclox::driver::driver::{
    select_primary, IrqRoute, PciDriver, PciProbe, ProbeCtx, ProbedNic, VmBusDriver, VmBusProbe,
};
use embclox::driver::drivers::host::route_irq;
use embclox::driver::drivers::tulip::CsrBase;
use embclox::driver::drivers::{
    E1000Driver, Hosted, InTreePci, NetvscDriver, NicAt, NicHost, Platform, TulipDriver,
};
use embclox::driver::probe::{Attempt, BusKind};
use embclox::driver::{
    probe_all, register_default_drivers, register_named_driver, DriverRegistry, ProbeError,
    PROBE_BUDGET,
};
use embclox::dma::DmaRegion;
use embclox::hal::cpu_local::{init_bsp, CpuLocals};
use embclox::hal::pci::{PciBus, PciDevice};
use embclox::hal::vector_alloc::{CpuId, InstalledIsr, VectorAllocator};
use embclox::hyperv::boot::{init, BootOutcome, BootReply};
use embclox::hyperv::detect::HvFeatures;
use embclox::hyperv::{guid, ChannelOffer, Guid, HvError, VmBus};
use embclox::kernel::nic::{kernel_main, tulip_main, NicFailure};
use embclox::regs::{RegOp, RegisterAccess, Traced};

/// A register file that answers reads from a list.
struct Scripted {
    answers: Vec<u32>,
    log: Vec<RegOp>,
}

impl RegisterAccess for Scripted {
    fn read_reg(&mut self, offset: usize) -> u32 {
        let value = self.answers.remove(0);
        self.log.push(RegOp::Read { offset, value });
        value
    }

    fn write_reg(&mut self, offset: usize, value: u32) {
        self.log.push(RegOp::Write { offset, value });
    }
}

fn scripted(answers: Vec<u32>) -> Traced<Scripted> {
    Traced::new(Scripted { answers, log: vec![] })
}

/// Registers of a device that is out of reset at once, or never.
struct Regs {
    stuck: bool,
}

impl RegisterAccess for Regs {
    fn read_reg(&mut self, _offset: usize) -> u32 {
        if self.stuck {
            0xFFFF_FFFF
        } else {
            0
        }
    }

    fn write_reg(&mut self, _offset: usize, _value: u32) {}
}

/// A platform that only writes down what it is told to do.
#[derive(Default)]
struct Host {
    stuck: bool,
    netvsc_fails: bool,
    calls: Vec<String>,
}

impl NicHost for Host {
    type Regs = Regs;
    type Nic = String;

    fn map_mmio(&mut self, phys: u64, size: u64) -> usize {
        self.calls.push(format!("map {:#x} {:#x}", phys, size));
        0x7000
    }

    fn registers(&mut self, base: usize) -> Regs {
        self.calls.push(format!("registers {:#x}", base));
        Regs { stuck: self.stuck }
    }

    fn reset_timed_out(&mut self) {
        self.calls.push("gave up".to_string());
    }

    fn publish(&mut self, nic: NicAt) {
        self.calls.push(format!("publish {:?}", nic));
    }

    fn set_up(&mut self, nic: NicAt) -> String {
        self.calls.push(format!("set up {:?}", nic));
        format!("{:?}", nic)
    }

    fn route(&mut self, _nic: NicAt, route: IrqRoute) {
        self.calls.push(format!("route {} to {}", route.line, route.isr.vector));
    }

    fn enable_interrupts(&mut self, nic: &mut String) {
        self.calls.push("enable".to_string());
        nic.push_str(" is up");
    }

    fn mac(&mut self, _nic: &String) -> [u8; 6] {
        [0x52, 0x54, 0, 0x12, 0x34, 0x56]
    }

    fn transmit(&mut self, nic: &mut String, frame: &[u8]) {
        self.calls.push(format!("transmit {} of {}", frame.len(), frame[41]));
        nic.push_str(" announced");
    }

    fn netvsc(&mut self, vmbus: &mut VmBus) -> Result<String, HvError> {
        self.calls.push(format!("netvsc of {}", vmbus.offers().len()));
        if self.netvsc_fails {
            Err(HvError::Timeout)
        } else {
            Ok("netvsc is up".to_string())
        }
    }
}

fn offer(relid: u32, device_type: Guid) -> ChannelOffer {
    ChannelOffer { child_relid: relid, connection_id: 1, device_type, instance_id: device_type }
}

fn vmbus(offers: Vec<ChannelOffer>) -> VmBus {
    let page = DmaRegion { vaddr: 0x1000, paddr: 0x1000, size: 4096 };
    let features = HvFeatures { max_leaf: 0x4000_0006, has_synic: true, has_hypercall: true };
    let boot = init(Some(features), 0)
        .resume(BootReply::Done)
        .resume(BootReply::Done)
        .resume(BootReply::Pages { simp: page, siefp: page })
        .resume(BootReply::Done)
        .resume(BootReply::Connected { version: 9, parent_to_child: page, child_to_parent: page })
        .resume(BootReply::Offers(offers));
    match boot.finish() {
        BootOutcome::Up(bus) => bus,
        _ => panic!("VMBus is up"),
    }
}

fn ctx(
    host: Host,
    cfg: Vec<Function>,
    vmbus: Option<VmBus>,
) -> ProbeCtx<Platform<Host, Bus0>> {
    let mut cpus = CpuLocals::new();
    init_bsp(&mut cpus, 3);
    ProbeCtx {
        hw: Platform { host: Hosted::new(host), cfg: Traced::new(Bus0 { functions: cfg }) },
        irq_pins: 24,
        irq_alloc: VectorAllocator::new(32, 47, &[32, 39]),
        cpus,
        vmbus,
    }
}

/// A device on bus 0: where it is, its ids, its first BAR, its interrupt line.
#[derive(Clone, Copy)]
struct Function {
    dev: usize,
    id: u32,
    bar0: u32,
    line: u32,
}

/// Configuration space with single-function devices on bus 0.
struct Bus0 {
    functions: Vec<Function>,
}

impl RegisterAccess for Bus0 {
    fn read_reg(&mut self, offset: usize) -> u32 {
        let dev = (offset - 0x8000_0000) / 0x800;
        for function in &self.functions {
            if function.dev == dev {
                return match offset % 0x800 {
                    0 => function.id,
                    8 => 0x0200_0000,
                    0x10 => function.bar0,
                    0x3C => function.line,
                    _ => 0,
                };
            }
        }
        0xFFFF_FFFF
    }

    fn write_reg(&mut self, _offset: usize, _value: u32) {}
}

fn at(dev: usize, id: u32, bar0: u32, line: u32) -> Function {
    Function { dev, id, bar0, line }
}

fn calls(ctx: &ProbeCtx<Platform<Host, Bus0>>) -> Vec<&str> {
    ctx.hw.host.inner().calls.iter().map(|c| c.as_str()).collect()
}

/// Probe everything there is.
fn probe(
    ctx: &mut ProbeCtx<Platform<Host, Bus0>>,
    log: &mut Vec<Attempt>,
) -> Vec<ProbedNic<String>> {
    let mut cfg = Traced::new(Bus0 { functions: ctx.hw.cfg.inner().functions.clone() });
    probe_all(&registry(), ctx, &PciBus, &mut cfg, log)
}

fn registry() -> DriverRegistry<InTreePci, NetvscDriver> {
    let mut registry = DriverRegistry::new();
    register_default_drivers(&mut registry);
    registry
}

fn device(vendor: u16, device: u16) -> PciDevice {
    PciDevice { bus: 0, dev: 2, func: 0, vendor, device, class: 2, subclass: 0 }
}

#[test]
fn default_drivers_are_registered_in_order() {
    let registry = registry();
    let names: Vec<&str> =
        registry.pci().iter().map(|d| PciDriver::name(d)).collect();
    assert_eq!(names, vec!["e1000", "tulip"]);
    assert_eq!(registry.vmbus().len(), 1);
    assert_eq!(VmBusDriver::name(&registry.vmbus()[0]), "netvsc");
    assert!(DriverRegistry::<InTreePci, NetvscDriver>::new().pci().is_empty());
}

#[test]
fn drivers_are_registered_by_name() {
    for (name, pci, vmbus) in [("e1000", 1, 0), ("tulip", 1, 0), ("netvsc", 0, 1), ("ne2000", 0, 0)]
    {
        let mut registry = DriverRegistry::new();
        register_named_driver(&mut registry, name);
        assert_eq!((registry.pci().len(), registry.vmbus().len()), (pci, vmbus));
        for driver in registry.pci() {
            assert_eq!(PciDriver::name(driver), name);
        }
    }
}

#[test]
fn drivers_match_their_families() {
    let e1000 = |d: &PciDevice| PciDriver::matches(&E1000Driver, d);
    let tulip = |d: &PciDevice| PciDriver::matches(&TulipDriver, d);
    for id in [0x100E, 0x100F, 0x10D3] {
        assert!(e1000(&device(0x8086, id)));
        assert!(!tulip(&device(0x8086, id)));
        assert!(!e1000(&device(0x1011, id)));
    }
    for id in [0x0009, 0x0019] {
        assert!(tulip(&device(0x1011, id)));
        assert!(!e1000(&device(0x1011, id)));
    }
    assert!(!e1000(&device(0x8086, 0x10D4)));
    assert!(!tulip(&device(0x1011, 0x0014)));
    assert_eq!(PciDriver::priority(&E1000Driver), 20);
    assert_eq!(PciDriver::priority(&TulipDriver), 30);
    assert_eq!(VmBusDriver::priority(&NetvscDriver), 10);
    let netvsc = |o: &ChannelOffer| VmBusDriver::matches(&NetvscDriver, o);
    assert!(netvsc(&offer(1, guid::netvsc())));
    assert!(!netvsc(&offer(1, guid::synthvid())));
}

#[test]
fn every_matching_device_is_probed() {
    let mut ctx = ctx(
        Host::default(),
        vec![
            at(0, 0x1237_8086, 0, 0),
            at(2, 0x100E_8086, 0xFEB8_0000, 0xFF),
            at(3, 0x0009_1011, 0xC101, 11),
            at(5, 0x10D3_8086, 0xFEB8_0000, 10),
        ],
        None,
    );
    let mut log = vec![];
    let nics = probe(&mut ctx, &mut log);
    let names: Vec<(&str, u8, &str)> =
        nics.iter().map(|n| (n.driver.as_str(), n.priority, n.name)).collect();
    assert_eq!(
        names,
        vec![("Tulip(Io(49408)) is up", 30, "tulip"), ("E1000(28672) is up", 20, "e1000")]
    );
    assert_eq!(log.len(), 3);
    assert_eq!((log[0].device, log[0].driver), (1, 0));
    assert_eq!(log[0].error, Some(ProbeError::InvalidIrqLine(0xFF)));
    assert_eq!((log[1].device, log[1].driver, log[1].error), (2, 1, None));
    assert_eq!(select_primary(&nics), Some(1));
}

#[test]
fn e1000_is_brought_up() {
    let mut ctx = ctx(Host::default(), vec![at(2, 0x100E_8086, 0xFEB8_0000, 0x010B)], None);
    let nic: Result<String, ProbeError> = E1000Driver.probe(device(0x8086, 0x100E), &mut ctx);
    assert_eq!(nic, Ok("E1000(28672) is up".to_string()));
    assert_eq!(
        calls(&ctx),
        vec![
            "map 0xfeb80000 0x20000",
            "registers 0x7000",
            "set up E1000(28672)",
            "publish E1000(28672)",
            "route 11 to 33",
            "enable",
        ]
    );
}

#[test]
fn e1000_that_stays_in_reset_is_given_up() {
    let host = Host { stuck: true, ..Host::default() };
    let mut ctx = ctx(host, vec![at(2, 0x100E_8086, 0xFEB8_0000, 11)], None);
    let nic: Result<String, ProbeError> = E1000Driver.probe(device(0x8086, 0x100E), &mut ctx);
    assert_eq!(nic, Err(ProbeError::Driver("e1000 reset timeout")));
    assert_eq!(calls(&ctx), vec!["map 0xfeb80000 0x20000", "registers 0x7000", "gave up"]);
    assert_eq!(ctx.irq_alloc.free_count(), 14);
}

#[test]
fn tulip_is_brought_up() {
    let mut ctx = ctx(Host::default(), vec![at(2, 0x0009_1011, 0xFEBF_0000, 12)], None);
    let nic: Result<String, ProbeError> = TulipDriver.probe(device(0x1011, 0x0009), &mut ctx);
    assert_eq!(nic, Ok("Tulip(Mmio(28672)) is up".to_string()));
    assert_eq!(
        calls(&ctx),
        vec![
            "map 0xfebf0000 0x1000",
            "publish Tulip(Mmio(28672))",
            "set up Tulip(Mmio(28672))",
            "route 12 to 33",
            "enable",
        ]
    );
}

#[test]
fn tulip_without_an_interrupt_fails() {
    let mut ctx = ctx(Host::default(), vec![at(2, 0x0019_1011, 0xC103, 24)], None);
    let mut log = vec![];
    assert!(probe(&mut ctx, &mut log).is_empty());
    assert_eq!(log[0].error, Some(ProbeError::InvalidIrqLine(24)));
    assert_eq!(calls(&ctx), vec!["publish Tulip(Io(49408))", "set up Tulip(Io(49408))"]);
}

#[test]
fn vmbus_is_probed_after_pci() {
    let bus = vmbus(vec![offer(7, guid::synthvid()), offer(8, guid::netvsc())]);
    let mut ctx = ctx(Host::default(), vec![at(4, 0x100E_8086, 0, 11)], Some(bus));
    let mut log = vec![];
    let nics = probe(&mut ctx, &mut log);
    assert_eq!(calls(&ctx).last(), Some(&"netvsc of 2"));
    assert_eq!(nics.len(), 2);
    assert_eq!(nics[1].driver, "netvsc is up");
    assert_eq!((nics[1].priority, nics[1].name), (10, "netvsc"));
    assert_eq!(log[1].bus, BusKind::VmBus);
    assert_eq!((log[1].device, log[1].driver), (1, 0));
    // The synthetic NIC wins.
    assert_eq!(select_primary(&nics), Some(1));
}

#[test]
fn probing_stops_at_the_budget() {
    let mut functions: Vec<Function> = (0..9).map(|dev| at(dev, 0x100E_8086, 0, 11)).collect();
    functions[1].line = 0xFF;
    let bus = vmbus(vec![offer(8, guid::netvsc())]);
    let mut ctx = ctx(Host::default(), functions, Some(bus));
    let mut log = vec![];
    let nics = probe(&mut ctx, &mut log);
    assert_eq!(nics.len(), PROBE_BUDGET);
    let tried: Vec<usize> = log.iter().map(|a| a.device).collect();
    assert_eq!(tried, vec![0, 1, 2, 3, 4]);
}

#[test]
fn nothing_to_probe() {
    let mut ctx = ctx(Host::default(), vec![at(1, 0x1111_1234, 0, 0)], None);
    let mut log = vec![];
    let nics = probe(&mut ctx, &mut log);
    assert!(nics.is_empty());
    assert!(log.is_empty());
    assert_eq!(select_primary(&nics), None);
}

#[test]
fn netvsc_failures_are_told_apart() {
    let mut none = ctx(Host::default(), vec![], None);
    let r: Result<String, ProbeError> = NetvscDriver.probe(offer(1, guid::netvsc()), &mut none);
    assert_eq!(r, Err(ProbeError::Driver("netvsc: vmbus unavailable")));
    assert!(calls(&none).is_empty());
    let host = Host { netvsc_fails: true, ..Host::default() };
    let mut some = ctx(host, vec![], Some(vmbus(vec![])));
    let r: Result<String, ProbeError> = NetvscDriver.probe(offer(1, guid::netvsc()), &mut some);
    assert_eq!(r, Err(ProbeError::Driver("netvsc: NetvscDevice::init failed")));
}

#[test]
fn primary_is_the_first_of_the_best() {
    let nics: Vec<ProbedNic<u8>> = [(1u8, 30u8), (2, 20), (3, 20), (4, 40)]
        .iter()
        .map(|(nic, priority)| ProbedNic::new(*nic, *priority, "x"))
        .collect();
    assert_eq!(select_primary(&nics), Some(1));
}

#[test]
fn irq_lines_are_checked_and_routed() {
    let mut c = ctx(Host::default(), vec![], None);
    let route = c.install_pci_isr(11).unwrap();
    assert_eq!(
        route,
        IrqRoute { line: 11, isr: InstalledIsr { vector: 33, cpu_id: CpuId::Bsp }, apic_id: 3 }
    );
    assert_eq!(c.install_pci_isr(0xFF), Err(ProbeError::InvalidIrqLine(0xFF)));
    assert_eq!(c.install_pci_isr(24), Err(ProbeError::InvalidIrqLine(24)));
    assert_eq!(c.install_pci_isr(23).unwrap().isr.vector, 34);
    c.irq_alloc = VectorAllocator::new(40, 40, &[40]);
    assert_eq!(c.install_pci_isr(5), Err(ProbeError::NoFreeVector));
    // Without a per-CPU table the boot CPU goes by its conventional id.
    c.cpus = CpuLocals::new();
    c.irq_alloc = VectorAllocator::new(40, 40, &[]);
    assert_eq!(c.install_pci_isr(5).unwrap().apic_id, 0);
}

#[test]
fn irq_line_comes_from_configuration_space() {
    let mut c = ctx(Host::default(), vec![at(2, 0x100E_8086, 0, 0x0000_010A)], None);
    let route = route_irq(&device(0x8086, 0x100E), &mut c, NicAt::E1000(1)).unwrap();
    assert_eq!((route.line, route.isr.vector), (10, 33));
    assert_eq!(calls(&c), vec!["route 10 to 33"]);
}

#[test]
fn e1000_interrupt_is_read() {
    let mut regs = scripted(vec![0x85]);
    assert_eq!(E1000Driver.acknowledge_interrupt(&mut regs), 0x85);
    assert_eq!(regs.inner().log.as_slice(), &[RegOp::Read { offset: 0x30, value: 0x85 }]);
}

#[test]
fn tulip_registers_in_ports_or_memory() {
    let dev = device(0x1011, 0x0009);
    let mut cfg = scripted(vec![0, 0, 7, 0x0001_C103]);
    assert_eq!(TulipDriver.open(&PciBus, &mut cfg, &dev), CsrBase::Io(0xC100));
    assert_eq!(cfg.inner().log.len(), 5);
    assert_eq!(cfg.inner().log[4], RegOp::Read { offset: 0x8000_1010, value: 0x0001_C103 });
    let mut cfg = scripted(vec![0, 0, 7, 0xFEBF_0008, 0xFEBF_0008]);
    assert_eq!(TulipDriver.open(&PciBus, &mut cfg, &dev), CsrBase::Mmio(0xFEBF_0000));
    assert_eq!(cfg.inner().log.len(), 6);
    let mut cfg = scripted(vec![0, 0, 7, 0x4, 0x4, 0x2]);
    assert_eq!(TulipDriver.open(&PciBus, &mut cfg, &dev), CsrBase::Mmio(0x2_0000_0000));
}

#[test]
fn tulip_interrupt_is_served() {
    let mut regs = scripted(vec![0x0001_0040]);
    assert_eq!(TulipDriver.acknowledge_interrupt(&mut regs), 0x0001_0040);
    assert_eq!(
        regs.inner().log.as_slice(),
        &[
            RegOp::Write { offset: 7, value: 0 },
            RegOp::Read { offset: 5, value: 0x0001_0040 },
            RegOp::Write { offset: 5, value: 0x0001_0040 },
            RegOp::Write { offset: 7, value: 0x0001_8041 },
        ]
    );
}

#[test]
fn probe_errors_describe_themselves() {
    assert_eq!(ProbeError::InvalidIrqLine(0xFF).message(), "invalid PCI IRQ line 0xff");
    assert_eq!(ProbeError::InvalidIrqLine(0).message(), "invalid PCI IRQ line 0x0");
    assert_eq!(ProbeError::NoFreeVector.message(), "no free IDT vector");
    assert_eq!(ProbeError::MmioMap.message(), "MMIO mapping failed");
    assert_eq!(ProbeError::DmaAlloc.message(), "DMA allocation failed");
    assert_eq!(ProbeError::Driver("link timeout").message(), "driver error: link timeout");
}

#[test]
fn e1000_kernel_starts_its_nic() {
    let functions = vec![at(1, 0x7000_8086, 0, 0), at(6, 0x100F_8086, 0xFEB8_0000, 11)];
    let mut hw = ctx(Host::default(), functions, None).hw;
    let up = kernel_main(&mut hw).ok().unwrap();
    assert_eq!(up.nic, "E1000(28672) announced");
    assert_eq!(up.mac, [0x52, 0x54, 0, 0x12, 0x34, 0x56]);
    assert_eq!(
        hw.host.inner().calls,
        vec![
            "map 0xfeb80000 0x20000",
            "registers 0x7000",
            "set up E1000(28672)",
            "transmit 42 of 2",
        ]
    );
}

#[test]
fn e1000_kernel_needs_an_e1000() {
    let mut hw = ctx(Host::default(), vec![at(6, 0x0009_1011, 0xC101, 11)], None).hw;
    assert_eq!(kernel_main(&mut hw).err(), Some(NicFailure::NotFound));
    assert!(hw.host.inner().calls.is_empty());
    let host = Host { stuck: true, ..Host::default() };
    let mut hw = ctx(host, vec![at(6, 0x100F_8086, 0xFEB8_0000, 11)], None).hw;
    assert_eq!(kernel_main(&mut hw).err(), Some(NicFailure::ResetTimedOut));
    assert_eq!(hw.host.inner().calls.last().unwrap(), "gave up");
}

#[test]
fn tulip_kernel_uses_the_direct_map() {
    let functions = vec![at(6, 0x0009_1011, 0xFEB8_0000, 11)];
    let mut hw = ctx(Host::default(), functions, None).hw;
    let up = tulip_main(&mut hw, 0x4_0000_0000).ok().unwrap();
    let csr = format!("Tulip(Mmio({}))", 0x4_FEB8_0000usize);
    assert_eq!(up.nic, format!("{} announced is up", csr));
    // Nothing is mapped.
    assert_eq!(
        hw.host.inner().calls,
        vec![
            format!("publish {}", csr),
            format!("set up {}", csr),
            "transmit 60 of 2".to_string(),
            "route 11 to 33".to_string(),
            "enable".to_string(),
        ]
    );
}

#[test]
fn tulip_kernel_starts_its_nic() {
    let mut hw = ctx(Host::default(), vec![at(6, 0x0019_1011, 0xC101, 0x10B)], None).hw;
    let up = tulip_main(&mut hw, 0x8000_0000).ok().unwrap();
    assert_eq!(up.mac, [0x52, 0x54, 0, 0x12, 0x34, 0x56]);
    assert_eq!(up.nic, "Tulip(Io(49408)) announced is up");
    assert_eq!(
        hw.host.inner().calls,
        vec![
            "publish Tulip(Io(49408))",
            "set up Tulip(Io(49408))",
            "transmit 60 of 2",
            "route 11 to 33",
            "enable",
        ]
    );
    let mut hw = ctx(Host::default(), vec![at(6, 0x100E_8086, 0, 11)], None).hw;
    assert_eq!(tulip_main(&mut hw, 0).err(), Some(NicFailure::NotFound));
}
