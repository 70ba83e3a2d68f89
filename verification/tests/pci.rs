use embclox::dma::DmaRegion;
use embclox::driver::bus::{Bus, VmBusEnum};
use embclox::hal::pci::{pci_config_address, pci_read16, pci_write16, PciBus, PciDevice};
use embclox::hyperv::boot::{init, BootOutcome, BootReply};
use embclox::hyperv::detect::HvFeatures;
use embclox::hyperv::guid;
use embclox::hyperv::ChannelOffer;
use embclox::regs::{RegOp, RegisterAccess, Traced};

/// A register file that answers reads from a list, and with 0 once the list is
/// used up.
struct Scripted {
    answers: Vec<u32>,
    log: Vec<RegOp>,
}

impl RegisterAccess for Scripted {
    fn read_reg(&mut self, offset: usize) -> u32 {
        let value = if self.answers.is_empty() { 0 } else { self.answers.remove(0) };
        self.log.push(RegOp::Read { offset, value });
        value
    }

    fn write_reg(&mut self, offset: usize, value: u32) {
        self.log.push(RegOp::Write { offset, value });
    }
}

fn scripted(answers: Vec<u32>) -> Traced<Scripted> {
    Traced::new(Scripted { answers, log: vec![] })
}

/// A configuration space that holds words at addresses and reads as ones
/// elsewhere.
struct Space {
    words: Vec<(usize, u32)>,
    log: Vec<RegOp>,
}

impl RegisterAccess for Space {
    fn read_reg(&mut self, offset: usize) -> u32 {
        let mut value = 0xFFFF_FFFF;
        for (at, word) in &self.words {
            if *at == offset {
                value = *word;
            }
        }
        self.log.push(RegOp::Read { offset, value });
        value
    }

    fn write_reg(&mut self, offset: usize, value: u32) {
        for (at, word) in &mut self.words {
            if *at == offset {
                *word = value;
            }
        }
        self.log.push(RegOp::Write { offset, value });
    }
}

fn at(dev: usize, func: usize, reg: usize) -> usize {
    0x8000_0000 + dev * 0x800 + func * 0x100 + reg
}

fn machine() -> Traced<Space> {
    Traced::new(Space {
        words: vec![
            // Host bridge, single function.
            (at(0, 0, 0), 0x1237_8086),
            (at(0, 0, 8), 0x0600_0002),
            (at(0, 0, 0xC), 0x0000_0000),
            // Chipset, several functions, of which 1 and 3 are there.
            (at(1, 0, 0), 0x7000_8086),
            (at(1, 0, 8), 0x0601_0000),
            (at(1, 0, 0xC), 0x0080_0000),
            (at(1, 1, 0), 0x7010_8086),
            (at(1, 1, 8), 0x0101_8000),
            (at(1, 3, 0), 0x7113_8086),
            (at(1, 3, 8), 0x0680_0003),
            // NIC, with a second function that is not reached.
            (at(3, 0, 0), 0x100E_8086),
            (at(3, 0, 8), 0x0200_0003),
            (at(3, 0, 0xC), 0x0000_0000),
            (at(3, 1, 0), 0x100E_8086),
        ],
        log: vec![],
    })
}

fn nic() -> PciDevice {
    PciDevice { bus: 0, dev: 3, func: 0, vendor: 0x8086, device: 0x100E, class: 2, subclass: 0 }
}

#[test]
fn find_device_takes_the_lowest_match() {
    let mut space = machine();
    let found = PciBus.find_device(&mut space, 0x8086, 0x100E).unwrap();
    assert_eq!(found, nic());
    // Devices 0 to 3 were asked for their ids, then the match for its class.
    let offsets: Vec<usize> = space
        .inner()
        .log
        .iter()
        .map(|op| match op {
            RegOp::Read { offset, .. } => *offset,
            RegOp::Write { offset, .. } => panic!("write to {:#x}", offset),
        })
        .collect();
    assert_eq!(offsets, vec![at(0, 0, 0), at(1, 0, 0), at(2, 0, 0), at(3, 0, 0), at(3, 0, 8)]);
}

#[test]
fn find_device_any_tries_every_id() {
    let mut space = machine();
    let found = PciBus.find_device_any(&mut space, 0x8086, &[0x10D3, 0x100E]).unwrap();
    assert_eq!(found.dev, 3);
    assert!(PciBus.find_device_any(&mut space, 0x1011, &[0x0009, 0x0019]).is_none());
    assert!(PciBus.find_device(&mut space, 0x8086, 0x7010).is_none());
    assert!(PciBus.find_device_any(&mut space, 0x8086, &[]).is_none());
    // A device that is not there has vendor and device id 0xFFFF, and is not
    // taken for one.
    assert!(PciBus.find_device(&mut space, 0xFFFF, 0xFFFF).is_none());
}

#[test]
fn enumerate_descends_into_functions() {
    let mut space = machine();
    let list = PciBus.enumerate(&mut space);
    let places: Vec<(u8, u8, u16)> = list.iter().map(|d| (d.dev, d.func, d.device)).collect();
    assert_eq!(
        places,
        vec![(0, 0, 0x1237), (1, 0, 0x7000), (1, 1, 0x7010), (1, 3, 0x7113), (3, 0, 0x100E)]
    );
    assert_eq!((list[2].class, list[2].subclass), (0x01, 0x01));
    assert_eq!(list[4], nic());
    // The bus trait gives the same list.
    let again: Vec<PciDevice> = Bus::enumerate(&PciBus, &mut space);
    assert_eq!(again, list);
}

#[test]
fn empty_bus_enumerates_to_nothing() {
    let mut space = Traced::new(Space { words: vec![], log: vec![] });
    assert!(PciBus.enumerate(&mut space).is_empty());
    assert_eq!(space.inner().log.len(), 32);
}

#[test]
fn bus_mastering_keeps_the_other_bits() {
    let command = at(3, 0, 4);
    let mut regs = scripted(vec![0x0290_0140, 0x0290_0140, 0x0290_0147]);
    let readback = PciBus.enable_bus_mastering(&mut regs, &nic());
    assert_eq!(readback, 0x0147);
    assert_eq!(
        regs.inner().log.as_slice(),
        &[
            RegOp::Read { offset: command, value: 0x0290_0140 },
            RegOp::Read { offset: command, value: 0x0290_0140 },
            RegOp::Write { offset: command, value: 0x0290_0147 },
            RegOp::Read { offset: command, value: 0x0290_0147 },
        ]
    );
}

#[test]
fn bars_of_both_widths() {
    let mut regs = scripted(vec![0xFEB8_0000]);
    assert_eq!(PciBus.read_bar(&mut regs, &nic(), 0), 0xFEB8_0000);
    assert_eq!(regs.inner().log.as_slice(), &[RegOp::Read { offset: at(3, 0, 0x10), value: 0xFEB8_0000 }]);

    let mut regs = scripted(vec![0xE000_000C, 0x0000_0012]);
    assert_eq!(PciBus.read_bar(&mut regs, &nic(), 2), 0x12_E000_0000);
    assert_eq!(
        regs.inner().log.as_slice(),
        &[
            RegOp::Read { offset: at(3, 0, 0x18), value: 0xE000_000C },
            RegOp::Read { offset: at(3, 0, 0x1C), value: 0x0000_0012 },
        ]
    );
}

#[test]
fn config_addresses_by_word() {
    assert_eq!(pci_config_address(0, 0, 0, 0), 0x8000_0000);
    assert_eq!(pci_config_address(0xFF, 31, 7, 0xFF), 0x80FF_FFFC);
    assert_eq!(pci_config_address(1, 2, 3, 0x3C), 0x8001_133C);
    assert_eq!(pci_config_address(1, 2, 3, 0x3C), pci_config_address(1, 2, 3, 0x3F));
    assert_ne!(pci_config_address(1, 2, 3, 0x3C), pci_config_address(1, 2, 3, 0x40));
    assert_ne!(pci_config_address(1, 2, 3, 0x3C), pci_config_address(1, 2, 4, 0x3C));
}

#[test]
fn half_words_are_stored_apart() {
    let words = vec![(at(6, 0, 0x04), 0x1234_5678), (at(6, 0, 0x08), 0x9ABC_DEF0)];
    let mut cfg = Traced::new(Space { words, log: vec![] });
    pci_write16(&mut cfg, 0, 6, 0, 0x04, 0xAAAA);
    assert_eq!(pci_read16(&mut cfg, 0, 6, 0, 0x04), 0xAAAA);
    assert_eq!(pci_read16(&mut cfg, 0, 6, 0, 0x06), 0x1234);
    pci_write16(&mut cfg, 0, 6, 0, 0x06, 0xBBBB);
    assert_eq!(pci_read16(&mut cfg, 0, 6, 0, 0x04), 0xAAAA);
    assert_eq!(pci_read16(&mut cfg, 0, 6, 0, 0x06), 0xBBBB);
    assert_eq!(pci_read16(&mut cfg, 0, 6, 0, 0x08), 0xDEF0);
    assert_eq!(pci_read16(&mut cfg, 0, 6, 0, 0x0A), 0x9ABC);
}

#[test]
fn config_registers_by_word() {
    let dev = PciDevice { bus: 2, dev: 31, func: 7, ..nic() };
    let mut regs = scripted(vec![0x0000_010B]);
    assert_eq!(PciBus.read_config(&mut regs, &dev, 0x3C), 0x0000_010B);
    PciBus.write_config(&mut regs, &dev, 0x3E, 5);
    assert_eq!(
        regs.inner().log.as_slice(),
        &[
            RegOp::Read { offset: 0x8002_FF3C, value: 0x0000_010B },
            RegOp::Write { offset: 0x8002_FF3C, value: 5 },
        ]
    );
}

#[test]
fn vmbus_enumerates_its_offers() {
    let page = DmaRegion { vaddr: 0x1000, paddr: 0x1000, size: 4096 };
    let offer = ChannelOffer {
        child_relid: 4,
        connection_id: 5,
        device_type: guid::heartbeat(),
        instance_id: guid::heartbeat(),
    };
    let features = HvFeatures { max_leaf: 0x4000_0006, has_synic: true, has_hypercall: true };
    let boot = init(Some(features), 0)
        .resume(BootReply::Done)
        .resume(BootReply::Done)
        .resume(BootReply::Pages { simp: page, siefp: page })
        .resume(BootReply::Done)
        .resume(BootReply::Connected { version: 9, parent_to_child: page, child_to_parent: page })
        .resume(BootReply::Offers(vec![offer]));
    let bus = match boot.finish() {
        BootOutcome::Up(bus) => bus,
        _ => panic!("VMBus is up"),
    };
    let mut none = ();
    let listed = VmBusEnum(&bus).enumerate(&mut none);
    assert_eq!(listed.len(), 1);
    assert_eq!(listed[0].child_relid, 4);
}
