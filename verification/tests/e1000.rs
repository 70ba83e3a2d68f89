use embclox::e1000::regs::{CTL, FCAH, FCAL, FCT, FCTTV, ICR, IMS, MMIO_SIZE};
use embclox::e1000::{reset_device, E1000Embassy, MmioRegs, ResetOutcome};
use embclox::regs::{RegOp, RegisterAccess, Traced};

/// A register file that answers reads from a list, and with 0 once the list is
/// used up.
struct Scripted {
    answers: Vec<u32>,
    log: Vec<RegOp>,
}

impl RegisterAccess for Scripted {
    fn read_reg(&mut self, offset: usize) -> u32 {
        let value = if self.answers.is_empty() { 0 } else { self.answers.remove(0) };
        self.log.push(RegOp::Read { offset, value });
        value
    }

    fn write_reg(&mut self, offset: usize, value: u32) {
        self.log.push(RegOp::Write { offset, value });
    }
}

fn scripted(answers: Vec<u32>) -> Traced<Scripted> {
    Traced::new(Scripted { answers, log: vec![] })
}

#[test]
fn reset_sequence() {
    let mut regs = scripted(vec![0x0000_0240, 0x0400_0240, 0x0400_0000, 0x0000_0240]);
    assert_eq!(reset_device(&mut regs), ResetOutcome::Complete);
    assert_eq!(
        regs.inner().log.as_slice(),
        &[
            RegOp::Write { offset: IMS, value: 0 },
            RegOp::Read { offset: CTL, value: 0x0000_0240 },
            RegOp::Write { offset: CTL, value: 0x0400_0240 },
            RegOp::Read { offset: CTL, value: 0x0400_0240 },
            RegOp::Read { offset: CTL, value: 0x0400_0000 },
            RegOp::Read { offset: CTL, value: 0x0000_0240 },
            RegOp::Write { offset: IMS, value: 0 },
            RegOp::Write { offset: CTL, value: 0x60 },
            RegOp::Write { offset: FCAL, value: 0 },
            RegOp::Write { offset: FCAH, value: 0 },
            RegOp::Write { offset: FCT, value: 0 },
            RegOp::Write { offset: FCTTV, value: 0 },
        ]
    );
}

/// A device that never comes out of reset.
struct Stuck {
    reads: u32,
    writes: u32,
}

impl RegisterAccess for Stuck {
    fn read_reg(&mut self, _offset: usize) -> u32 {
        self.reads += 1;
        0xFFFF_FFFF
    }

    fn write_reg(&mut self, _offset: usize, _value: u32) {
        self.writes += 1;
    }
}

#[test]
fn reset_gives_up() {
    let mut regs = Traced::new(Stuck { reads: 0, writes: 0 });
    assert_eq!(reset_device(&mut regs), ResetOutcome::TimedOut);
    assert_eq!(regs.inner().reads, 100_001);
    assert_eq!(regs.inner().writes, 2);
}

#[test]
fn register_addresses() {
    let regs = MmioRegs::new(0x4000_0000);
    assert_eq!(regs.address(CTL), 0x4000_0000);
    assert_eq!(regs.address(ICR), 0x4000_00C0);
    assert_eq!(regs.address(IMS), 0x4000_00D0);
    assert_eq!(regs.address(FCTTV), 0x4000_0170);
    assert_eq!(MMIO_SIZE, 0x20000);
}

#[test]
fn adapter_keeps_device_and_address() {
    let mut nic = E1000Embassy::new(vec![1u8, 2], [0x52, 0x54, 0, 0x12, 0x34, 0x56]);
    nic.device().push(3);
    assert_eq!(nic.device().as_slice(), &[1, 2, 3]);
    assert_eq!(nic.hardware_address(), [0x52, 0x54, 0, 0x12, 0x34, 0x56]);
    assert_eq!(nic.max_transmission_unit(), 1514);
}
