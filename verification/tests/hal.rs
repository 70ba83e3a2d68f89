use embclox::hal::apic::{self, Lapic};
use embclox::hal::boot::{init, Config, HalState};
use embclox::hal::cpu_local::{by_id, current_cpu_id, CpuLocals};
use embclox::hal::heap::{is_heap_size, HEAP_SIZE};
use embclox::hal::limine_boot::{collect, BootInfoError, LimineBootInfo, Responses};
use embclox::hal::smp::{
    ap_init_from, ap_setup, bring_up_aps, bsp_lapic_id, check_tsc_sync, out_of_sync, processor_id,
    set_ap_init_params, ApInit, ApParams, ApStart,
};
use embclox::hal::vector_alloc::{CpuId, VectorAllocator};
use embclox::regs::{MsrWrite, RegOp, RegisterAccess, Traced};

/// A register file that answers reads from a list, and with 0 once the list is
/// used up.
struct Scripted {
    answers: Vec<u32>,
    log: Vec<RegOp>,
}

impl RegisterAccess for Scripted {
    fn read_reg(&mut self, offset: usize) -> u32 {
        let value = if self.answers.is_empty() { 0 } else { self.answers.remove(0) };
        self.log.push(RegOp::Read { offset, value });
        value
    }

    fn write_reg(&mut self, offset: usize, value: u32) {
        self.log.push(RegOp::Write { offset, value });
    }
}

fn scripted(answers: Vec<u32>) -> Traced<Scripted> {
    Traced::new(Scripted { answers, log: vec![] })
}

// ── LAPIC ───────────────────────────────────────────────────────────────

#[test]
fn lapic_address_is_cached() {
    let mut lapic = Lapic::unmapped();
    assert_eq!(apic::vaddr(&lapic), 0);
    apic::init(&mut lapic, 0xFFFF_8000);
    assert_eq!(apic::vaddr(&lapic), 0xFFFF_8000);
    assert_eq!(apic::LAPIC_PHYS_BASE, 0xFEE0_0000);
}

#[test]
fn lapic_enable_and_eoi() {
    let mut regs = scripted(vec![]);
    apic::enable(&mut regs);
    apic::eoi(&mut regs);
    assert_eq!(
        regs.inner().log.as_slice(),
        &[
            RegOp::Write { offset: 0xF0, value: 0x127 },
            RegOp::Write { offset: 0x80, value: 0 },
            RegOp::Write { offset: 0xB0, value: 0 },
        ]
    );
}

#[test]
fn lapic_timer_modes() {
    let mut regs = scripted(vec![0x0002_0020, 1234, 0x0500_0000]);
    apic::set_timer_oneshot_masked(&mut regs, 16);
    apic::set_timer_initial_count(&mut regs, 0xFFFF_FFFF);
    apic::set_timer_periodic(&mut regs, 32, 128, 1000);
    apic::mask_timer(&mut regs);
    assert_eq!(apic::timer_current_count(&mut regs), 1234);
    assert_eq!(apic::id(&mut regs), 5);
    assert_eq!(
        regs.inner().log.as_slice(),
        &[
            RegOp::Write { offset: 0x3E0, value: 3 },
            RegOp::Write { offset: 0x320, value: 0x1_0020 },
            RegOp::Write { offset: 0x380, value: 0xFFFF_FFFF },
            RegOp::Write { offset: 0x3E0, value: 10 },
            RegOp::Write { offset: 0x320, value: 0x2_0020 },
            RegOp::Write { offset: 0x380, value: 1000 },
            RegOp::Read { offset: 0x320, value: 0x2_0020 },
            RegOp::Write { offset: 0x320, value: 0x3_0020 },
            RegOp::Read { offset: 0x390, value: 1234 },
            RegOp::Read { offset: 0x020, value: 0x0500_0000 },
        ]
    );
}

#[test]
fn dividers_and_their_encodings() {
    let table = [(1u8, 11u32), (2, 0), (4, 1), (8, 2), (16, 3), (32, 8), (64, 9), (128, 10)];
    for (divider, encoding) in table {
        assert!(apic::is_divider(divider));
        let mut regs = scripted(vec![]);
        apic::set_timer_oneshot_masked(&mut regs, divider);
        assert_eq!(regs.inner().log[0], RegOp::Write { offset: 0x3E0, value: encoding });
    }
    for other in [0u8, 3, 5, 12, 127, 129, 255] {
        assert!(!apic::is_divider(other));
    }
}

// ── Vectors ─────────────────────────────────────────────────────────────

#[test]
fn vectors_skip_the_reserved() {
    let mut alloc = VectorAllocator::new(32, 47, &[32, 34, 39]);
    assert_eq!(alloc.free_count(), 13);
    let mut issued = vec![];
    while let Some(v) = alloc.allocate() {
        issued.push(v);
        assert_eq!(alloc.free_count() as usize, 13 - issued.len());
    }
    assert_eq!(issued, vec![33, 35, 36, 37, 38, 40, 41, 42, 43, 44, 45, 46, 47]);
    assert_eq!(alloc.allocate(), None);
    assert_eq!(alloc.free_count(), 0);
}

#[test]
fn vector_range_limits() {
    // A full word of vectors.
    let mut alloc = VectorAllocator::new(200, 231, &[]);
    assert_eq!(alloc.free_count(), 32);
    assert_eq!(alloc.allocate(), Some(200));
    // A single vector, and reservations that lie outside or repeat.
    let mut one = VectorAllocator::new(255, 255, &[32, 32, 254]);
    assert_eq!(one.free_count(), 1);
    assert_eq!(one.allocate(), Some(255));
    assert_eq!(one.allocate(), None);
    assert_eq!(VectorAllocator::new(40, 40, &[40]).free_count(), 0);
}

// ── SMP ─────────────────────────────────────────────────────────────────

#[test]
fn aps_are_numbered_in_order() {
    let plan = bring_up_aps(&[0, 2, 4, 6], 2, 7);
    assert_eq!(
        plan,
        vec![
            ApStart { index: 0, processor_id: 1 },
            ApStart { index: 2, processor_id: 2 },
            ApStart { index: 3, processor_id: 3 },
        ]
    );
    assert_eq!(bring_up_aps(&[0, 2, 4, 6], 2, 1).len(), 1);
    assert!(bring_up_aps(&[0, 2, 4, 6], 2, 0).is_empty());
    assert!(bring_up_aps(&[2], 2, 7).is_empty());
}

#[test]
fn aps_are_capped_at_the_table() {
    let ids: Vec<u32> = (0..20).collect();
    let plan = bring_up_aps(&ids, 0, 100);
    assert_eq!(plan.len(), 7);
    assert_eq!(plan[6], ApStart { index: 7, processor_id: 7 });
}

#[test]
fn ap_finishes_its_boot() {
    let mut params = ApParams { tsc_per_us: 0 };
    set_ap_init_params(&mut params, 2400);
    let init = ap_init_from(&params, 3, 0x106);
    assert_eq!(init, ApInit { cpu_id: CpuId::Ap(3), apic_id: 6, tsc_per_us: 2400 });
    assert_eq!(processor_id(&init), Some(3));
    assert_eq!(processor_id(&ApInit { cpu_id: CpuId::Bsp, ..init }), None);

    let mut cpus = CpuLocals::new();
    let mut regs = scripted(vec![]);
    let write = ap_setup(&mut cpus, &mut regs, init);
    assert_eq!(write, MsrWrite { reg: 0xC000_0101, value: 3 });
    assert_eq!(current_cpu_id(write.value), CpuId::Ap(3));
    assert_eq!(by_id(&cpus, CpuId::Ap(3)).unwrap().apic_id, 6);
    assert_eq!(regs.inner().log.len(), 2);
    assert_eq!(bsp_lapic_id(0x1_0203), 3);
}

#[test]
fn tsc_sync_thresholds() {
    assert_eq!(check_tsc_sync(1_000, 4_000), 3_000);
    assert_eq!(check_tsc_sync(4_000, 1_000), -3_000);
    assert_eq!(check_tsc_sync(u64::MAX, 0), 1);
    assert!(!out_of_sync(2_400_000, 2_400));
    assert!(out_of_sync(2_400_001, 2_400));
    assert!(out_of_sync(-2_400_001, 2_400));
    assert!(!out_of_sync(-2_400_000, 2_400));
    assert!(out_of_sync(i64::MIN, 2_400));
    assert!(out_of_sync(i64::MAX, 2_400));
}

// ── Boot ────────────────────────────────────────────────────────────────

fn responses() -> Responses<'static> {
    Responses {
        base_revision_supported: true,
        hhdm_offset: Some(0xFFFF_8000_0000_0000),
        kernel_base: Some((0xFFFF_FFFF_8000_0000, 0x0020_0000)),
        cmdline: Some("net=dhcp"),
    }
}

#[test]
fn boot_info_is_collected() {
    let info = collect(&responses()).unwrap();
    assert_eq!(info.hhdm_offset, 0xFFFF_8000_0000_0000);
    assert_eq!(info.kernel_offset, 0xFFFF_FFFF_7FE0_0000);
    assert_eq!(info.cmdline, "net=dhcp");
    let bare = Responses { cmdline: None, ..responses() };
    assert_eq!(collect(&bare).unwrap().cmdline, "");
}

#[test]
fn boot_info_errors() {
    let r = Responses { base_revision_supported: false, hhdm_offset: None, ..responses() };
    assert_eq!(collect(&r).unwrap_err(), BootInfoError::BaseRevision);
    let r = Responses { hhdm_offset: None, kernel_base: None, ..responses() };
    assert_eq!(collect(&r).unwrap_err(), BootInfoError::NoHhdm);
    let r = Responses { kernel_base: None, ..responses() };
    assert_eq!(collect(&r).unwrap_err(), BootInfoError::NoKernelAddress);
    let r = Responses { kernel_base: Some((1, 2)), ..responses() };
    assert_eq!(collect(&r).unwrap_err(), BootInfoError::KernelAddress);
    assert_eq!(
        BootInfoError::NoHhdm.message(),
        "Limine HhdmRequest response missing"
    );
    assert_eq!(
        BootInfoError::BaseRevision.message(),
        "Limine base revision not supported by bootloader"
    );
    assert_eq!(
        BootInfoError::NoKernelAddress.message(),
        "Limine ExecutableAddressRequest response missing"
    );
}

#[test]
fn hal_is_initialized_once() {
    let config = Config::default();
    assert_eq!(config.serial_port, 0x3F8);
    assert_eq!(config.heap_size, 8_388_608);
    let mut state = HalState::new();
    assert!(!state.is_initialized());
    let info = LimineBootInfo { hhdm_offset: 7, kernel_offset: 5, cmdline: "" };
    let p = init(&mut state, &info, &config);
    assert!(state.is_initialized());
    assert_eq!(p.serial.port, 0x3F8);
    assert_eq!(p.memory.phys_offset(), 7);
    assert_eq!(p.memory.kernel_offset(), 5);
}

#[test]
fn heap_sizes() {
    assert_eq!(HEAP_SIZE, 4 * 1024 * 1024);
    assert!(is_heap_size(1));
    assert!(is_heap_size(HEAP_SIZE));
    assert!(!is_heap_size(0));
    assert!(!is_heap_size(HEAP_SIZE + 1));
}
