use embclox::hal::cpu_local::{
    by_id, current, current_cpu_id, init_ap, init_bsp, slot_of, CpuLocals, MAX_CPUS,
};
use embclox::hal::vector_alloc::CpuId;
use embclox::regs::MsrWrite;

#[test]
fn slot_of_layout() {
    assert_eq!(slot_of(CpuId::Bsp), 0);
    assert_eq!(slot_of(CpuId::Ap(1)), 1);
    assert_eq!(slot_of(CpuId::Ap(7)), 7);
}

#[test]
fn max_cpus_is_eight() {
    assert_eq!(MAX_CPUS, 8);
}

#[test]
fn init_bsp_populates_then_is_stable() {
    let mut cpus = CpuLocals::new();
    init_bsp(&mut cpus, 0x42);
    let first = *by_id(&cpus, CpuId::Bsp).expect("BSP slot populated");
    assert_eq!(first.cpu_id, CpuId::Bsp);
    assert_eq!(first.apic_id, 0x42);

    // A second call must not overwrite the slot.
    init_bsp(&mut cpus, 0x99);
    let second = by_id(&cpus, CpuId::Bsp).unwrap();
    assert_eq!(second.apic_id, 0x42);
}

#[test]
fn current_is_bsp() {
    let mut cpus = CpuLocals::new();
    init_bsp(&mut cpus, 0x42);
    assert_eq!(current_cpu_id(0), CpuId::Bsp);
    assert_eq!(current(&cpus, 0).apic_id, 0x42);
}

#[test]
fn apic_id_resolves_via_cpu_local() {
    let mut cpus = CpuLocals::new();
    init_bsp(&mut cpus, 0x42);
    assert_eq!(CpuId::Bsp.apic_id(&cpus), 0x42);
}

#[test]
fn unpopulated_ap_slot_returns_none() {
    let cpus = CpuLocals::new();
    assert!(by_id(&cpus, CpuId::Ap(3)).is_none());
    assert_eq!(CpuId::Ap(3).apic_id(&cpus), 0);
}

#[test]
fn out_of_range_ap_returns_none() {
    let cpus = CpuLocals::new();
    assert!(by_id(&cpus, CpuId::Ap(MAX_CPUS as u8 + 1)).is_none());
}

#[test]
fn every_cpu_knows_itself_by_gs_base() {
    let mut cpus = CpuLocals::new();
    let bsp = init_bsp(&mut cpus, 9);
    assert_eq!(bsp, MsrWrite { reg: 0xC000_0101, value: 0 });
    let ap = init_ap(&mut cpus, 3, 13);
    assert_eq!(ap, MsrWrite { reg: 0xC000_0101, value: 3 });
    assert_eq!(current_cpu_id(bsp.value), CpuId::Bsp);
    assert_eq!(current_cpu_id(ap.value), CpuId::Ap(3));
    assert_eq!(current(&cpus, bsp.value).apic_id, 9);
    assert_eq!(current(&cpus, ap.value).apic_id, 13);
    // Only the low byte counts.
    assert_eq!(current_cpu_id(0x1_0007), CpuId::Ap(7));
}

#[test]
fn ap_slots_are_apart_from_each_other() {
    let mut cpus = CpuLocals::new();
    init_bsp(&mut cpus, 9);
    init_ap(&mut cpus, 1, 11);
    init_ap(&mut cpus, 7, 17);
    init_ap(&mut cpus, 7, 18);
    assert_eq!(CpuId::Bsp.apic_id(&cpus), 9);
    assert_eq!(CpuId::Ap(1).apic_id(&cpus), 11);
    assert_eq!(CpuId::Ap(7).apic_id(&cpus), 17);
    assert_eq!(by_id(&cpus, CpuId::Ap(7)).unwrap().cpu_id, CpuId::Ap(7));
    assert!(by_id(&cpus, CpuId::Ap(2)).is_none());
    assert!(by_id(&cpus, CpuId::Ap(8)).is_none());
    // The slot of AP 0 is the BSP's.
    assert_eq!(CpuId::Ap(0).apic_id(&cpus), 9);
}
