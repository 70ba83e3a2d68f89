use embclox::kernel::boot::{
    reserved_vectors, BootAction, BootEnv, BootEvent, KernelBoot, SmpConfig,
};
use embclox::kernel::counters::snapshot;
use embclox::kernel::echo::{EchoAction, EchoEvent, EchoServer, EchoStart, ECHO_PORT};
use embclox::kernel::hyperv::{HaltReason, HypervAction, HypervBoot, HypervEvent};
use embclox::kernel::tsc::{calibrated_or, read_hv_tsc_freq, DEFAULT_TSC_PER_US, SLOW_TSC_PER_US};

fn drive(boot: &mut KernelBoot, event: BootEvent) -> BootAction {
    assert!(boot.expects(&event));
    boot.resume(event);
    boot.action()
}

fn env(hyperv: bool, enabled: bool, max_aps: Option<usize>) -> BootEnv {
    BootEnv { hyperv, named: false, smp: SmpConfig { enabled, max_aps } }
}

#[test]
fn tsc_frequencies() {
    assert_eq!(read_hv_tsc_freq(0), None);
    assert_eq!(read_hv_tsc_freq(2_593_906_000), Some(2593));
    assert_eq!(calibrated_or(Some(3000), DEFAULT_TSC_PER_US), 3000);
    assert_eq!(calibrated_or(None, DEFAULT_TSC_PER_US), 2400);
    assert_eq!(calibrated_or(None, SLOW_TSC_PER_US), 1000);
}

#[test]
fn kernel_boots_in_order() {
    let mut boot = KernelBoot::new(env(false, false, None));
    assert_eq!(boot.action(), BootAction::InitHal { heap_size: 8_388_608 });
    assert_eq!(drive(&mut boot, BootEvent::Done), BootAction::InitIdt);
    assert_eq!(drive(&mut boot, BootEvent::Done), BootAction::DisablePic);
    assert_eq!(drive(&mut boot, BootEvent::Done), BootAction::EnableLapic);
    assert_eq!(drive(&mut boot, BootEvent::Done), BootAction::CalibratePit);
    assert!(!boot.expects(&BootEvent::Done));
    assert_eq!(
        drive(&mut boot, BootEvent::Calibrated(Some(3000))),
        BootAction::StartTimer { tsc_per_us: 3000 }
    );
    assert_eq!(drive(&mut boot, BootEvent::Done), BootAction::MapIoApic);
    assert_eq!(drive(&mut boot, BootEvent::Done), BootAction::TryVmBus);
    assert_eq!(
        drive(&mut boot, BootEvent::VmBus(false)),
        BootAction::Probe { sint2: false, named: false }
    );
    assert_eq!(drive(&mut boot, BootEvent::Probed(Some(2))), BootAction::Run { nic: 2 });
    assert!(!boot.expects(&BootEvent::Done));
}

#[test]
fn kernel_on_hyperv_with_other_cpus() {
    let mut boot = KernelBoot::new(env(true, true, None));
    for _ in 0..4 {
        drive(&mut boot, BootEvent::Done);
    }
    assert_eq!(boot.action(), BootAction::ReadTscFrequency);
    assert_eq!(drive(&mut boot, BootEvent::TscFrequency(0)), BootAction::CalibratePit);
    assert_eq!(
        drive(&mut boot, BootEvent::Calibrated(None)),
        BootAction::StartTimer { tsc_per_us: 2400 }
    );
    drive(&mut boot, BootEvent::Done);
    drive(&mut boot, BootEvent::Done);
    // SINT2 stays reserved although VMBus failed.
    assert_eq!(
        drive(&mut boot, BootEvent::VmBus(false)),
        BootAction::Probe { sint2: true, named: false }
    );
    assert_eq!(
        drive(&mut boot, BootEvent::Probed(Some(0))),
        BootAction::BringUpAps { max_aps: 7, tsc_per_us: 2400 }
    );
    assert_eq!(drive(&mut boot, BootEvent::Done), BootAction::Run { nic: 0 });
}

#[test]
fn kernel_needs_a_nic() {
    let mut boot = KernelBoot::new(env(true, true, Some(2)));
    for _ in 0..4 {
        drive(&mut boot, BootEvent::Done);
    }
    assert_eq!(
        drive(&mut boot, BootEvent::TscFrequency(2_000_000_000)),
        BootAction::StartTimer { tsc_per_us: 2000 }
    );
    drive(&mut boot, BootEvent::Done);
    drive(&mut boot, BootEvent::Done);
    drive(&mut boot, BootEvent::VmBus(true));
    assert_eq!(
        drive(&mut boot, BootEvent::Probed(None)),
        BootAction::NoNic { vmbus: true, named: false }
    );
}

#[test]
fn reserved_vectors_by_hypervisor() {
    assert_eq!(reserved_vectors(false), vec![32, 39]);
    assert_eq!(reserved_vectors(true), vec![32, 34, 39]);
}

fn step(boot: &mut HypervBoot, event: HypervEvent) -> HypervAction {
    assert!(boot.expects(&event));
    boot.resume(event);
    boot.action()
}

#[test]
fn hyperv_kernel_boots_in_order() {
    let mut boot = HypervBoot::new(true);
    assert_eq!(boot.action(), HypervAction::InitHal { heap_size: 4_194_304 });
    assert_eq!(step(&mut boot, HypervEvent::Done), HypervAction::InitDmaPool);
    assert_eq!(step(&mut boot, HypervEvent::Done), HypervAction::InitIdt);
    assert_eq!(step(&mut boot, HypervEvent::Done), HypervAction::DisablePic);
    assert_eq!(step(&mut boot, HypervEvent::Done), HypervAction::ReadTscFrequency);
    assert_eq!(
        step(&mut boot, HypervEvent::TscFrequency(2_400_000_000)),
        HypervAction::StartTimer { tsc_per_us: 2400 }
    );
    assert_eq!(step(&mut boot, HypervEvent::Done), HypervAction::InstallIsr { vector: 34 });
    assert_eq!(step(&mut boot, HypervEvent::Done), HypervAction::InitVmBus);
    assert_eq!(step(&mut boot, HypervEvent::Done), HypervAction::InitNetvsc);
    assert_eq!(step(&mut boot, HypervEvent::Done), HypervAction::Run);
}

#[test]
fn hyperv_kernel_halts_where_it_cannot_go_on() {
    let mut elsewhere = HypervBoot::new(false);
    for _ in 0..4 {
        step(&mut elsewhere, HypervEvent::Done);
    }
    assert_eq!(elsewhere.action(), HypervAction::Halt(HaltReason::NotHyperV));
    assert!(!elsewhere.expects(&HypervEvent::Done));

    for (done, reason) in [(2, HaltReason::VmBus), (3, HaltReason::Netvsc)] {
        let mut boot = HypervBoot::new(true);
        for _ in 0..4 {
            step(&mut boot, HypervEvent::Done);
        }
        assert_eq!(step(&mut boot, HypervEvent::TscFrequency(0)), HypervAction::CalibratePit);
        assert_eq!(
            step(&mut boot, HypervEvent::Calibrated(None)),
            HypervAction::StartTimer { tsc_per_us: 2400 }
        );
        for _ in 0..done {
            step(&mut boot, HypervEvent::Done);
        }
        assert_eq!(step(&mut boot, HypervEvent::Failed), HypervAction::Halt(reason));
    }
}

fn serve(server: &mut EchoServer, event: EchoEvent) -> EchoAction {
    assert!(server.expects(&event));
    server.resume(event);
    server.action()
}

#[test]
fn echo_waits_for_an_address() {
    assert_eq!(ECHO_PORT, 1234);
    let mut server = EchoServer::new(EchoStart::WhenConfigured { report: true });
    assert_eq!(server.action(), EchoAction::CheckConfig);
    assert_eq!(
        serve(&mut server, EchoEvent::Configured(false)),
        EchoAction::AwaitConfig { millis: 100 }
    );
    assert_eq!(serve(&mut server, EchoEvent::Done), EchoAction::CheckConfig);
    assert_eq!(
        serve(&mut server, EchoEvent::Configured(true)),
        EchoAction::Settle { millis: 100 }
    );
    assert_eq!(serve(&mut server, EchoEvent::Done), EchoAction::Report);
    assert_eq!(serve(&mut server, EchoEvent::Done), EchoAction::Accept);

    let mut plain = EchoServer::new(EchoStart::WhenConfigured { report: false });
    assert_eq!(serve(&mut plain, EchoEvent::Configured(true)), EchoAction::Accept);
    let mut timed = EchoServer::new(EchoStart::AfterMillis(500));
    assert_eq!(timed.action(), EchoAction::Delay { millis: 500 });
    assert_eq!(serve(&mut timed, EchoEvent::Done), EchoAction::Accept);
}

#[test]
fn echo_writes_back_what_it_reads() {
    let mut server = EchoServer::new(EchoStart::AfterMillis(0));
    serve(&mut server, EchoEvent::Done);
    assert_eq!(serve(&mut server, EchoEvent::Accepted(false)), EchoAction::Accept);
    assert_eq!(serve(&mut server, EchoEvent::Accepted(true)), EchoAction::Read);
    assert_eq!(serve(&mut server, EchoEvent::Got(17)), EchoAction::WriteBack { n: 17 });
    assert_eq!(serve(&mut server, EchoEvent::Written(true)), EchoAction::Read);
    assert_eq!(serve(&mut server, EchoEvent::Got(1)), EchoAction::WriteBack { n: 1 });
    assert_eq!(serve(&mut server, EchoEvent::Written(false)), EchoAction::Accept);
    serve(&mut server, EchoEvent::Accepted(true));
    assert_eq!(serve(&mut server, EchoEvent::Closed), EchoAction::Accept);
    serve(&mut server, EchoEvent::Accepted(true));
    assert!(!server.expects(&EchoEvent::Got(0)));
}

#[test]
fn counters_are_copied_up_to_the_table() {
    assert_eq!(&snapshot(&[0, 11, 12])[..], &[0, 11, 12]);
    assert_eq!(&snapshot(&[1, 2, 3, 4, 5, 6, 7, 8, 9, 10])[..], &[1, 2, 3, 4, 5, 6, 7, 8]);
    assert!(snapshot(&[]).is_empty());
}

#[test]
fn named_nic_is_the_only_one_probed() {
    let mut boot = KernelBoot::new(BootEnv { named: true, ..env(false, false, None) });
    for event in [
        BootEvent::Done,
        BootEvent::Done,
        BootEvent::Done,
        BootEvent::Done,
        BootEvent::Calibrated(None),
        BootEvent::Done,
        BootEvent::Done,
    ] {
        drive(&mut boot, event);
    }
    assert_eq!(
        drive(&mut boot, BootEvent::VmBus(false)),
        BootAction::Probe { sint2: false, named: true }
    );
    assert_eq!(
        drive(&mut boot, BootEvent::Probed(None)),
        BootAction::NoNic { vmbus: false, named: true }
    );
}
