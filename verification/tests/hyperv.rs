use embclox::dma::DmaRegion;
use embclox::hyperv::boot::{init, try_init, BootCall, BootOutcome, BootReply, VmBusInit};
use embclox::hyperv::detect::{detect, from_leaves, needs_privileges, HvFeatures, Leaf};
use embclox::hyperv::guid;
use embclox::hyperv::isr::{clear_event_flags, message_queued, VmBusIsr};
use embclox::hyperv::msr::{join, set_guest_os_id, split};
use embclox::hyperv::synic::SynIC;
use embclox::hyperv::vmbus::position_of;
use embclox::hyperv::wait::{wait_for_match, WaitAction, WaitEvent, WaitForMatch};
use embclox::hyperv::{ChannelOffer, Guid, HvError, VmBus};
use embclox::regs::MsrWrite;

fn page(vaddr: usize, paddr: usize) -> DmaRegion {
    DmaRegion { vaddr, paddr, size: 4096 }
}

// ── Errors and GUIDs ────────────────────────────────────────────────────

#[test]
fn hv_errors_describe_themselves() {
    assert_eq!(HvError::NotHyperV.message(), "not running on Hyper-V");
    assert_eq!(HvError::NoSynIC.message(), "SynIC not available");
    assert_eq!(HvError::NoHypercall.message(), "hypercall MSR not available");
    assert_eq!(HvError::HypercallFailed(0x1A2B).message(), "hypercall failed: status 0x1a2b");
    assert_eq!(HvError::HypercallFailed(0).message(), "hypercall failed: status 0x0");
    assert_eq!(HvError::HypercallRetryExhausted.message(), "hypercall retry exhausted");
    assert_eq!(HvError::VersionRejected.message(), "VMBus version rejected by host");
    assert_eq!(HvError::Timeout.message(), "timeout waiting for host response");
}

#[test]
fn guids_are_mixed_endian() {
    let g = Guid::from_fields(
        0x1122_3344,
        0x5566,
        0x7788,
        [0x99, 0xAA, 0xBB, 0xCC, 0xDD, 0xEE, 0xFF, 0x00],
    );
    assert_eq!(
        g.as_bytes(),
        &[
            0x44, 0x33, 0x22, 0x11, 0x66, 0x55, 0x88, 0x77, 0x99, 0xAA, 0xBB, 0xCC, 0xDD, 0xEE,
            0xFF, 0x00
        ]
    );
    assert_eq!(g.text(), "{11223344-5566-7788-99AA-BBCCDDEEFF00}");
    assert!(Guid::from_bytes(*g.as_bytes()) == g);
}

#[test]
fn device_types_are_distinct() {
    let all = [guid::synthvid(), guid::netvsc(), guid::synth_keyboard(), guid::heartbeat()];
    for (i, a) in all.iter().enumerate() {
        for (j, b) in all.iter().enumerate() {
            assert_eq!(*a == *b, i == j);
        }
    }
}

// ── Detection and MSRs ──────────────────────────────────────────────────

fn vendor(eax: u32) -> Leaf {
    Leaf { eax, ebx: 0x7263_694D, ecx: 0x666F_736F, edx: 0x7648_2074 }
}

fn privileges(eax: u32) -> Leaf {
    Leaf { eax, ebx: 0, ecx: 0, edx: 0 }
}

#[test]
fn signature_is_microsoft_hv() {
    let leaf = vendor(0);
    let mut text = vec![];
    for word in [leaf.ebx, leaf.ecx, leaf.edx] {
        text.extend_from_slice(&word.to_le_bytes());
    }
    assert_eq!(text, b"Microsoft Hv");
}

#[test]
fn features_from_leaves() {
    let full = from_leaves(&vendor(0x4000_0006), &privileges(0x24)).unwrap();
    assert_eq!(full, HvFeatures { max_leaf: 0x4000_0006, has_synic: true, has_hypercall: true });
    let synic = from_leaves(&vendor(0x4000_0003), &privileges(0xFFFF_FFDF)).unwrap();
    assert!(synic.has_synic && !synic.has_hypercall);
    let hypercall = from_leaves(&vendor(0x4000_0003), &privileges(0x20)).unwrap();
    assert!(!hypercall.has_synic && hypercall.has_hypercall);
    // Without the privilege leaf nothing is promised.
    let old = from_leaves(&vendor(0x4000_0002), &privileges(0xFFFF_FFFF)).unwrap();
    assert_eq!(old, HvFeatures { max_leaf: 0x4000_0002, has_synic: false, has_hypercall: false });
    let kvm = Leaf { ecx: 0x564B_4D56, ..vendor(0x4000_0006) };
    assert_eq!(from_leaves(&kvm, &privileges(0x24)), None);
    assert!(needs_privileges(&vendor(0x4000_0003)));
    assert!(!needs_privileges(&vendor(0x4000_0002)));
    assert!(!needs_privileges(&kvm));
}

#[test]
fn detection_asks_cpuid() {
    let leaf = |number: u32| {
        let r = core::arch::x86_64::__cpuid(number);
        Leaf { eax: r.eax, ebx: r.ebx, ecx: r.ecx, edx: r.edx }
    };
    assert_eq!(detect(), from_leaves(&leaf(0x4000_0000), &leaf(0x4000_0003)));
}

#[test]
fn detection_is_steady() {
    assert_eq!(detect(), detect());
}

#[test]
fn msr_halves_round_trip() {
    for value in [0u64, 1, 0x1234_5678_9ABC_DEF0, u64::MAX] {
        let (high, low) = split(value);
        assert_eq!(join(high, low), value);
    }
    assert_eq!(split(0x1234_5678_9ABC_DEF0), (0x1234_5678, 0x9ABC_DEF0));
    assert_eq!(
        set_guest_os_id(),
        MsrWrite { reg: 0x4000_0000, value: 0x8100_0006_0500_0001 }
    );
}

// ── SynIC ───────────────────────────────────────────────────────────────

#[test]
fn synic_is_configured() {
    let (synic, writes) = SynIC::new(page(0xA000, 0x5000), page(0xB000, 0x6000));
    assert_eq!(
        writes,
        vec![
            MsrWrite { reg: 0x4000_0080, value: 1 },
            MsrWrite { reg: 0x4000_0083, value: 0x5001 },
            MsrWrite { reg: 0x4000_0082, value: 0x6001 },
            MsrWrite { reg: 0x4000_0092, value: 0x2_0022 },
        ]
    );
    assert_eq!(synic.simp_vaddr(), 0xA000);
    assert_eq!(synic.siefp_vaddr(), 0xB000);
}

#[test]
fn messages_are_polled_and_acknowledged() {
    let (synic, _) = SynIC::new(page(0, 0), page(0, 0));
    let mut simp = vec![0u8; 4096];
    // Other slots do not count.
    simp[256] = 1;
    assert_eq!(synic.poll_message(&simp), None);
    simp[512] = 1;
    simp[516] = 3;
    simp[517] = 1;
    simp[528..532].copy_from_slice(&[9, 8, 7, 6]);
    assert_eq!(synic.poll_message(&simp), Some(vec![9, 8, 7]));
    assert_eq!(synic.ack_message(&mut simp), Some(MsrWrite { reg: 0x4000_0084, value: 0 }));
    assert_eq!(synic.poll_message(&simp), None);
    assert_eq!(&simp[512..518], &[0, 0, 0, 0, 3, 1]);
    // A type in any of its four bytes is a message; one with nothing queued
    // behind it asks for no further write.
    simp[515] = 0x80;
    simp[516] = 255;
    simp[517] = 2;
    assert_eq!(synic.poll_message(&simp).unwrap().len(), 240);
    assert_eq!(synic.ack_message(&mut simp), None);
    assert_eq!(synic.poll_message(&simp), None);
}

#[test]
fn event_flags_are_cleared_where_set() {
    let mut flags = [0u64; 32];
    flags[0] = 1;
    flags[31] = 1 << 63;
    assert_eq!(clear_event_flags(&mut flags), vec![0, 31]);
    assert_eq!(flags, [0; 32]);
    assert!(clear_event_flags(&mut flags).is_empty());
}

// ── Waiting ─────────────────────────────────────────────────────────────

fn drive(wait: &mut WaitForMatch, event: WaitEvent) -> WaitAction {
    assert!(wait.expects(&event));
    wait.resume(event);
    wait.action()
}

#[test]
fn messages_are_offered_until_one_matches() {
    let mut wait = wait_for_match(100);
    assert_eq!(wait.action(), WaitAction::Look);
    assert_eq!(drive(&mut wait, WaitEvent::Slot(true)), WaitAction::Offer);
    assert_eq!(drive(&mut wait, WaitEvent::Answer(false)), WaitAction::Acknowledge);
    assert_eq!(drive(&mut wait, WaitEvent::Done), WaitAction::Look);
    assert_eq!(drive(&mut wait, WaitEvent::Slot(true)), WaitAction::Offer);
    assert_eq!(drive(&mut wait, WaitEvent::Answer(true)), WaitAction::Acknowledge);
    assert_eq!(drive(&mut wait, WaitEvent::Done), WaitAction::Matched);
    assert!(!wait.expects(&WaitEvent::Done));
}

#[test]
fn waits_register_before_they_sleep() {
    let mut wait = wait_for_match(100);
    assert_eq!(drive(&mut wait, WaitEvent::Slot(false)), WaitAction::Register);
    assert_eq!(drive(&mut wait, WaitEvent::Done), WaitAction::LookAgain);
    // A message that came in between is not slept through.
    assert_eq!(drive(&mut wait, WaitEvent::Slot(true)), WaitAction::Look);
    assert_eq!(drive(&mut wait, WaitEvent::Slot(false)), WaitAction::Register);
    drive(&mut wait, WaitEvent::Done);
    assert_eq!(drive(&mut wait, WaitEvent::Slot(false)), WaitAction::ReadClock);
    assert_eq!(drive(&mut wait, WaitEvent::Clock(99)), WaitAction::Sleep);
    wait.poll();
    drive(&mut wait, WaitEvent::Slot(false));
    drive(&mut wait, WaitEvent::Done);
    drive(&mut wait, WaitEvent::Slot(false));
    assert_eq!(drive(&mut wait, WaitEvent::Clock(100)), WaitAction::TimedOut);
}

// ── Bringing VMBus up ───────────────────────────────────────────────────

fn features(has_synic: bool, has_hypercall: bool) -> Option<HvFeatures> {
    Some(HvFeatures { max_leaf: 0x4000_0006, has_synic, has_hypercall })
}

fn offer(relid: u32, device_type: Guid) -> ChannelOffer {
    ChannelOffer { child_relid: relid, connection_id: 1, device_type, instance_id: device_type }
}

fn replies() -> Vec<BootReply> {
    vec![
        BootReply::Done,
        BootReply::Done,
        BootReply::Pages { simp: page(0xA000, 0x5000), siefp: page(0xB000, 0x6000) },
        BootReply::Done,
        BootReply::Connected {
            version: 0x5_0000,
            parent_to_child: page(1, 2),
            child_to_parent: page(3, 4),
        },
        BootReply::Offers(vec![
            offer(1, guid::heartbeat()),
            offer(2, guid::netvsc()),
            offer(3, guid::netvsc()),
        ]),
    ]
}

fn name(call: &Option<BootCall>) -> &'static str {
    match call {
        None => "none",
        Some(BootCall::Crash) => "crash",
        Some(BootCall::WriteMsrs(w)) => {
            if w.len() == 1 {
                "guest id"
            } else {
                "synic"
            }
        }
        Some(BootCall::EnableHypercallPage) => "hypercall",
        Some(BootCall::AllocPages) => "pages",
        Some(BootCall::Connect) => "connect",
        Some(BootCall::RequestOffers) => "offers",
    }
}

fn up() -> VmBus {
    let mut boot = init(features(true, true), 0);
    for reply in replies() {
        assert!(boot.expects(&reply));
        boot = boot.resume(reply);
    }
    match boot.finish() {
        BootOutcome::Up(bus) => bus,
        _ => panic!("VMBus is up"),
    }
}

#[test]
fn vmbus_comes_up_in_order() {
    let mut boot = init(features(true, true), 0);
    let mut calls = vec![name(&boot.call())];
    for reply in replies() {
        boot = boot.resume(reply);
        calls.push(name(&boot.call()));
    }
    assert_eq!(
        calls,
        vec!["guest id", "hypercall", "pages", "synic", "connect", "offers", "none"]
    );
}

#[test]
fn vmbus_knows_its_offers() {
    let bus = up();
    assert_eq!(bus.version(), 0x5_0000);
    assert_eq!(bus.offers().len(), 3);
    assert_eq!(bus.find_offer(&guid::netvsc()).unwrap().child_relid, 2);
    assert!(bus.find_offer(&guid::synthvid()).is_none());
    assert_eq!(bus.synic().simp_vaddr(), 0xA000);
    assert_eq!(position_of(bus.offers(), &guid::netvsc()), Some(1));
    assert_eq!(position_of(bus.offers(), &guid::synth_keyboard()), None);

    let mut isr = VmBusIsr::new();
    assert_eq!(isr.flags_vaddr(), None);
    assert_eq!(isr.message_page_vaddr(), None);
    isr.attach(&bus);
    assert_eq!(isr.flags_vaddr(), Some(0xB200));
    assert_eq!(isr.message_page_vaddr(), Some(bus.synic().simp_vaddr()));
    isr.publish_simp(7);
    assert_eq!(isr.message_page_vaddr(), Some(7));
    isr.publish_siefp(0x1000);
    assert_eq!(isr.flags_vaddr(), Some(0x1200));
}

fn failure(boot: VmBusInit) -> HvError {
    match boot.finish() {
        BootOutcome::Failed(e) => e,
        _ => panic!("VMBus failed"),
    }
}

#[test]
fn vmbus_needs_its_features() {
    assert_eq!(failure(init(None, 0)), HvError::NotHyperV);
    assert_eq!(failure(init(features(false, true), 0)), HvError::NoSynIC);
    assert_eq!(failure(init(features(true, false), 0)), HvError::NoHypercall);
    assert!(try_init(None, 0).is_none());
    assert!(try_init(features(false, true), 0).is_none());
    assert!(try_init(features(true, false), 0).is_none());
    let (vector, boot) = try_init(features(true, true), 0).unwrap();
    assert_eq!(vector, 34);
    assert_eq!(name(&boot.call()), "guest id");
}

#[test]
fn vmbus_failures_end_bring_up() {
    for (n, e) in [
        (1, HvError::HypercallFailed(5)),
        (4, HvError::VersionRejected),
        (5, HvError::HypercallRetryExhausted),
    ] {
        let mut boot = init(features(true, true), 0);
        for reply in replies().into_iter().take(n) {
            boot = boot.resume(reply);
        }
        assert!(boot.expects(&BootReply::Failed(e)));
        boot = boot.resume(BootReply::Failed(e));
        assert_eq!(name(&boot.call()), "none");
        assert_eq!(failure(boot), e);
    }
    // Some calls cannot fail.
    let boot = init(features(true, true), 0);
    assert!(!boot.expects(&BootReply::Failed(HvError::Timeout)));
    assert!(matches!(boot.finish(), BootOutcome::Unfinished(_)));
}

#[test]
fn crash_stages_stop_the_machine() {
    for (stage, n) in [(1, 0), (2, 1), (3, 2), (4, 4), (5, 5), (6, 6)] {
        let mut boot = init(features(true, true), stage);
        for reply in replies().into_iter().take(n) {
            assert_ne!(name(&boot.call()), "crash");
            boot = boot.resume(reply);
        }
        assert_eq!(name(&boot.call()), "crash");
    }
    // The first stage comes before features are looked at.
    assert_eq!(name(&init(features(false, false), 1).call()), "crash");
}

#[test]
fn handler_sees_queued_messages() {
    let mut page = [0u8; 4096];
    page[256] = 1;
    page[512 + 4] = 8;
    assert!(!message_queued(&page));
    page[512 + 3] = 1;
    assert!(message_queued(&page));
}
