//! The order in which the Hyper-V kernel boots.
//!
//! [`HypervBoot`] decides; whoever drives it touches the hardware, one
//! [`HypervAction`] at a time, and reports back with a [`HypervEvent`].

use super::tsc::{calibrated_or, hv_tsc_per_us, read_hv_tsc_freq, DEFAULT_TSC_PER_US};
use crate::hyperv::msr::VMBUS_VECTOR;
use vstd::prelude::*;

verus! {

/// Heap of the Hyper-V kernel: 4 MiB.
pub const HYPERV_HEAP: usize = 4 * 1024 * 1024;

/// Why the kernel stops.
#[derive(Debug, Clone, Copy, PartialEq, Eq, Structural)]
pub enum HaltReason {
    /// It is not running on Hyper-V.
    NotHyperV,
    /// VMBus did not come up.
    VmBus,
    /// The network device did not come up.
    Netvsc,
}

/// What is to be done next.
#[derive(Debug, Clone, Copy, PartialEq, Eq, Structural)]
pub enum HypervAction {
    /// Initialize the HAL with a heap of so many bytes.
    InitHal { heap_size: usize },
    /// Take a pool of DMA memory from the memory map.
    InitDmaPool,
    /// Set up the IDT.
    InitIdt,
    /// Disable the legacy interrupt controller.
    DisablePic,
    /// Read the hypervisor's TSC frequency MSR.
    ReadTscFrequency,
    /// Calibrate the TSC against the PIT.
    CalibratePit,
    /// Tell the time driver how fast the TSC runs, enable the LAPIC, and start
    /// its timer.
    StartTimer { tsc_per_us: u64 },
    /// Install the SINT2 handler.
    InstallIsr { vector: u8 },
    /// Bring up VMBus.
    InitVmBus,
    /// Bring up the network device.
    InitNetvsc,
    /// Run the network stack.
    Run,
    /// Stop.
    Halt(HaltReason),
}

/// What came of it.
#[derive(Debug, Clone, Copy, PartialEq, Eq, Structural)]
pub enum HypervEvent {
    /// It is done.
    Done,
    /// It failed.
    Failed,
    /// The TSC frequency in Hz.
    TscFrequency(u64),
    /// TSC ticks per microsecond, if calibration worked.
    Calibrated(Option<u64>),
}

/// Whether `event` can come of `action`.
pub open spec fn answers(action: HypervAction, event: HypervEvent) -> bool {
    match action {
        HypervAction::ReadTscFrequency => event is TscFrequency,
        HypervAction::CalibratePit => event is Calibrated,
        HypervAction::InitVmBus | HypervAction::InitNetvsc => event is Done || event is Failed,
        HypervAction::Run | HypervAction::Halt(_) => false,
        _ => event is Done,
    }
}

/// What is done first.
pub open spec fn first_action() -> HypervAction {
    HypervAction::InitHal { heap_size: HYPERV_HEAP }
}

/// What is done after `event`, on Hyper-V or not.
pub open spec fn step(hyperv: bool, action: HypervAction, event: HypervEvent) -> HypervAction {
    match (action, event) {
        (HypervAction::InitHal { .. }, _) => HypervAction::InitDmaPool,
        (HypervAction::InitDmaPool, _) => HypervAction::InitIdt,
        (HypervAction::InitIdt, _) => HypervAction::DisablePic,
        (HypervAction::DisablePic, _) => if hyperv {
            HypervAction::ReadTscFrequency
        } else {
            HypervAction::Halt(HaltReason::NotHyperV)
        },
        (HypervAction::ReadTscFrequency, HypervEvent::TscFrequency(hz)) => match hv_tsc_per_us(hz) {
            Some(tsc_per_us) => HypervAction::StartTimer { tsc_per_us },
            None => HypervAction::CalibratePit,
        },
        (HypervAction::CalibratePit, HypervEvent::Calibrated(pit)) => HypervAction::StartTimer {
            tsc_per_us: match pit {
                Some(ticks) => ticks,
                None => DEFAULT_TSC_PER_US,
            },
        },
        (HypervAction::StartTimer { .. }, _) => HypervAction::InstallIsr { vector: VMBUS_VECTOR },
        (HypervAction::InstallIsr { .. }, _) => HypervAction::InitVmBus,
        (HypervAction::InitVmBus, HypervEvent::Failed) => HypervAction::Halt(HaltReason::VmBus),
        (HypervAction::InitVmBus, _) => HypervAction::InitNetvsc,
        (HypervAction::InitNetvsc, HypervEvent::Failed) => HypervAction::Halt(HaltReason::Netvsc),
        (HypervAction::InitNetvsc, _) => HypervAction::Run,
        _ => action,
    }
}

/// The Hyper-V kernel on its way up.
pub struct HypervBoot {
    hyperv: bool,
    action: HypervAction,
}

impl View for HypervBoot {
    type V = HypervAction;

    closed spec fn view(&self) -> HypervAction {
        self.action
    }
}

impl HypervBoot {
    /// Whether the hypervisor is Hyper-V.
    pub closed spec fn hyperv(&self) -> bool {
        self.hyperv
    }

    /// Begin to boot, on Hyper-V or not.
    pub fn new(hyperv: bool) -> (boot: Self)
        ensures
            boot.hyperv() == hyperv,
            boot@ == first_action(),
    {
        HypervBoot { hyperv, action: HypervAction::InitHal { heap_size: HYPERV_HEAP } }
    }

    /// What is to be done next.
    pub fn action(&self) -> (action: HypervAction)
        ensures
            action == self@,
    {
        self.action
    }

    /// Whether `event` can come of the action that is to be done.
    pub fn expects(&self, event: &HypervEvent) -> (r: bool)
        ensures
            r == answers(self@, *event),
    {
        match (self.action, event) {
            (HypervAction::ReadTscFrequency, HypervEvent::TscFrequency(_)) => true,
            (HypervAction::ReadTscFrequency, _) => false,
            (HypervAction::CalibratePit, HypervEvent::Calibrated(_)) => true,
            (HypervAction::CalibratePit, _) => false,
            (HypervAction::InitVmBus, HypervEvent::Failed) => true,
            (HypervAction::InitNetvsc, HypervEvent::Failed) => true,
            (HypervAction::Run, _) => false,
            (HypervAction::Halt(_), _) => false,
            (_, HypervEvent::Done) => true,
            (_, _) => false,
        }
    }

    /// Take note of what came of the action.
    pub fn resume(&mut self, event: HypervEvent)
        requires
            answers(old(self)@, event),
        ensures
            final(self).hyperv() == old(self).hyperv(),
            final(self)@ == step(old(self).hyperv(), old(self)@, event),
    {
        self.action = match (self.action, event) {
            (HypervAction::InitHal { .. }, _) => HypervAction::InitDmaPool,
            (HypervAction::InitDmaPool, _) => HypervAction::InitIdt,
            (HypervAction::InitIdt, _) => HypervAction::DisablePic,
            (HypervAction::DisablePic, _) => if self.hyperv {
                HypervAction::ReadTscFrequency
            } else {
                HypervAction::Halt(HaltReason::NotHyperV)
            },
            (HypervAction::ReadTscFrequency, HypervEvent::TscFrequency(hz)) => {
                match read_hv_tsc_freq(hz) {
                    Some(tsc_per_us) => HypervAction::StartTimer { tsc_per_us },
                    None => HypervAction::CalibratePit,
                }
            },
            (HypervAction::CalibratePit, HypervEvent::Calibrated(pit)) => HypervAction::StartTimer {
                tsc_per_us: calibrated_or(pit, DEFAULT_TSC_PER_US),
            },
            (HypervAction::StartTimer { .. }, _) => HypervAction::InstallIsr {
                vector: VMBUS_VECTOR,
            },
            (HypervAction::InstallIsr { .. }, _) => HypervAction::InitVmBus,
            (HypervAction::InitVmBus, HypervEvent::Failed) => HypervAction::Halt(HaltReason::VmBus),
            (HypervAction::InitVmBus, _) => HypervAction::InitNetvsc,
            (HypervAction::InitNetvsc, HypervEvent::Failed) => HypervAction::Halt(
                HaltReason::Netvsc,
            ),
            (HypervAction::InitNetvsc, _) => HypervAction::Run,
            (action, _) => action,
        };
    }
}

// ── Boot from beginning to end ──────────────────────────────────────────

/// What is done after `events`.
pub open spec fn reached(hyperv: bool, events: Seq<HypervEvent>) -> HypervAction
    decreases events.len(),
{
    if events.len() == 0 {
        first_action()
    } else {
        step(hyperv, reached(hyperv, events.drop_last()), events.last())
    }
}

/// Whether each of `events` came of the action that was to be done.
pub open spec fn possible(hyperv: bool, events: Seq<HypervEvent>) -> bool
    decreases events.len(),
{
    events.len() == 0 || (possible(hyperv, events.drop_last()) && answers(
        reached(hyperv, events.drop_last()),
        events.last(),
    ))
}

/// Whether an action of this kind has been done: the timer started, and the
/// SINT2 handler installed after it.
pub open spec fn interrupts_ready(hyperv: bool, events: Seq<HypervEvent>) -> bool
    decreases events.len(),
{
    events.len() >= 2 && (interrupts_ready(hyperv, events.drop_last()) || (reached(
        hyperv,
        events.drop_last(),
    ) == (HypervAction::InstallIsr { vector: VMBUS_VECTOR }) && reached(
        hyperv,
        events.drop_last().drop_last(),
    ) is StartTimer))
}

/// VMBus is brought up only once the timer runs and the SINT2 handler is
/// installed; the network stack runs only on Hyper-V, and only once both VMBus
/// and the network device are up. Otherwise the kernel stops, and says why.
pub proof fn handler_before_vmbus(hyperv: bool, events: Seq<HypervEvent>)
    requires
        possible(hyperv, events),
    ensures
        match reached(hyperv, events) {
            HypervAction::InstallIsr { vector } => vector == VMBUS_VECTOR && events.len() >= 1
                && reached(hyperv, events.drop_last()) is StartTimer,
            HypervAction::InitVmBus => hyperv && interrupts_ready(hyperv, events),
            HypervAction::InitNetvsc => hyperv && interrupts_ready(hyperv, events)
                && events.last() == HypervEvent::Done,
            HypervAction::Run => hyperv && interrupts_ready(hyperv, events) && events.len() >= 2
                && events.last() == HypervEvent::Done && events[events.len() - 2]
                == HypervEvent::Done,
            HypervAction::Halt(HaltReason::NotHyperV) => !hyperv,
            HypervAction::Halt(_) => hyperv && events.last() == HypervEvent::Failed,
            HypervAction::ReadTscFrequency | HypervAction::CalibratePit => hyperv,
            HypervAction::StartTimer { .. } => hyperv,
            _ => true,
        },
        reached(hyperv, events) is InstallIsr ==> hyperv,
    decreases events.len(),
{
    if events.len() > 0 {
        let prior = events.drop_last();
        handler_before_vmbus(hyperv, prior);
        if prior.len() > 0 {
            assert(prior.last() == events[events.len() - 2]);
        }
    }
}

/// What the kernel has to do after so many events, and with what: the rate that
/// was told, vector 34, and at the end what came of it.
pub proof fn boot_does_what_it_was_told(hyperv: bool, events: Seq<HypervEvent>)
    requires
        possible(hyperv, events),
    ensures
        ({
            let n = events.len();
            let t: int = if events[4] == HypervEvent::TscFrequency(0) {
                6
            } else {
                5
            };
            let rate = match events[t - 1] {
                HypervEvent::TscFrequency(hz) => hz as int / 1_000_000,
                HypervEvent::Calibrated(Some(ticks)) => ticks as int,
                _ => 2400,
            };
            match reached(hyperv, events) {
                HypervAction::InitHal { heap_size } => n == 0 && heap_size == 4 * 1024 * 1024,
                HypervAction::InitDmaPool => n == 1,
                HypervAction::InitIdt => n == 2,
                HypervAction::DisablePic => n == 3,
                HypervAction::ReadTscFrequency => n == 4 && hyperv,
                HypervAction::CalibratePit => n == 5 && hyperv && events[4]
                    == HypervEvent::TscFrequency(0),
                HypervAction::StartTimer { tsc_per_us } => n == t && hyperv && tsc_per_us == rate,
                HypervAction::InstallIsr { vector } => n == t + 1 && hyperv && vector == 34,
                HypervAction::InitVmBus => n == t + 2 && hyperv,
                HypervAction::InitNetvsc => n == t + 3 && hyperv && events[t + 2]
                    == HypervEvent::Done,
                HypervAction::Run => n == t + 4 && hyperv && events[t + 2] == HypervEvent::Done
                    && events[t + 3] == HypervEvent::Done,
                HypervAction::Halt(HaltReason::NotHyperV) => n == 4 && !hyperv,
                HypervAction::Halt(HaltReason::VmBus) => n == t + 3 && hyperv && events[t + 2]
                    == HypervEvent::Failed,
                HypervAction::Halt(HaltReason::Netvsc) => n == t + 4 && hyperv && events[t + 2]
                    == HypervEvent::Done && events[t + 3] == HypervEvent::Failed,
            }
        }),
    decreases events.len(),
{
    if events.len() > 0 {
        let prior = events.drop_last();
        boot_does_what_it_was_told(hyperv, prior);
        assert forall|i: int| 0 <= i < prior.len() implies prior[i] == events[i] by {}
    }
}

/// A kernel that boots stands where its events lead: it begins with the first
/// action, goes on by the events it is handed, and says what is next.
pub proof fn kernel_follows_its_events(
    hyperv: bool,
    events: Seq<HypervEvent>,
    event: HypervEvent,
    begun: HypervBoot,
    boot: &HypervBoot,
    action: HypervAction,
)
    ensures
        call_ensures(HypervBoot::new, (hyperv,), begun) ==> begun.hyperv() == hyperv && begun@
            == reached(hyperv, Seq::empty()),
        call_ensures(HypervBoot::action, (boot,), action) ==> action == boot@,
        forall|k: &mut HypervBoot| #[trigger]
            call_ensures(HypervBoot::resume, (k, event), ()) && (*k).hyperv() == hyperv && (*k)@
                == reached(hyperv, events) && possible(hyperv, events.push(event))
                ==> (*final(k)).hyperv() == hyperv && (*final(k))@ == reached(
                hyperv,
                events.push(event),
            ),
{
    assert(events.push(event).drop_last() =~= events);
}

/// What the kernel takes for an answer: a frequency where one is read, a
/// calibration where that is made, a failure only of VMBus and of the network
/// device, and otherwise that it is done. Nothing follows the end.
pub proof fn kernel_takes_answers(boot: &HypervBoot, event: &HypervEvent, r: bool)
    requires
        call_ensures(HypervBoot::expects, (boot, event), r),
    ensures
        r == match *event {
            HypervEvent::TscFrequency(_) => boot@ == HypervAction::ReadTscFrequency,
            HypervEvent::Calibrated(_) => boot@ == HypervAction::CalibratePit,
            HypervEvent::Failed => boot@ == HypervAction::InitVmBus || boot@
                == HypervAction::InitNetvsc,
            HypervEvent::Done => boot@ is InitHal || boot@ is InitDmaPool || boot@ is InitIdt
                || boot@ is DisablePic || boot@ is StartTimer || boot@ is InstallIsr
                || boot@ is InitVmBus || boot@ is InitNetvsc,
        },
        r == answers(boot@, *event),
{
}

} // verus!
