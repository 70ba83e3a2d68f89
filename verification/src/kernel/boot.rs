//! The order in which the unified kernel boots.
//!
//! [`KernelBoot`] decides; whoever drives it touches the hardware, one
//! [`BootAction`] at a time, and reports back with a [`BootEvent`].

use super::tsc::{calibrated_or, hv_tsc_per_us, read_hv_tsc_freq, DEFAULT_TSC_PER_US};
use crate::hal::cpu_local::MAX_CPUS;
use vstd::prelude::*;

verus! {

/// Heap of the unified kernel: 8 MiB.
pub const KERNEL_HEAP: usize = 8 * 1024 * 1024;

/// First vector that drivers may be given.
pub const FIRST_VECTOR: u8 = 32;

/// Last vector that drivers may be given.
pub const LAST_VECTOR: u8 = 47;

/// What the command line says of other CPUs.
#[derive(Debug, Clone, Copy, PartialEq, Eq, Structural)]
pub struct SmpConfig {
    /// Whether they are brought up at all.
    pub enabled: bool,
    /// How many at most.
    pub max_aps: Option<usize>,
}

/// What is to be done next.
#[derive(Debug, Clone, Copy, PartialEq, Eq, Structural)]
pub enum BootAction {
    /// Initialize the HAL with a heap of so many bytes.
    InitHal { heap_size: usize },
    /// Set up the IDT.
    InitIdt,
    /// Disable the legacy interrupt controller.
    DisablePic,
    /// Map and enable the LAPIC, and enter the BSP in the per-CPU table.
    EnableLapic,
    /// Read the hypervisor's TSC frequency MSR. Only done on Hyper-V: on bare
    /// metal it would fault.
    ReadTscFrequency,
    /// Calibrate the TSC against the PIT.
    CalibratePit,
    /// Tell the time driver how fast the TSC runs, and start the APIC timer.
    StartTimer { tsc_per_us: u64 },
    /// Map the IOAPIC.
    MapIoApic,
    /// Bring up VMBus, where it can be had.
    TryVmBus,
    /// Register drivers and probe. `sint2`: the SINT2 vector is reserved;
    /// `named`: only the driver that the command line names is registered.
    Probe { sint2: bool, named: bool },
    /// Bring up the other CPUs, at most so many.
    BringUpAps { max_aps: usize, tsc_per_us: u64 },
    /// Run the network stack on the NIC with this index.
    Run { nic: usize },
    /// Give up: there is no NIC, or none of the one that was named.
    NoNic { vmbus: bool, named: bool },
}

/// What came of it.
#[derive(Debug, Clone, Copy, PartialEq, Eq, Structural)]
pub enum BootEvent {
    /// It is done.
    Done,
    /// The TSC frequency in Hz.
    TscFrequency(u64),
    /// TSC ticks per microsecond, if calibration worked.
    Calibrated(Option<u64>),
    /// Whether VMBus is up. A VMBus that fails is as good as none.
    VmBus(bool),
    /// The index of the primary NIC, if there is any.
    Probed(Option<usize>),
}

/// What is known at boot, before anything is done.
#[derive(Debug, Clone, Copy, PartialEq, Eq, Structural)]
pub struct BootEnv {
    /// Whether the hypervisor is Hyper-V.
    pub hyperv: bool,
    /// Whether the command line names the one NIC to be used.
    pub named: bool,
    pub smp: SmpConfig,
}

/// Where boot stands: what is to be done next, and what has come out so far.
#[derive(Debug, Clone, Copy, PartialEq, Eq, Structural)]
pub struct BootState {
    pub action: BootAction,
    /// TSC ticks per microsecond, once they are known.
    pub tsc_per_us: u64,
    /// Whether VMBus is up.
    pub vmbus: bool,
    /// The primary NIC, once it is known.
    pub nic: usize,
}

/// Whether `event` can come of `action`.
pub open spec fn answers(action: BootAction, event: BootEvent) -> bool {
    match action {
        BootAction::ReadTscFrequency => event is TscFrequency,
        BootAction::CalibratePit => event is Calibrated,
        BootAction::TryVmBus => event is VmBus,
        BootAction::Probe { .. } => event is Probed,
        BootAction::Run { .. } | BootAction::NoNic { .. } => false,
        _ => event is Done,
    }
}

/// How many other CPUs are brought up at most.
pub open spec fn wanted_aps(smp: SmpConfig) -> usize {
    match smp.max_aps {
        Some(n) => n,
        None => (MAX_CPUS - 1) as usize,
    }
}

/// Where boot begins.
pub open spec fn beginning() -> BootState {
    BootState {
        action: BootAction::InitHal { heap_size: KERNEL_HEAP },
        tsc_per_us: 0,
        vmbus: false,
        nic: 0,
    }
}

/// Where boot stands after `event`.
pub open spec fn step(env: BootEnv, at: BootState, event: BootEvent) -> BootState {
    match (at.action, event) {
        (BootAction::InitHal { .. }, _) => BootState { action: BootAction::InitIdt, ..at },
        (BootAction::InitIdt, _) => BootState { action: BootAction::DisablePic, ..at },
        (BootAction::DisablePic, _) => BootState { action: BootAction::EnableLapic, ..at },
        (BootAction::EnableLapic, _) => BootState {
            action: if env.hyperv {
                BootAction::ReadTscFrequency
            } else {
                BootAction::CalibratePit
            },
            ..at
        },
        (BootAction::ReadTscFrequency, BootEvent::TscFrequency(hz)) => match hv_tsc_per_us(hz) {
            Some(tsc_per_us) => BootState {
                action: BootAction::StartTimer { tsc_per_us },
                tsc_per_us,
                ..at
            },
            None => BootState { action: BootAction::CalibratePit, ..at },
        },
        (BootAction::CalibratePit, BootEvent::Calibrated(pit)) => {
            let tsc_per_us = match pit {
                Some(ticks) => ticks,
                None => DEFAULT_TSC_PER_US,
            };
            BootState { action: BootAction::StartTimer { tsc_per_us }, tsc_per_us, ..at }
        },
        (BootAction::StartTimer { .. }, _) => BootState { action: BootAction::MapIoApic, ..at },
        (BootAction::MapIoApic, _) => BootState { action: BootAction::TryVmBus, ..at },
        (BootAction::TryVmBus, BootEvent::VmBus(vmbus)) => BootState {
            action: BootAction::Probe { sint2: env.hyperv, named: env.named },
            vmbus,
            ..at
        },
        (BootAction::Probe { .. }, BootEvent::Probed(None)) => BootState {
            action: BootAction::NoNic { vmbus: at.vmbus, named: env.named },
            ..at
        },
        (BootAction::Probe { .. }, BootEvent::Probed(Some(nic))) => BootState {
            action: if env.smp.enabled {
                BootAction::BringUpAps {
                    max_aps: wanted_aps(env.smp),
                    tsc_per_us: at.tsc_per_us,
                }
            } else {
                BootAction::Run { nic }
            },
            nic,
            ..at
        },
        (BootAction::BringUpAps { .. }, _) => BootState {
            action: BootAction::Run { nic: at.nic },
            ..at
        },
        _ => at,
    }
}

/// The unified kernel on its way up.
pub struct KernelBoot {
    env: BootEnv,
    state: BootState,
}

impl View for KernelBoot {
    type V = BootState;

    closed spec fn view(&self) -> BootState {
        self.state
    }
}

impl KernelBoot {
    /// What was known when boot began.
    pub closed spec fn env(&self) -> BootEnv {
        self.env
    }

    /// Begin to boot.
    pub fn new(env: BootEnv) -> (boot: Self)
        ensures
            boot.env() == env,
            boot@ == beginning(),
    {
        KernelBoot {
            env,
            state: BootState {
                action: BootAction::InitHal { heap_size: KERNEL_HEAP },
                tsc_per_us: 0,
                vmbus: false,
                nic: 0,
            },
        }
    }

    /// What is to be done next.
    pub fn action(&self) -> (action: BootAction)
        ensures
            action == self@.action,
    {
        self.state.action
    }

    /// Whether `event` can come of the action that is to be done.
    pub fn expects(&self, event: &BootEvent) -> (r: bool)
        ensures
            r == answers(self@.action, *event),
    {
        match (self.state.action, event) {
            (BootAction::ReadTscFrequency, BootEvent::TscFrequency(_)) => true,
            (BootAction::ReadTscFrequency, _) => false,
            (BootAction::CalibratePit, BootEvent::Calibrated(_)) => true,
            (BootAction::CalibratePit, _) => false,
            (BootAction::TryVmBus, BootEvent::VmBus(_)) => true,
            (BootAction::TryVmBus, _) => false,
            (BootAction::Probe { .. }, BootEvent::Probed(_)) => true,
            (BootAction::Probe { .. }, _) => false,
            (BootAction::Run { .. }, _) => false,
            (BootAction::NoNic { .. }, _) => false,
            (_, BootEvent::Done) => true,
            (_, _) => false,
        }
    }

    fn go_on(&mut self, action: BootAction)
        ensures
            final(self).env() == old(self).env(),
            final(self)@ == (BootState { action, ..old(self)@ }),
    {
        self.state.action = action;
    }

    fn start_timer(&mut self, tsc_per_us: u64)
        ensures
            final(self).env() == old(self).env(),
            final(self)@ == (BootState {
                action: BootAction::StartTimer { tsc_per_us },
                tsc_per_us,
                ..old(self)@
            }),
    {
        self.state.action = BootAction::StartTimer { tsc_per_us };
        self.state.tsc_per_us = tsc_per_us;
    }

    fn use_nic(&mut self, nic: usize)
        ensures
            final(self).env() == old(self).env(),
            final(self)@ == (BootState {
                action: if old(self).env().smp.enabled {
                    BootAction::BringUpAps {
                        max_aps: wanted_aps(old(self).env().smp),
                        tsc_per_us: old(self)@.tsc_per_us,
                    }
                } else {
                    BootAction::Run { nic }
                },
                nic,
                ..old(self)@
            }),
    {
        self.state.nic = nic;
        self.state.action = if self.env.smp.enabled {
            let max_aps: usize = match self.env.smp.max_aps {
                Some(n) => n,
                None => MAX_CPUS - 1,
            };
            BootAction::BringUpAps { max_aps, tsc_per_us: self.state.tsc_per_us }
        } else {
            BootAction::Run { nic }
        };
    }

    /// Take note of what came of the action.
    pub fn resume(&mut self, event: BootEvent)
        requires
            answers(old(self)@.action, event),
        ensures
            final(self).env() == old(self).env(),
            final(self)@ == step(old(self).env(), old(self)@, event),
    {
        match (self.state.action, event) {
            (BootAction::InitHal { .. }, _) => self.go_on(BootAction::InitIdt),
            (BootAction::InitIdt, _) => self.go_on(BootAction::DisablePic),
            (BootAction::DisablePic, _) => self.go_on(BootAction::EnableLapic),
            (BootAction::EnableLapic, _) => {
                if self.env.hyperv {
                    self.go_on(BootAction::ReadTscFrequency)
                } else {
                    self.go_on(BootAction::CalibratePit)
                }
            },
            (BootAction::ReadTscFrequency, BootEvent::TscFrequency(hz)) => {
                match read_hv_tsc_freq(hz) {
                    Some(tsc_per_us) => self.start_timer(tsc_per_us),
                    None => self.go_on(BootAction::CalibratePit),
                }
            },
            (BootAction::CalibratePit, BootEvent::Calibrated(pit)) => self.start_timer(
                calibrated_or(pit, DEFAULT_TSC_PER_US),
            ),
            (BootAction::StartTimer { .. }, _) => self.go_on(BootAction::MapIoApic),
            (BootAction::MapIoApic, _) => self.go_on(BootAction::TryVmBus),
            (BootAction::TryVmBus, BootEvent::VmBus(vmbus)) => {
                self.state.vmbus = vmbus;
                self.state.action = BootAction::Probe {
                    sint2: self.env.hyperv,
                    named: self.env.named,
                };
            },
            (BootAction::Probe { .. }, BootEvent::Probed(found)) => match found {
                Some(nic) => self.use_nic(nic),
                None => {
                    let vmbus: bool = self.state.vmbus;
                    let named: bool = self.env.named;
                    self.go_on(BootAction::NoNic { vmbus, named })
                },
            },
            (BootAction::BringUpAps { .. }, _) => {
                let nic: usize = self.state.nic;
                self.go_on(BootAction::Run { nic })
            },
            _ => {},
        }
    }
}

/// The vectors that drivers must not be given: 32 (APIC timer), 39 (spurious),
/// and 34 (SINT2) whenever the kernel might be running on Hyper-V, even if
/// VMBus failed.
pub open spec fn reserved(sint2: bool) -> Seq<u8> {
    if sint2 {
        seq![32, 34, 39]
    } else {
        seq![32, 39]
    }
}

/// The vectors that drivers must not be given.
pub fn reserved_vectors(sint2: bool) -> (vectors: Vec<u8>)
    ensures
        vectors@ == reserved(sint2),
{
    let mut vectors: Vec<u8> = Vec::new();
    vectors.push(32);
    if sint2 {
        vectors.push(34);
    }
    vectors.push(39);
    assert(vectors@ =~= reserved(sint2));
    vectors
}

// ── Boot from beginning to end ──────────────────────────────────────────

/// Where boot stands after `events`.
pub open spec fn reached(env: BootEnv, events: Seq<BootEvent>) -> BootState
    decreases events.len(),
{
    if events.len() == 0 {
        beginning()
    } else {
        step(env, reached(env, events.drop_last()), events.last())
    }
}

/// Whether each of `events` came of the action that was to be done.
pub open spec fn possible(env: BootEnv, events: Seq<BootEvent>) -> bool
    decreases events.len(),
{
    events.len() == 0 || (possible(env, events.drop_last()) && answers(
        reached(env, events.drop_last()).action,
        events.last(),
    ))
}

/// Whether `action` has been done.
pub open spec fn was_done(env: BootEnv, events: Seq<BootEvent>, action: BootAction) -> bool
    decreases events.len(),
{
    events.len() > 0 && (reached(env, events.drop_last()).action == action || was_done(
        env,
        events.drop_last(),
        action,
    ))
}

/// The place of an action in the order of boot.
pub open spec fn place(action: BootAction) -> int {
    match action {
        BootAction::InitHal { .. } => 0,
        BootAction::InitIdt => 1,
        BootAction::DisablePic => 2,
        BootAction::EnableLapic => 3,
        BootAction::ReadTscFrequency => 4,
        BootAction::CalibratePit => 5,
        BootAction::StartTimer { .. } => 6,
        BootAction::MapIoApic => 7,
        BootAction::TryVmBus => 8,
        BootAction::Probe { .. } => 9,
        BootAction::BringUpAps { .. } => 10,
        BootAction::Run { .. } => 11,
        BootAction::NoNic { .. } => 11,
    }
}

/// Boot goes forward: no action is done twice, and it ends.
pub proof fn boot_goes_forward(env: BootEnv, at: BootState, event: BootEvent)
    requires
        answers(at.action, event),
    ensures
        place(at.action) < place(step(env, at, event).action) <= 11,
{
}

/// VMBus is tried, and drivers are probed, only once interrupts are set up and
/// the timer runs: the host's answers come by interrupt, and a host that never
/// answers is noticed by the clock.
pub proof fn timer_runs_before_vmbus(env: BootEnv, events: Seq<BootEvent>)
    requires
        possible(env, events),
    ensures
        ({
            let at = reached(env, events);
            &&& place(at.action) >= 1 ==> was_done(env, events, BootAction::InitHal {
                heap_size: KERNEL_HEAP,
            })
            &&& place(at.action) >= 2 ==> was_done(env, events, BootAction::InitIdt)
            &&& place(at.action) >= 3 ==> was_done(env, events, BootAction::DisablePic)
            &&& place(at.action) >= 4 ==> was_done(env, events, BootAction::EnableLapic)
            &&& place(at.action) == 6 ==> at.action == (BootAction::StartTimer {
                tsc_per_us: at.tsc_per_us,
            })
            &&& place(at.action) >= 7 ==> was_done(env, events, BootAction::StartTimer {
                tsc_per_us: at.tsc_per_us,
            })
            &&& place(at.action) >= 9 ==> was_done(env, events, BootAction::TryVmBus)
            &&& at.action == BootAction::ReadTscFrequency ==> env.hyperv
        }),
    decreases events.len(),
{
    if events.len() > 0 {
        timer_runs_before_vmbus(env, events.drop_last());
    }
}

/// The kernel runs on the NIC that probing chose, and gives up only where
/// there was none.
pub proof fn runs_on_the_primary(env: BootEnv, events: Seq<BootEvent>)
    requires
        possible(env, events),
    ensures
        match reached(env, events).action {
            BootAction::Run { nic } => if env.smp.enabled {
                events.len() >= 2 && events[events.len() - 2] == BootEvent::Probed(Some(nic))
            } else {
                events.len() >= 1 && events.last() == BootEvent::Probed(Some(nic))
            },
            BootAction::BringUpAps { max_aps, tsc_per_us } => {
                &&& events.len() >= 1
                &&& events.last() == BootEvent::Probed(Some(reached(env, events).nic))
                &&& env.smp.enabled
                &&& max_aps == wanted_aps(env.smp)
                &&& tsc_per_us == reached(env, events).tsc_per_us
            },
            BootAction::NoNic { vmbus, named } => {
                &&& events.len() >= 1
                &&& events.last() == BootEvent::Probed(None)
                &&& vmbus == reached(env, events).vmbus
                &&& named == env.named
            },
            _ => true,
        },
    decreases events.len(),
{
    if events.len() > 0 {
        let prior = events.drop_last();
        runs_on_the_primary(env, prior);
        if prior.len() > 0 {
            assert(prior.last() == events[events.len() - 2]);
        }
    }
}

// ── What boot comes to ──────────────────────────────────────────────────

/// When the timer is started: at once where a rate is told at the first try,
/// later where the hypervisor does not know it.
spec fn timer_started(env: BootEnv, events: Seq<BootEvent>) -> int {
    if env.hyperv && events[4] == BootEvent::TscFrequency(0) {
        6
    } else {
        5
    }
}

/// The rate that was told by then, in ticks per microsecond.
spec fn told_rate(env: BootEnv, events: Seq<BootEvent>) -> int {
    match events[timer_started(env, events) - 1] {
        BootEvent::TscFrequency(hz) => hz as int / 1_000_000,
        BootEvent::Calibrated(Some(ticks)) => ticks as int,
        _ => 2400,
    }
}

/// What boot has to do after so many events, and with what: the rate that was
/// told, the limits that were set, the NIC that was found. What is done with
/// other CPUs is what the command line says: no more of them than its limit,
/// and seven only where it sets none.
pub proof fn boot_does_what_it_was_told(env: BootEnv, events: Seq<BootEvent>)
    requires
        possible(env, events),
    ensures
        ({
            let n = events.len();
            let t: int = if env.hyperv && events[4] == BootEvent::TscFrequency(0) {
                6
            } else {
                5
            };
            let rate = match events[t - 1] {
                BootEvent::TscFrequency(hz) => hz as int / 1_000_000,
                BootEvent::Calibrated(Some(ticks)) => ticks as int,
                _ => 2400,
            };
            match reached(env, events).action {
                BootAction::InitHal { heap_size } => n == 0 && heap_size == 8 * 1024 * 1024,
                BootAction::InitIdt => n == 1,
                BootAction::DisablePic => n == 2,
                BootAction::EnableLapic => n == 3,
                BootAction::ReadTscFrequency => n == 4 && env.hyperv,
                BootAction::CalibratePit => if env.hyperv {
                    n == 5 && events[4] == BootEvent::TscFrequency(0)
                } else {
                    n == 4
                },
                BootAction::StartTimer { tsc_per_us } => n == t && tsc_per_us == rate,
                BootAction::MapIoApic => n == t + 1,
                BootAction::TryVmBus => n == t + 2,
                BootAction::Probe { sint2, named } => n == t + 3 && sint2 == env.hyperv && named
                    == env.named,
                BootAction::NoNic { vmbus, named } => {
                    &&& n == t + 4
                    &&& events[t + 3] == BootEvent::Probed(None)
                    &&& events[t + 2] == BootEvent::VmBus(vmbus)
                    &&& named == env.named
                },
                BootAction::BringUpAps { max_aps, tsc_per_us } => {
                    &&& n == t + 4
                    &&& env.smp.enabled
                    &&& events[t + 3] matches BootEvent::Probed(Some(_))
                    &&& env.smp.max_aps matches Some(limit) ==> max_aps == limit
                    &&& env.smp.max_aps is None ==> max_aps == 7
                    &&& tsc_per_us == rate
                },
                BootAction::Run { nic } => {
                    &&& n == if env.smp.enabled {
                        t + 5
                    } else {
                        t + 4
                    }
                    &&& events[t + 3] == BootEvent::Probed(Some(nic))
                },
            }
        }),
{
    boot_stands_there(env, events);
}

proof fn boot_stands_there(env: BootEnv, events: Seq<BootEvent>)
    requires
        possible(env, events),
    ensures
        ({
            let n = events.len();
            let t = timer_started(env, events);
            let s = reached(env, events);
            &&& match s.action {
                BootAction::InitHal { heap_size } => n == 0 && heap_size == 8 * 1024 * 1024,
                BootAction::InitIdt => n == 1,
                BootAction::DisablePic => n == 2,
                BootAction::EnableLapic => n == 3,
                BootAction::ReadTscFrequency => n == 4 && env.hyperv,
                BootAction::CalibratePit => if env.hyperv {
                    n == 5 && events[4] == BootEvent::TscFrequency(0)
                } else {
                    n == 4
                },
                BootAction::StartTimer { tsc_per_us } => n == t && tsc_per_us == s.tsc_per_us,
                BootAction::MapIoApic => n == t + 1,
                BootAction::TryVmBus => n == t + 2,
                BootAction::Probe { sint2, named } => n == t + 3 && sint2 == env.hyperv && named
                    == env.named,
                BootAction::NoNic { vmbus, named } => {
                    &&& n == t + 4
                    &&& events[t + 3] == BootEvent::Probed(None)
                    &&& vmbus == s.vmbus
                    &&& named == env.named
                },
                BootAction::BringUpAps { max_aps, tsc_per_us } => {
                    &&& n == t + 4
                    &&& env.smp.enabled
                    &&& env.smp.max_aps matches Some(limit) ==> max_aps == limit
                    &&& env.smp.max_aps is None ==> max_aps == 7
                    &&& tsc_per_us == s.tsc_per_us
                },
                BootAction::Run { nic } => {
                    &&& n == if env.smp.enabled {
                        t + 5
                    } else {
                        t + 4
                    }
                    &&& nic == s.nic
                },
            }
            &&& n >= t >= 5 && place(s.action) >= 6 ==> s.tsc_per_us == told_rate(env, events)
            &&& place(s.action) >= 9 ==> n >= t + 3 && events[t + 2] == BootEvent::VmBus(s.vmbus)
            &&& place(s.action) >= 10 && !(s.action is NoNic) ==> n >= t + 4 && events[t + 3]
                == BootEvent::Probed(Some(s.nic))
        }),
    decreases events.len(),
{
    if events.len() > 0 {
        let prior = events.drop_last();
        boot_stands_there(env, prior);
        assert forall|i: int| 0 <= i < prior.len() implies prior[i] == events[i] by {}
    }
}

/// A kernel that boots stands where its events lead: it begins with the first
/// action and nothing learnt, goes on by the events it is handed, and says what
/// is next.
pub proof fn kernel_follows_its_events(
    env: BootEnv,
    events: Seq<BootEvent>,
    event: BootEvent,
    begun: KernelBoot,
    boot: &KernelBoot,
    action: BootAction,
)
    ensures
        call_ensures(KernelBoot::new, (env,), begun) ==> begun.env() == env && begun@ == reached(
            env,
            Seq::empty(),
        ),
        call_ensures(KernelBoot::new, (env,), begun) ==> {
            &&& begun@.action == (BootAction::InitHal { heap_size: 8388608 })
            &&& begun@.tsc_per_us == 0
            &&& !begun@.vmbus
            &&& begun@.nic == 0
        },
        call_ensures(KernelBoot::action, (boot,), action) ==> action == boot@.action,
        forall|k: &mut KernelBoot| #[trigger]
            call_ensures(KernelBoot::resume, (k, event), ()) && (*k).env() == env && (*k)@
                == reached(env, events) && possible(env, events.push(event)) ==> (*final(k)).env()
                == env && (*final(k))@ == reached(env, events.push(event)),
{
    assert(events.push(event).drop_last() =~= events);
}

/// What a kernel that boots takes for an answer: a frequency where one is read,
/// a calibration where that is made, what came of VMBus and of probing where
/// these are tried, and otherwise that it is done. Nothing follows the end.
pub proof fn kernel_takes_answers(boot: &KernelBoot, event: &BootEvent, r: bool)
    requires
        call_ensures(KernelBoot::expects, (boot, event), r),
    ensures
        r == match *event {
            BootEvent::TscFrequency(_) => boot@.action == BootAction::ReadTscFrequency,
            BootEvent::Calibrated(_) => boot@.action == BootAction::CalibratePit,
            BootEvent::VmBus(_) => boot@.action == BootAction::TryVmBus,
            BootEvent::Probed(_) => boot@.action is Probe,
            BootEvent::Done => boot@.action is InitHal || boot@.action is InitIdt
                || boot@.action is DisablePic || boot@.action is EnableLapic
                || boot@.action is StartTimer || boot@.action is MapIoApic
                || boot@.action is BringUpAps,
        },
        r == answers(boot@.action, *event),
{
}

/// A driver is never given the vector of the timer or the spurious one, nor
/// that of SINT2 where it may be in use; no other is kept from it.
pub proof fn only_used_vectors_are_reserved(sint2: bool, vectors: Vec<u8>)
    requires
        call_ensures(reserved_vectors, (sint2,), vectors),
    ensures
        forall|v: u8|
            #[trigger] vectors@.contains(v) <==> v == 32 || v == 39 || (sint2 && v == 34),
        reserved(sint2) == vectors@,
        FIRST_VECTOR == 32,
        LAST_VECTOR == 47,
{
    if sint2 {
        assert(vectors@[0] == 32 && vectors@[1] == 34 && vectors@[2] == 39);
    } else {
        assert(vectors@[0] == 32 && vectors@[1] == 39);
    }
}

} // verus!
