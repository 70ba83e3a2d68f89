//! Bringing VMBus up.
//!
//! [`VmBusInit`] decides what is done and in which order; whoever drives it
//! writes MSRs, sets up the hypercall page, allocates memory and talks to the
//! host, one [`BootCall`] at a time, and reports back with a [`BootReply`].

use super::detect::HvFeatures;
use super::error::HvError;
use super::msr::{set_guest_os_id, GUEST_OS_ID, VMBUS_VECTOR};
use super::synic::{enable_bit, synic_writes, SynIC};
use super::vmbus::{BusModel, ChannelOffer, VmBus};
use crate::dma::DmaRegion;
use crate::regs::MsrWrite;
use vstd::prelude::*;

verus! {

/// What is to be done next.
pub enum BootCall {
    /// Nothing: stop the machine here, with an undefined instruction.
    Crash,
    /// Write these MSRs, in order.
    WriteMsrs(Vec<MsrWrite>),
    /// Allocate the hypercall page, map it executable, enable it.
    EnableHypercallPage,
    /// Allocate two zeroed 4 KiB pages, aligned to 4 KiB.
    AllocPages,
    /// Negotiate the VMBus version with the host.
    Connect,
    /// Ask the host for its channel offers.
    RequestOffers,
}

/// What came of it.
pub enum BootReply {
    /// It is done.
    Done,
    /// It failed.
    Failed(HvError),
    /// The two pages.
    Pages { simp: DmaRegion, siefp: DmaRegion },
    /// The negotiated version, and the monitor pages that go with it.
    Connected { version: u32, parent_to_child: DmaRegion, child_to_parent: DmaRegion },
    /// The channel offers.
    Offers(Vec<ChannelOffer>),
}

/// A call, seen as what it asks for.
pub enum Asked {
    Crash,
    WriteMsrs(Seq<MsrWrite>),
    EnableHypercallPage,
    AllocPages,
    Connect,
    RequestOffers,
}

/// A reply, seen as what it says.
pub enum Said {
    Done,
    Failed(HvError),
    Pages { simp: DmaRegion, siefp: DmaRegion },
    Connected { version: u32, parent_to_child: DmaRegion, child_to_parent: DmaRegion },
    Offers(Seq<ChannelOffer>),
}

impl View for BootCall {
    type V = Asked;

    open spec fn view(&self) -> Asked {
        match self {
            BootCall::Crash => Asked::Crash,
            BootCall::WriteMsrs(writes) => Asked::WriteMsrs(writes@),
            BootCall::EnableHypercallPage => Asked::EnableHypercallPage,
            BootCall::AllocPages => Asked::AllocPages,
            BootCall::Connect => Asked::Connect,
            BootCall::RequestOffers => Asked::RequestOffers,
        }
    }
}

impl View for BootReply {
    type V = Said;

    open spec fn view(&self) -> Said {
        match *self {
            BootReply::Done => Said::Done,
            BootReply::Failed(e) => Said::Failed(e),
            BootReply::Pages { simp, siefp } => Said::Pages { simp, siefp },
            BootReply::Connected { version, parent_to_child, child_to_parent } => Said::Connected {
                version,
                parent_to_child,
                child_to_parent,
            },
            BootReply::Offers(offers) => Said::Offers(offers@),
        }
    }
}

/// How far bring-up has come.
#[verifier::ext_equal]
pub enum Stage {
    /// The machine is to be stopped.
    Crash,
    /// The guest has to identify itself.
    GuestId,
    /// The hypercall page is next.
    Hypercall,
    /// The SynIC needs its pages.
    Pages,
    /// The SynIC is to be configured.
    Synic { simp: DmaRegion, siefp: DmaRegion },
    /// The version is to be negotiated.
    Connect { simp: DmaRegion, siefp: DmaRegion },
    /// The offers are to be fetched.
    Offers {
        simp: DmaRegion,
        siefp: DmaRegion,
        version: u32,
        parent_to_child: DmaRegion,
        child_to_parent: DmaRegion,
    },
    /// VMBus is up.
    Up(BusModel),
    /// Bring-up failed.
    Failed(HvError),
}

/// What a stage asks for, as long as there is anything to be done.
pub open spec fn asked(at: Stage) -> Option<Asked> {
    match at {
        Stage::Crash => Some(Asked::Crash),
        Stage::GuestId => Some(
            Asked::WriteMsrs(seq![MsrWrite { reg: GUEST_OS_ID, value: 0x8100_0006_0500_0001 }]),
        ),
        Stage::Hypercall => Some(Asked::EnableHypercallPage),
        Stage::Pages => Some(Asked::AllocPages),
        Stage::Synic { simp, siefp } => Some(Asked::WriteMsrs(synic_writes(simp, siefp))),
        Stage::Connect { .. } => Some(Asked::Connect),
        Stage::Offers { .. } => Some(Asked::RequestOffers),
        Stage::Up(_) => None,
        Stage::Failed(_) => None,
    }
}

/// Whether a stage can have `said` for a reply.
pub open spec fn answers(at: Stage, said: Said) -> bool {
    match at {
        Stage::GuestId | Stage::Synic { .. } => said is Done,
        Stage::Hypercall => said is Done || said is Failed,
        Stage::Pages => said is Pages,
        Stage::Connect { .. } => said is Connected || said is Failed,
        Stage::Offers { .. } => said is Offers || said is Failed,
        _ => false,
    }
}

/// The stage after checkpoint `n`: `next`, unless the machine is to be
/// stopped there.
pub open spec fn past(crash_after: u32, n: u32, next: Stage) -> Stage {
    if crash_after == n {
        Stage::Crash
    } else {
        next
    }
}

/// The stage at which bring-up begins.
pub open spec fn first_stage(features: Option<HvFeatures>, crash_after: u32) -> Stage {
    match features {
        None => Stage::Failed(HvError::NotHyperV),
        Some(f) => past(
            crash_after,
            1,
            if !f.has_synic {
                Stage::Failed(HvError::NoSynIC)
            } else if !f.has_hypercall {
                Stage::Failed(HvError::NoHypercall)
            } else {
                Stage::GuestId
            },
        ),
    }
}

/// The stage after a reply.
pub open spec fn step(crash_after: u32, at: Stage, said: Said) -> Stage {
    match (at, said) {
        (_, Said::Failed(e)) => Stage::Failed(e),
        (Stage::GuestId, _) => past(crash_after, 2, Stage::Hypercall),
        (Stage::Hypercall, _) => past(crash_after, 3, Stage::Pages),
        (Stage::Pages, Said::Pages { simp, siefp }) => Stage::Synic { simp, siefp },
        (Stage::Synic { simp, siefp }, _) => past(crash_after, 4, Stage::Connect { simp, siefp }),
        (
            Stage::Connect { simp, siefp },
            Said::Connected { version, parent_to_child, child_to_parent },
        ) => past(
            crash_after,
            5,
            Stage::Offers { simp, siefp, version, parent_to_child, child_to_parent },
        ),
        (
            Stage::Offers { simp, siefp, version, parent_to_child, child_to_parent },
            Said::Offers(offers),
        ) => past(
            crash_after,
            6,
            Stage::Up(
                BusModel { simp, siefp, version, offers, parent_to_child, child_to_parent },
            ),
        ),
        _ => at,
    }
}

enum State {
    Crash,
    GuestId,
    Hypercall,
    Pages,
    Synic(SynIC, Vec<MsrWrite>),
    Connect(SynIC),
    Offers(SynIC, u32, DmaRegion, DmaRegion),
    Up(VmBus),
    Failed(HvError),
}

/// VMBus on its way up.
///
/// `crash_after` stops the machine after a stage of bring-up, which tells how
/// far it comes where there is no serial output: 0 = never, 1 = after CPUID,
/// 2 = after Guest OS ID, 3 = after hypercall page, 4 = after SynIC, 5 = after
/// version negotiate, 6 = after offers.
pub struct VmBusInit {
    crash_after: u32,
    state: State,
}

/// What bring-up has come to.
pub enum BootOutcome {
    /// VMBus is up.
    Up(VmBus),
    /// Bring-up failed.
    Failed(HvError),
    /// There is something left to be done.
    Unfinished(VmBusInit),
}

/// Begin to initialize VMBus on Hyper-V.
///
/// Sets up the hypercall page and SynIC, then performs VMBus version
/// negotiation and fetches the channel offers. Fails with
/// [`HvError::NotHyperV`] if not running on Hyper-V.
pub fn init(features: Option<HvFeatures>, crash_after: u32) -> (boot: VmBusInit)
    ensures
        boot.wf(),
        boot.crash_after() == crash_after,
        boot@ == first_stage(features, crash_after),
{
    let state = match features {
        None => State::Failed(HvError::NotHyperV),
        Some(f) => {
            if crash_after == 1 {
                State::Crash
            } else if !f.has_synic {
                State::Failed(HvError::NoSynIC)
            } else if !f.has_hypercall {
                State::Failed(HvError::NoHypercall)
            } else {
                State::GuestId
            }
        },
    };
    VmBusInit { crash_after, state }
}

/// Begin to initialise VMBus where it can be had.
///
/// - `Some((vector, boot))`: running on Hyper-V. The SINT2 handler has to be
///   installed at `vector` before `boot` is driven, since the host's first
///   response comes by that interrupt; once VMBus is up its pages are
///   published to the handler
///   ([`VmBusIsr::attach`](super::isr::VmBusIsr::attach)).
/// - `None`: not running on Hyper-V (CPUID negative, or SynIC / hypercall MSR
///   unavailable). Non-fatal; the caller should continue with PCI-only paths.
pub fn try_init(features: Option<HvFeatures>, crash_after: u32) -> (r: Option<(u8, VmBusInit)>)
    ensures
        r is Some <==> (features matches Some(f) && f.has_synic && f.has_hypercall),
        r matches Some((vector, boot)) ==> {
            &&& vector == VMBUS_VECTOR
            &&& boot.wf()
            &&& boot.crash_after() == crash_after
            &&& boot@ == past(crash_after, 1, Stage::GuestId)
        },
{
    match features {
        Some(f) => {
            if f.has_synic && f.has_hypercall {
                Some((VMBUS_VECTOR, init(Some(f), crash_after)))
            } else {
                None
            }
        },
        None => None,
    }
}

impl View for VmBusInit {
    type V = Stage;

    closed spec fn view(&self) -> Stage {
        match self.state {
            State::Crash => Stage::Crash,
            State::GuestId => Stage::GuestId,
            State::Hypercall => Stage::Hypercall,
            State::Pages => Stage::Pages,
            State::Synic(s, _) => Stage::Synic { simp: s.simp(), siefp: s.siefp() },
            State::Connect(s) => Stage::Connect { simp: s.simp(), siefp: s.siefp() },
            State::Offers(s, version, parent_to_child, child_to_parent) => Stage::Offers {
                simp: s.simp(),
                siefp: s.siefp(),
                version,
                parent_to_child,
                child_to_parent,
            },
            State::Up(bus) => Stage::Up(bus@),
            State::Failed(e) => Stage::Failed(e),
        }
    }
}

impl VmBusInit {
    /// After which stage the machine is stopped.
    pub closed spec fn crash_after(&self) -> u32 {
        self.crash_after
    }

    /// The MSR writes that are held back are those of the SynIC.
    pub closed spec fn wf(&self) -> bool {
        self.state matches State::Synic(s, writes) ==> writes@ == synic_writes(s.simp(), s.siefp())
    }

    fn checked(crash_after: u32, n: u32, next: State) -> (boot: Self)
        requires
            (VmBusInit { crash_after, state: next }).wf(),
        ensures
            boot.wf(),
            boot.crash_after() == crash_after,
            boot@ == past(crash_after, n, (VmBusInit { crash_after, state: next })@),
    {
        if crash_after == n {
            VmBusInit { crash_after, state: State::Crash }
        } else {
            VmBusInit { crash_after, state: next }
        }
    }

    /// What is to be done next, as long as there is anything.
    pub fn call(&self) -> (r: Option<BootCall>)
        requires
            self.wf(),
        ensures
            match r {
                Some(call) => asked(self@) == Some(call@),
                None => asked(self@) is None,
            },
    {
        match &self.state {
            State::Crash => Some(BootCall::Crash),
            State::GuestId => {
                let mut writes: Vec<MsrWrite> = Vec::new();
                writes.push(set_guest_os_id());
                assert(writes@ =~= seq![
                    MsrWrite { reg: GUEST_OS_ID, value: 0x8100_0006_0500_0001 },
                ]);
                Some(BootCall::WriteMsrs(writes))
            },
            State::Hypercall => Some(BootCall::EnableHypercallPage),
            State::Pages => Some(BootCall::AllocPages),
            State::Synic(_, writes) => {
                let n: usize = writes.len();
                let mut copy: Vec<MsrWrite> = Vec::new();
                let mut i: usize = 0;
                while i < n
                    invariant
                        i <= n,
                        n == writes@.len(),
                        copy@ == writes@.take(i as int),
                    decreases n - i,
                {
                    copy.push(writes[i]);
                    i += 1;
                    assert(copy@ =~= writes@.take(i as int));
                }
                assert(copy@ =~= writes@);
                Some(BootCall::WriteMsrs(copy))
            },
            State::Connect(_) => Some(BootCall::Connect),
            State::Offers(_, _, _, _) => Some(BootCall::RequestOffers),
            State::Up(_) => None,
            State::Failed(_) => None,
        }
    }

    /// Whether `reply` can come of the call that is to be done.
    pub fn expects(&self, reply: &BootReply) -> (r: bool)
        ensures
            r == answers(self@, reply@),
    {
        match (&self.state, reply) {
            (State::GuestId, BootReply::Done) => true,
            (State::Synic(_, _), BootReply::Done) => true,
            (State::Hypercall, BootReply::Done) => true,
            (State::Hypercall, BootReply::Failed(_)) => true,
            (State::Pages, BootReply::Pages { .. }) => true,
            (State::Connect(_), BootReply::Connected { .. }) => true,
            (State::Connect(_), BootReply::Failed(_)) => true,
            (State::Offers(_, _, _, _), BootReply::Offers(_)) => true,
            (State::Offers(_, _, _, _), BootReply::Failed(_)) => true,
            _ => false,
        }
    }

    /// Take note of what came of the call.
    pub fn resume(self, reply: BootReply) -> (next: VmBusInit)
        requires
            self.wf(),
            answers(self@, reply@),
        ensures
            next.wf(),
            next.crash_after() == self.crash_after(),
            next@ == step(self.crash_after(), self@, reply@),
    {
        let crash_after: u32 = self.crash_after;
        match (self.state, reply) {
            (_, BootReply::Failed(e)) => VmBusInit { crash_after, state: State::Failed(e) },
            (State::GuestId, _) => Self::checked(crash_after, 2, State::Hypercall),
            (State::Hypercall, _) => Self::checked(crash_after, 3, State::Pages),
            (State::Pages, BootReply::Pages { simp, siefp }) => {
                let (synic, writes) = SynIC::new(simp, siefp);
                VmBusInit { crash_after, state: State::Synic(synic, writes) }
            },
            (State::Synic(synic, _), _) => Self::checked(crash_after, 4, State::Connect(synic)),
            (
                State::Connect(synic),
                BootReply::Connected { version, parent_to_child, child_to_parent },
            ) => Self::checked(
                crash_after,
                5,
                State::Offers(synic, version, parent_to_child, child_to_parent),
            ),
            (
                State::Offers(synic, version, parent_to_child, child_to_parent),
                BootReply::Offers(offers),
            ) => Self::checked(
                crash_after,
                6,
                State::Up(
                    VmBus::connected(synic, version, offers, parent_to_child, child_to_parent),
                ),
            ),
            (state, _) => VmBusInit { crash_after, state },
        }
    }

    /// What bring-up has come to.
    pub fn finish(self) -> (r: BootOutcome)
        ensures
            match r {
                BootOutcome::Up(bus) => self@ == Stage::Up(bus@),
                BootOutcome::Failed(e) => self@ == Stage::Failed(e),
                BootOutcome::Unfinished(boot) => boot == self && asked(self@) is Some,
            },
    {
        let crash_after: u32 = self.crash_after;
        match self.state {
            State::Up(bus) => BootOutcome::Up(bus),
            State::Failed(e) => BootOutcome::Failed(e),
            state => BootOutcome::Unfinished(VmBusInit { crash_after, state }),
        }
    }
}

// ── Bring-up from beginning to end ──────────────────────────────────────

/// The stage after a row of replies.
pub open spec fn reached(features: HvFeatures, crash_after: u32, replies: Seq<Said>) -> Stage
    decreases replies.len(),
{
    if replies.len() == 0 {
        first_stage(Some(features), crash_after)
    } else {
        step(crash_after, reached(features, crash_after, replies.drop_last()), replies.last())
    }
}

/// Whether each reply came of the call that was to be done.
pub open spec fn possible(features: HvFeatures, crash_after: u32, replies: Seq<Said>) -> bool
    decreases replies.len(),
{
    replies.len() == 0 || (possible(features, crash_after, replies.drop_last()) && answers(
        reached(features, crash_after, replies.drop_last()),
        replies.last(),
    ))
}

/// Bring-up takes its stages in order and leaves none out: a reply brings it
/// to the next, fails it, or stops it at the checkpoint that was asked for.
/// The guest identifies itself first, and VMBus is up after the sixth reply.
pub proof fn stages_in_order(features: HvFeatures, crash_after: u32, replies: Seq<Said>)
    requires
        possible(features, crash_after, replies),
    ensures
        ({
            let n = replies.len();
            match reached(features, crash_after, replies) {
                Stage::GuestId => n == 0 && features.has_synic && features.has_hypercall,
                Stage::Hypercall => n == 1,
                Stage::Pages => n == 2,
                Stage::Synic { .. } => n == 3,
                Stage::Connect { .. } => n == 4,
                Stage::Offers { .. } => n == 5,
                Stage::Up(_) => n == 6,
                Stage::Crash => (crash_after == 1 && n == 0) || (crash_after == 2 && n == 1) || (
                crash_after == 3 && n == 2) || (4 <= crash_after <= 6 && n == crash_after),
                Stage::Failed(e) => if n == 0 {
                    e == HvError::NoSynIC || e == HvError::NoHypercall
                } else {
                    replies.last() == Said::Failed(e)
                },
            }
        }),
    decreases replies.len(),
{
    if replies.len() > 0 {
        stages_in_order(features, crash_after, replies.drop_last());
    }
}

/// What VMBus comes up with is what the replies brought: the two pages, the
/// negotiated version with its monitor pages, and the offers.
pub proof fn replies_make_the_bus(features: HvFeatures, crash_after: u32, replies: Seq<Said>)
    requires
        possible(features, crash_after, replies),
        reached(features, crash_after, replies) is Up,
    ensures
        replies.len() == 6,
        replies[2] is Pages,
        replies[4] is Connected,
        replies[5] is Offers,
        reached(features, crash_after, replies) == Stage::Up(
            BusModel {
                simp: replies[2]->Pages_simp,
                siefp: replies[2]->Pages_siefp,
                version: replies[4]->Connected_version,
                offers: replies[5]->Offers_0,
                parent_to_child: replies[4]->Connected_parent_to_child,
                child_to_parent: replies[4]->Connected_child_to_parent,
            },
        ),
{
    stages_in_order(features, crash_after, replies);
    let r5 = replies.drop_last();
    let r4 = r5.drop_last();
    let r3 = r4.drop_last();
    let r2 = r3.drop_last();
    assert(possible(features, crash_after, r5));
    stages_in_order(features, crash_after, r5);
    assert(possible(features, crash_after, r4));
    stages_in_order(features, crash_after, r4);
    assert(possible(features, crash_after, r3));
    stages_in_order(features, crash_after, r3);
    assert(possible(features, crash_after, r2));
    stages_in_order(features, crash_after, r2);
    assert(r5.last() == replies[4] && r4.last() == replies[3] && r3.last() == replies[2]);
}

// ── What bring-up comes to ──────────────────────────────────────────────

/// Where bring-up begins: it fails where the machine is not Hyper-V or lacks a
/// feature, with the error that says so, and otherwise begins; it stops at once
/// where it was told to stop first, on Hyper-V.
pub proof fn bring_up_begins_so(
    features: Option<HvFeatures>,
    crash_after: u32,
    boot: VmBusInit,
    tried: Option<(u8, VmBusInit)>,
)
    ensures
        call_ensures(init, (features, crash_after), boot) ==> {
            &&& boot.crash_after() == crash_after
            &&& features is None ==> boot@ == Stage::Failed(HvError::NotHyperV)
            &&& features is Some && crash_after == 1 ==> boot@ == Stage::Crash
            &&& features matches Some(f) ==> (crash_after != 1 ==> boot@ == (if !f.has_synic {
                Stage::Failed(HvError::NoSynIC)
            } else if !f.has_hypercall {
                Stage::Failed(HvError::NoHypercall)
            } else {
                Stage::GuestId
            }))
        },
        call_ensures(try_init, (features, crash_after), tried) ==> {
            &&& tried is Some <==> features is Some && features->0.has_synic
                && features->0.has_hypercall
            &&& tried matches Some((vector, begun)) ==> {
                &&& vector == 34
                &&& begun.crash_after() == crash_after
                &&& begun@ == if crash_after == 1 {
                    Stage::Crash
                } else {
                    Stage::GuestId
                }
            }
        },
{
}

/// What bring-up asks for at each stage, and with what: the guest is identified
/// before the hypercall page is enabled, and the SynIC is told the physical
/// addresses of the pages that were allocated for it.
pub proof fn bring_up_asks_so(boot: &VmBusInit, r: Option<BootCall>)
    requires
        boot.wf(),
        call_ensures(VmBusInit::call, (boot,), r),
    ensures
        match boot@ {
            Stage::Crash => r matches Some(BootCall::Crash),
            Stage::GuestId => r matches Some(BootCall::WriteMsrs(writes)) && writes@.len() == 1
                && writes@[0] == (MsrWrite { reg: 0x4000_0000, value: 0x8100_0006_0500_0001 }),
            Stage::Hypercall => r matches Some(BootCall::EnableHypercallPage),
            Stage::Pages => r matches Some(BootCall::AllocPages),
            Stage::Synic { simp, siefp } => r matches Some(BootCall::WriteMsrs(writes)) && {
                &&& writes@.len() == 4
                &&& writes@[0] == (MsrWrite { reg: 0x4000_0080, value: 1 })
                &&& writes@[1].reg == 0x4000_0083
                &&& simp.paddr % 4096 == 0 ==> writes@[1].value == simp.paddr + 1
                &&& writes@[2].reg == 0x4000_0082
                &&& siefp.paddr % 4096 == 0 ==> writes@[2].value == siefp.paddr + 1
                &&& writes@[3] == (MsrWrite { reg: 0x4000_0092, value: 0x2_0022 })
            },
            Stage::Connect { .. } => r matches Some(BootCall::Connect),
            Stage::Offers { .. } => r matches Some(BootCall::RequestOffers),
            Stage::Up(_) => r is None,
            Stage::Failed(_) => r is None,
        },
{
    if let Stage::Synic { simp, siefp } = boot@ {
        enable_bit(simp.paddr as u64);
        enable_bit(siefp.paddr as u64);
    }
}

/// What bring-up takes for a reply: pages where it asked for pages, the version
/// where it connects, the offers where it asked for them, and otherwise that it
/// is done; a failure where the hypervisor or the host can fail.
pub proof fn bring_up_takes_replies(boot: &VmBusInit, reply: &BootReply, r: bool)
    requires
        call_ensures(VmBusInit::expects, (boot, reply), r),
    ensures
        r == match *reply {
            BootReply::Done => boot@ is GuestId || boot@ is Hypercall || boot@ is Synic,
            BootReply::Pages { .. } => boot@ is Pages,
            BootReply::Connected { .. } => boot@ is Connect,
            BootReply::Offers(_) => boot@ is Offers,
            BootReply::Failed(_) => boot@ is Hypercall || boot@ is Connect || boot@ is Offers,
        },
        r == answers(boot@, reply@),
{
}

/// VMBus on its way up stands where its replies lead.
pub proof fn bring_up_follows_its_replies(
    features: HvFeatures,
    crash_after: u32,
    replies: Seq<Said>,
    reply: BootReply,
    begun: VmBusInit,
    boot: VmBusInit,
    next: VmBusInit,
)
    ensures
        call_ensures(init, (Some(features), crash_after), begun) ==> begun.crash_after()
            == crash_after && begun@ == reached(features, crash_after, Seq::empty()),
        call_ensures(VmBusInit::resume, (boot, reply), next) && boot.wf() && boot.crash_after()
            == crash_after && boot@ == reached(features, crash_after, replies) && possible(
            features,
            crash_after,
            replies.push(reply@),
        ) ==> next.wf() && next.crash_after() == crash_after && next@ == reached(
            features,
            crash_after,
            replies.push(reply@),
        ),
{
    assert(replies.push(reply@).drop_last() =~= replies);
}

/// The SynIC, the connection and the offers are set up with the pages that were
/// allocated, and the offers are fetched for the version that was agreed on.
/// Bring-up never comes past the checkpoint at which it was told to stop.
pub proof fn bring_up_uses_what_it_was_handed(
    features: HvFeatures,
    crash_after: u32,
    replies: Seq<Said>,
)
    requires
        possible(features, crash_after, replies),
    ensures
        match reached(features, crash_after, replies) {
            Stage::GuestId => crash_after != 1,
            Stage::Hypercall => !(1 <= crash_after <= 2),
            Stage::Pages => !(1 <= crash_after <= 3),
            Stage::Synic { simp, siefp } => !(1 <= crash_after <= 3) && replies[2]
                == (Said::Pages { simp, siefp }),
            Stage::Connect { simp, siefp } => !(1 <= crash_after <= 4) && replies[2]
                == (Said::Pages { simp, siefp }),
            Stage::Offers { simp, siefp, version, parent_to_child, child_to_parent } => {
                &&& !(1 <= crash_after <= 5)
                &&& replies[2] == (Said::Pages { simp, siefp })
                &&& replies[4] == (Said::Connected { version, parent_to_child, child_to_parent })
            },
            Stage::Up(bus) => {
                &&& !(1 <= crash_after <= 6)
                &&& replies[2] == (Said::Pages { simp: bus.simp, siefp: bus.siefp })
                &&& replies[4] == (Said::Connected {
                    version: bus.version,
                    parent_to_child: bus.parent_to_child,
                    child_to_parent: bus.child_to_parent,
                })
                &&& replies[5] == Said::Offers(bus.offers)
            },
            Stage::Crash => 1 <= crash_after <= 6,
            Stage::Failed(e) => if replies.len() == 0 {
                &&& !features.has_synic ==> e == HvError::NoSynIC
                &&& features.has_synic ==> !features.has_hypercall && e == HvError::NoHypercall
            } else {
                replies.last() == Said::Failed(e)
            },
        },
    decreases replies.len(),
{
    if replies.len() > 0 {
        let prior = replies.drop_last();
        stages_in_order(features, crash_after, prior);
        stages_in_order(features, crash_after, replies);
        bring_up_uses_what_it_was_handed(features, crash_after, prior);
        assert forall|i: int| 0 <= i < prior.len() implies prior[i] == replies[i] by {}
    }
}

/// Bring-up is over exactly where VMBus is up or has failed, and then that is
/// what it has come to.
pub proof fn bring_up_ends_so(boot: VmBusInit, r: BootOutcome)
    requires
        call_ensures(VmBusInit::finish, (boot,), r),
    ensures
        match r {
            BootOutcome::Up(bus) => boot@ == Stage::Up(bus@),
            BootOutcome::Failed(e) => boot@ == Stage::Failed(e),
            BootOutcome::Unfinished(same) => same == boot && !(boot@ is Up) && !(boot@ is Failed),
        },
{
}

} // verus!
