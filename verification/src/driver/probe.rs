//! The probe loop.

use super::bus::{pci_enumerated, Bus, VmBusEnum};
use super::driver::{PciDriver, PciProbe, ProbeCtx, ProbedNic, VmBusDriver, VmBusProbe};
use super::error::ProbeError;
use super::registry::DriverRegistry;
use crate::hal::pci::{PciBus, PciDevice};
use crate::hyperv::{ChannelOffer, VmBus};
use crate::regs::{RegisterAccess, Traced};
use vstd::prelude::*;

verus! {

/// Hard cap on number of NICs that are probed before bailing.
///
/// Bounded so a hostile or misconfigured PCI topology cannot exhaust DMA
/// memory via probe-and-discard (~1 MiB per probed NIC).
pub const PROBE_BUDGET: usize = 4;

/// Which bus a device is on.
#[derive(Debug, Clone, Copy, PartialEq, Eq, Structural)]
pub enum BusKind {
    Pci,
    VmBus,
}

/// One call of a driver's `probe`, for the log.
#[derive(Debug, Clone, Copy)]
pub struct Attempt {
    pub bus: BusKind,
    /// Index of the device among those of its bus.
    pub device: usize,
    /// Index of the driver among those registered for the bus.
    pub driver: usize,
    /// Why it failed, if it did.
    pub error: Option<ProbeError>,
}

// ── Who claims what ─────────────────────────────────────────────────────

/// What comes of asking a driver for a device.
pub enum Answer<N> {
    /// The device is not its own.
    Declined,
    /// It probed the device, with this result.
    Tried(Result<N, ProbeError>),
}

impl<N> Answer<N> {
    /// Whether the device came up.
    pub open spec fn is_up(self) -> bool {
        self matches Answer::Tried(Ok(_))
    }
}

/// What drivers answer for a device: by the index of the driver.
pub type Row<N> = spec_fn(int) -> Answer<N>;

/// The same for every device: by the indices of the device and the driver.
pub type Answers<N> = spec_fn(int, int) -> Answer<N>;

/// The answers for one device.
pub open spec fn row<N>(answers: Answers<N>, device: int) -> Row<N> {
    |driver: int| answers(device, driver)
}

/// Which of drivers `0..n` claims a device: the first that brings it up.
pub open spec fn claimer<N>(answers: Row<N>, n: nat) -> Option<int>
    decreases n,
{
    if n == 0 {
        None
    } else {
        match claimer(answers, (n - 1) as nat) {
            Some(driver) => Some(driver),
            None => if answers(n - 1).is_up() {
                Some(n - 1)
            } else {
                None
            },
        }
    }
}

/// What an attempt looks like in the log.
pub open spec fn noted<N>(
    bus: BusKind,
    device: int,
    driver: int,
    result: Result<N, ProbeError>,
) -> Attempt {
    Attempt {
        bus,
        device: device as usize,
        driver: driver as usize,
        error: match result {
            Ok(_) => None,
            Err(e) => Some(e),
        },
    }
}

/// The attempts that drivers `0..n` make at a device: every one that does not
/// decline, up to the one that claims it.
pub open spec fn tried<N>(bus: BusKind, device: int, answers: Row<N>, n: nat) -> Seq<Attempt>
    decreases n,
{
    if n == 0 {
        Seq::empty()
    } else {
        let before = tried(bus, device, answers, (n - 1) as nat);
        match (claimer(answers, (n - 1) as nat), answers(n - 1)) {
            (None, Answer::Tried(result)) => before.push(noted(bus, device, n - 1, result)),
            _ => before,
        }
    }
}

/// What a scan of one bus is about.
pub struct Scan {
    pub bus: BusKind,
    /// How many drivers there are.
    pub drivers: nat,
    /// Whether two devices are one and the same.
    pub same: spec_fn(int, int) -> bool,
    /// How many NICs may be claimed.
    pub room: int,
}

/// A device and the driver that claimed it, by index.
pub struct Claim {
    pub device: int,
    pub driver: int,
}

/// Whether a device is passed over: there is no room for another NIC, or the
/// device was claimed before.
pub open spec fn passed_over(scan: Scan, claims: Seq<Claim>, device: int) -> bool {
    ||| claims.len() >= scan.room
    ||| exists|k: int| 0 <= k < claims.len() && (scan.same)((#[trigger] claims[k]).device, device)
}

/// The claims that a scan of devices `0..n` makes.
pub open spec fn claims<N>(scan: Scan, answers: Answers<N>, n: nat) -> Seq<Claim>
    decreases n,
{
    if n == 0 {
        Seq::empty()
    } else {
        let before = claims(scan, answers, (n - 1) as nat);
        let device = n - 1;
        if passed_over(scan, before, device) {
            before
        } else {
            match claimer(row(answers, device), scan.drivers) {
                Some(driver) => before.push(Claim { device, driver }),
                None => before,
            }
        }
    }
}

/// The attempts that a scan of devices `0..n` makes.
pub open spec fn attempts<N>(scan: Scan, answers: Answers<N>, n: nat) -> Seq<Attempt>
    decreases n,
{
    if n == 0 {
        Seq::empty()
    } else {
        let before = attempts(scan, answers, (n - 1) as nat);
        let device = n - 1;
        if passed_over(scan, claims(scan, answers, (n - 1) as nat), device) {
            before
        } else {
            before + tried(scan.bus, device, row(answers, device), scan.drivers)
        }
    }
}

/// Whether a scan asks a driver for a device: the device is not passed over,
/// and no driver before has claimed it.
pub open spec fn asked<N>(scan: Scan, answers: Answers<N>, device: int, driver: int) -> bool {
    &&& !passed_over(scan, claims(scan, answers, device as nat), device)
    &&& claimer(row(answers, device), driver as nat) is None
}

/// One call of a driver's `probe`, with what it made of the context.
pub struct Step<H, N> {
    pub device: int,
    pub driver: int,
    pub before: ProbeCtx<H>,
    pub result: Result<N, ProbeError>,
    pub after: ProbeCtx<H>,
}

/// Whether step `k` begins with what the one before it left.
pub open spec fn follows<H, N>(steps: Seq<Step<H, N>>, k: int) -> bool {
    steps[k].before == steps[k - 1].after
}

/// Whether `steps` lead from one context to another, each beginning with what
/// the one before it left.
#[verifier::opaque]
pub open spec fn chained<H, N>(
    start: ProbeCtx<H>,
    steps: Seq<Step<H, N>>,
    end: ProbeCtx<H>,
) -> bool {
    &&& if steps.len() == 0 {
        start == end
    } else {
        start == steps[0].before && steps.last().after == end
    }
    &&& forall|k: int| 0 < k < steps.len() ==> #[trigger] follows(steps, k)
}

/// Whether `steps` are the attempts in `log`, with the results of `answers`.
#[verifier::opaque]
pub open spec fn taken<H, N>(
    bus: BusKind,
    steps: Seq<Step<H, N>>,
    answers: Answers<N>,
    devices: int,
    drivers: int,
    log: Seq<Attempt>,
) -> bool {
    &&& log.len() == steps.len()
    &&& forall|k: int|
        0 <= k < steps.len() ==> {
            let s = #[trigger] steps[k];
            &&& 0 <= s.device < devices
            &&& 0 <= s.driver < drivers
            &&& answers(s.device, s.driver) == Answer::Tried(s.result)
            &&& log[k] == noted(bus, s.device, s.driver, s.result)
        }
}

// ── Facts about them ────────────────────────────────────────────────────

/// Whether `steps` are the attempts at one device in `log`, with the results of
/// `answers`.
#[verifier::opaque]
spec fn row_taken<H, N>(
    bus: BusKind,
    steps: Seq<Step<H, N>>,
    answers: Row<N>,
    device: int,
    drivers: int,
    log: Seq<Attempt>,
) -> bool {
    &&& log.len() == steps.len()
    &&& forall|k: int|
        0 <= k < steps.len() ==> {
            let s = #[trigger] steps[k];
            &&& s.device == device
            &&& 0 <= s.driver < drivers
            &&& answers(s.driver) == Answer::Tried(s.result)
            &&& log[k] == noted(bus, device, s.driver, s.result)
        }
}

/// The steps at one more device are steps of the scan.
proof fn more_taken<H, N>(
    bus: BusKind,
    steps: Seq<Step<H, N>>,
    answers: Answers<N>,
    device: nat,
    drivers: int,
    log: Seq<Attempt>,
    more_steps: Seq<Step<H, N>>,
    more: Row<N>,
    more_log: Seq<Attempt>,
)
    requires
        taken(bus, steps, answers, device as int, drivers, log),
        row_taken(bus, more_steps, more, device as int, drivers, more_log),
    ensures
        taken(
            bus,
            steps + more_steps,
            with_row(answers, device as int, more),
            device as int + 1,
            drivers,
            log + more_log,
        ),
{
    reveal(taken);
    reveal(row_taken);
    let all = steps + more_steps;
    assert forall|k: int| 0 <= k < all.len() implies {
        let s = #[trigger] all[k];
        &&& 0 <= s.device < device + 1
        &&& 0 <= s.driver < drivers
        &&& with_row(answers, device as int, more)(s.device, s.driver) == Answer::Tried(s.result)
        &&& (log + more_log)[k] == noted(bus, s.device, s.driver, s.result)
    } by {
        if k < steps.len() {
            assert(all[k] == steps[k]);
        } else {
            assert(all[k] == more_steps[k - steps.len()]);
        }
    }
}

/// Before anything is tried.
proof fn nothing_taken<H, N>(bus: BusKind, ctx: ProbeCtx<H>, device: int, drivers: int)
    ensures
        chained(ctx, Seq::<Step<H, N>>::empty(), ctx),
        forall|answers: Answers<N>| #[trigger]
            taken(bus, Seq::<Step<H, N>>::empty(), answers, 0, drivers, Seq::empty()),
        forall|answers: Row<N>, n: int| #[trigger]
            row_taken(bus, Seq::<Step<H, N>>::empty(), answers, device, n, Seq::empty()),
{
    reveal(chained);
    reveal(taken);
    reveal(row_taken);
}

/// One more answer for a device: a step, unless it was declined.
proof fn step_taken<H, N>(
    bus: BusKind,
    steps: Seq<Step<H, N>>,
    answers: Row<N>,
    device: int,
    driver: int,
    n: int,
    log: Seq<Attempt>,
    start: ProbeCtx<H>,
    result: Result<N, ProbeError>,
    end: ProbeCtx<H>,
)
    requires
        0 <= driver < n,
        row_taken(bus, steps, answers, device, driver, log),
    ensures
        row_taken(
            bus,
            steps,
            with_answer(answers, driver, Answer::Declined),
            device,
            driver + 1,
            log,
        ),
        row_taken(
            bus,
            steps.push(Step { device, driver, before: start, result, after: end }),
            with_answer(answers, driver, Answer::Tried(result)),
            device,
            driver + 1,
            log.push(noted(bus, device, driver, result)),
        ),
        row_taken(
            bus,
            steps.push(Step { device, driver, before: start, result, after: end }),
            with_answer(answers, driver, Answer::Tried(result)),
            device,
            n,
            log.push(noted(bus, device, driver, result)),
        ),
{
    reveal(row_taken);
    let step = Step { device, driver, before: start, result, after: end };
    let more = steps.push(step);
    assert(forall|k: int| 0 <= k < steps.len() ==> #[trigger] more[k] == steps[k]);
    assert(forall|k: int|
        0 <= k < steps.len() ==> #[trigger] log.push(noted(bus, device, driver, result))[k]
            == log[k]);
}

/// The steps at a device are at that device.
proof fn row_devices<H, N>(
    bus: BusKind,
    steps: Seq<Step<H, N>>,
    answers: Row<N>,
    device: int,
    drivers: int,
    log: Seq<Attempt>,
)
    requires
        row_taken(bus, steps, answers, device, drivers, log),
    ensures
        forall|k: int| 0 <= k < steps.len() ==> (#[trigger] steps[k]).device == device,
{
    reveal(row_taken);
}

/// A step leads on from where those before it led.
proof fn chained_push<H, N>(
    begin: ProbeCtx<H>,
    steps: Seq<Step<H, N>>,
    step: Step<H, N>,
)
    requires
        chained(begin, steps, step.before),
    ensures
        chained(begin, steps.push(step), step.after),
{
    let one = seq![step];
    assert(chained(step.before, one, step.after)) by {
        reveal(chained);
    }
    chained_concat(begin, steps, step.before, one, step.after);
    assert(steps + one =~= steps.push(step));
}

proof fn chained_concat<H, N>(
    start: ProbeCtx<H>,
    a: Seq<Step<H, N>>,
    middle: ProbeCtx<H>,
    b: Seq<Step<H, N>>,
    end: ProbeCtx<H>,
)
    requires
        chained(start, a, middle),
        chained(middle, b, end),
    ensures
        chained(start, a + b, end),
{
    reveal(chained);
    let all = a + b;
    assert forall|k: int| 0 < k < all.len() implies #[trigger] follows(all, k) by {
        if k < a.len() {
            assert(follows(a, k));
            assert(all[k] == a[k] && all[k - 1] == a[k - 1]);
        } else if k > a.len() {
            assert(follows(b, k - a.len()));
            assert(all[k] == b[k - a.len()] && all[k - 1] == b[k - a.len() - 1]);
        }
    }
    if a.len() > 0 && b.len() > 0 {
        assert(all.last() == b.last());
    }
}

proof fn row_same<N>(bus: BusKind, device: int, a: Row<N>, b: Row<N>, n: nat)
    requires
        forall|d: int| 0 <= d < n ==> #[trigger] a(d) == b(d),
    ensures
        claimer(a, n) == claimer(b, n),
        tried(bus, device, a, n) == tried(bus, device, b, n),
    decreases n,
{
    if n > 0 {
        row_same(bus, device, a, b, (n - 1) as nat);
        assert(a(n - 1) == b(n - 1));
    }
}

proof fn claims_same<N>(scan: Scan, a: Answers<N>, b: Answers<N>, n: nat)
    requires
        forall|t: int, d: int| 0 <= t < n ==> #[trigger] a(t, d) == b(t, d),
    ensures
        claims(scan, a, n) == claims(scan, b, n),
        attempts(scan, a, n) == attempts(scan, b, n),
    decreases n,
{
    if n > 0 {
        let t = n - 1;
        claims_same(scan, a, b, (n - 1) as nat);
        assert forall|d: int| 0 <= d < scan.drivers implies #[trigger] row(a, t)(d) == row(b, t)(d) by {
            assert(a(t, d) == b(t, d));
        }
        row_same(scan.bus, t, row(a, t), row(b, t), scan.drivers);
    }
}

proof fn claimed_stays<N>(bus: BusKind, device: int, answers: Row<N>, m: nat, n: nat)
    requires
        m <= n,
        claimer(answers, m) is Some,
    ensures
        claimer(answers, n) == claimer(answers, m),
        tried(bus, device, answers, n) == tried(bus, device, answers, m),
    decreases n,
{
    if m < n {
        claimed_stays(bus, device, answers, m, (n - 1) as nat);
    }
}

proof fn claimer_is_first<N>(answers: Row<N>, n: nat)
    ensures
        match claimer(answers, n) {
            Some(c) => {
                &&& 0 <= c < n
                &&& answers(c).is_up()
                &&& forall|d: int| 0 <= d < c ==> !(#[trigger] answers(d)).is_up()
            },
            None => forall|d: int| 0 <= d < n ==> !(#[trigger] answers(d)).is_up(),
        },
    decreases n,
{
    if n > 0 {
        claimer_is_first(answers, (n - 1) as nat);
    }
}

/// Every claim is by the first driver that brings the device up; there are
/// never more claims than there is room for; and no device is claimed twice,
/// under whichever index.
pub proof fn claims_are_sound<N>(scan: Scan, answers: Answers<N>, n: nat)
    requires
        scan.room >= 0,
    ensures
        claims(scan, answers, n).len() <= scan.room,
        forall|k: int|
            0 <= k < claims(scan, answers, n).len() ==> {
                let c = #[trigger] claims(scan, answers, n)[k];
                &&& 0 <= c.device < n
                &&& 0 <= c.driver < scan.drivers
                &&& answers(c.device, c.driver).is_up()
                &&& forall|d: int|
                    0 <= d < c.driver ==> !(#[trigger] answers(c.device, d)).is_up()
            },
        forall|j: int, k: int|
            0 <= j < k < claims(scan, answers, n).len() ==> {
                let a = #[trigger] claims(scan, answers, n)[j];
                let b = #[trigger] claims(scan, answers, n)[k];
                a.device < b.device && !(scan.same)(a.device, b.device)
            },
    decreases n,
{
    if n > 0 {
        let t = n - 1;
        let prior = claims(scan, answers, (n - 1) as nat);
        claims_are_sound(scan, answers, (n - 1) as nat);
        claimer_is_first(row(answers, t), scan.drivers);
        if !passed_over(scan, prior, t) {
            match claimer(row(answers, t), scan.drivers) {
                Some(c) => {
                    assert forall|d: int| 0 <= d < c implies !(#[trigger] answers(t, d)).is_up() by {
                        assert(row(answers, t)(d) == answers(t, d));
                    }
                    assert(row(answers, t)(c) == answers(t, c));
                    let all = claims(scan, answers, n);
                    assert(all == prior.push(Claim { device: t, driver: c }));
                    assert forall|j: int, k: int| 0 <= j < k < all.len() implies {
                        let a = #[trigger] all[j];
                        let b = #[trigger] all[k];
                        a.device < b.device && !(scan.same)(a.device, b.device)
                    } by {
                        assert(all[j] == prior[j]);
                        if k < prior.len() {
                            assert(all[k] == prior[k]);
                        }
                    }
                },
                None => {},
            }
        }
    }
}

/// A device that some driver brings up is claimed, unless there is no room left
/// or it was claimed before.
pub proof fn claims_are_complete<N>(
    scan: Scan,
    answers: Answers<N>,
    n: nat,
    device: int,
    driver: int,
)
    requires
        0 <= device < n,
        0 <= driver < scan.drivers,
        answers(device, driver).is_up(),
    ensures
        claims(scan, answers, n).len() >= scan.room || exists|k: int|
            0 <= k < claims(scan, answers, n).len() && {
                let c = #[trigger] claims(scan, answers, n)[k];
                c.device == device || (scan.same)(c.device, device)
            },
    decreases n,
{
    let prior = claims(scan, answers, (n - 1) as nat);
    let all = claims(scan, answers, n);
    if device < n - 1 {
        claims_are_complete(scan, answers, (n - 1) as nat, device, driver);
        assert(prior.len() <= all.len());
        assert(forall|k: int| 0 <= k < prior.len() ==> prior[k] == #[trigger] all[k]);
        if prior.len() < scan.room {
            let k = choose|k: int|
                0 <= k < prior.len() && ((#[trigger] prior[k]).device == device || (scan.same)(
                    prior[k].device,
                    device,
                ));
            assert(all[k] == prior[k]);
        }
    } else if !passed_over(scan, prior, device) {
        claimer_is_first(row(answers, device), scan.drivers);
        assert(row(answers, device)(driver) == answers(device, driver));
        assert(all[all.len() - 1].device == device);
    } else if prior.len() < scan.room {
        let k = choose|k: int|
            0 <= k < prior.len() && (scan.same)((#[trigger] prior[k]).device, device);
        assert(all[k].device == prior[k].device);
    }
}

// ── Probing ─────────────────────────────────────────────────────────────

/// Whether two PCI devices are at the same place.
pub open spec fn same_place(a: PciDevice, b: PciDevice) -> bool {
    a.bus == b.bus && a.dev == b.dev && a.func == b.func
}

/// The scan of PCI devices.
pub open spec fn pci_scan(drivers: nat, devs: Seq<PciDevice>) -> Scan {
    Scan {
        bus: BusKind::Pci,
        drivers,
        same: |a: int, b: int| same_place(devs[a], devs[b]),
        room: PROBE_BUDGET as int,
    }
}

/// The scan of VMBus offers, after `taken` NICs were claimed. Offers are not
/// compared with each other: each is a channel of its own.
pub open spec fn vmbus_scan(drivers: nat, taken: int) -> Scan {
    Scan {
        bus: BusKind::VmBus,
        drivers,
        same: |a: int, b: int| false,
        room: PROBE_BUDGET - taken,
    }
}

/// Whether `answer` is one that the driver can give for the device: it declines
/// if its `matches` says no; it probes if that says yes, and the result is one
/// that its `probe` can give.
#[verifier::opaque]
pub open spec fn pci_said<H, N, P: PciProbe<H, N>>(
    driver: P,
    dev: PciDevice,
    answer: Answer<N>,
) -> bool {
    &&& call_ensures(<P as PciDriver>::matches, (&driver, &dev), answer is Tried)
    &&& answer matches Answer::Tried(result) ==> exists|ctx: &mut ProbeCtx<H>| #[trigger]
        call_ensures(<P as PciProbe<H, N>>::probe, (&driver, dev, ctx), result)
}

/// Whether every answer of a scan of devices `0..n` that was asked for is one
/// that the driver can give.
#[verifier::opaque]
pub open spec fn pci_asked<H, N, P: PciProbe<H, N>>(
    drivers: Seq<P>,
    devs: Seq<PciDevice>,
    scan: Scan,
    answers: Answers<N>,
    n: int,
) -> bool {
    forall|t: int, d: int|
        0 <= t < n && 0 <= d < drivers.len() && asked(scan, answers, t, d) ==> pci_said::<H, N, P>(
            drivers[d],
            devs[t],
            #[trigger] answers(t, d),
        )
}

/// The NIC of a claim on a PCI device: what the driver brought up, with its
/// priority and name.
pub open spec fn is_pci_nic<P: PciDriver, N>(
    nic: ProbedNic<N>,
    drivers: Seq<P>,
    answers: Answers<N>,
    claim: Claim,
) -> bool {
    &&& answers(claim.device, claim.driver) == Answer::Tried(Ok(nic.driver))
    &&& call_ensures(<P as PciDriver>::priority, (&drivers[claim.driver],), nic.priority)
    &&& call_ensures(<P as PciDriver>::name, (&drivers[claim.driver],), nic.name)
}

/// Whether `answer` is one that the driver can give for the device: it declines
/// if its `matches` says no; it probes if that says yes, and the result is one
/// that its `probe` can give.
#[verifier::opaque]
pub open spec fn vmbus_said<H, N, V: VmBusProbe<H, N>>(
    driver: V,
    dev: ChannelOffer,
    answer: Answer<N>,
) -> bool {
    &&& call_ensures(<V as VmBusDriver>::matches, (&driver, &dev), answer is Tried)
    &&& answer matches Answer::Tried(result) ==> exists|ctx: &mut ProbeCtx<H>| #[trigger]
        call_ensures(<V as VmBusProbe<H, N>>::probe, (&driver, dev, ctx), result)
}

/// Whether every answer of a scan of devices `0..n` that was asked for is one
/// that the driver can give.
#[verifier::opaque]
pub open spec fn vmbus_asked<H, N, V: VmBusProbe<H, N>>(
    drivers: Seq<V>,
    devs: Seq<ChannelOffer>,
    scan: Scan,
    answers: Answers<N>,
    n: int,
) -> bool {
    forall|t: int, d: int|
        0 <= t < n && 0 <= d < drivers.len() && asked(scan, answers, t, d) ==> vmbus_said::<H, N, V>(
            drivers[d],
            devs[t],
            #[trigger] answers(t, d),
        )
}

/// The NIC of a claim on a VMBus offer: what the driver brought up, with its
/// priority and name.
pub open spec fn is_vmbus_nic<V: VmBusDriver, N>(
    nic: ProbedNic<N>,
    drivers: Seq<V>,
    answers: Answers<N>,
    claim: Claim,
) -> bool {
    &&& answers(claim.device, claim.driver) == Answer::Tried(Ok(nic.driver))
    &&& call_ensures(<V as VmBusDriver>::priority, (&drivers[claim.driver],), nic.priority)
    &&& call_ensures(<V as VmBusDriver>::name, (&drivers[claim.driver],), nic.name)
}

/// What probing makes of given devices, offers and answers: the NICs, those on
/// PCI first, and the attempts.
pub open spec fn probed<H, N, P: PciProbe<H, N>, V: VmBusProbe<H, N>>(
    pci: Seq<P>,
    vmbus: Seq<V>,
    devs: Seq<PciDevice>,
    offers: Seq<ChannelOffer>,
    pci_answers: Answers<N>,
    vmbus_answers: Answers<N>,
    nics: Seq<ProbedNic<N>>,
    log: Seq<Attempt>,
) -> bool {
    let scan = pci_scan(pci.len(), devs);
    let first = claims(scan, pci_answers, devs.len());
    let bus = vmbus_scan(vmbus.len(), first.len() as int);
    let second = claims(bus, vmbus_answers, offers.len());
    &&& pci_asked::<H, N, P>(pci, devs, scan, pci_answers, devs.len() as int)
    &&& vmbus_asked::<H, N, V>(vmbus, offers, bus, vmbus_answers, offers.len() as int)
    &&& nics.len() == first.len() + second.len()
    &&& forall|k: int|
        0 <= k < first.len() ==> is_pci_nic(#[trigger] nics[k], pci, pci_answers, first[k])
    &&& forall|k: int|
        first.len() <= k < nics.len() ==> is_vmbus_nic(
            #[trigger] nics[k],
            vmbus,
            vmbus_answers,
            second[k - first.len()],
        )
    &&& log == attempts(scan, pci_answers, devs.len()) + attempts(bus, vmbus_answers, offers.len())
}

/// `answers` with one more.
spec fn with_answer<N>(answers: Row<N>, driver: int, answer: Answer<N>) -> Row<N> {
    |d: int|
        if d == driver {
            answer
        } else {
            answers(d)
        }
}

/// `answers` with those for one more device.
spec fn with_row<N>(answers: Answers<N>, device: int, more: Row<N>) -> Answers<N> {
    |t: int, d: int|
        if t == device {
            more(d)
        } else {
            answers(t, d)
        }
}

/// What an answer adds to what is known of a device.
proof fn one_answer<N>(
    bus: BusKind,
    device: int,
    answers: Row<N>,
    driver: nat,
    n: nat,
    answer: Answer<N>,
)
    requires
        driver < n,
        claimer(answers, driver) is None,
    ensures
        ({
            let more = with_answer(answers, driver as int, answer);
            let log = tried(bus, device, answers, driver);
            let added = match answer {
                Answer::Tried(result) => log.push(noted(bus, device, driver as int, result)),
                Answer::Declined => log,
            };
            &&& more(driver as int) == answer
            &&& forall|d: nat| d <= driver ==> #[trigger] claimer(more, d) == claimer(answers, d)
            &&& if answer.is_up() {
                &&& claimer(more, n) == Some(driver as int)
                &&& claimer(more, driver + 1) == Some(driver as int)
                &&& tried(bus, device, more, n) == added
            } else {
                &&& claimer(more, driver + 1) is None
                &&& tried(bus, device, more, driver + 1) == added
            }
        }),
{
    let more = with_answer(answers, driver as int, answer);
    assert forall|d: nat| d <= driver implies #[trigger] claimer(more, d) == claimer(answers, d) by {
        row_same(bus, device, answers, more, d);
    }
    row_same(bus, device, answers, more, driver);
    if answer.is_up() {
        claimed_stays(bus, device, more, driver + 1, n);
    }
}

/// What the answers for one more device add to a scan.
proof fn one_device<N>(scan: Scan, answers: Answers<N>, device: nat, more: Row<N>)
    ensures
        ({
            let all = with_row(answers, device as int, more);
            let before = claims(scan, answers, device);
            let claimed = claimer(more, scan.drivers);
            let skip = passed_over(scan, before, device as int);
            &&& claims(scan, all, device + 1) == if skip || claimed is None {
                before
            } else {
                before.push(Claim { device: device as int, driver: claimed->0 })
            }
            &&& attempts(scan, all, device + 1) == if skip {
                attempts(scan, answers, device)
            } else {
                attempts(scan, answers, device) + tried(
                    scan.bus,
                    device as int,
                    more,
                    scan.drivers,
                )
            }
            &&& forall|t: int, d: int| t < device ==> #[trigger] all(t, d) == answers(t, d)
            &&& forall|d: int| #[trigger] all(device as int, d) == more(d)
            &&& forall|t: int, d: int|
                0 <= t < device && 0 <= d ==> #[trigger] asked(scan, all, t, d) == asked(
                    scan,
                    answers,
                    t,
                    d,
                )
            &&& forall|d: int|
                0 <= d ==> #[trigger] asked(scan, all, device as int, d) == (!skip && claimer(
                    more,
                    d as nat,
                ) is None)
        }),
{
    let all = with_row(answers, device as int, more);
    claims_same(scan, answers, all, device);
    assert forall|n: nat| claimer(row(all, device as int), n) == #[trigger] claimer(more, n) by {
        row_same(scan.bus, device as int, row(all, device as int), more, n);
    }
    row_same(scan.bus, device as int, row(all, device as int), more, scan.drivers);
    assert forall|t: int, d: int| 0 <= t < device && 0 <= d implies #[trigger] asked(
        scan,
        all,
        t,
        d,
    ) == asked(scan, answers, t, d) by {
        claims_same(scan, answers, all, t as nat);
        row_same(scan.bus, t, row(answers, t), row(all, t), d as nat);
    }
}

/// The claims and attempts after one more device.
proof fn scanned<N>(scan: Scan, answers: Answers<N>, device: nat, more: Row<N>)
    ensures
        ({
            let all = with_row(answers, device as int, more);
            let before = claims(scan, answers, device);
            let claimed = claimer(more, scan.drivers);
            if passed_over(scan, before, device as int) {
                &&& claims(scan, all, device + 1) == before
                &&& attempts(scan, all, device + 1) == attempts(scan, answers, device)
            } else {
                &&& claims(scan, all, device + 1) == match claimed {
                    Some(driver) => before.push(Claim { device: device as int, driver }),
                    None => before,
                }
                &&& attempts(scan, all, device + 1) == attempts(scan, answers, device) + tried(
                    scan.bus,
                    device as int,
                    more,
                    scan.drivers,
                )
            }
        }),
{
    one_device(scan, answers, device, more);
}

/// Whether a place is among those claimed.
fn is_claimed(claimed: &Vec<(u8, u8, u8)>, dev: &PciDevice) -> (r: bool)
    ensures
        r == exists|k: int|
            0 <= k < claimed@.len() && #[trigger] claimed@[k] == (dev.bus, dev.dev, dev.func),
{
    let n: usize = claimed.len();
    let mut i: usize = 0;
    while i < n
        invariant
            i <= n,
            n == claimed@.len(),
            forall|k: int| 0 <= k < i ==> #[trigger] claimed@[k] != (dev.bus, dev.dev, dev.func),
        decreases n - i,
    {
        let (bus, place, func) = claimed[i];
        if bus == dev.bus && place == dev.dev && func == dev.func {
            assert(claimed@[i as int] == (dev.bus, dev.dev, dev.func));
            return true;
        }
        i += 1;
    }
    false
}

/// Whether the answers of drivers `0..n` that were asked for a device are ones
/// that they can give.
spec fn pci_row_said<H, N, P: PciProbe<H, N>>(
    drivers: Seq<P>,
    dev: PciDevice,
    answers: Row<N>,
    n: int,
) -> bool {
    forall|d: int|
        0 <= d < n && claimer(answers, d as nat) is None ==> pci_said::<H, N, P>(
            drivers[d],
            dev,
            #[trigger] answers(d),
        )
}

/// One more answer that the driver can give.
proof fn pci_more_said<H, N, P: PciProbe<H, N>>(
    drivers: Seq<P>,
    dev: PciDevice,
    answers: Row<N>,
    driver: nat,
    answer: Answer<N>,
)
    requires
        driver < drivers.len(),
        pci_row_said::<H, N, P>(drivers, dev, answers, driver as int),
        pci_said::<H, N, P>(drivers[driver as int], dev, answer),
    ensures
        pci_row_said::<H, N, P>(
            drivers,
            dev,
            with_answer(answers, driver as int, answer),
            driver as int + 1,
        ),
{
    let more = with_answer(answers, driver as int, answer);
    assert forall|d: int|
        0 <= d < driver + 1 && claimer(more, d as nat) is None implies pci_said::<H, N, P>(
        drivers[d],
        dev,
        #[trigger] more(d),
    ) by {
        if d < driver {
            assert(more(d) == answers(d));
            row_same(BusKind::Pci, 0, answers, more, d as nat);
        }
    }
}

/// Once the device is claimed no other driver is asked.
proof fn pci_all_said<H, N, P: PciProbe<H, N>>(
    drivers: Seq<P>,
    dev: PciDevice,
    answers: Row<N>,
    n: nat,
)
    requires
        n <= drivers.len(),
        pci_row_said::<H, N, P>(drivers, dev, answers, n as int),
        claimer(answers, n) is Some,
    ensures
        pci_row_said::<H, N, P>(drivers, dev, answers, drivers.len() as int),
{
    assert forall|d: int|
        0 <= d < drivers.len() && claimer(answers, d as nat) is None implies pci_said::<H, N, P>(
        drivers[d],
        dev,
        #[trigger] answers(d),
    ) by {
        if d >= n {
            claimed_stays(BusKind::Pci, 0, answers, n, d as nat);
        }
    }
}

/// Ask one driver for one PCI device.
fn ask_pci<H, N, P: PciProbe<H, N>>(
    driver: &P,
    ctx: &mut ProbeCtx<H>,
    dev: PciDevice,
) -> (r: Option<Result<N, ProbeError>>)
    ensures
        match r {
            Some(result) => pci_said::<H, N, P>(*driver, dev, Answer::Tried(result)),
            None => pci_said::<H, N, P>(*driver, dev, Answer::Declined) && *final(ctx) == *old(ctx),
        },
        r matches Some(result) ==> exists|c: &mut ProbeCtx<H>|
            *c == *old(ctx) && *final(c) == *final(ctx) && #[trigger] call_ensures(
                <P as PciProbe<H, N>>::probe,
                (driver, dev, c),
                result,
            ),
{
    let accepts: bool = driver.matches(&dev);
    if accepts {
        let result = driver.probe(dev, ctx);
        proof {
            reveal(pci_said);
            let said = Answer::Tried(result);
            assert(pci_said::<H, N, P>(*driver, dev, said));
        }
        Some(result)
    } else {
        proof {
            reveal(pci_said);
            let said = Answer::<N>::Declined;
            assert(pci_said::<H, N, P>(*driver, dev, said));
        }
        None
    }
}

/// Ask the drivers for one PCI device.
fn probe_device<H, N, P: PciProbe<H, N>>(
    drivers: &[P],
    ctx: &mut ProbeCtx<H>,
    device: usize,
    dev: PciDevice,
    log: &mut Vec<Attempt>,
) -> (r: (Option<(usize, N)>, Ghost<Row<N>>, Ghost<Seq<Step<H, N>>>))
    ensures
        chained(*old(ctx), r.2@, *final(ctx)),
        row_taken(
            BusKind::Pci,
            r.2@,
            r.1@,
            device as int,
            drivers@.len() as int,
            tried(BusKind::Pci, device as int, r.1@, drivers@.len()),
        ),
        forall|k: int|
            0 <= k < r.2@.len() ==> exists|c: &mut ProbeCtx<H>|
                *c == (#[trigger] r.2@[k]).before && *final(c) == r.2@[k].after && #[trigger]
                    call_ensures(
                    <P as PciProbe<H, N>>::probe,
                    (&drivers@[r.2@[k].driver], dev, c),
                    r.2@[k].result,
                ),
        match r.0 {
            Some((driver, nic)) => {
                &&& driver < drivers@.len()
                &&& claimer(r.1@, drivers@.len()) == Some(driver as int)
                &&& (r.1@)(driver as int) == Answer::Tried(Ok::<N, ProbeError>(nic))
            },
            None => claimer(r.1@, drivers@.len()) is None,
        },
        pci_row_said::<H, N, P>(drivers@, dev, r.1@, drivers@.len() as int),
        final(log)@ == old(log)@ + tried(BusKind::Pci, device as int, r.1@, drivers@.len()),
{
    let n: usize = drivers.len();
    let ghost mut answers: Row<N> = |d: int| Answer::Declined;
    let ghost mut steps: Seq<Step<H, N>> = Seq::empty();
    let mut driver: usize = 0;
    proof {
        assert(log@ =~= old(log)@ + Seq::<Attempt>::empty());
        nothing_taken::<H, N>(BusKind::Pci, *ctx, device as int, 0);
    }
    while driver < n
        invariant
            driver <= n,
            n == drivers@.len(),
            claimer(answers, driver as nat) is None,
            pci_row_said::<H, N, P>(drivers@, dev, answers, driver as int),
            log@ == old(log)@ + tried(BusKind::Pci, device as int, answers, driver as nat),
            chained(*old(ctx), steps, *ctx),
            row_taken(
                BusKind::Pci,
                steps,
                answers,
                device as int,
                driver as int,
                tried(BusKind::Pci, device as int, answers, driver as nat),
            ),
            forall|k: int|
                0 <= k < steps.len() ==> exists|c: &mut ProbeCtx<H>|
                    *c == (#[trigger] steps[k]).before && *final(c) == steps[k].after
                        && #[trigger] call_ensures(
                        <P as PciProbe<H, N>>::probe,
                        (&drivers@[steps[k].driver], dev, c),
                        steps[k].result,
                    ),
        decreases n - driver,
    {
        let ghost earlier = answers;
        let ghost start = *ctx;
        let ghost earlier_steps = steps;
        let answer = ask_pci(&drivers[driver], ctx, dev);
        proof {
            let result = answer->0;
            let said = if answer is Some {
                Answer::Tried(result)
            } else {
                Answer::Declined
            };
            step_taken(
                BusKind::Pci,
                steps,
                answers,
                device as int,
                driver as int,
                n as int,
                tried(BusKind::Pci, device as int, answers, driver as nat),
                start,
                result,
                *ctx,
            );
            if answer is Some {
                let step = Step {
                    device: device as int,
                    driver: driver as int,
                    before: start,
                    result,
                    after: *ctx,
                };
                chained_push(*old(ctx), steps, step);
                steps = steps.push(step);
            }
            assert forall|k: int| 0 <= k < steps.len() implies exists|c: &mut ProbeCtx<H>|
                *c == (#[trigger] steps[k]).before && *final(c) == steps[k].after
                    && #[trigger] call_ensures(
                    <P as PciProbe<H, N>>::probe,
                    (&drivers@[steps[k].driver], dev, c),
                    steps[k].result,
                ) by {
                if k < earlier_steps.len() {
                    let step = earlier_steps[k];
                    assert(steps[k] == step);
                    assert(exists|c: &mut ProbeCtx<H>|
                        *c == step.before && *final(c) == step.after && #[trigger] call_ensures(
                            <P as PciProbe<H, N>>::probe,
                            (&drivers@[step.driver], dev, c),
                            step.result,
                        ));
                } else {
                    assert(steps[k].driver == driver && steps[k].before == start && steps[k].after
                        == *ctx && steps[k].result == result);
                    assert(exists|c: &mut ProbeCtx<H>|
                        *c == start && *final(c) == *ctx && #[trigger] call_ensures(
                            <P as PciProbe<H, N>>::probe,
                            (&drivers@[driver as int], dev, c),
                            result,
                        ));
                }
            }
            one_answer(BusKind::Pci, device as int, answers, driver as nat, n as nat, said);
            answers = with_answer(answers, driver as int, said);
            pci_more_said(drivers@, dev, earlier, driver as nat, said);
        }
        match answer {
            Some(Ok(nic)) => {
                log.push(Attempt { bus: BusKind::Pci, device, driver, error: None });
                proof {
                    assert(log@ =~= old(log)@ + tried(BusKind::Pci, device as int, answers, n as nat));
                    pci_all_said::<H, N, P>(drivers@, dev, answers, (driver + 1) as nat);
                }
                return (Some((driver, nic)), Ghost(answers), Ghost(steps));
            },
            Some(Err(e)) => {
                log.push(Attempt { bus: BusKind::Pci, device, driver, error: Some(e) });
                assert(log@ =~= old(log)@ + tried(
                    BusKind::Pci,
                    device as int,
                    answers,
                    (driver + 1) as nat,
                ));
            },
            None => {},
        }
        driver += 1;
    }
    (None, Ghost(answers), Ghost(steps))
}

/// The NICs of claims on the first `n` devices.
#[verifier::opaque]
spec fn pci_nics<P: PciDriver, N>(
    nics: Seq<ProbedNic<N>>,
    drivers: Seq<P>,
    answers: Answers<N>,
    list: Seq<Claim>,
    n: int,
) -> bool {
    &&& nics.len() == list.len()
    &&& forall|k: int| 0 <= k < list.len() ==> 0 <= (#[trigger] list[k]).device < n
    &&& forall|k: int|
        0 <= k < nics.len() ==> is_pci_nic(#[trigger] nics[k], drivers, answers, list[k])
}

/// They stay so when one more device was asked for, and one more NIC may come
/// with a claim on that device.
proof fn pci_nics_kept<P: PciDriver, N>(
    nics: Seq<ProbedNic<N>>,
    drivers: Seq<P>,
    answers: Answers<N>,
    list: Seq<Claim>,
    n: nat,
    more: Row<N>,
)
    requires
        pci_nics(nics, drivers, answers, list, n as int),
    ensures
        ({
            let all = with_row(answers, n as int, more);
            &&& pci_nics(nics, drivers, all, list, n as int + 1)
            &&& forall|nic: ProbedNic<N>, claim: Claim|
                claim.device == n && is_pci_nic(nic, drivers, all, claim) ==> #[trigger] pci_nics(
                    nics.push(nic),
                    drivers,
                    all,
                    list.push(claim),
                    n as int + 1,
                )
        }),
{
    reveal(pci_nics);
    let all = with_row(answers, n as int, more);
    assert forall|k: int| 0 <= k < nics.len() implies is_pci_nic(
        #[trigger] nics[k],
        drivers,
        all,
        list[k],
    ) by {
        let c = list[k];
        assert(all(c.device, c.driver) == answers(c.device, c.driver));
    }
    assert forall|nic: ProbedNic<N>, claim: Claim|
        claim.device == n && is_pci_nic(nic, drivers, all, claim) implies #[trigger] pci_nics(
        nics.push(nic),
        drivers,
        all,
        list.push(claim),
        n as int + 1,
    ) by {
        let nics1 = nics.push(nic);
        let list1 = list.push(claim);
        assert forall|k: int| 0 <= k < nics1.len() implies is_pci_nic(
            #[trigger] nics1[k],
            drivers,
            all,
            list1[k],
        ) by {
            if k < nics.len() {
                assert(nics1[k] == nics[k] && list1[k] == list[k]);
            }
        }
    }
}

/// One more row of answers that the drivers can give, or for a device that they
/// were not asked for.
proof fn pci_one_more<H, N, P: PciProbe<H, N>>(
    drivers: Seq<P>,
    devs: Seq<PciDevice>,
    scan: Scan,
    answers: Answers<N>,
    device: nat,
    more: Row<N>,
)
    requires
        device < devs.len(),
        pci_asked::<H, N, P>(drivers, devs, scan, answers, device as int),
        passed_over(scan, claims(scan, answers, device), device as int) || pci_row_said::<H, N, P>(
            drivers,
            devs[device as int],
            more,
            drivers.len() as int,
        ),
    ensures
        pci_asked::<H, N, P>(
            drivers,
            devs,
            scan,
            with_row(answers, device as int, more),
            device as int + 1,
        ),
{
    reveal(pci_asked);
    one_device(scan, answers, device, more);
    let all = with_row(answers, device as int, more);
    assert forall|t: int, d: int|
        0 <= t < device + 1 && 0 <= d < drivers.len() && asked(scan, all, t, d) implies pci_said::<H, N, P>(
        drivers[d],
        devs[t],
        #[trigger] all(t, d),
    ) by {
        if t < device {
            assert(all(t, d) == answers(t, d));
            assert(asked(scan, all, t, d) == asked(scan, answers, t, d));
        } else {
            assert(all(t, d) == more(d));
            assert(asked(scan, all, device as int, d));
        }
    }
}

/// Whether the answers of drivers `0..n` that were asked for a device are ones
/// that they can give.
spec fn vmbus_row_said<H, N, V: VmBusProbe<H, N>>(
    drivers: Seq<V>,
    dev: ChannelOffer,
    answers: Row<N>,
    n: int,
) -> bool {
    forall|d: int|
        0 <= d < n && claimer(answers, d as nat) is None ==> vmbus_said::<H, N, V>(
            drivers[d],
            dev,
            #[trigger] answers(d),
        )
}

/// One more answer that the driver can give.
proof fn vmbus_more_said<H, N, V: VmBusProbe<H, N>>(
    drivers: Seq<V>,
    dev: ChannelOffer,
    answers: Row<N>,
    driver: nat,
    answer: Answer<N>,
)
    requires
        driver < drivers.len(),
        vmbus_row_said::<H, N, V>(drivers, dev, answers, driver as int),
        vmbus_said::<H, N, V>(drivers[driver as int], dev, answer),
    ensures
        vmbus_row_said::<H, N, V>(
            drivers,
            dev,
            with_answer(answers, driver as int, answer),
            driver as int + 1,
        ),
{
    let more = with_answer(answers, driver as int, answer);
    assert forall|d: int|
        0 <= d < driver + 1 && claimer(more, d as nat) is None implies vmbus_said::<H, N, V>(
        drivers[d],
        dev,
        #[trigger] more(d),
    ) by {
        if d < driver {
            assert(more(d) == answers(d));
            row_same(BusKind::VmBus, 0, answers, more, d as nat);
        }
    }
}

/// Once the device is claimed no other driver is asked.
proof fn vmbus_all_said<H, N, V: VmBusProbe<H, N>>(
    drivers: Seq<V>,
    dev: ChannelOffer,
    answers: Row<N>,
    n: nat,
)
    requires
        n <= drivers.len(),
        vmbus_row_said::<H, N, V>(drivers, dev, answers, n as int),
        claimer(answers, n) is Some,
    ensures
        vmbus_row_said::<H, N, V>(drivers, dev, answers, drivers.len() as int),
{
    assert forall|d: int|
        0 <= d < drivers.len() && claimer(answers, d as nat) is None implies vmbus_said::<H, N, V>(
        drivers[d],
        dev,
        #[trigger] answers(d),
    ) by {
        if d >= n {
            claimed_stays(BusKind::VmBus, 0, answers, n, d as nat);
        }
    }
}

/// Ask one driver for one VMBus offer.
fn ask_vmbus<H, N, V: VmBusProbe<H, N>>(
    driver: &V,
    ctx: &mut ProbeCtx<H>,
    dev: ChannelOffer,
) -> (r: Option<Result<N, ProbeError>>)
    ensures
        match r {
            Some(result) => vmbus_said::<H, N, V>(*driver, dev, Answer::Tried(result)),
            None => vmbus_said::<H, N, V>(*driver, dev, Answer::Declined) && *final(ctx) == *old(ctx),
        },
        r matches Some(result) ==> exists|c: &mut ProbeCtx<H>|
            *c == *old(ctx) && *final(c) == *final(ctx) && #[trigger] call_ensures(
                <V as VmBusProbe<H, N>>::probe,
                (driver, dev, c),
                result,
            ),
{
    let accepts: bool = driver.matches(&dev);
    if accepts {
        let result = driver.probe(dev, ctx);
        proof {
            reveal(vmbus_said);
            let said = Answer::Tried(result);
            assert(vmbus_said::<H, N, V>(*driver, dev, said));
        }
        Some(result)
    } else {
        proof {
            reveal(vmbus_said);
            let said = Answer::<N>::Declined;
            assert(vmbus_said::<H, N, V>(*driver, dev, said));
        }
        None
    }
}

/// Ask the drivers for one VMBus offer.
fn probe_offer<H, N, V: VmBusProbe<H, N>>(
    drivers: &[V],
    ctx: &mut ProbeCtx<H>,
    device: usize,
    dev: ChannelOffer,
    log: &mut Vec<Attempt>,
) -> (r: (Option<(usize, N)>, Ghost<Row<N>>, Ghost<Seq<Step<H, N>>>))
    ensures
        chained(*old(ctx), r.2@, *final(ctx)),
        row_taken(
            BusKind::VmBus,
            r.2@,
            r.1@,
            device as int,
            drivers@.len() as int,
            tried(BusKind::VmBus, device as int, r.1@, drivers@.len()),
        ),
        forall|k: int|
            0 <= k < r.2@.len() ==> exists|c: &mut ProbeCtx<H>|
                *c == (#[trigger] r.2@[k]).before && *final(c) == r.2@[k].after && #[trigger]
                    call_ensures(
                    <V as VmBusProbe<H, N>>::probe,
                    (&drivers@[r.2@[k].driver], dev, c),
                    r.2@[k].result,
                ),
        match r.0 {
            Some((driver, nic)) => {
                &&& driver < drivers@.len()
                &&& claimer(r.1@, drivers@.len()) == Some(driver as int)
                &&& (r.1@)(driver as int) == Answer::Tried(Ok::<N, ProbeError>(nic))
            },
            None => claimer(r.1@, drivers@.len()) is None,
        },
        vmbus_row_said::<H, N, V>(drivers@, dev, r.1@, drivers@.len() as int),
        final(log)@ == old(log)@ + tried(BusKind::VmBus, device as int, r.1@, drivers@.len()),
{
    let n: usize = drivers.len();
    let ghost mut answers: Row<N> = |d: int| Answer::Declined;
    let ghost mut steps: Seq<Step<H, N>> = Seq::empty();
    let mut driver: usize = 0;
    proof {
        assert(log@ =~= old(log)@ + Seq::<Attempt>::empty());
        nothing_taken::<H, N>(BusKind::VmBus, *ctx, device as int, 0);
    }
    while driver < n
        invariant
            driver <= n,
            n == drivers@.len(),
            claimer(answers, driver as nat) is None,
            vmbus_row_said::<H, N, V>(drivers@, dev, answers, driver as int),
            log@ == old(log)@ + tried(BusKind::VmBus, device as int, answers, driver as nat),
            chained(*old(ctx), steps, *ctx),
            row_taken(
                BusKind::VmBus,
                steps,
                answers,
                device as int,
                driver as int,
                tried(BusKind::VmBus, device as int, answers, driver as nat),
            ),
            forall|k: int|
                0 <= k < steps.len() ==> exists|c: &mut ProbeCtx<H>|
                    *c == (#[trigger] steps[k]).before && *final(c) == steps[k].after
                        && #[trigger] call_ensures(
                        <V as VmBusProbe<H, N>>::probe,
                        (&drivers@[steps[k].driver], dev, c),
                        steps[k].result,
                    ),
        decreases n - driver,
    {
        let ghost earlier = answers;
        let ghost start = *ctx;
        let ghost earlier_steps = steps;
        let answer = ask_vmbus(&drivers[driver], ctx, dev);
        proof {
            let result = answer->0;
            let said = if answer is Some {
                Answer::Tried(result)
            } else {
                Answer::Declined
            };
            step_taken(
                BusKind::VmBus,
                steps,
                answers,
                device as int,
                driver as int,
                n as int,
                tried(BusKind::VmBus, device as int, answers, driver as nat),
                start,
                result,
                *ctx,
            );
            if answer is Some {
                let step = Step {
                    device: device as int,
                    driver: driver as int,
                    before: start,
                    result,
                    after: *ctx,
                };
                chained_push(*old(ctx), steps, step);
                steps = steps.push(step);
            }
            assert forall|k: int| 0 <= k < steps.len() implies exists|c: &mut ProbeCtx<H>|
                *c == (#[trigger] steps[k]).before && *final(c) == steps[k].after
                    && #[trigger] call_ensures(
                    <V as VmBusProbe<H, N>>::probe,
                    (&drivers@[steps[k].driver], dev, c),
                    steps[k].result,
                ) by {
                if k < earlier_steps.len() {
                    let step = earlier_steps[k];
                    assert(steps[k] == step);
                    assert(exists|c: &mut ProbeCtx<H>|
                        *c == step.before && *final(c) == step.after && #[trigger] call_ensures(
                            <V as VmBusProbe<H, N>>::probe,
                            (&drivers@[step.driver], dev, c),
                            step.result,
                        ));
                } else {
                    assert(steps[k].driver == driver && steps[k].before == start && steps[k].after
                        == *ctx && steps[k].result == result);
                    assert(exists|c: &mut ProbeCtx<H>|
                        *c == start && *final(c) == *ctx && #[trigger] call_ensures(
                            <V as VmBusProbe<H, N>>::probe,
                            (&drivers@[driver as int], dev, c),
                            result,
                        ));
                }
            }
            one_answer(BusKind::VmBus, device as int, answers, driver as nat, n as nat, said);
            answers = with_answer(answers, driver as int, said);
            vmbus_more_said(drivers@, dev, earlier, driver as nat, said);
        }
        match answer {
            Some(Ok(nic)) => {
                log.push(Attempt { bus: BusKind::VmBus, device, driver, error: None });
                proof {
                    assert(log@ =~= old(log)@ + tried(BusKind::VmBus, device as int, answers, n as nat));
                    vmbus_all_said::<H, N, V>(drivers@, dev, answers, (driver + 1) as nat);
                }
                return (Some((driver, nic)), Ghost(answers), Ghost(steps));
            },
            Some(Err(e)) => {
                log.push(Attempt { bus: BusKind::VmBus, device, driver, error: Some(e) });
                assert(log@ =~= old(log)@ + tried(
                    BusKind::VmBus,
                    device as int,
                    answers,
                    (driver + 1) as nat,
                ));
            },
            None => {},
        }
        driver += 1;
    }
    (None, Ghost(answers), Ghost(steps))
}

/// The NICs of claims on the first `n` devices.
#[verifier::opaque]
spec fn vmbus_nics<V: VmBusDriver, N>(
    nics: Seq<ProbedNic<N>>,
    drivers: Seq<V>,
    answers: Answers<N>,
    list: Seq<Claim>,
    n: int,
) -> bool {
    &&& nics.len() == list.len()
    &&& forall|k: int| 0 <= k < list.len() ==> 0 <= (#[trigger] list[k]).device < n
    &&& forall|k: int|
        0 <= k < nics.len() ==> is_vmbus_nic(#[trigger] nics[k], drivers, answers, list[k])
}

/// They stay so when one more device was asked for, and one more NIC may come
/// with a claim on that device.
proof fn vmbus_nics_kept<V: VmBusDriver, N>(
    nics: Seq<ProbedNic<N>>,
    drivers: Seq<V>,
    answers: Answers<N>,
    list: Seq<Claim>,
    n: nat,
    more: Row<N>,
)
    requires
        vmbus_nics(nics, drivers, answers, list, n as int),
    ensures
        ({
            let all = with_row(answers, n as int, more);
            &&& vmbus_nics(nics, drivers, all, list, n as int + 1)
            &&& forall|nic: ProbedNic<N>, claim: Claim|
                claim.device == n && is_vmbus_nic(nic, drivers, all, claim) ==> #[trigger] vmbus_nics(
                    nics.push(nic),
                    drivers,
                    all,
                    list.push(claim),
                    n as int + 1,
                )
        }),
{
    reveal(vmbus_nics);
    let all = with_row(answers, n as int, more);
    assert forall|k: int| 0 <= k < nics.len() implies is_vmbus_nic(
        #[trigger] nics[k],
        drivers,
        all,
        list[k],
    ) by {
        let c = list[k];
        assert(all(c.device, c.driver) == answers(c.device, c.driver));
    }
    assert forall|nic: ProbedNic<N>, claim: Claim|
        claim.device == n && is_vmbus_nic(nic, drivers, all, claim) implies #[trigger] vmbus_nics(
        nics.push(nic),
        drivers,
        all,
        list.push(claim),
        n as int + 1,
    ) by {
        let nics1 = nics.push(nic);
        let list1 = list.push(claim);
        assert forall|k: int| 0 <= k < nics1.len() implies is_vmbus_nic(
            #[trigger] nics1[k],
            drivers,
            all,
            list1[k],
        ) by {
            if k < nics.len() {
                assert(nics1[k] == nics[k] && list1[k] == list[k]);
            }
        }
    }
}

/// One more row of answers that the drivers can give, or for a device that they
/// were not asked for.
proof fn vmbus_one_more<H, N, V: VmBusProbe<H, N>>(
    drivers: Seq<V>,
    devs: Seq<ChannelOffer>,
    scan: Scan,
    answers: Answers<N>,
    device: nat,
    more: Row<N>,
)
    requires
        device < devs.len(),
        vmbus_asked::<H, N, V>(drivers, devs, scan, answers, device as int),
        passed_over(scan, claims(scan, answers, device), device as int) || vmbus_row_said::<H, N, V>(
            drivers,
            devs[device as int],
            more,
            drivers.len() as int,
        ),
    ensures
        vmbus_asked::<H, N, V>(
            drivers,
            devs,
            scan,
            with_row(answers, device as int, more),
            device as int + 1,
        ),
{
    reveal(vmbus_asked);
    one_device(scan, answers, device, more);
    let all = with_row(answers, device as int, more);
    assert forall|t: int, d: int|
        0 <= t < device + 1 && 0 <= d < drivers.len() && asked(scan, all, t, d) implies vmbus_said::<H, N, V>(
        drivers[d],
        devs[t],
        #[trigger] all(t, d),
    ) by {
        if t < device {
            assert(all(t, d) == answers(t, d));
            assert(asked(scan, all, t, d) == asked(scan, answers, t, d));
        } else {
            assert(all(t, d) == more(d));
            assert(asked(scan, all, device as int, d));
        }
    }
}

/// The places of the devices that were claimed.
#[verifier::opaque]
spec fn at_places(claimed: Seq<(u8, u8, u8)>, devs: Seq<PciDevice>, list: Seq<Claim>) -> bool {
    &&& claimed.len() == list.len()
    &&& forall|k: int|
        0 <= k < claimed.len() ==> {
            let dev = devs[list[k].device];
            #[trigger] claimed[k] == (dev.bus, dev.dev, dev.func)
        }
}

/// A device is passed over if there is no room, or if its place is claimed.
proof fn place_known(
    claimed: Seq<(u8, u8, u8)>,
    devs: Seq<PciDevice>,
    list: Seq<Claim>,
    device: nat,
    drivers: nat,
    known: bool,
)
    requires
        at_places(claimed, devs, list),
        ({
            let dev = devs[device as int];
            known == exists|k: int|
                0 <= k < claimed.len() && #[trigger] claimed[k] == (dev.bus, dev.dev, dev.func)
        }),
    ensures
        passed_over(pci_scan(drivers, devs), list, device as int) == (list.len() >= PROBE_BUDGET
            || known),
{
    reveal(at_places);
    let scan = pci_scan(drivers, devs);
    let dev = devs[device as int];
    if known {
        let k = choose|k: int|
            0 <= k < claimed.len() && #[trigger] claimed[k] == (dev.bus, dev.dev, dev.func);
        assert((scan.same)(list[k].device, device as int));
    } else {
        assert forall|k: int| 0 <= k < list.len() implies !(scan.same)(
            (#[trigger] list[k]).device,
            device as int,
        ) by {
            assert(claimed[k] != (dev.bus, dev.dev, dev.func));
        }
    }
}

/// The place of one more device that was claimed.
proof fn place_added(
    claimed: Seq<(u8, u8, u8)>,
    devs: Seq<PciDevice>,
    list: Seq<Claim>,
    claim: Claim,
)
    requires
        at_places(claimed, devs, list),
    ensures
        ({
            let dev = devs[claim.device];
            at_places(claimed.push((dev.bus, dev.dev, dev.func)), devs, list.push(claim))
        }),
{
    reveal(at_places);
}

/// Ask the PCI drivers for each device in turn.
fn probe_pci<H, N, P: PciProbe<H, N>>(
    drivers: &[P],
    ctx: &mut ProbeCtx<H>,
    devs: &Vec<PciDevice>,
    log: &mut Vec<Attempt>,
) -> (r: (Vec<ProbedNic<N>>, Ghost<Answers<N>>, Ghost<Seq<Step<H, N>>>))
    ensures
        chained(*old(ctx), r.2@, *final(ctx)),
        taken(
            BusKind::Pci,
            r.2@,
            r.1@,
            devs@.len() as int,
            drivers@.len() as int,
            attempts(pci_scan(drivers@.len(), devs@), r.1@, devs@.len()),
        ),
        forall|k: int|
            0 <= k < r.2@.len() ==> exists|c: &mut ProbeCtx<H>|
                *c == (#[trigger] r.2@[k]).before && *final(c) == r.2@[k].after && #[trigger]
                    call_ensures(
                    <P as PciProbe<H, N>>::probe,
                    (&drivers@[r.2@[k].driver], devs@[r.2@[k].device], c),
                    r.2@[k].result,
                ),
        ({
            let scan = pci_scan(drivers@.len(), devs@);
            let list = claims(scan, r.1@, devs@.len());
            &&& list.len() <= PROBE_BUDGET
            &&& pci_asked::<H, N, P>(drivers@, devs@, scan, r.1@, devs@.len() as int)
            &&& r.0@.len() == list.len()
            &&& forall|k: int|
                0 <= k < list.len() ==> is_pci_nic(#[trigger] r.0@[k], drivers@, r.1@, list[k])
            &&& final(log)@ == old(log)@ + attempts(scan, r.1@, devs@.len())
        }),
{
    let ghost scan = pci_scan(drivers@.len(), devs@);
    let n: usize = devs.len();
    let mut nics: Vec<ProbedNic<N>> = Vec::new();
    let mut claimed: Vec<(u8, u8, u8)> = Vec::new();
    let ghost mut answers: Answers<N> = |t: int, d: int| Answer::Declined;
    let ghost mut steps: Seq<Step<H, N>> = Seq::empty();
    let mut i: usize = 0;
    proof {
        assert(log@ =~= old(log)@ + Seq::<Attempt>::empty());
        nothing_taken::<H, N>(BusKind::Pci, *ctx, 0, drivers@.len() as int);
        reveal(at_places);
        reveal(pci_asked);
        reveal(pci_nics);
    }
    while i < n
        invariant
            i <= n,
            n == devs@.len(),
            scan == pci_scan(drivers@.len(), devs@),
            claimed@.len() == nics@.len(),
            nics@.len() == claims(scan, answers, i as nat).len() <= PROBE_BUDGET,
            pci_asked::<H, N, P>(drivers@, devs@, scan, answers, i as int),
            at_places(claimed@, devs@, claims(scan, answers, i as nat)),
            pci_nics(nics@, drivers@, answers, claims(scan, answers, i as nat), i as int),
            log@ == old(log)@ + attempts(scan, answers, i as nat),
            chained(*old(ctx), steps, *ctx),
            taken(
                BusKind::Pci,
                steps,
                answers,
                i as int,
                drivers@.len() as int,
                attempts(scan, answers, i as nat),
            ),
            forall|k: int|
                0 <= k < steps.len() ==> exists|c: &mut ProbeCtx<H>|
                    *c == (#[trigger] steps[k]).before && *final(c) == steps[k].after
                        && #[trigger] call_ensures(
                        <P as PciProbe<H, N>>::probe,
                        (&drivers@[steps[k].driver], devs@[steps[k].device], c),
                        steps[k].result,
                    ),
        decreases n - i,
    {
        let dev: PciDevice = devs[i];
        let ghost before = claims(scan, answers, i as nat);
        let ghost had = nics@;
        let known: bool = is_claimed(&claimed, &dev);
        proof {
            place_known(claimed@, devs@, before, i as nat, drivers@.len(), known);
        }
        if nics.len() >= PROBE_BUDGET || known {
            proof {
                let more: Row<N> = |d: int| Answer::Declined;
                scanned(scan, answers, i as nat, more);
                pci_one_more::<H, N, P>(drivers@, devs@, scan, answers, i as nat, more);
                nothing_taken::<H, N>(BusKind::Pci, *ctx, i as int, 0);
                more_taken(
                    BusKind::Pci,
                    steps,
                    answers,
                    i as nat,
                    drivers@.len() as int,
                    attempts(scan, answers, i as nat),
                    Seq::<Step<H, N>>::empty(),
                    more,
                    Seq::empty(),
                );
                assert(steps + Seq::<Step<H, N>>::empty() =~= steps);
                assert(attempts(scan, answers, i as nat) + Seq::<Attempt>::empty() =~= attempts(
                    scan,
                    answers,
                    i as nat,
                ));
                pci_nics_kept(had, drivers@, answers, before, i as nat, more);
                answers = with_row(answers, i as int, more);
            }
        } else {
            let ghost start = *ctx;
            let ghost had_steps = steps;
            let (found, more, more_steps) = probe_device(drivers, ctx, i, dev, log);
            proof {
                chained_concat(*old(ctx), steps, start, more_steps@, *ctx);
                row_devices(
                    BusKind::Pci,
                    more_steps@,
                    more@,
                    i as int,
                    drivers@.len() as int,
                    tried(BusKind::Pci, i as int, more@, drivers@.len()),
                );
                more_taken(
                    BusKind::Pci,
                    steps,
                    answers,
                    i as nat,
                    drivers@.len() as int,
                    attempts(scan, answers, i as nat),
                    more_steps@,
                    more@,
                    tried(BusKind::Pci, i as int, more@, drivers@.len()),
                );
                steps = steps + more_steps@;
                assert forall|k: int| 0 <= k < steps.len() implies exists|c: &mut ProbeCtx<H>|
                    *c == (#[trigger] steps[k]).before && *final(c) == steps[k].after
                        && #[trigger] call_ensures(
                        <P as PciProbe<H, N>>::probe,
                        (&drivers@[steps[k].driver], devs@[steps[k].device], c),
                        steps[k].result,
                    ) by {
                    if k < had_steps.len() {
                        assert(steps[k] == had_steps[k]);
                    } else {
                        assert(steps[k] == more_steps@[k - had_steps.len()]);
                    }
                }
                scanned(scan, answers, i as nat, more@);
                pci_one_more::<H, N, P>(drivers@, devs@, scan, answers, i as nat, more@);
                pci_nics_kept(had, drivers@, answers, before, i as nat, more@);
                answers = with_row(answers, i as int, more@);
                assert(log@ =~= old(log)@ + attempts(scan, answers, (i + 1) as nat));
            }
            match found {
                Some((driver, nic)) => {
                    let ghost had_places = claimed@;
                    claimed.push((dev.bus, dev.dev, dev.func));
                    let drv: &P = &drivers[driver];
                    nics.push(ProbedNic::new(nic, drv.priority(), drv.name()));
                    proof {
                        let claim = Claim { device: i as int, driver: driver as int };
                        assert(is_pci_nic(nics@.last(), drivers@, answers, claim));
                        assert(nics@ == had.push(nics@.last()));
                        place_added(had_places, devs@, before, claim);
                    }
                },
                None => {},
            }
        }
        i += 1;
    }
    (nics, Ghost(answers), Ghost(steps))
}

/// Ask the VMBus drivers for each offer in turn.
fn probe_vmbus<H, N, V: VmBusProbe<H, N>>(
    drivers: &[V],
    ctx: &mut ProbeCtx<H>,
    offers: &Vec<ChannelOffer>,
    nics: &mut Vec<ProbedNic<N>>,
    log: &mut Vec<Attempt>,
) -> (r: (Ghost<Answers<N>>, Ghost<Seq<Step<H, N>>>))
    requires
        old(nics)@.len() <= PROBE_BUDGET,
    ensures
        chained(*old(ctx), r.1@, *final(ctx)),
        taken(
            BusKind::VmBus,
            r.1@,
            r.0@,
            offers@.len() as int,
            drivers@.len() as int,
            attempts(vmbus_scan(drivers@.len(), old(nics)@.len() as int), r.0@, offers@.len()),
        ),
        forall|k: int|
            0 <= k < r.1@.len() ==> exists|c: &mut ProbeCtx<H>|
                *c == (#[trigger] r.1@[k]).before && *final(c) == r.1@[k].after && #[trigger]
                    call_ensures(
                    <V as VmBusProbe<H, N>>::probe,
                    (&drivers@[r.1@[k].driver], offers@[r.1@[k].device], c),
                    r.1@[k].result,
                ),
        ({
            let first = old(nics)@.len() as int;
            let scan = vmbus_scan(drivers@.len(), first);
            let list = claims(scan, r.0@, offers@.len());
            &&& vmbus_asked::<H, N, V>(drivers@, offers@, scan, r.0@, offers@.len() as int)
            &&& final(nics)@.len() == first + list.len()
            &&& forall|k: int| 0 <= k < first ==> #[trigger] final(nics)@[k] == old(nics)@[k]
            &&& forall|k: int|
                first <= k < final(nics)@.len() ==> is_vmbus_nic(
                    #[trigger] final(nics)@[k],
                    drivers@,
                    r.0@,
                    list[k - first],
                )
            &&& final(log)@ == old(log)@ + attempts(scan, r.0@, offers@.len())
        }),
{
    let ghost first = nics@.len() as int;
    let ghost scan = vmbus_scan(drivers@.len(), first);
    let n: usize = offers.len();
    let ghost mut answers: Answers<N> = |t: int, d: int| Answer::Declined;
    let ghost mut steps: Seq<Step<H, N>> = Seq::empty();
    let mut i: usize = 0;
    proof {
        assert(log@ =~= old(log)@ + Seq::<Attempt>::empty());
        nothing_taken::<H, N>(BusKind::VmBus, *ctx, 0, drivers@.len() as int);
        reveal(vmbus_asked);
        reveal(vmbus_nics);
    }
    while i < n
        invariant
            i <= n,
            n == offers@.len(),
            first == old(nics)@.len(),
            first <= PROBE_BUDGET,
            scan == vmbus_scan(drivers@.len(), first),
            nics@.len() == first + claims(scan, answers, i as nat).len(),
            nics@.len() <= PROBE_BUDGET,
            vmbus_asked::<H, N, V>(drivers@, offers@, scan, answers, i as int),
            forall|k: int| 0 <= k < first ==> #[trigger] nics@[k] == old(nics)@[k],
            vmbus_nics(
                nics@.skip(first),
                drivers@,
                answers,
                claims(scan, answers, i as nat),
                i as int,
            ),
            log@ == old(log)@ + attempts(scan, answers, i as nat),
            chained(*old(ctx), steps, *ctx),
            taken(
                BusKind::VmBus,
                steps,
                answers,
                i as int,
                drivers@.len() as int,
                attempts(scan, answers, i as nat),
            ),
            forall|k: int|
                0 <= k < steps.len() ==> exists|c: &mut ProbeCtx<H>|
                    *c == (#[trigger] steps[k]).before && *final(c) == steps[k].after
                        && #[trigger] call_ensures(
                        <V as VmBusProbe<H, N>>::probe,
                        (&drivers@[steps[k].driver], offers@[steps[k].device], c),
                        steps[k].result,
                    ),
        decreases n - i,
    {
        let offer: ChannelOffer = offers[i];
        let ghost before = claims(scan, answers, i as nat);
        let ghost had = nics@;
        if nics.len() >= PROBE_BUDGET {
            proof {
                let more: Row<N> = |d: int| Answer::Declined;
                scanned(scan, answers, i as nat, more);
                vmbus_one_more::<H, N, V>(drivers@, offers@, scan, answers, i as nat, more);
                nothing_taken::<H, N>(BusKind::VmBus, *ctx, i as int, 0);
                more_taken(
                    BusKind::VmBus,
                    steps,
                    answers,
                    i as nat,
                    drivers@.len() as int,
                    attempts(scan, answers, i as nat),
                    Seq::<Step<H, N>>::empty(),
                    more,
                    Seq::empty(),
                );
                assert(steps + Seq::<Step<H, N>>::empty() =~= steps);
                assert(attempts(scan, answers, i as nat) + Seq::<Attempt>::empty() =~= attempts(
                    scan,
                    answers,
                    i as nat,
                ));
                vmbus_nics_kept(had.skip(first), drivers@, answers, before, i as nat, more);
                answers = with_row(answers, i as int, more);
            }
        } else {
            let ghost start = *ctx;
            let ghost had_steps = steps;
            let (found, more, more_steps) = probe_offer(drivers, ctx, i, offer, log);
            proof {
                chained_concat(*old(ctx), steps, start, more_steps@, *ctx);
                row_devices(
                    BusKind::VmBus,
                    more_steps@,
                    more@,
                    i as int,
                    drivers@.len() as int,
                    tried(BusKind::VmBus, i as int, more@, drivers@.len()),
                );
                more_taken(
                    BusKind::VmBus,
                    steps,
                    answers,
                    i as nat,
                    drivers@.len() as int,
                    attempts(scan, answers, i as nat),
                    more_steps@,
                    more@,
                    tried(BusKind::VmBus, i as int, more@, drivers@.len()),
                );
                steps = steps + more_steps@;
                assert forall|k: int| 0 <= k < steps.len() implies exists|c: &mut ProbeCtx<H>|
                    *c == (#[trigger] steps[k]).before && *final(c) == steps[k].after
                        && #[trigger] call_ensures(
                        <V as VmBusProbe<H, N>>::probe,
                        (&drivers@[steps[k].driver], offers@[steps[k].device], c),
                        steps[k].result,
                    ) by {
                    if k < had_steps.len() {
                        assert(steps[k] == had_steps[k]);
                    } else {
                        assert(steps[k] == more_steps@[k - had_steps.len()]);
                    }
                }
                scanned(scan, answers, i as nat, more@);
                vmbus_one_more::<H, N, V>(drivers@, offers@, scan, answers, i as nat, more@);
                vmbus_nics_kept(had.skip(first), drivers@, answers, before, i as nat, more@);
                answers = with_row(answers, i as int, more@);
                assert(log@ =~= old(log)@ + attempts(scan, answers, (i + 1) as nat));
            }
            match found {
                Some((driver, nic)) => {
                    let drv: &V = &drivers[driver];
                    nics.push(ProbedNic::new(nic, drv.priority(), drv.name()));
                    proof {
                        let claim = Claim { device: i as int, driver: driver as int };
                        assert(is_vmbus_nic(nics@.last(), drivers@, answers, claim));
                        assert(nics@.skip(first) =~= had.skip(first).push(nics@.last()));
                    }
                },
                None => {},
            }
        }
        i += 1;
    }
    proof {
        let list = claims(scan, answers, n as nat);
        assert forall|k: int| first <= k < nics@.len() implies is_vmbus_nic(
            #[trigger] nics@[k],
            drivers@,
            answers,
            list[k - first],
        ) by {
            assert(nics@.skip(first)[k - first] == nics@[k]);
        }
    }
    (Ghost(answers), Ghost(steps))
}

/// The channels that are offered, if there is a VMBus at all.
pub open spec fn offered(vmbus: Option<VmBus>) -> Seq<ChannelOffer> {
    match vmbus {
        Some(bus) => bus@.offers,
        None => Seq::empty(),
    }
}

/// What probing does and gives, in the course of `pci_steps` and then
/// `vmbus_steps`. The offers are taken from the VMBus as PCI drivers leave it.
pub open spec fn in_course<H, N, P: PciProbe<H, N>, V: VmBusProbe<H, N>>(
    registry: DriverRegistry<P, V>,
    start: ProbeCtx<H>,
    devs: Seq<PciDevice>,
    pci_answers: Answers<N>,
    pci_steps: Seq<Step<H, N>>,
    middle: ProbeCtx<H>,
    vmbus_answers: Answers<N>,
    vmbus_steps: Seq<Step<H, N>>,
    end: ProbeCtx<H>,
    nics: Seq<ProbedNic<N>>,
    log: Seq<Attempt>,
) -> bool {
    let pci = registry.pci_drivers();
    let vmbus = registry.vmbus_drivers();
    let offers = offered(middle.vmbus);
    let tried = pci_steps.len() as int;
    &&& probed::<H, N, P, V>(pci, vmbus, devs, offers, pci_answers, vmbus_answers, nics, log)
    &&& chained(start, pci_steps, middle)
    &&& taken(
        BusKind::Pci,
        pci_steps,
        pci_answers,
        devs.len() as int,
        pci.len() as int,
        log.take(tried),
    )
    &&& chained(middle, vmbus_steps, end)
    &&& taken(
        BusKind::VmBus,
        vmbus_steps,
        vmbus_answers,
        offers.len() as int,
        vmbus.len() as int,
        log.skip(tried),
    )
}

/// What the scans of the two buses come to.
proof fn course_of<H, N, P: PciProbe<H, N>, V: VmBusProbe<H, N>>(
    registry: DriverRegistry<P, V>,
    start: ProbeCtx<H>,
    devs: Seq<PciDevice>,
    pci_answers: Answers<N>,
    pci_steps: Seq<Step<H, N>>,
    middle: ProbeCtx<H>,
    vmbus_answers: Answers<N>,
    vmbus_steps: Seq<Step<H, N>>,
    end: ProbeCtx<H>,
    nics: Seq<ProbedNic<N>>,
    log: Seq<Attempt>,
)
    requires
        ({
            let pci = registry.pci_drivers();
            let vmbus = registry.vmbus_drivers();
            let offers = offered(middle.vmbus);
            let scan = pci_scan(pci.len(), devs);
            let first = claims(scan, pci_answers, devs.len());
            let bus = vmbus_scan(vmbus.len(), first.len() as int);
            let second = claims(bus, vmbus_answers, offers.len());
            let on_pci = attempts(scan, pci_answers, devs.len());
            let on_vmbus = attempts(bus, vmbus_answers, offers.len());
            &&& first.len() <= PROBE_BUDGET
            &&& log == on_pci + on_vmbus
            &&& pci_asked::<H, N, P>(pci, devs, scan, pci_answers, devs.len() as int)
            &&& vmbus_asked::<H, N, V>(vmbus, offers, bus, vmbus_answers, offers.len() as int)
            &&& nics.len() == first.len() + second.len()
            &&& forall|k: int|
                0 <= k < first.len() ==> is_pci_nic(#[trigger] nics[k], pci, pci_answers, first[k])
            &&& forall|k: int|
                first.len() <= k < nics.len() ==> is_vmbus_nic(
                    #[trigger] nics[k],
                    vmbus,
                    vmbus_answers,
                    second[k - first.len()],
                )
            &&& chained(start, pci_steps, middle)
            &&& chained(middle, vmbus_steps, end)
            &&& taken(
                BusKind::Pci,
                pci_steps,
                pci_answers,
                devs.len() as int,
                pci.len() as int,
                on_pci,
            )
            &&& taken(
                BusKind::VmBus,
                vmbus_steps,
                vmbus_answers,
                offers.len() as int,
                vmbus.len() as int,
                on_vmbus,
            )
        }),
    ensures
        nics.len() <= PROBE_BUDGET,
        in_course::<H, N, P, V>(
            registry,
            start,
            devs,
            pci_answers,
            pci_steps,
            middle,
            vmbus_answers,
            vmbus_steps,
            end,
            nics,
            log,
        ),
{
    let scan = pci_scan(registry.pci_drivers().len(), devs);
    let first = claims(scan, pci_answers, devs.len());
    let bus = vmbus_scan(registry.vmbus_drivers().len(), first.len() as int);
    let offers = offered(middle.vmbus);
    let on_pci = attempts(scan, pci_answers, devs.len());
    let on_vmbus = attempts(bus, vmbus_answers, offers.len());
    claims_are_sound(bus, vmbus_answers, offers.len());
    assert(on_pci.len() == pci_steps.len()) by {
        reveal(taken);
    }
    assert(log.take(pci_steps.len() as int) =~= on_pci);
    assert(log.skip(pci_steps.len() as int) =~= on_vmbus);
    assert(probed::<H, N, P, V>(
        registry.pci_drivers(),
        registry.vmbus_drivers(),
        devs,
        offers,
        pci_answers,
        vmbus_answers,
        nics,
        log,
    ));
}

/// Run the full probe loop against `pci` and `ctx.vmbus`, returning every NIC
/// that probed successfully.
///
/// Every attempt is appended to `log`; a failed one does not end the loop. The
/// caller is responsible for picking a primary
/// ([`select_primary`](super::driver::select_primary)) and for giving up when
/// the returned vec is empty.
pub fn probe_all<H, N, P: PciProbe<H, N>, V: VmBusProbe<H, N>, R: RegisterAccess>(
    registry: &DriverRegistry<P, V>,
    ctx: &mut ProbeCtx<H>,
    pci: &PciBus,
    cfg: &mut Traced<R>,
    log: &mut Vec<Attempt>,
) -> (nics: Vec<ProbedNic<N>>)
    ensures
        nics@.len() <= PROBE_BUDGET,
        old(log)@.len() <= final(log)@.len(),
        old(log)@ == final(log)@.take(old(log)@.len() as int),
        exists|
            devs: Seq<PciDevice>,
            pci_answers: Answers<N>,
            pci_steps: Seq<Step<H, N>>,
            middle: ProbeCtx<H>,
            vmbus_answers: Answers<N>,
            vmbus_steps: Seq<Step<H, N>>,
        |
            {
                &&& pci_enumerated(*old(cfg), *final(cfg), devs)
                &&& #[trigger] in_course::<H, N, P, V>(
                    *registry,
                    *old(ctx),
                    devs,
                    pci_answers,
                    pci_steps,
                    middle,
                    vmbus_answers,
                    vmbus_steps,
                    *final(ctx),
                    nics@,
                    final(log)@.skip(old(log)@.len() as int),
                )
                // Each step is a call of the driver's own `probe`.
                &&& forall|k: int|
                    0 <= k < pci_steps.len() ==> exists|c: &mut ProbeCtx<H>|
                        *c == (#[trigger] pci_steps[k]).before && *final(c) == pci_steps[k].after
                            && #[trigger] call_ensures(
                            <P as PciProbe<H, N>>::probe,
                            (
                                &registry.pci_drivers()[pci_steps[k].driver],
                                devs[pci_steps[k].device],
                                c,
                            ),
                            pci_steps[k].result,
                        )
                &&& forall|k: int|
                    0 <= k < vmbus_steps.len() ==> exists|c: &mut ProbeCtx<H>|
                        *c == (#[trigger] vmbus_steps[k]).before && *final(c)
                            == vmbus_steps[k].after && #[trigger] call_ensures(
                            <V as VmBusProbe<H, N>>::probe,
                            (
                                &registry.vmbus_drivers()[vmbus_steps[k].driver],
                                offered(middle.vmbus)[vmbus_steps[k].device],
                                c,
                            ),
                            vmbus_steps[k].result,
                        )
            },
{
    let ghost start = log@.len() as int;
    let devs: Vec<PciDevice> = Bus::enumerate(pci, cfg);
    let (mut nics, pci_answers, pci_steps) = probe_pci(registry.pci(), ctx, &devs, log);
    let ghost first = nics@;
    let ghost middle = *ctx;
    // Collected up-front, so that probing can have the VMBus for itself.
    let mut none: () = ();
    let offers: Vec<ChannelOffer> = match &ctx.vmbus {
        Some(vmbus) => VmBusEnum(vmbus).enumerate(&mut none),
        None => Vec::new(),
    };
    let ghost listed = offered(middle.vmbus);
    assert(offers@ =~= listed);
    let (vmbus_answers, vmbus_steps) = probe_vmbus(
        registry.vmbus(),
        ctx,
        &offers,
        &mut nics,
        log,
    );
    proof {
        assert(old(log)@ =~= log@.take(start));
        assert(log@.skip(start) =~= attempts(
            pci_scan(registry.pci_drivers().len(), devs@),
            pci_answers@,
            devs@.len(),
        ) + attempts(
            vmbus_scan(registry.vmbus_drivers().len(), first.len() as int),
            vmbus_answers@,
            listed.len(),
        ));
        course_of::<H, N, P, V>(
            *registry,
            *old(ctx),
            devs@,
            pci_answers@,
            pci_steps@,
            middle,
            vmbus_answers@,
            vmbus_steps@,
            *ctx,
            nics@,
            log@.skip(start),
        );
    }
    nics
}

// ── What the log says ───────────────────────────────────────────────────

/// Whether a log entry tells of this attempt: where, by whom, and why it failed
/// if it did.
spec fn tells_of<N>(
    entry: Attempt,
    bus: BusKind,
    device: int,
    driver: int,
    answer: Answer<N>,
) -> bool {
    &&& entry.bus == bus
    &&& entry.device == device
    &&& entry.driver == driver
    &&& answer is Tried
    &&& answer.is_up() <==> entry.error is None
    &&& answer matches Answer::Tried(Err(e)) ==> entry.error == Some(e)
}

proof fn tries_are_logged<N>(bus: BusKind, device: int, answers: Row<N>, n: nat)
    requires
        n <= usize::MAX,
        0 <= device <= usize::MAX,
    ensures
        ({
            let log = tried(bus, device, answers, n);
            &&& forall|k: int|
                0 <= k < log.len() ==> (#[trigger] log[k]).driver < n && tells_of(
                    log[k],
                    bus,
                    device,
                    log[k].driver as int,
                    answers(log[k].driver as int),
                )
            &&& forall|j: int, k: int|
                0 <= j < k < log.len() ==> (#[trigger] log[j]).driver < (#[trigger] log[k]).driver
            &&& forall|d: int|
                0 <= d < n && (#[trigger] answers(d)) is Tried && (forall|e: int|
                    0 <= e < d ==> !(#[trigger] answers(e)).is_up()) ==> exists|k: int|
                    0 <= k < log.len() && (#[trigger] log[k]).driver == d
        }),
    decreases n,
{
    if n > 0 {
        let m = (n - 1) as nat;
        let prior = tried(bus, device, answers, m);
        let log = tried(bus, device, answers, n);
        tries_are_logged(bus, device, answers, m);
        claimer_is_first(answers, m);
        assert forall|k: int| 0 <= k < prior.len() implies log[k] == #[trigger] prior[k] by {}
        assert forall|d: int|
            0 <= d < n && (#[trigger] answers(d)) is Tried && (forall|e: int|
                0 <= e < d ==> !(#[trigger] answers(e)).is_up()) implies exists|k: int|
            0 <= k < log.len() && (#[trigger] log[k]).driver == d by {
            if d < m {
                let k = choose|k: int| 0 <= k < prior.len() && (#[trigger] prior[k]).driver == d;
                assert(log[k].driver == d);
            } else {
                assert(claimer(answers, m) is None);
                assert(log[prior.len() as int].driver == d);
            }
        }
    }
}

#[verifier::spinoff_prover]
#[verifier::rlimit(50)]
proof fn attempts_are_logged<N>(scan: Scan, answers: Answers<N>, n: nat)
    requires
        n <= usize::MAX,
        scan.drivers <= usize::MAX,
    ensures
        ({
            let log = attempts(scan, answers, n);
            &&& forall|k: int|
                0 <= k < log.len() ==> {
                    let a = #[trigger] log[k];
                    &&& a.device < n
                    &&& a.driver < scan.drivers
                    &&& tells_of(
                        a,
                        scan.bus,
                        a.device as int,
                        a.driver as int,
                        answers(a.device as int, a.driver as int),
                    )
                }
            &&& forall|j: int, k: int|
                0 <= j < k < log.len() ==> {
                    let a = #[trigger] log[j];
                    let b = #[trigger] log[k];
                    a.device < b.device || (a.device == b.device && a.driver < b.driver)
                }
            &&& forall|t: int, d: int|
                0 <= t < n && 0 <= d < scan.drivers && (#[trigger] answers(t, d)) is Tried
                    && may_be_tried(scan, answers, t, d) ==> exists|k: int|
                    0 <= k < log.len() && (#[trigger] log[k]).device == t && log[k].driver == d
        }),
    decreases n,
{
    if n > 0 {
        let t0 = n - 1;
        let m = t0 as nat;
        let prior = attempts(scan, answers, m);
        let log = attempts(scan, answers, n);
        let more = tried(scan.bus, t0, row(answers, t0), scan.drivers);
        attempts_are_logged(scan, answers, m);
        tries_are_logged(scan.bus, t0, row(answers, t0), scan.drivers);
        let passed = passed_over(scan, claims(scan, answers, m), t0);
        assert(log == if passed {
            prior
        } else {
            prior + more
        });
        assert forall|k: int| 0 <= k < log.len() implies log[k] == if k < prior.len() {
            prior[k]
        } else {
            more[k - prior.len()]
        } by {}
        assert forall|k: int| 0 <= k < log.len() implies {
            let a = #[trigger] log[k];
            &&& a.device < n
            &&& a.driver < scan.drivers
            &&& tells_of(
                a,
                scan.bus,
                a.device as int,
                a.driver as int,
                answers(a.device as int, a.driver as int),
            )
        } by {
            if k >= prior.len() {
                assert(log[k] == more[k - prior.len()]);
            } else {
                assert(log[k] == prior[k]);
            }
        }
        assert forall|j: int, k: int| 0 <= j < k < log.len() implies {
            let a = #[trigger] log[j];
            let b = #[trigger] log[k];
            a.device < b.device || (a.device == b.device && a.driver < b.driver)
        } by {
            if k < prior.len() {
                assert(log[j] == prior[j] && log[k] == prior[k]);
            } else if j < prior.len() {
                assert(log[j] == prior[j] && log[k] == more[k - prior.len()]);
            } else {
                assert(log[j] == more[j - prior.len()] && log[k] == more[k - prior.len()]);
            }
        }
        assert forall|t: int, d: int|
            0 <= t < n && 0 <= d < scan.drivers && (#[trigger] answers(t, d)) is Tried
                && may_be_tried(scan, answers, t, d) implies exists|k: int|
            0 <= k < log.len() && (#[trigger] log[k]).device == t && log[k].driver == d by {
            if t < t0 {
                let k = choose|k: int|
                    0 <= k < prior.len() && (#[trigger] prior[k]).device == t && prior[k].driver
                        == d;
                assert(log[k] == prior[k]);
            } else {
                assert(!passed);
                assert(row(answers, t0)(d) is Tried);
                assert forall|e: int| 0 <= e < d implies !(#[trigger] row(
                    answers,
                    t0,
                )(e)).is_up() by {
                    assert(!answers(t, e).is_up());
                }
                let k = choose|k: int|
                    0 <= k < more.len() && (#[trigger] more[k]).driver == d;
                assert(log[prior.len() + k] == more[k]);
                assert(tells_of(
                    more[k],
                    scan.bus,
                    t0,
                    more[k].driver as int,
                    row(answers, t0)(more[k].driver as int),
                ));
            }
        }
    }
}

/// The log of a scan tells of every attempt and of nothing else, in the order
/// of the devices and, for one device, of the drivers. An attempt is made by
/// each driver that does not decline, until one brings the device up, at each
/// device for which there is room and that was not claimed before.
pub proof fn every_attempt_is_logged<N>(scan: Scan, answers: Answers<N>, n: nat)
    requires
        n <= usize::MAX,
        scan.drivers <= usize::MAX,
    ensures
        ({
            let log = attempts(scan, answers, n);
            &&& forall|k: int|
                0 <= k < log.len() ==> {
                    let a = #[trigger] log[k];
                    let answer = answers(a.device as int, a.driver as int);
                    &&& a.bus == scan.bus
                    &&& a.device < n
                    &&& a.driver < scan.drivers
                    &&& answer is Tried
                    &&& answer matches Answer::Tried(Ok(_)) ==> a.error is None
                    &&& answer matches Answer::Tried(Err(e)) ==> a.error == Some(e)
                }
            &&& forall|j: int, k: int|
                0 <= j < k < log.len() ==> {
                    let a = #[trigger] log[j];
                    let b = #[trigger] log[k];
                    a.device < b.device || (a.device == b.device && a.driver < b.driver)
                }
            &&& forall|t: int, d: int|
                0 <= t < n && 0 <= d < scan.drivers && (#[trigger] answers(t, d)) is Tried && ({
                    let made = claims(scan, answers, t as nat);
                    &&& made.len() < scan.room
                    &&& forall|k: int|
                        0 <= k < made.len() ==> !(scan.same)((#[trigger] made[k]).device, t)
                    &&& forall|e: int|
                        0 <= e < d ==> !((#[trigger] answers(t, e)) matches Answer::Tried(Ok(_)))
                }) ==> exists|k: int|
                    0 <= k < log.len() && (#[trigger] log[k]).device == t && log[k].driver == d
        }),
{
    attempts_are_logged(scan, answers, n);
    let log = attempts(scan, answers, n);
    assert forall|k: int| 0 <= k < log.len() implies {
        let a = #[trigger] log[k];
        let answer = answers(a.device as int, a.driver as int);
        &&& a.bus == scan.bus
        &&& a.device < n
        &&& a.driver < scan.drivers
        &&& answer is Tried
        &&& answer matches Answer::Tried(Ok(_)) ==> a.error is None
        &&& answer matches Answer::Tried(Err(e)) ==> a.error == Some(e)
    } by {
        assert(answers(log[k].device as int, log[k].driver as int).is_up() <==> log[k].error is None);
    }
    assert forall|t: int, d: int|
        0 <= t < n && 0 <= d < scan.drivers && (#[trigger] answers(t, d)) is Tried && ({
            let made = claims(scan, answers, t as nat);
            &&& made.len() < scan.room
            &&& forall|k: int| 0 <= k < made.len() ==> !(scan.same)((#[trigger] made[k]).device, t)
            &&& forall|e: int|
                0 <= e < d ==> !((#[trigger] answers(t, e)) matches Answer::Tried(Ok(_)))
        }) implies exists|k: int|
        0 <= k < log.len() && (#[trigger] log[k]).device == t && log[k].driver == d by {
        assert forall|e: int| 0 <= e < d implies !(#[trigger] answers(t, e)).is_up() by {}
        assert(may_be_tried(scan, answers, t, d));
    }
}

/// Whether a driver may have a device: there is room for another NIC, the
/// device was not claimed before, and no driver before brought it up.
spec fn may_be_tried<N>(scan: Scan, answers: Answers<N>, device: int, driver: int) -> bool {
    let made = claims(scan, answers, device as nat);
    &&& made.len() < scan.room
    &&& forall|k: int|
        0 <= k < made.len() ==> !(scan.same)((#[trigger] made[k]).device, device)
    &&& forall|e: int| 0 <= e < driver ==> !(#[trigger] answers(device, e)).is_up()
}

/// A driver is asked for a device exactly where it may have it.
pub proof fn drivers_are_asked_in_turn<N>(scan: Scan, answers: Answers<N>, device: int, driver: int)
    requires
        0 <= device,
        0 <= driver,
    ensures
        asked(scan, answers, device, driver) <==> ({
            let made = claims(scan, answers, device as nat);
            &&& made.len() < scan.room
            &&& forall|k: int|
                0 <= k < made.len() ==> !(scan.same)((#[trigger] made[k]).device, device)
            &&& forall|e: int| 0 <= e < driver ==> !(#[trigger] answers(device, e)).is_up()
        }),
{
    claimer_is_first(row(answers, device), driver as nat);
    if asked(scan, answers, device, driver) {
        assert forall|e: int| 0 <= e < driver implies !(#[trigger] answers(device, e)).is_up() by {
            assert(row(answers, device)(e) == answers(device, e));
        }
    }
    if may_be_tried(scan, answers, device, driver) {
        if claimer(row(answers, device), driver as nat) is Some {
            let e = claimer(row(answers, device), driver as nat)->0;
            assert(row(answers, device)(e) == answers(device, e));
            assert(!answers(device, e).is_up());
        }
    }
}

/// What the scans of the two buses are about: PCI devices are the same where
/// their places are, no two offers are, and there is room for four NICs in all.
pub proof fn scans_have_room_for_four(drivers: nat, devs: Seq<PciDevice>, taken: int, a: int, b: int)
    ensures
        pci_scan(drivers, devs).bus == BusKind::Pci,
        pci_scan(drivers, devs).drivers == drivers,
        pci_scan(drivers, devs).room == 4,
        (pci_scan(drivers, devs).same)(a, b) <==> devs[a].bus == devs[b].bus && devs[a].dev
            == devs[b].dev && devs[a].func == devs[b].func,
        vmbus_scan(drivers, taken).bus == BusKind::VmBus,
        vmbus_scan(drivers, taken).drivers == drivers,
        vmbus_scan(drivers, taken).room == 4 - taken,
        !(vmbus_scan(drivers, taken).same)(a, b),
{
}

/// No more than four NICs come of probing, and what was logged before stays.
pub proof fn four_nics_at_most<
    H,
    N,
    P: PciProbe<H, N>,
    V: VmBusProbe<H, N>,
    R: RegisterAccess,
>(registry: &DriverRegistry<P, V>, pci: &PciBus, nics: Vec<ProbedNic<N>>)
    ensures
        forall|ctx: &mut ProbeCtx<H>, cfg: &mut Traced<R>, log: &mut Vec<Attempt>| #[trigger]
            call_ensures(probe_all::<H, N, P, V, R>, (registry, ctx, pci, cfg, log), nics) ==> {
                &&& nics@.len() <= 4
                &&& (*final(log))@.len() >= (*log)@.len()
                &&& forall|k: int|
                    0 <= k < (*log)@.len() ==> #[trigger] (*final(log))@[k] == (*log)@[k]
            },
{
    assert forall|ctx: &mut ProbeCtx<H>, cfg: &mut Traced<R>, log: &mut Vec<Attempt>| #[trigger]
        call_ensures(probe_all::<H, N, P, V, R>, (registry, ctx, pci, cfg, log), nics) implies {
        &&& (*final(log))@.len() >= (*log)@.len()
        &&& forall|k: int| 0 <= k < (*log)@.len() ==> #[trigger] (*final(log))@[k] == (*log)@[k]
    } by {
        let n = (*log)@.len() as int;
        assert((*log)@ == (*final(log))@.take(n));
        assert((*final(log))@.take(n).len() == n);
        assert forall|k: int| 0 <= k < n implies #[trigger] (*final(log))@[k] == (*log)@[k] by {
            assert((*final(log))@.take(n)[k] == (*log)@[k]);
        }
    }
}

/// The offers are those of the VMBus, and none where there is none.
pub proof fn offers_are_those_of_the_bus(vmbus: Option<VmBus>)
    ensures
        vmbus is None ==> offered(vmbus).len() == 0,
        vmbus matches Some(bus) ==> offered(vmbus) == bus@.offers,
{
}

/// Every NIC that comes of probing is one that a driver brought up, with that
/// driver's priority and name; those on PCI come first, and on each bus they
/// come in the order of its devices, no device twice.
pub proof fn every_nic_was_brought_up<H, N, P: PciProbe<H, N>, V: VmBusProbe<H, N>>(
    pci: Seq<P>,
    vmbus: Seq<V>,
    devs: Seq<PciDevice>,
    offers: Seq<ChannelOffer>,
    pci_answers: Answers<N>,
    vmbus_answers: Answers<N>,
    nics: Seq<ProbedNic<N>>,
    log: Seq<Attempt>,
) -> (r: (Seq<Claim>, int))
    requires
        probed::<H, N, P, V>(pci, vmbus, devs, offers, pci_answers, vmbus_answers, nics, log),
    ensures
        nics.len() <= 4,
        r.0.len() == nics.len(),
        0 <= r.1 <= nics.len(),
        ({
            let claimed = r.0;
            let p = r.1;
            &&& forall|k: int|
                0 <= k < p ==> {
                    let c = #[trigger] claimed[k];
                    &&& 0 <= c.device < devs.len()
                    &&& 0 <= c.driver < pci.len()
                    &&& pci_answers(c.device, c.driver) == Answer::Tried(Ok(nics[k].driver))
                    &&& call_ensures(<P as PciDriver>::priority, (&pci[c.driver],), nics[k].priority)
                    &&& call_ensures(<P as PciDriver>::name, (&pci[c.driver],), nics[k].name)
                }
            &&& forall|k: int|
                p <= k < nics.len() ==> {
                    let c = #[trigger] claimed[k];
                    &&& 0 <= c.device < offers.len()
                    &&& 0 <= c.driver < vmbus.len()
                    &&& vmbus_answers(c.device, c.driver) == Answer::Tried(Ok(nics[k].driver))
                    &&& call_ensures(<V as VmBusDriver>::priority, (&vmbus[c.driver],), nics[k].priority)
                    &&& call_ensures(<V as VmBusDriver>::name, (&vmbus[c.driver],), nics[k].name)
                }
            &&& forall|j: int, k: int|
                0 <= j < k < p ==> (#[trigger] claimed[j]).device < (#[trigger] claimed[k]).device
            &&& forall|j: int, k: int|
                p <= j < k < nics.len() ==> (#[trigger] claimed[j]).device < (#[trigger] claimed[k]).device
        }),
{
    let scan = pci_scan(pci.len(), devs);
    let first = claims(scan, pci_answers, devs.len());
    let bus = vmbus_scan(vmbus.len(), first.len() as int);
    let second = claims(bus, vmbus_answers, offers.len());
    claims_are_sound(scan, pci_answers, devs.len());
    claims_are_sound(bus, vmbus_answers, offers.len());
    let claimed = first + second;
    let p = first.len() as int;
    assert forall|k: int| 0 <= k < claimed.len() implies claimed[k] == if k < p {
        first[k]
    } else {
        second[k - p]
    } by {}
    assert(brought_up::<N, P, V>(
        pci,
        vmbus,
        devs,
        offers,
        pci_answers,
        vmbus_answers,
        nics,
        claimed,
        p,
    ));
    (claimed, p)
}

/// Whether the first `p` NICs were brought up on PCI and the others on VMBus,
/// each by the claim in its place.
spec fn brought_up<N, P: PciDriver, V: VmBusDriver>(
    pci: Seq<P>,
    vmbus: Seq<V>,
    devs: Seq<PciDevice>,
    offers: Seq<ChannelOffer>,
    pci_answers: Answers<N>,
    vmbus_answers: Answers<N>,
    nics: Seq<ProbedNic<N>>,
    claimed: Seq<Claim>,
    p: int,
) -> bool {
    &&& forall|k: int|
        0 <= k < p ==> {
            let c = #[trigger] claimed[k];
            &&& 0 <= c.device < devs.len()
            &&& 0 <= c.driver < pci.len()
            &&& pci_answers(c.device, c.driver) == Answer::Tried(Ok(nics[k].driver))
            &&& call_ensures(<P as PciDriver>::priority, (&pci[c.driver],), nics[k].priority)
            &&& call_ensures(<P as PciDriver>::name, (&pci[c.driver],), nics[k].name)
        }
    &&& forall|k: int|
        p <= k < nics.len() ==> {
            let c = #[trigger] claimed[k];
            &&& 0 <= c.device < offers.len()
            &&& 0 <= c.driver < vmbus.len()
            &&& vmbus_answers(c.device, c.driver) == Answer::Tried(Ok(nics[k].driver))
            &&& call_ensures(<V as VmBusDriver>::priority, (&vmbus[c.driver],), nics[k].priority)
            &&& call_ensures(<V as VmBusDriver>::name, (&vmbus[c.driver],), nics[k].name)
        }
    &&& forall|j: int, k: int|
        0 <= j < k < p ==> (#[trigger] claimed[j]).device < (#[trigger] claimed[k]).device
    &&& forall|j: int, k: int|
        p <= j < k < nics.len() ==> (#[trigger] claimed[j]).device < (#[trigger] claimed[k]).device
}

/// A driver says yes to a device exactly where it probes it, and what comes of
/// it is what its own `probe` gives.
pub proof fn answers_are_the_drivers_own<H, N, P: PciProbe<H, N>, V: VmBusProbe<H, N>>(
    driver: P,
    dev: PciDevice,
    answer: Answer<N>,
    other: V,
    offer: ChannelOffer,
    reply: Answer<N>,
)
    ensures
        pci_said::<H, N, P>(driver, dev, answer) ==> {
            &&& call_ensures(<P as PciDriver>::matches, (&driver, &dev), answer is Tried)
            &&& answer matches Answer::Tried(result) ==> exists|ctx: &mut ProbeCtx<H>| #[trigger]
                call_ensures(<P as PciProbe<H, N>>::probe, (&driver, dev, ctx), result)
        },
        vmbus_said::<H, N, V>(other, offer, reply) ==> {
            &&& call_ensures(<V as VmBusDriver>::matches, (&other, &offer), reply is Tried)
            &&& reply matches Answer::Tried(result) ==> exists|ctx: &mut ProbeCtx<H>| #[trigger]
                call_ensures(<V as VmBusProbe<H, N>>::probe, (&other, offer, ctx), result)
        },
{
    reveal(pci_said);
    reveal(vmbus_said);
}

} // verus!
