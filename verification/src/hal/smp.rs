//! Application processor (AP) bring-up.
//!
//! [`bring_up_aps`] decides which of the CPUs that the bootloader reports are
//! started, and under which id; whoever drives it hands each its id and
//! releases it. [`ap_setup`] is the per-AP boot helper that each of them runs.

use super::apic::{self, APIC_SVR, APIC_TPR};
use super::cpu_local::{
    self, cpu_with, gs_base_of, gs_base_tells_the_cpu, known, populated, CpuLocal, CpuLocals,
    GS_BASE, MAX_CPUS,
};
use super::vector_alloc::CpuId;
use crate::regs::{MsrWrite, RegOp, RegisterAccess, Traced};
use vstd::prelude::*;

verus! {

/// State an AP needs to finish its own boot.
#[derive(Debug, Clone, Copy, PartialEq, Eq, Structural)]
pub struct ApInit {
    /// Identity of this AP. `CpuId::Ap(processor_id)`.
    pub cpu_id: CpuId,
    /// xAPIC ID, for IOAPIC routing.
    pub apic_id: u8,
    /// TSC ticks-per-microsecond, calibrated on the BSP and copied to each AP
    /// so all CPUs share the same epoch.
    pub tsc_per_us: u64,
}

/// Shared parameter every AP needs (TSC freq).
///
/// The BSP populates this with [`set_ap_init_params`] before APs are brought
/// up; each AP reads it when it starts.
#[derive(Debug, Clone, Copy, PartialEq, Eq, Structural)]
pub struct ApParams {
    pub tsc_per_us: u64,
}

/// Stash the parameters the AP startup path needs. Call once from the BSP
/// before [`bring_up_aps`].
pub fn set_ap_init_params(params: &mut ApParams, tsc_per_us: u64)
    ensures
        final(params).tsc_per_us == tsc_per_us,
{
    params.tsc_per_us = tsc_per_us;
}

/// The low byte of `x`.
fn low_byte(x: u64) -> (b: u8)
    ensures
        b == x % 256,
{
    (x % 256) as u8
}

/// Reconstruct an [`ApInit`] on a starting AP.
///
/// `extra` carries the `processor_id` that [`bring_up_aps`] assigned; the
/// shared TSC comes from [`set_ap_init_params`].
pub fn ap_init_from(params: &ApParams, extra: u64, lapic_id: u32) -> (init: ApInit)
    ensures
        init.cpu_id == CpuId::Ap((extra % 256) as u8),
        init.apic_id == lapic_id % 256,
        init.tsc_per_us == params.tsc_per_us,
{
    ApInit {
        cpu_id: CpuId::Ap(low_byte(extra)),
        apic_id: low_byte(lapic_id as u64),
        tsc_per_us: params.tsc_per_us,
    }
}

/// One AP to be started.
#[derive(Debug, Clone, Copy, PartialEq, Eq, Structural)]
pub struct ApStart {
    /// Index of the CPU in the bootloader's list.
    pub index: usize,
    /// The id to hand it.
    pub processor_id: u8,
}

/// How many APs may be started: there is a slot for each but the BSP's.
pub open spec fn ap_cap(max_aps: int) -> int {
    if max_aps < MAX_CPUS - 1 {
        max_aps
    } else {
        MAX_CPUS - 1
    }
}

/// The APs to be started out of CPUs `0..n`: all but the BSP, as far as the
/// cap allows, numbered 1, 2, 3, ... in the order of the list.
pub open spec fn starts(lapic_ids: Seq<u32>, bsp: u32, cap: int, n: nat) -> Seq<ApStart>
    decreases n,
{
    if n == 0 {
        Seq::empty()
    } else {
        let before = starts(lapic_ids, bsp, cap, (n - 1) as nat);
        if before.len() >= cap || lapic_ids[n - 1] == bsp {
            before
        } else {
            before.push(
                ApStart { index: (n - 1) as usize, processor_id: (before.len() + 1) as u8 },
            )
        }
    }
}

/// Every AP that is started has an id of its own that fits the per-CPU table;
/// the BSP is not started again; and no more APs are started than asked for.
pub proof fn ap_ids_fit_the_table(lapic_ids: Seq<u32>, bsp: u32, max_aps: int, n: nat)
    requires
        max_aps >= 0,
        n <= lapic_ids.len(),
        lapic_ids.len() <= usize::MAX,
    ensures
        ({
            let s = starts(lapic_ids, bsp, ap_cap(max_aps), n);
            &&& s.len() <= max_aps
            &&& s.len() < MAX_CPUS
            &&& forall|k: int|
                0 <= k < s.len() ==> {
                    &&& (#[trigger] s[k]).processor_id == k + 1
                    &&& 0 < s[k].processor_id < MAX_CPUS
                    &&& s[k].index < n
                    &&& lapic_ids[s[k].index as int] != bsp
                }
            &&& forall|j: int, k: int| 0 <= j < k < s.len() ==> s[j].index < s[k].index
        }),
    decreases n,
{
    if n > 0 {
        ap_ids_fit_the_table(lapic_ids, bsp, max_aps, (n - 1) as nat);
    }
}

/// An AP is left out only where no more may be started.
pub proof fn every_ap_is_started(lapic_ids: Seq<u32>, bsp: u32, cap: int, n: nat, i: int)
    requires
        0 <= i < n <= lapic_ids.len(),
        lapic_ids.len() <= usize::MAX,
        lapic_ids[i] != bsp,
    ensures
        starts(lapic_ids, bsp, cap, n).len() >= cap || exists|k: int|
            0 <= k < starts(lapic_ids, bsp, cap, n).len() && (#[trigger] starts(
                lapic_ids,
                bsp,
                cap,
                n,
            )[k]).index == i,
    decreases n,
{
    let before = starts(lapic_ids, bsp, cap, (n - 1) as nat);
    let now = starts(lapic_ids, bsp, cap, n);
    if i < n - 1 {
        every_ap_is_started(lapic_ids, bsp, cap, (n - 1) as nat, i);
        if before.len() < cap {
            let k = choose|k: int| 0 <= k < before.len() && (#[trigger] before[k]).index == i;
            assert(now[k] == before[k]);
        }
    } else if before.len() < cap {
        assert(now[before.len() as int].index == i);
    }
}

/// Bring up every AP reported by the bootloader, up to `max_aps` (capped at
/// [`MAX_CPUS`] - 1; one slot is reserved for the BSP).
///
/// `lapic_ids` are the LAPIC ids in the bootloader's list, `bsp_lapic_id` that
/// of the BSP, whose entry is skipped. Each AP of the result is to be handed
/// its id and then released, in order. The number of APs started is the length
/// of the result.
pub fn bring_up_aps(lapic_ids: &[u32], bsp_lapic_id: u32, max_aps: usize) -> (plan: Vec<ApStart>)
    ensures
        plan@ == starts(lapic_ids@, bsp_lapic_id, ap_cap(max_aps as int), lapic_ids@.len()),
        plan@.len() < MAX_CPUS,
{
    let cap: usize = if max_aps < MAX_CPUS - 1 {
        max_aps
    } else {
        MAX_CPUS - 1
    };
    let n: usize = lapic_ids.len();
    let mut plan: Vec<ApStart> = Vec::new();
    let mut i: usize = 0;
    while i < n
        invariant
            i <= n,
            n == lapic_ids@.len(),
            cap == ap_cap(max_aps as int),
            cap < MAX_CPUS,
            plan@.len() <= cap,
            plan@ == starts(lapic_ids@, bsp_lapic_id, cap as int, i as nat),
        decreases n - i,
    {
        if plan.len() < cap && lapic_ids[i] != bsp_lapic_id {
            let started: usize = plan.len();
            plan.push(ApStart { index: i, processor_id: (started + 1) as u8 });
        }
        i += 1;
    }
    plan
}

/// The processor id of an AP.
pub fn processor_id(init: &ApInit) -> (r: Option<u8>)
    ensures
        r == match init.cpu_id {
            CpuId::Bsp => None,
            CpuId::Ap(n) => Some(n),
        },
{
    match init.cpu_id {
        CpuId::Bsp => None,
        CpuId::Ap(n) => Some(n),
    }
}

/// Per-AP boot helper: populates the AP's slot of the per-CPU table, and
/// enables **this CPU's** LAPIC. The AP has loaded the shared IDT register; it
/// does the write that is returned next, by which
/// [`current_cpu_id`](cpu_local::current_cpu_id) tells it apart from then on,
/// and starts its timer after.
///
/// Must be called once per AP, on the AP itself; not on the BSP, and with an
/// id that fits the table.
pub fn ap_setup<R: RegisterAccess>(
    cpus: &mut CpuLocals,
    regs: &mut Traced<R>,
    init: ApInit,
) -> (write: MsrWrite)
    requires
        init.cpu_id matches CpuId::Ap(n) && 0 < n < MAX_CPUS,
    ensures
        write == (MsrWrite { reg: GS_BASE, value: gs_base_of(init.cpu_id) }),
        cpu_with(write.value) == init.cpu_id,
        known(final(cpus)@, init.cpu_id) == Some(
            match known(old(cpus)@, init.cpu_id) {
                Some(kept) => kept,
                None => CpuLocal { cpu_id: init.cpu_id, apic_id: init.apic_id },
            },
        ),
        final(cpus)@ == populated(
            old(cpus)@,
            init.cpu_id->Ap_0 as int,
            (CpuLocal { cpu_id: init.cpu_id, apic_id: init.apic_id }),
        ),
        final(regs).trace() == old(regs).trace() + seq![
            RegOp::Write { offset: APIC_SVR, value: 0x127 },
            RegOp::Write { offset: APIC_TPR, value: 0 },
        ],
{
    let n: u8 = match init.cpu_id {
        CpuId::Bsp => 0,
        CpuId::Ap(n) => n,
    };
    proof {
        cpus.has_every_slot();
        gs_base_tells_the_cpu(init.cpu_id);
    }
    let write = cpu_local::init_ap(cpus, n, init.apic_id);
    apic::enable(regs);
    write
}

/// The BSP's LAPIC id, with the truncation to `u8` xAPIC drivers expect.
pub fn bsp_lapic_id(id: u32) -> (r: u8)
    ensures
        r == id % 256,
{
    low_byte(id as u64)
}

/// `x` read as a two's-complement number.
pub open spec fn signed(x: u64) -> int {
    if x < 0x8000_0000_0000_0000 {
        x as int
    } else {
        x - 0x1_0000_0000_0000_0000
    }
}

fn to_signed(x: u64) -> (r: i128)
    ensures
        r == signed(x),
{
    if x < 0x8000_0000_0000_0000 {
        x as i128
    } else {
        x as i128 - 0x1_0000_0000_0000_0000
    }
}

/// AP sanity-check: how far this AP's TSC is from the BSP reference, in TSC
/// ticks (signed: positive if AP ahead).
///
/// Hyper-V Gen1 / Azure / QEMU all start APs with TSC synchronised to BSP per
/// their respective documentation. The check catches targets that violate that
/// assumption before a shared epoch is relied on ([`out_of_sync`]).
pub fn check_tsc_sync(bsp_tsc_at_ap_release: u64, ap_tsc: u64) -> (delta: i64)
    requires
        i64::MIN <= signed(ap_tsc) - signed(bsp_tsc_at_ap_release) <= i64::MAX,
    ensures
        delta == signed(ap_tsc) - signed(bsp_tsc_at_ap_release),
{
    (to_signed(ap_tsc) - to_signed(bsp_tsc_at_ap_release)) as i64
}

/// Whether a TSC difference, either way, is more than one millisecond.
pub fn out_of_sync(delta: i64, tsc_per_us: u64) -> (r: bool)
    ensures
        r == (delta > 1000 * signed(tsc_per_us) || -delta > 1000 * signed(tsc_per_us)),
{
    let threshold: i128 = 1000 * to_signed(tsc_per_us);
    let wide: i128 = delta as i128;
    wide > threshold || -wide > threshold
}

// ── What bring-up comes to ──────────────────────────────────────────────

/// No more APs are started than asked for, nor more than seven, and never the
/// BSP. They are numbered 1, 2, 3, ... in the order of the list. An AP is left
/// out only where as many as may be are started.
pub proof fn aps_are_started_in_order(
    lapic_ids: &[u32],
    bsp: u32,
    max_aps: usize,
    plan: Vec<ApStart>,
)
    requires
        call_ensures(bring_up_aps, (lapic_ids, bsp, max_aps), plan),
        lapic_ids@.len() <= usize::MAX,
    ensures
        plan@.len() <= max_aps,
        plan@.len() <= 7,
        forall|k: int|
            0 <= k < plan@.len() ==> {
                &&& (#[trigger] plan@[k]).processor_id == k + 1
                &&& plan@[k].index < lapic_ids@.len()
                &&& lapic_ids@[plan@[k].index as int] != bsp
            },
        forall|j: int, k: int|
            0 <= j < k < plan@.len() ==> (#[trigger] plan@[j]).index < (#[trigger] plan@[k]).index,
        forall|i: int|
            0 <= i < lapic_ids@.len() && #[trigger] lapic_ids@[i] != bsp ==> {
                ||| plan@.len() == max_aps
                ||| plan@.len() == 7
                ||| exists|k: int| 0 <= k < plan@.len() && (#[trigger] plan@[k]).index == i
            },
{
    let cap = ap_cap(max_aps as int);
    ap_ids_fit_the_table(lapic_ids@, bsp, max_aps as int, lapic_ids@.len());
    assert forall|i: int| 0 <= i < lapic_ids@.len() && #[trigger] lapic_ids@[i] != bsp implies {
        ||| plan@.len() == max_aps
        ||| plan@.len() == 7
        ||| exists|k: int| 0 <= k < plan@.len() && (#[trigger] plan@[k]).index == i
    } by {
        every_ap_is_started(lapic_ids@, bsp, cap, lapic_ids@.len(), i);
    }
}

/// A starting AP has the number that it was handed, the low byte of its LAPIC
/// id, and the rate that the BSP told; an id below 256 is kept whole.
pub proof fn ap_knows_what_it_was_handed(
    params: &ApParams,
    n: u8,
    lapic_id: u32,
    init: ApInit,
    r: Option<u8>,
    bsp: u8,
    rate: u64,
)
    ensures
        call_ensures(ap_init_from, (params, n as u64, lapic_id), init) ==> {
            &&& init.cpu_id == CpuId::Ap(n)
            &&& lapic_id < 256 ==> init.apic_id == lapic_id
            &&& init.tsc_per_us == params.tsc_per_us
            &&& call_ensures(processor_id, (&init,), r) ==> r == Some(n)
        },
        init.cpu_id == CpuId::Bsp && call_ensures(processor_id, (&init,), r) ==> r is None,
        call_ensures(bsp_lapic_id, (lapic_id,), bsp) && lapic_id < 256 ==> bsp == lapic_id,
        forall|p: &mut ApParams| #[trigger]
            call_ensures(set_ap_init_params, (p, rate), ()) ==> (*final(p)).tsc_per_us == rate,
{
}

/// An AP that sets itself up enters its own number and APIC id, where nothing
/// stood before, leaves the others alone, enables its LAPIC, and is told to
/// write its number to its register.
pub proof fn ap_enters_itself<R: RegisterAccess>(init: ApInit, n: u8, write: MsrWrite)
    requires
        init.cpu_id == CpuId::Ap(n),
        0 < n < 8,
    ensures
        forall|cpus: &mut CpuLocals, regs: &mut Traced<R>| #[trigger]
            call_ensures(ap_setup::<R>, (cpus, regs, init), write) ==> {
                let at = (*regs).trace().len() as int;
                let trace = (*final(regs)).trace();
                &&& write == (MsrWrite { reg: 0xC000_0101, value: n as u64 })
                &&& (*cpus)@[n as int] is None ==> (*final(cpus))@[n as int] == Some(
                    CpuLocal { cpu_id: CpuId::Ap(n), apic_id: init.apic_id },
                )
                &&& (*cpus)@[n as int] is Some ==> (*final(cpus))@[n as int] == (*cpus)@[n as int]
                &&& forall|i: int|
                    0 <= i < 8 && i != n ==> #[trigger] (*final(cpus))@[i] == (*cpus)@[i]
                &&& trace.len() == at + 2
                &&& trace[at] == (RegOp::Write { offset: 0xF0, value: 0x127 })
                &&& trace[at + 1] == (RegOp::Write { offset: 0x80, value: 0 })
            },
{
    assert forall|cpus: &mut CpuLocals, regs: &mut Traced<R>| #[trigger]
        call_ensures(ap_setup::<R>, (cpus, regs, init), write) implies {
        &&& (*cpus)@[n as int] is None ==> (*final(cpus))@[n as int] == Some(
            CpuLocal { cpu_id: CpuId::Ap(n), apic_id: init.apic_id },
        )
        &&& (*cpus)@[n as int] is Some ==> (*final(cpus))@[n as int] == (*cpus)@[n as int]
        &&& forall|i: int| 0 <= i < 8 && i != n ==> #[trigger] (*final(cpus))@[i] == (*cpus)@[i]
    } by {
        (*cpus).has_every_slot();
    }
}

/// A number read as two's complement differs from it by nothing or by 2 to the
/// 64th, and lies within 64 bits.
pub proof fn two_complement_is_so(x: u64)
    ensures
        signed(x) == x || signed(x) == x - 0x1_0000_0000_0000_0000,
        -0x8000_0000_0000_0000 <= signed(x) < 0x8000_0000_0000_0000,
{
}

/// How far apart two counters are is counted both ways alike, and is their
/// difference where both are below 2 to the 63rd.
pub proof fn tsc_difference_is_counted_both_ways(bsp: u64, ap: u64, delta: i64, back: i64)
    requires
        i64::MIN <= signed(ap) - signed(bsp) <= i64::MAX,
        i64::MIN <= signed(bsp) - signed(ap) <= i64::MAX,
        call_ensures(check_tsc_sync, (bsp, ap), delta),
        call_ensures(check_tsc_sync, (ap, bsp), back),
    ensures
        delta == -back,
        bsp < 0x8000_0000_0000_0000 && ap < 0x8000_0000_0000_0000 ==> delta == ap - bsp,
        ap >= 0x8000_0000_0000_0000 && bsp >= 0x8000_0000_0000_0000 ==> delta == ap - bsp,
        bsp == ap ==> delta == 0,
{
}

/// Counters are out of sync exactly where they are more than a thousand
/// microseconds apart, either way.
pub proof fn a_millisecond_is_the_limit(delta: i64, rate: u64, r: bool)
    requires
        rate < 0x8000_0000_0000_0000,
        call_ensures(out_of_sync, (delta, rate), r),
    ensures
        r <==> delta > 1000 * rate || delta < -(1000 * rate),
{
}

} // verus!
