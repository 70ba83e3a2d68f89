//! Per-CPU state table.
//!
//! Fixed-size array indexed by sequential `processor_id`. Each slot is
//! populated once: the BSP populates slot 0 with [`init_bsp`] early in boot;
//! APs populate their own slots with [`init_ap`] while they are brought up.
//!
//! Each CPU keeps its `processor_id` in its own `GS_BASE` register: populating
//! a slot comes with the write of that register, and [`current_cpu_id`] goes by
//! what it holds.

use super::vector_alloc::CpuId;
use crate::regs::MsrWrite;
use vstd::prelude::*;

verus! {

/// Maximum number of CPUs the per-CPU table is sized for. 8 covers QEMU smoke
/// tests, Hyper-V Gen1 / Azure standard SKUs, and leaves headroom. Bigger
/// boxes can bump the constant.
pub const MAX_CPUS: usize = 8;

/// The register that tells a CPU which one it is.
pub const GS_BASE: u32 = 0xC000_0101;

/// Per-CPU runtime state. Populated once during boot for each CPU that joins
/// the kernel.
#[derive(Debug, Clone, Copy, PartialEq, Eq, Structural)]
pub struct CpuLocal {
    pub cpu_id: CpuId,
    /// LAPIC ID for IOAPIC routing. xAPIC IDs fit in `u8`; x2APIC is not
    /// supported yet.
    pub apic_id: u8,
}

// ── spin::Once ──────────────────────────────────────────────────────────

/// `spin::once::Once`, a cell that is written once.
#[verifier::external_type_specification]
#[verifier::external_body]
#[verifier::reject_recursive_types(T)]
#[verifier::reject_recursive_types(R)]
pub struct ExOnce<T, R>(spin::once::Once<T, R>);

/// `spin::relax::Spin`, how such a cell waits.
#[verifier::external_type_specification]
#[verifier::external_body]
pub struct ExSpin(spin::relax::Spin);

/// What a cell holds: nothing before it is written.
pub uninterp spec fn once_value(once: spin::Once<CpuLocal>) -> Option<CpuLocal>;

/// `spin::Once::new`: the cell holds nothing.
#[verifier::external_body]
fn once_new() -> (once: spin::Once<CpuLocal>)
    ensures
        once_value(once) is None,
{
    spin::Once::new()
}

/// `spin::Once::call_once` with an initialiser that gives `value`: a cell
/// that holds nothing then holds `value`, and one that holds something keeps
/// it. The initialiser does not panic, so the cell is never poisoned.
#[verifier::external_body]
fn once_call_once(once: &mut spin::Once<CpuLocal>, value: CpuLocal)
    ensures
        once_value(*final(once)) == Some(
            match once_value(*old(once)) {
                Some(kept) => kept,
                None => value,
            },
        ),
{
    once.call_once(|| value);
}

/// `spin::Once::get`: what the cell holds.
#[verifier::external_body]
fn once_get(once: &spin::Once<CpuLocal>) -> (r: Option<&CpuLocal>)
    ensures
        match r {
            Some(value) => once_value(*once) == Some(*value),
            None => once_value(*once) is None,
        },
{
    once.get()
}

// ── The table ───────────────────────────────────────────────────────────

/// The state of every CPU that has joined the kernel.
pub struct CpuLocals {
    slots: [spin::Once<CpuLocal>; MAX_CPUS],
}

impl View for CpuLocals {
    type V = Seq<Option<CpuLocal>>;

    closed spec fn view(&self) -> Seq<Option<CpuLocal>> {
        Seq::new(MAX_CPUS as nat, |i: int| once_value(self.slots@[i]))
    }
}

/// The table with a slot populated, unless it was already.
pub open spec fn populated(table: Seq<Option<CpuLocal>>, slot: int, value: CpuLocal) -> Seq<
    Option<CpuLocal>,
> {
    if table[slot] is Some {
        table
    } else {
        table.update(slot, Some(value))
    }
}

/// The index of a CPU's slot in the table.
pub open spec fn slot(cpu: CpuId) -> int {
    match cpu {
        CpuId::Bsp => 0,
        CpuId::Ap(n) => n as int,
    }
}

/// What `GS_BASE` holds on a CPU.
pub open spec fn gs_base_of(cpu: CpuId) -> u64 {
    slot(cpu) as u64
}

/// The CPU on which `GS_BASE` holds a value. 0 is the BSP's.
pub open spec fn cpu_with(gs_base: u64) -> CpuId {
    if gs_base % 256 == 0 {
        CpuId::Bsp
    } else {
        CpuId::Ap((gs_base % 256) as u8)
    }
}

/// A CPU whose `GS_BASE` was written when its slot was populated knows which
/// one it is.
pub proof fn gs_base_tells_the_cpu(cpu: CpuId)
    requires
        cpu != CpuId::Ap(0),
    ensures
        cpu_with(gs_base_of(cpu)) == cpu,
{
}

/// What the table knows of a CPU.
pub open spec fn known(table: Seq<Option<CpuLocal>>, cpu: CpuId) -> Option<CpuLocal> {
    if slot(cpu) < table.len() {
        table[slot(cpu)]
    } else {
        None
    }
}

impl CpuLocals {
    /// The table has a slot for every CPU.
    pub proof fn has_every_slot(self)
        ensures
            self@.len() == MAX_CPUS,
    {
    }

    /// A table that knows of no CPU.
    pub fn new() -> (cpus: Self)
        ensures
            cpus@ == Seq::new(MAX_CPUS as nat, |i: int| None::<CpuLocal>),
    {
        let cpus = CpuLocals {
            slots: [
                once_new(),
                once_new(),
                once_new(),
                once_new(),
                once_new(),
                once_new(),
                once_new(),
                once_new(),
            ],
        };
        assert(cpus@ =~= Seq::new(MAX_CPUS as nat, |i: int| None::<CpuLocal>));
        cpus
    }

    fn populate(&mut self, slot: usize, value: CpuLocal)
        requires
            slot < MAX_CPUS,
        ensures
            final(self)@ == populated(old(self)@, slot as int, value),
    {
        once_call_once(&mut self.slots[slot], value);
        assert(self@ =~= populated(old(self)@, slot as int, value));
    }
}

/// Convert a [`CpuId`] to its index in the table.
pub fn slot_of(cpu: CpuId) -> (i: usize)
    ensures
        i == slot(cpu),
{
    match cpu {
        CpuId::Bsp => 0,
        CpuId::Ap(n) => n as usize,
    }
}

/// Populate the BSP's slot. Call once, after the LAPIC is enabled and its ID
/// is readable. The write that is returned is to be done on the BSP.
pub fn init_bsp(cpus: &mut CpuLocals, apic_id: u8) -> (write: MsrWrite)
    ensures
        write == (MsrWrite { reg: GS_BASE, value: gs_base_of(CpuId::Bsp) }),
        final(cpus)@ == populated(
            old(cpus)@,
            0,
            (CpuLocal { cpu_id: CpuId::Bsp, apic_id }),
        ),
        known(final(cpus)@, CpuId::Bsp) is Some,
{
    cpus.populate(0, CpuLocal { cpu_id: CpuId::Bsp, apic_id });
    MsrWrite { reg: GS_BASE, value: 0 }
}

/// Populate an AP's slot. Called from the AP's startup path. The write that is
/// returned is to be done on that AP.
///
/// `processor_id` 0 is the BSP's slot (use [`init_bsp`]), and the table ends
/// at [`MAX_CPUS`].
pub fn init_ap(cpus: &mut CpuLocals, processor_id: u8, apic_id: u8) -> (write: MsrWrite)
    requires
        0 < processor_id < MAX_CPUS,
    ensures
        write == (MsrWrite { reg: GS_BASE, value: gs_base_of(CpuId::Ap(processor_id)) }),
        final(cpus)@ == populated(
            old(cpus)@,
            processor_id as int,
            (CpuLocal { cpu_id: CpuId::Ap(processor_id), apic_id }),
        ),
        known(final(cpus)@, CpuId::Ap(processor_id)) is Some,
{
    cpus.populate(processor_id as usize, CpuLocal { cpu_id: CpuId::Ap(processor_id), apic_id });
    MsrWrite { reg: GS_BASE, value: processor_id as u64 }
}

/// Look up a CPU's local state.
///
/// Returns `None` if the slot has not been populated (out-of-range `Ap(n)`,
/// or AP that has not run its init yet).
pub fn by_id(cpus: &CpuLocals, cpu: CpuId) -> (r: Option<&CpuLocal>)
    ensures
        match r {
            Some(local) => known(cpus@, cpu) == Some(*local),
            None => known(cpus@, cpu) is None,
        },
{
    let i: usize = slot_of(cpu);
    if i < MAX_CPUS {
        once_get(&cpus.slots[i])
    } else {
        None
    }
}

/// Identity of the CPU executing this call, on which `GS_BASE` holds
/// `gs_base`.
pub fn current_cpu_id(gs_base: u64) -> (cpu: CpuId)
    ensures
        cpu == cpu_with(gs_base),
{
    let processor_id: u8 = (gs_base % 256) as u8;
    if processor_id == 0 {
        CpuId::Bsp
    } else {
        CpuId::Ap(processor_id)
    }
}

/// Local state for the CPU executing this call, on which `GS_BASE` holds
/// `gs_base`.
///
/// The slot of that CPU must have been populated, by [`init_bsp`] or
/// [`init_ap`].
pub fn current(cpus: &CpuLocals, gs_base: u64) -> (local: &CpuLocal)
    requires
        known(cpus@, cpu_with(gs_base)) is Some,
    ensures
        known(cpus@, cpu_with(gs_base)) == Some(*local),
{
    by_id(cpus, current_cpu_id(gs_base)).unwrap()
}

impl CpuId {
    /// LAPIC ID for IOAPIC routing.
    ///
    /// Returns `0` (the BSP's conventional ID) if the slot has not been
    /// populated yet: this keeps the single-CPU code path working before
    /// [`init_bsp`] is called.
    pub fn apic_id(self, cpus: &CpuLocals) -> (id: u8)
        ensures
            id == match known(cpus@, self) {
                Some(local) => local.apic_id,
                None => 0,
            },
    {
        match by_id(cpus, self) {
            Some(local) => local.apic_id,
            None => 0,
        }
    }
}

/// A slot is written once: what is known of a CPU stays known, whatever is
/// populated after.
pub proof fn slots_are_stable(table: Seq<Option<CpuLocal>>, i: int, value: CpuLocal, cpu: CpuId)
    requires
        0 <= i < table.len(),
    ensures
        known(table, cpu) is Some ==> known(populated(table, i, value), cpu) == known(table, cpu),
        slot(cpu) != i ==> known(populated(table, i, value), cpu) == known(table, cpu),
        slot(cpu) == i ==> known(populated(table, i, value), cpu) is Some,
        slot(cpu) == i && known(table, cpu) is None ==> known(populated(table, i, value), cpu)
            == Some(value),
{
}

/// A slot of the table belongs to one CPU: the BSP has slot 0, and AP `n` slot
/// `n`.
pub proof fn slots_are_numbered(n: u8, i: usize)
    ensures
        slot(CpuId::Bsp) == 0,
        slot(CpuId::Ap(n)) == n,
        call_ensures(slot_of, (CpuId::Bsp,), i) ==> i == 0,
        call_ensures(slot_of, (CpuId::Ap(n),), i) ==> i == n,
{
}

/// A CPU that joins a table that did not know it is found there, with its own
/// APIC id; every other CPU is known as before. What is to be written to the
/// register at 0xC0000101 is the number of its slot, and by that number the CPU
/// finds its own state.
pub proof fn joined_cpus_are_found(n: u8, apic_id: u8, write: MsrWrite)
    requires
        0 < n < 8,
    ensures
        forall|cpus: &mut CpuLocals| #[trigger]
            call_ensures(init_bsp, (cpus, apic_id), write) ==> {
                &&& write == (MsrWrite { reg: 0xC000_0101, value: 0 })
                &&& cpu_with(write.value) == CpuId::Bsp
                &&& (*final(cpus))@.len() == 8
                &&& (*cpus)@[0] is None ==> (*final(cpus))@[0] == Some(
                    CpuLocal { cpu_id: CpuId::Bsp, apic_id },
                )
                &&& (*cpus)@[0] is Some ==> (*final(cpus))@[0] == (*cpus)@[0]
                &&& forall|i: int| 1 <= i < 8 ==> #[trigger] (*final(cpus))@[i] == (*cpus)@[i]
            },
        forall|cpus: &mut CpuLocals| #[trigger]
            call_ensures(init_ap, (cpus, n, apic_id), write) ==> {
                &&& write == (MsrWrite { reg: 0xC000_0101, value: n as u64 })
                &&& cpu_with(write.value) == CpuId::Ap(n)
                &&& (*final(cpus))@.len() == 8
                &&& (*cpus)@[n as int] is None ==> (*final(cpus))@[n as int] == Some(
                    CpuLocal { cpu_id: CpuId::Ap(n), apic_id },
                )
                &&& (*cpus)@[n as int] is Some ==> (*final(cpus))@[n as int] == (*cpus)@[n as int]
                &&& forall|i: int|
                    0 <= i < 8 && i != n ==> #[trigger] (*final(cpus))@[i] == (*cpus)@[i]
            },
{
}

/// What is looked up is what stands in the CPU's slot, and a CPU that has none
/// is not known; where the APIC id of such a CPU is asked for, it is 0.
pub proof fn cpus_are_looked_up(
    cpus: &CpuLocals,
    n: u8,
    bsp: Option<&CpuLocal>,
    ap: Option<&CpuLocal>,
    bsp_id: u8,
    ap_id: u8,
)
    ensures
        call_ensures(by_id, (cpus, CpuId::Bsp), bsp) ==> (bsp is Some <==> cpus@[0] is Some) && (
        bsp matches Some(local) ==> cpus@[0] == Some(*local)),
        call_ensures(by_id, (cpus, CpuId::Ap(n)), ap) ==> (ap is Some <==> n < 8 && cpus@[n as int]
            is Some) && (ap matches Some(local) ==> cpus@[n as int] == Some(*local)),
        call_ensures(CpuId::apic_id, (CpuId::Bsp, cpus), bsp_id) ==> bsp_id == match cpus@[0] {
            Some(local) => local.apic_id,
            None => 0,
        },
        call_ensures(CpuId::apic_id, (CpuId::Ap(n), cpus), ap_id) ==> ap_id == if n < 8 && cpus@[
            n as int
        ] is Some {
            cpus@[n as int]->0.apic_id
        } else {
            0
        },
{
    cpus.has_every_slot();
}

/// A CPU is known by the low byte of its register: 0 is the BSP, any other
/// number that AP.
pub proof fn low_byte_tells_the_cpu(n: u8, above: u64, cpu: CpuId)
    requires
        n + 0x100 * above <= u64::MAX,
        call_ensures(current_cpu_id, ((n + 0x100 * above) as u64,), cpu),
    ensures
        n == 0 ==> cpu == CpuId::Bsp,
        n > 0 ==> cpu == CpuId::Ap(n),
{
}

/// The state that a CPU finds as its own is that of its slot.
pub proof fn own_state_is_found(cpus: &CpuLocals, n: u8, local: &CpuLocal)
    requires
        n < 8,
        cpus@[n as int] is Some,
        call_ensures(current, (cpus, n as u64), local),
    ensures
        cpus@[n as int] == Some(*local),
{
    cpus.has_every_slot();
}

/// A new table knows of no CPU.
pub proof fn new_table_is_empty(cpus: CpuLocals)
    requires
        call_ensures(CpuLocals::new, (), cpus),
    ensures
        cpus@.len() == 8,
        forall|i: int| 0 <= i < 8 ==> #[trigger] cpus@[i] is None,
{
}

} // verus!
