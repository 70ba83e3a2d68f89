//! Local APIC (xAPIC) driver.
//!
//! The LAPIC is a per-CPU hardware singleton. Every logical CPU has its own
//! LAPIC register file mapped at the same physical address
//! [`LAPIC_PHYS_BASE`]; the CPU's memory controller routes that address to
//! *that core's* registers. As a consequence, the same UC virtual mapping
//! works for every CPU: a load or store from CPU *k* always hits CPU *k*'s
//! LAPIC, never another CPU's.
//!
//! Every function here that takes a register file operates on **the executing
//! CPU's** LAPIC. Register offsets are in bytes.
//!
//! ## Lifecycle
//!
//! 1. BSP maps `LAPIC_PHYS_BASE` once and stashes the VA by calling [`init`].
//! 2. BSP (and later each AP) calls [`enable`] from its own context to turn on
//!    its LAPIC.
//! 3. ISRs call [`eoi`] to acknowledge interrupts.

use crate::regs::{RegOp, RegisterAccess, Traced};
use vstd::prelude::*;

verus! {

/// ID register.
pub const APIC_ID: usize = 0x020;

/// Version register.
pub const APIC_VERSION: usize = 0x030;

/// Task priority register.
pub const APIC_TPR: usize = 0x080;

/// End-of-interrupt register.
pub const APIC_EOI: usize = 0x0B0;

/// Spurious vector register.
pub const APIC_SVR: usize = 0x0F0;

/// Timer entry of the local vector table.
pub const APIC_LVT_TIMER: usize = 0x320;

/// Timer initial count.
pub const APIC_TIMER_INIT_CNT: usize = 0x380;

/// Timer current count.
pub const APIC_TIMER_CURR_CNT: usize = 0x390;

/// Timer divide configuration.
pub const APIC_TIMER_DIV: usize = 0x3E0;

/// Software enable bit of the spurious vector register.
pub const APIC_SVR_ENABLE: u32 = 0x100;

/// Periodic mode bit of the timer entry.
pub const APIC_TIMER_PERIODIC: u32 = 0x20000;

/// Mask bit of the timer entry.
pub const APIC_TIMER_MASKED: u32 = 0x10000;

/// Vector of spurious interrupts.
pub const SPURIOUS_VECTOR: u32 = 39;

/// LAPIC physical address (standard for xAPIC).
pub const LAPIC_PHYS_BASE: u64 = 0xFEE0_0000;

/// Shared LAPIC MMIO virtual address. Populated once on the BSP; the same
/// value serves every CPU.
#[derive(Debug, Clone, Copy, PartialEq, Eq, Structural)]
pub struct Lapic {
    vaddr: usize,
}

impl Lapic {
    /// Where the registers are mapped; 0 if they are not yet.
    pub closed spec fn base(&self) -> usize {
        self.vaddr
    }

    /// No mapping yet.
    pub fn unmapped() -> (lapic: Self)
        ensures
            lapic.base() == 0,
    {
        Lapic { vaddr: 0 }
    }
}

/// Cache the UC-mapped LAPIC MMIO virtual address.
///
/// Call once on the BSP after mapping `LAPIC_PHYS_BASE`.
pub fn init(lapic: &mut Lapic, vaddr: usize)
    ensures
        final(lapic).base() == vaddr,
{
    lapic.vaddr = vaddr;
}

/// VA cached by [`init`]. Returns 0 if [`init`] has not been called.
pub fn vaddr(lapic: &Lapic) -> (vaddr: usize)
    ensures
        vaddr == lapic.base(),
{
    lapic.vaddr
}

/// Enable **this CPU's** LAPIC with spurious vector 39.
///
/// Must be called on each CPU that wants to receive interrupts.
pub fn enable<R: RegisterAccess>(regs: &mut Traced<R>)
    ensures
        final(regs).trace() == old(regs).trace() + seq![
            RegOp::Write { offset: APIC_SVR, value: 0x127 },
            RegOp::Write { offset: APIC_TPR, value: 0 },
        ],
{
    regs.write_reg(APIC_SVR, APIC_SVR_ENABLE + SPURIOUS_VECTOR);
    // Task priority 0: accept all interrupts.
    regs.write_reg(APIC_TPR, 0);
    assert(regs.trace() =~= old(regs).trace() + seq![
        RegOp::Write { offset: APIC_SVR, value: 0x127 },
        RegOp::Write { offset: APIC_TPR, value: 0 },
    ]);
}

/// How the timer's divide configuration encodes a divider, if it can.
pub open spec fn divider_encoding(divider: u8) -> Option<u32> {
    if divider == 1 {
        Some(11)
    } else if divider == 2 {
        Some(0)
    } else if divider == 4 {
        Some(1)
    } else if divider == 8 {
        Some(2)
    } else if divider == 16 {
        Some(3)
    } else if divider == 32 {
        Some(8)
    } else if divider == 64 {
        Some(9)
    } else if divider == 128 {
        Some(10)
    } else {
        None
    }
}

/// The dividers are the powers of two that fit in a byte, and no two of them
/// share an encoding.
pub proof fn dividers_are_powers_of_two(a: u8, b: u8)
    ensures
        divider_encoding(a) is Some <==> (a != 0 && a & (a - 1) as u8 == 0),
        divider_encoding(a) is Some && divider_encoding(a) == divider_encoding(b) ==> a == b,
{
    assert((a != 0 && a & (a - 1) as u8 == 0) <==> (a == 1 || a == 2 || a == 4 || a == 8 || a == 16
        || a == 32 || a == 64 || a == 128)) by (bit_vector);
}

/// Whether the timer can divide by `divider` (1, 2, 4, ..., 128).
pub fn is_divider(divider: u8) -> (r: bool)
    ensures
        r == (divider_encoding(divider) is Some),
{
    divider == 1 || divider == 2 || divider == 4 || divider == 8 || divider == 16 || divider == 32
        || divider == 64 || divider == 128
}

fn set_divider<R: RegisterAccess>(regs: &mut Traced<R>, divider: u8)
    requires
        divider_encoding(divider) is Some,
    ensures
        final(regs).trace() == old(regs).trace().push(
            RegOp::Write { offset: APIC_TIMER_DIV, value: divider_encoding(divider)->0 },
        ),
{
    let val: u32 = match divider {
        1 => 11,
        2 => 0,
        4 => 1,
        8 => 2,
        16 => 3,
        32 => 8,
        64 => 9,
        _ => 10,
    };
    regs.write_reg(APIC_TIMER_DIV, val);
}

/// Configure **this CPU's** APIC timer in periodic mode.
///
/// - `vector`: interrupt vector (e.g., 32).
/// - `divider`: divide configuration (1, 2, 4, 8, 16, 32, 64, 128).
/// - `initial_count`: timer ticks between interrupts.
pub fn set_timer_periodic<R: RegisterAccess>(
    regs: &mut Traced<R>,
    vector: u8,
    divider: u8,
    initial_count: u32,
)
    requires
        divider_encoding(divider) is Some,
    ensures
        final(regs).trace() == old(regs).trace() + seq![
            RegOp::Write { offset: APIC_TIMER_DIV, value: divider_encoding(divider)->0 },
            RegOp::Write { offset: APIC_LVT_TIMER, value: (0x20000 + vector) as u32 },
            RegOp::Write { offset: APIC_TIMER_INIT_CNT, value: initial_count },
        ],
{
    set_divider(regs, divider);
    // Periodic mode + vector, not masked.
    regs.write_reg(APIC_LVT_TIMER, APIC_TIMER_PERIODIC + vector as u32);
    regs.write_reg(APIC_TIMER_INIT_CNT, initial_count);
    assert(regs.trace() =~= old(regs).trace() + seq![
        RegOp::Write { offset: APIC_TIMER_DIV, value: divider_encoding(divider)->0 },
        RegOp::Write { offset: APIC_LVT_TIMER, value: (0x20000 + vector) as u32 },
        RegOp::Write { offset: APIC_TIMER_INIT_CNT, value: initial_count },
    ]);
}

/// Mask (disable) **this CPU's** timer interrupt.
pub fn mask_timer<R: RegisterAccess>(regs: &mut Traced<R>)
    ensures
        ({
            let lvt = final(regs).trace()[old(regs).trace().len() as int]->Read_value;
            final(regs).trace() == old(regs).trace() + seq![
                RegOp::Read { offset: APIC_LVT_TIMER, value: lvt },
                RegOp::Write { offset: APIC_LVT_TIMER, value: lvt | APIC_TIMER_MASKED },
            ]
        }),
{
    let lvt: u32 = regs.read_reg(APIC_LVT_TIMER);
    regs.write_reg(APIC_LVT_TIMER, lvt | APIC_TIMER_MASKED);
    assert(regs.trace() =~= old(regs).trace() + seq![
        RegOp::Read { offset: APIC_LVT_TIMER, value: lvt },
        RegOp::Write { offset: APIC_LVT_TIMER, value: lvt | APIC_TIMER_MASKED },
    ]);
}

/// Read **this CPU's** current timer count (for calibration).
pub fn timer_current_count<R: RegisterAccess>(regs: &mut Traced<R>) -> (count: u32)
    ensures
        final(regs).trace() == old(regs).trace().push(
            RegOp::Read { offset: APIC_TIMER_CURR_CNT, value: count },
        ),
{
    regs.read_reg(APIC_TIMER_CURR_CNT)
}

/// Set **this CPU's** initial timer count (for calibration).
pub fn set_timer_initial_count<R: RegisterAccess>(regs: &mut Traced<R>, count: u32)
    ensures
        final(regs).trace() == old(regs).trace().push(
            RegOp::Write { offset: APIC_TIMER_INIT_CNT, value: count },
        ),
{
    regs.write_reg(APIC_TIMER_INIT_CNT, count);
}

/// Put **this CPU's** timer in one-shot mode with masked interrupt (for
/// calibration). The vector (32) does not matter there.
pub fn set_timer_oneshot_masked<R: RegisterAccess>(regs: &mut Traced<R>, divider: u8)
    requires
        divider_encoding(divider) is Some,
    ensures
        final(regs).trace() == old(regs).trace() + seq![
            RegOp::Write { offset: APIC_TIMER_DIV, value: divider_encoding(divider)->0 },
            RegOp::Write { offset: APIC_LVT_TIMER, value: 0x10020 },
        ],
{
    set_divider(regs, divider);
    regs.write_reg(APIC_LVT_TIMER, APIC_TIMER_MASKED + 32);
    assert(regs.trace() =~= old(regs).trace() + seq![
        RegOp::Write { offset: APIC_TIMER_DIV, value: divider_encoding(divider)->0 },
        RegOp::Write { offset: APIC_LVT_TIMER, value: 0x10020 },
    ]);
}

/// Send End-of-Interrupt to **this CPU's** LAPIC.
///
/// SynIC SINT vectors configured with auto-EOI (e.g. VMBus on Hyper-V) must
/// NOT call this: they ack themselves.
pub fn eoi<R: RegisterAccess>(regs: &mut Traced<R>)
    ensures
        final(regs).trace() == old(regs).trace().push(
            RegOp::Write { offset: APIC_EOI, value: 0 },
        ),
{
    regs.write_reg(APIC_EOI, 0);
}

/// Read **this CPU's** LAPIC ID (xAPIC: bits 31:24 of `APIC_ID`).
pub fn id<R: RegisterAccess>(regs: &mut Traced<R>) -> (id: u8)
    ensures
        ({
            let word = final(regs).trace().last()->Read_value;
            &&& final(regs).trace() == old(regs).trace().push(
                RegOp::Read { offset: APIC_ID, value: word },
            )
            &&& id == word / 0x100_0000
        }),
{
    (regs.read_reg(APIC_ID) / 0x100_0000) as u8
}

// ── What the registers are told ─────────────────────────────────────────

/// The number that a divide configuration stands for: its bits 0, 1 and 3.
pub open spec fn divide_code(config: u32) -> int {
    config as int % 4 + 4 * (config as int / 8 % 2)
}

/// A divider is told as the hardware has it: 7 for no division, 0 for halves,
/// and one more for each further halving; the other bits are clear.
pub proof fn dividers_are_told_by_their_power(divider: u8)
    requires
        divider_encoding(divider) is Some,
    ensures
        ({
            let config = divider_encoding(divider)->0;
            &&& config < 16
            &&& config / 4 % 2 == 0
            &&& divider == 1 ==> ({
                config as int % 4 + 4 * (config as int / 8 % 2)
            }) == 7
            &&& divider == 2 ==> ({
                config as int % 4 + 4 * (config as int / 8 % 2)
            }) == 0
            &&& divider >= 4 ==> divider % 2 == 0 && divider_encoding((divider / 2) as u8) is Some
                && ({
                    config as int % 4 + 4 * (config as int / 8 % 2)
                }) == ({
                    let config = divider_encoding((divider / 2) as u8)->0;
                    config as int % 4 + 4 * (config as int / 8 % 2)
                }) + 1
        }),
        divider_encoding(1) is Some,
        divider_encoding(2) is Some,
        divider <= 64 ==> divider_encoding((2 * divider) as u8) is Some,
{
}

/// Whether a divider can be had is answered as it is.
pub proof fn dividers_are_known(divider: u8, r: bool)
    requires
        call_ensures(is_divider, (divider,), r),
    ensures
        r <==> divider == 1 || divider == 2 || divider == 4 || divider == 8 || divider == 16
            || divider == 32 || divider == 64 || divider == 128,
        r <==> divider_encoding(divider) is Some,
{
}

/// A LAPIC is enabled by its spurious vector register, with vector 39 and bit 8,
/// and takes interrupts of every priority.
pub proof fn lapic_is_enabled<R: RegisterAccess>()
    ensures
        forall|regs: &mut Traced<R>| #[trigger]
            call_ensures(enable::<R>, (regs,), ()) ==> {
                let n = (*regs).trace().len() as int;
                let trace = (*final(regs)).trace();
                &&& trace.len() == n + 2
                &&& trace.take(n) == (*regs).trace()
                &&& trace[n] == (RegOp::Write { offset: 0xF0, value: 0x127 })
                &&& trace[n + 1] == (RegOp::Write { offset: 0x80, value: 0 })
            },
{
    assert forall|regs: &mut Traced<R>| #[trigger]
        call_ensures(enable::<R>, (regs,), ()) implies (*final(regs)).trace().take(
        (*regs).trace().len() as int,
    ) == (*regs).trace() by {
        assert((*final(regs)).trace().take((*regs).trace().len() as int) =~= (*regs).trace());
    }
}

/// A timer that is set going is told its divider, its vector with bit 17 for
/// periodic and nothing else, and its count as it is, in this order: the count
/// starts it.
pub proof fn timer_is_set_going<R: RegisterAccess>(vector: u8, divider: u8, count: u32)
    requires
        divider_encoding(divider) is Some,
    ensures
        forall|regs: &mut Traced<R>| #[trigger]
            call_ensures(set_timer_periodic::<R>, (regs, vector, divider, count), ()) ==> {
                let n = (*regs).trace().len() as int;
                let trace = (*final(regs)).trace();
                &&& trace.len() == n + 3
                &&& trace.take(n) == (*regs).trace()
                &&& trace[n] == (RegOp::Write {
                    offset: 0x3E0,
                    value: divider_encoding(divider)->0,
                })
                &&& trace[n + 1] is Write
                &&& trace[n + 1]->Write_offset == 0x320
                &&& trace[n + 1]->Write_value % 0x100 == vector
                &&& trace[n + 1]->Write_value / 0x100 == 0x200
                &&& trace[n + 2] == (RegOp::Write { offset: 0x380, value: count })
            },
{
    assert forall|regs: &mut Traced<R>| #[trigger]
        call_ensures(set_timer_periodic::<R>, (regs, vector, divider, count), ()) implies (*final(regs)).trace().take((*regs).trace().len() as int) == (*regs).trace() by {
        assert((*final(regs)).trace().take((*regs).trace().len() as int) =~= (*regs).trace());
    }
}

/// A timer that is masked has bit 16 of its entry set, and every other bit as
/// it was read.
pub proof fn timer_is_masked<R: RegisterAccess>()
    ensures
        forall|regs: &mut Traced<R>| #[trigger]
            call_ensures(mask_timer::<R>, (regs,), ()) ==> {
                let n = (*regs).trace().len() as int;
                let trace = (*final(regs)).trace();
                let lvt = trace[n]->Read_value;
                let written = trace[n + 1]->Write_value;
                &&& trace.len() == n + 2
                &&& trace[n] is Read && trace[n]->Read_offset == 0x320
                &&& trace[n + 1] is Write && trace[n + 1]->Write_offset == 0x320
                &&& written / 0x1_0000 % 2 == 1
                &&& written / 0x2_0000 == lvt / 0x2_0000
                &&& written % 0x1_0000 == lvt % 0x1_0000
            },
{
    assert forall|regs: &mut Traced<R>| #[trigger]
        call_ensures(mask_timer::<R>, (regs,), ()) implies {
        let n = (*regs).trace().len() as int;
        let lvt = (*final(regs)).trace()[n]->Read_value;
        let written = (*final(regs)).trace()[n + 1]->Write_value;
        &&& written / 0x1_0000 % 2 == 1
        &&& written / 0x2_0000 == lvt / 0x2_0000
        &&& written % 0x1_0000 == lvt % 0x1_0000
    } by {
        let n = (*regs).trace().len() as int;
        let lvt = (*final(regs)).trace()[n]->Read_value;
        assert((lvt | 0x1_0000) / 0x1_0000 % 2 == 1 && (lvt | 0x1_0000) / 0x2_0000 == lvt / 0x2_0000
            && (lvt | 0x1_0000) % 0x1_0000 == lvt % 0x1_0000) by (bit_vector);
    }
}

/// For calibration the timer runs once, masked, and its count is written and
/// read as it is.
pub proof fn timer_is_calibrated<R: RegisterAccess>(divider: u8, count: u32)
    requires
        divider_encoding(divider) is Some,
    ensures
        forall|regs: &mut Traced<R>| #[trigger]
            call_ensures(set_timer_oneshot_masked::<R>, (regs, divider), ()) ==> {
                let n = (*regs).trace().len() as int;
                let trace = (*final(regs)).trace();
                &&& trace.len() == n + 2
                &&& trace[n] == (RegOp::Write {
                    offset: 0x3E0,
                    value: divider_encoding(divider)->0,
                })
                &&& trace[n + 1] == (RegOp::Write { offset: 0x320, value: 0x1_0020 })
            },
        forall|regs: &mut Traced<R>| #[trigger]
            call_ensures(timer_current_count::<R>, (regs,), count) ==> (*final(regs)).trace()
                == (*regs).trace().push(RegOp::Read { offset: 0x390, value: count }),
        forall|regs: &mut Traced<R>| #[trigger]
            call_ensures(set_timer_initial_count::<R>, (regs, count), ()) ==> (*final(regs)).trace() == (*regs).trace().push(RegOp::Write { offset: 0x380, value: count }),
{
}

/// An interrupt is over when 0 is written to 0xB0; the id of a LAPIC is the
/// highest byte of its register at 0x20.
pub proof fn lapic_is_answered<R: RegisterAccess>(who: u8)
    ensures
        forall|regs: &mut Traced<R>| #[trigger]
            call_ensures(eoi::<R>, (regs,), ()) ==> (*final(regs)).trace()
                == (*regs).trace().push(RegOp::Write { offset: 0xB0, value: 0 }),
        forall|regs: &mut Traced<R>| #[trigger]
            call_ensures(id::<R>, (regs,), who) ==> {
                let word = (*final(regs)).trace().last()->Read_value;
                &&& (*final(regs)).trace() == (*regs).trace().push(
                    RegOp::Read { offset: 0x20, value: word },
                )
                &&& who * 0x100_0000 <= word < (who + 1) * 0x100_0000
            },
{
}

/// The address that is kept is the one that was told, and 0 before.
pub proof fn lapic_is_found_where_mapped(lapic: &Lapic, at: usize, new: Lapic)
    ensures
        call_ensures(Lapic::unmapped, (), new) ==> new.base() == 0,
        forall|l: &mut Lapic| #[trigger]
            call_ensures(init, (l, at), ()) ==> (*final(l)).base() == at,
        call_ensures(vaddr, (lapic,), at) ==> at == lapic.base(),
{
}

/// Every LAPIC answers at the same physical page, 18 MiB below 4 GiB.
pub proof fn lapic_page()
    ensures
        LAPIC_PHYS_BASE == 0x1_0000_0000 - 18 * 0x10_0000,
        LAPIC_PHYS_BASE % 4096 == 0,
{
}

} // verus!
