//! Hyper-V MSR constants and values.
//!
//! Nothing here executes `rdmsr` or `wrmsr`: a function that has MSRs written
//! returns the writes, in order.

use crate::regs::MsrWrite;
use vstd::prelude::*;

verus! {

/// Guest OS identification.
pub const GUEST_OS_ID: u32 = 0x40000000;

/// Hypercall page enable.
pub const HYPERCALL: u32 = 0x40000001;

/// SynIC control.
pub const SCONTROL: u32 = 0x40000080;

/// SynIC event flags page.
pub const SIEFP: u32 = 0x40000082;

/// SynIC message page.
pub const SIMP: u32 = 0x40000083;

/// End of message.
pub const EOM: u32 = 0x40000084;

/// SINT0 base: SINT[n] = SINT0 + n.
pub const SINT0: u32 = 0x40000090;

/// Hyper-V TSC frequency MSR (cycles per second).
pub const TSC_FREQUENCY: u32 = 0x40000022;

/// Hyper-V LAPIC frequency MSR (Hz).
pub const APIC_FREQUENCY: u32 = 0x40000023;

/// VMBus uses SINT2.
pub const VMBUS_SINT: u32 = 2;

/// IDT vector for VMBus synthetic interrupts.
pub const VMBUS_VECTOR: u8 = 34;

/// The value of an MSR from the halves that `rdmsr` gives (EDX, EAX).
pub fn join(high: u32, low: u32) -> (value: u64)
    ensures
        value == 0x1_0000_0000 * high + low,
{
    0x1_0000_0000 * (high as u64) + low as u64
}

/// The halves that `wrmsr` takes (EDX, EAX).
pub fn split(value: u64) -> (halves: (u32, u32))
    ensures
        value == 0x1_0000_0000 * halves.0 + halves.1,
{
    ((value / 0x1_0000_0000) as u32, (value % 0x1_0000_0000) as u32)
}

/// An MSR reads back as it was written: halves determine the value and the
/// value determines the halves.
pub proof fn halves_round_trip(high1: u32, low1: u32, high2: u32, low2: u32)
    requires
        0x1_0000_0000 * high1 + low1 == 0x1_0000_0000 * high2 + low2,
    ensures
        high1 == high2,
        low1 == low2,
{
}

/// The write that identifies the guest as an open-source OS.
///
/// Must be done before the hypercall page is enabled. A non-zero Guest OS ID
/// is required by the hypervisor.
///
/// Format (as Linux has it):
///   bits 63..48: vendor id = 0x8100
///   bits 47..16: kernel version (version code of 6.5.0)
///   bits 15..0:  build number (1)
pub fn set_guest_os_id() -> (write: MsrWrite)
    ensures
        write.reg == GUEST_OS_ID,
        write.value == 0x8100 * 0x1_0000_0000_0000 + 0x0006_0500 * 0x1_0000 + 0x0001,
        write.value != 0,
{
    MsrWrite { reg: GUEST_OS_ID, value: 0x8100 * 0x1_0000_0000_0000 + 0x0006_0500 * 0x1_0000 + 0x0001 }
}

/// A value that is split and joined again is the same, and so are halves that
/// are joined and split again, for every value and all halves.
pub proof fn split_and_join_undo_each_other(
    value: u64,
    halves: (u32, u32),
    joined: u64,
    high: u32,
    low: u32,
    again: (u32, u32),
)
    ensures
        call_ensures(split, (value,), halves) && call_ensures(join, (halves.0, halves.1), joined)
            ==> joined == value,
        call_ensures(join, (high, low), joined) && call_ensures(split, (joined,), again) ==> again
            == (high, low),
        call_ensures(split, (value,), halves) ==> halves.1 == value % 0x1_0000_0000 && halves.0
            == value / 0x1_0000_0000,
{
}

/// The guest is identified at 0x40000000: vendor 0x8100 in the highest sixteen
/// bits, 6.5.0 in the middle, build 1 in the lowest sixteen.
pub proof fn guest_is_identified(write: MsrWrite)
    requires
        call_ensures(set_guest_os_id, (), write),
    ensures
        write.reg == 0x4000_0000,
        write.value / 0x1_0000_0000_0000 == 0x8100,
        write.value / 0x1_0000 % 0x1_0000_0000 == 6 * 0x1_0000 + 5 * 0x100 + 0,
        write.value % 0x1_0000 == 1,
{
}

/// The registers of the hypervisor: its page for hypercalls beside the guest's
/// identity, the two frequencies beside each other, and the SynIC's own, with
/// one register for each of its interrupts from SINT0 on.
pub proof fn registers_of_the_hypervisor()
    ensures
        GUEST_OS_ID == 0x4000_0000,
        HYPERCALL == GUEST_OS_ID + 1,
        TSC_FREQUENCY == GUEST_OS_ID + 0x22,
        APIC_FREQUENCY == TSC_FREQUENCY + 1,
        SCONTROL == GUEST_OS_ID + 0x80,
        SIEFP == SCONTROL + 2,
        SIMP == SCONTROL + 3,
        EOM == SCONTROL + 4,
        SINT0 == SCONTROL + 16,
        VMBUS_SINT == 2,
        VMBUS_VECTOR == 34,
{
}

} // verus!
