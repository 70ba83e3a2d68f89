//! SynIC (Synthetic Interrupt Controller) initialization and message polling.
//!
//! The SynIC provides the message delivery mechanism for VMBus. The hypervisor
//! writes VMBus responses to the SIMP (SynIC Message Page) at SINT slot 2.
//!
//! A message slot is 256 bytes: message type (4 bytes, 0 = no message),
//! payload size (1 byte, at most 240), flags (1 byte, bit 0 = more messages
//! are queued), 10 bytes that are not read here, and the payload.

use super::msr::{EOM, SCONTROL, SIEFP, SIMP, SINT0, VMBUS_SINT, VMBUS_VECTOR};
use crate::bytes::{le32_at, overwrite, read_le32};
use crate::dma::DmaRegion;
use crate::regs::MsrWrite;
use vstd::prelude::*;

verus! {

/// Size of a page.
pub const PAGE_SIZE: usize = 4096;

/// Size of a message slot, and of an event-flag slot.
pub const SLOT_SIZE: usize = 256;

/// Where the slot of the VMBus SINT begins in its page.
pub const VMBUS_SLOT: usize = 512;

/// Longest payload of a message.
pub const MAX_PAYLOAD: usize = 240;

/// Where the payload begins in a message.
pub const PAYLOAD: usize = 16;

/// SynIC state: owns the SIMP and SIEFP pages.
#[derive(Debug, Clone, Copy, PartialEq, Eq, Structural)]
pub struct SynIC {
    simp: DmaRegion,
    siefp: DmaRegion,
}

/// The writes that put the SynIC to use: enabled, with its two pages, and
/// SINT2 on the VMBus vector with auto-EOI (bit 17).
pub open spec fn synic_writes(simp: DmaRegion, siefp: DmaRegion) -> Seq<MsrWrite> {
    seq![
        MsrWrite { reg: SCONTROL, value: 1 },
        MsrWrite { reg: SIMP, value: (simp.paddr as u64) | 1 },
        MsrWrite { reg: SIEFP, value: (siefp.paddr as u64) | 1 },
        MsrWrite { reg: 0x40000092, value: 0x20022 },
    ]
}

/// Whether a message page holds a message for VMBus.
pub open spec fn has_message(page: Seq<u8>) -> bool {
    le32_at(page, VMBUS_SLOT as int) != 0
}

/// The payload of that message. No more than a slot can hold is taken,
/// whatever the size field says.
pub open spec fn payload(page: Seq<u8>) -> Seq<u8> {
    let size = if page[VMBUS_SLOT + 4] <= MAX_PAYLOAD {
        page[VMBUS_SLOT + 4] as int
    } else {
        MAX_PAYLOAD as int
    };
    page.subrange(VMBUS_SLOT + PAYLOAD, VMBUS_SLOT + PAYLOAD + size)
}

impl SynIC {
    /// The message page.
    pub closed spec fn simp(&self) -> DmaRegion {
        self.simp
    }

    /// The event flags page.
    pub closed spec fn siefp(&self) -> DmaRegion {
        self.siefp
    }

    /// Initialize SynIC on two zeroed pages: the MSR writes that configure it
    /// and enable SINT2, to be done in order.
    pub fn new(simp: DmaRegion, siefp: DmaRegion) -> (r: (SynIC, Vec<MsrWrite>))
        ensures
            r.0.simp() == simp,
            r.0.siefp() == siefp,
            r.1@ == synic_writes(simp, siefp),
    {
        let mut writes: Vec<MsrWrite> = Vec::new();
        writes.push(MsrWrite { reg: SCONTROL, value: 1 });
        writes.push(MsrWrite { reg: SIMP, value: (simp.paddr as u64) | 1 });
        writes.push(MsrWrite { reg: SIEFP, value: (siefp.paddr as u64) | 1 });
        proof {
            assert(34u64 | (1u64 << 17) == 0x20022) by (bit_vector);
        }
        writes.push(
            MsrWrite { reg: SINT0 + VMBUS_SINT, value: (VMBUS_VECTOR as u64) | (1u64 << 17) },
        );
        assert(writes@ =~= synic_writes(simp, siefp));
        (SynIC { simp, siefp }, writes)
    }

    /// Virtual address of the SIEFP (SynIC Event Flags Page).
    ///
    /// Layout: 16 contiguous 256-byte event-flag slots, indexed by SINT.
    /// VMBus uses SINT2, the slot at byte offset `2 * 256 = 512`. Each slot is
    /// 2048 bits; bit `child_relid` is set by the host when it signals that
    /// channel. The guest must clear each set bit after handling, otherwise
    /// the host stops raising SINT2 for that channel.
    pub fn siefp_vaddr(&self) -> (vaddr: usize)
        ensures
            vaddr == self.siefp().vaddr,
    {
        self.siefp.vaddr
    }

    /// Virtual address of the SIMP (SynIC Message Page).
    pub fn simp_vaddr(&self) -> (vaddr: usize)
        ensures
            vaddr == self.simp().vaddr,
    {
        self.simp.vaddr
    }

    /// Look for a message on the VMBus SINT slot of the message page.
    ///
    /// Returns the payload bytes if a message is present, or `None`. Call
    /// [`ack_message`](SynIC::ack_message) after processing the payload.
    pub fn poll_message(&self, page: &[u8]) -> (r: Option<Vec<u8>>)
        requires
            page@.len() >= PAGE_SIZE,
        ensures
            match r {
                Some(bytes) => has_message(page@) && bytes@ == payload(page@),
                None => !has_message(page@),
            },
    {
        let message_type: u32 = read_le32(page, VMBUS_SLOT);
        if message_type == 0 {
            return None;
        }
        let said: usize = page[VMBUS_SLOT + 4] as usize;
        let size: usize = if said <= MAX_PAYLOAD {
            said
        } else {
            MAX_PAYLOAD
        };
        let mut out: Vec<u8> = Vec::new();
        let mut i: usize = 0;
        while i < size
            invariant
                i <= size <= MAX_PAYLOAD,
                page@.len() >= PAGE_SIZE,
                out@ == page@.subrange(VMBUS_SLOT + PAYLOAD, VMBUS_SLOT + PAYLOAD + i),
            decreases size - i,
        {
            out.push(page[VMBUS_SLOT + PAYLOAD + i]);
            i += 1;
            assert(out@ =~= page@.subrange(VMBUS_SLOT + PAYLOAD, VMBUS_SLOT + PAYLOAD + i));
        }
        Some(out)
    }

    /// Acknowledge the current message and drain any pending messages.
    ///
    /// Clears the message type field. If MessagePending is set, the EOM write
    /// that is returned signals the hypervisor to deliver the next queued
    /// message.
    pub fn ack_message(&self, page: &mut [u8]) -> (eom: Option<MsrWrite>)
        requires
            old(page)@.len() >= PAGE_SIZE,
        ensures
            final(page)@ == acknowledged(old(page)@),
            eom == if old(page)@[VMBUS_SLOT + 5] % 2 == 1 {
                Some(MsrWrite { reg: EOM, value: 0 })
            } else {
                None
            },
    {
        let flags: u8 = page[VMBUS_SLOT + 5];
        page[VMBUS_SLOT] = 0;
        page[VMBUS_SLOT + 1] = 0;
        page[VMBUS_SLOT + 2] = 0;
        page[VMBUS_SLOT + 3] = 0;
        assert(page@ =~= acknowledged(old(page)@));
        if flags % 2 == 1 {
            Some(MsrWrite { reg: EOM, value: 0 })
        } else {
            None
        }
    }
}

/// A message page as it is after an acknowledgement.
pub open spec fn acknowledged(page: Seq<u8>) -> Seq<u8> {
    overwrite(page, VMBUS_SLOT as int, seq![0u8, 0, 0, 0])
}

/// An acknowledged message is gone, and nothing but its type is touched: the
/// slot is free for the next one.
pub proof fn acknowledged_slot_is_free(page: Seq<u8>)
    requires
        page.len() >= PAGE_SIZE,
    ensures
        !has_message(acknowledged(page)),
        acknowledged(page).len() == page.len(),
        forall|i: int|
            0 <= i < page.len() && !(VMBUS_SLOT <= i < VMBUS_SLOT + 4) ==> acknowledged(page)[i]
                == page[i],
{
}

/// What is written to set the SynIC up: it is enabled, each of its two pages is
/// told by its physical address with the enable bit beside it, and SINT2 is
/// unmasked, on vector 34, with auto-EOI. Nothing else is written.
pub proof fn pages_are_told(simp: DmaRegion, siefp: DmaRegion, r: (SynIC, Vec<MsrWrite>))
    requires
        call_ensures(SynIC::new, (simp, siefp), r),
    ensures
        r.1@.len() == 4,
        r.1@[0] == (MsrWrite { reg: 0x4000_0080, value: 1 }),
        r.1@[1].reg == 0x4000_0083,
        r.1@[1].value % 2 == 1,
        r.1@[1].value / 2 == simp.paddr / 2,
        simp.paddr % 4096 == 0 ==> r.1@[1].value - 1 == simp.paddr,
        r.1@[2].reg == 0x4000_0082,
        r.1@[2].value % 2 == 1,
        r.1@[2].value / 2 == siefp.paddr / 2,
        siefp.paddr % 4096 == 0 ==> r.1@[2].value - 1 == siefp.paddr,
        r.1@[3].reg == 0x4000_0090 + 2,
        r.1@[3].value == 34 + 0x2_0000,
        r.0.simp() == simp,
        r.0.siefp() == siefp,
{
    enable_bit(simp.paddr as u64);
    enable_bit(siefp.paddr as u64);
}

/// The enable bit beside an address takes nothing of it but bit 0.
pub proof fn enable_bit(a: u64)
    ensures
        (a | 1) % 2 == 1,
        (a | 1) / 2 == a / 2,
        a % 4096 == 0 ==> (a | 1) == a + 1,
{
    assert((a | 1) % 2 == 1 && (a | 1) / 2 == a / 2 && (a % 4096 == 0 ==> (a | 1) == a + 1))
        by (bit_vector);
}

/// Two SynICs that are told the same have the same pages.
pub proof fn pages_are_told_apart(
    simp: DmaRegion,
    siefp: DmaRegion,
    r: (SynIC, Vec<MsrWrite>),
    simp2: DmaRegion,
    siefp2: DmaRegion,
    r2: (SynIC, Vec<MsrWrite>),
)
    requires
        call_ensures(SynIC::new, (simp, siefp), r),
        call_ensures(SynIC::new, (simp2, siefp2), r2),
        simp.paddr % 4096 == 0,
        siefp.paddr % 4096 == 0,
        simp2.paddr % 4096 == 0,
        siefp2.paddr % 4096 == 0,
        r.1@ == r2.1@,
    ensures
        simp.paddr == simp2.paddr,
        siefp.paddr == siefp2.paddr,
{
    pages_are_told(simp, siefp, r);
    pages_are_told(simp2, siefp2, r2);
}

/// There is a message exactly where one of the four bytes of the type in the
/// slot of SINT2 is not zero. Its payload is what follows the header of the
/// slot, byte for byte: as much as the size field says, and no more than 240.
pub proof fn message_is_read_as_sent(synic: &SynIC, page: &[u8], r: Option<Vec<u8>>)
    requires
        call_ensures(SynIC::poll_message, (synic, page), r),
        page@.len() >= 4096,
    ensures
        r is None <==> page@[512] == 0 && page@[513] == 0 && page@[514] == 0 && page@[515] == 0,
        r matches Some(bytes) ==> {
            &&& bytes@.len() == if page@[516] <= 240 {
                page@[516] as int
            } else {
                240
            }
            &&& forall|i: int| 0 <= i < bytes@.len() ==> #[trigger] bytes@[i] == page@[528 + i]
        },
{
}

/// An acknowledgement clears the four bytes of the type and no other, and asks
/// for the next message exactly where the flags say that one is queued.
pub proof fn acknowledgement_frees_the_slot(synic: &SynIC, eom: Option<MsrWrite>)
    ensures
        forall|page: &mut [u8]| #[trigger]
            call_ensures(SynIC::ack_message, (synic, page), eom) && (*page)@.len() >= 4096 ==> {
                &&& (*final(page))@.len() == (*page)@.len()
                &&& forall|i: int|
                    0 <= i < (*page)@.len() ==> #[trigger] (*final(page))@[i] == if 512 <= i < 516 {
                        0
                    } else {
                        (*page)@[i]
                    }
                &&& eom == if (*page)@[517] % 2 == 1 {
                    Some(MsrWrite { reg: 0x4000_0084, value: 0 })
                } else {
                    None
                }
            },
{
}

/// The pages lie where the SynIC says they do.
pub proof fn pages_lie_where_mapped(synic: &SynIC, simp: usize, siefp: usize)
    ensures
        call_ensures(SynIC::simp_vaddr, (synic,), simp) ==> simp == synic.simp().vaddr,
        call_ensures(SynIC::siefp_vaddr, (synic,), siefp) ==> siefp == synic.siefp().vaddr,
{
}

} // verus!
