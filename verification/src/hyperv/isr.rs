//! What the SINT2 interrupt handler knows and does.
//!
//! The handler is given no context, so the addresses of the SynIC pages are
//! published to it once VMBus is up.

use super::synic::{has_message, PAGE_SIZE, VMBUS_SLOT};
use super::vmbus::VmBus;
use crate::bytes::read_le32;
use vstd::prelude::*;

verus! {

/// Words in an event-flag slot.
pub const FLAG_WORDS: usize = 32;

/// What has been published to the SINT2 handler. An address of 0 has not been
/// published.
#[derive(Debug, Clone, Copy, PartialEq, Eq, Structural)]
pub struct VmBusIsr {
    siefp: usize,
    simp: usize,
}

impl VmBusIsr {
    /// Address of the event flags page.
    pub closed spec fn siefp(&self) -> usize {
        self.siefp
    }

    /// Address of the message page.
    pub closed spec fn simp(&self) -> usize {
        self.simp
    }

    /// Nothing published yet.
    pub fn new() -> (isr: Self)
        ensures
            isr.siefp() == 0,
            isr.simp() == 0,
    {
        VmBusIsr { siefp: 0, simp: 0 }
    }

    /// Publish the SIEFP page address.
    pub fn publish_siefp(&mut self, vaddr: usize)
        ensures
            final(self).siefp() == vaddr,
            final(self).simp() == old(self).simp(),
    {
        self.siefp = vaddr;
    }

    /// Publish the SIMP page address.
    pub fn publish_simp(&mut self, vaddr: usize)
        ensures
            final(self).simp() == vaddr,
            final(self).siefp() == old(self).siefp(),
    {
        self.simp = vaddr;
    }

    /// Publish the pages of a VMBus that is up.
    pub fn attach(&mut self, bus: &VmBus)
        ensures
            final(self).siefp() == bus@.siefp.vaddr,
            final(self).simp() == bus@.simp.vaddr,
    {
        self.publish_siefp(bus.siefp_vaddr());
        self.publish_simp(bus.simp_vaddr());
    }

    /// Address of the VMBus slot of the event flags page, once published.
    pub fn flags_vaddr(&self) -> (r: Option<usize>)
        requires
            self.siefp() + VMBUS_SLOT <= usize::MAX,
        ensures
            r == if self.siefp() == 0 {
                None
            } else {
                Some((self.siefp() + VMBUS_SLOT) as usize)
            },
    {
        if self.siefp == 0 {
            None
        } else {
            Some(self.siefp + VMBUS_SLOT)
        }
    }

    /// Address of the message page, once published.
    pub fn message_page_vaddr(&self) -> (r: Option<usize>)
        ensures
            r == if self.simp() == 0 {
                None
            } else {
                Some(self.simp())
            },
    {
        if self.simp == 0 {
            None
        } else {
            Some(self.simp)
        }
    }
}

/// Whether the host has queued a message for VMBus in the message page, so that
/// whoever waits for one is to be woken.
pub fn message_queued(page: &[u8]) -> (r: bool)
    requires
        page@.len() == PAGE_SIZE,
    ensures
        r == has_message(page@),
{
    read_le32(page, VMBUS_SLOT) != 0
}

/// Clears every event flag that is set, so that the host goes on raising
/// SINT2 for those channels. Words without a flag are not written.
///
/// Returns the indices of the words that had flags, in ascending order.
pub fn clear_event_flags(flags: &mut [u64]) -> (written: Vec<usize>)
    ensures
        final(flags)@ == Seq::new(old(flags)@.len(), |i: int| 0u64),
        forall|i: int|
            0 <= i < written@.len() ==> (#[trigger] written@[i]) < old(flags)@.len() && old(
                flags,
            )@[written@[i] as int] != 0,
        forall|i: int, j: int| 0 <= i < j < written@.len() ==> written@[i] < written@[j],
        forall|i: int|
            0 <= i < old(flags)@.len() && old(flags)@[i] != 0 ==> #[trigger] written@.contains(
                i as usize,
            ),
{
    let ghost before = flags@;
    let n: usize = flags.len();
    let mut written: Vec<usize> = Vec::new();
    let mut i: usize = 0;
    while i < n
        invariant
            i <= n,
            n == before.len(),
            before == old(flags)@,
            flags@.len() == n,
            forall|k: int| 0 <= k < i ==> flags@[k] == 0,
            forall|k: int| i <= k < n ==> flags@[k] == before[k],
            forall|k: int|
                0 <= k < written@.len() ==> (#[trigger] written@[k]) < i
                    && before[written@[k] as int] != 0,
            forall|k: int, j: int| 0 <= k < j < written@.len() ==> written@[k] < written@[j],
            forall|k: int|
                0 <= k < i && before[k] != 0 ==> #[trigger] written@.contains(k as usize),
        decreases n - i,
    {
        if flags[i] != 0 {
            let ghost listed = written@;
            flags[i] = 0;
            written.push(i);
            proof {
                assert forall|k: int| 0 <= k < i + 1 && before[k] != 0 implies #[trigger] written@.contains(k as usize) by {
                    if k < i {
                        let p = listed.index_of(k as usize);
                        assert(listed.contains(k as usize));
                        assert(written@[p] == k as usize);
                    } else {
                        assert(written@[listed.len() as int] == i);
                    }
                }
            }
        }
        i += 1;
    }
    assert(flags@ =~= Seq::new(before.len(), |k: int| 0u64));
    written
}

/// What is published is found again, each address where it belongs, and the
/// other is left alone; nothing is found that was not published. The flags of
/// SINT2 lie 512 bytes into their page.
pub proof fn published_pages_are_found(isr: &VmBusIsr, vaddr: usize, r: Option<usize>, new: VmBusIsr)
    ensures
        call_ensures(VmBusIsr::new, (), new) ==> new.siefp() == 0 && new.simp() == 0,
        forall|i: &mut VmBusIsr| #[trigger]
            call_ensures(VmBusIsr::publish_siefp, (i, vaddr), ()) ==> (*final(i)).siefp() == vaddr
                && (*final(i)).simp() == (*i).simp(),
        forall|i: &mut VmBusIsr| #[trigger]
            call_ensures(VmBusIsr::publish_simp, (i, vaddr), ()) ==> (*final(i)).simp() == vaddr
                && (*final(i)).siefp() == (*i).siefp(),
        call_ensures(VmBusIsr::flags_vaddr, (isr,), r) && isr.siefp() + 512 <= usize::MAX ==> (
        r is None <==> isr.siefp() == 0) && (r matches Some(v) ==> v - 512 == isr.siefp()),
        call_ensures(VmBusIsr::message_page_vaddr, (isr,), r) ==> (r is None <==> isr.simp() == 0)
            && (r matches Some(v) ==> v == isr.simp()),
{
}

/// Once VMBus is up, its own pages are published.
pub proof fn pages_of_the_bus_are_published(bus: &VmBus)
    ensures
        forall|i: &mut VmBusIsr| #[trigger]
            call_ensures(VmBusIsr::attach, (i, bus), ()) ==> (*final(i)).siefp()
                == bus@.siefp.vaddr && (*final(i)).simp() == bus@.simp.vaddr,
{
}

/// A message is queued exactly where one of the four bytes of the type in the
/// slot of SINT2 is not zero.
pub proof fn queued_message_is_seen(page: &[u8], r: bool)
    requires
        page@.len() == 4096,
        call_ensures(message_queued, (page,), r),
    ensures
        r <==> page@[512] != 0 || page@[513] != 0 || page@[514] != 0 || page@[515] != 0,
{
}

/// After the flags are cleared none is set, and exactly the words that had one
/// were written, each once.
pub proof fn flags_are_cleared(written: Vec<usize>)
    ensures
        forall|flags: &mut [u64]| #[trigger]
            call_ensures(clear_event_flags, (flags,), written) ==> {
                &&& (*final(flags))@.len() == (*flags)@.len()
                &&& forall|i: int| 0 <= i < (*flags)@.len() ==> #[trigger] (*final(flags))@[i] == 0
                &&& forall|i: usize|
                    #[trigger] written@.contains(i) <==> i < (*flags)@.len() && (*flags)@[i as int]
                        != 0
                &&& written@.no_duplicates()
            },
{
    assert forall|flags: &mut [u64]| #[trigger]
        call_ensures(clear_event_flags, (flags,), written) implies forall|i: usize|
        #[trigger] written@.contains(i) <==> i < (*flags)@.len() && (*flags)@[i as int] != 0 by {
        assert forall|i: usize| #[trigger] written@.contains(i) implies i < (*flags)@.len()
            && (*flags)@[i as int] != 0 by {
            let k = written@.index_of(i);
            assert(written@[k] == i);
        }
        assert forall|i: usize| i < (*flags)@.len() && (*flags)@[i as int] != 0 implies
            #[trigger] written@.contains(i) by {
            assert(written@.contains((i as int) as usize));
        }
    }
}

} // verus!
