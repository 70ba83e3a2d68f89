//! The VMBus connection and the channels that the host offers on it.

use super::guid::Guid;
use super::synic::SynIC;
use crate::dma::DmaRegion;
use vstd::prelude::*;

verus! {

/// A synthetic device that the host offers.
#[derive(Clone, Copy)]
pub struct ChannelOffer {
    /// Channel id, used in every message about the channel.
    pub child_relid: u32,
    /// Connection id for signalling the host.
    pub connection_id: u32,
    /// What kind of device it is.
    pub device_type: Guid,
    /// Which device of its kind it is.
    pub instance_id: Guid,
}

/// `i` is the first of `offers` whose device type has the bytes `device_type`.
pub open spec fn is_first_offer(offers: Seq<ChannelOffer>, device_type: Seq<u8>, i: int) -> bool {
    &&& 0 <= i < offers.len()
    &&& offers[i].device_type@ == device_type
    &&& forall|j: int| 0 <= j < i ==> (#[trigger] offers[j]).device_type@ != device_type
}

/// None of `offers` has a device type with the bytes `device_type`.
pub open spec fn no_offer(offers: Seq<ChannelOffer>, device_type: Seq<u8>) -> bool {
    forall|j: int| 0 <= j < offers.len() ==> (#[trigger] offers[j]).device_type@ != device_type
}

/// Index of the first offer of a device type.
pub fn position_of(offers: &[ChannelOffer], device_type: &Guid) -> (r: Option<usize>)
    ensures
        match r {
            Some(i) => is_first_offer(offers@, device_type@, i as int),
            None => no_offer(offers@, device_type@),
        },
{
    let n: usize = offers.len();
    let mut i: usize = 0;
    while i < n
        invariant
            i <= n,
            n == offers@.len(),
            forall|j: int|
                0 <= j < i ==> (#[trigger] offers@[j]).device_type@ != device_type@,
        decreases n - i,
    {
        if offers[i].device_type == *device_type {
            return Some(i);
        }
        i += 1;
    }
    None
}

/// What a VMBus connection is made of.
#[verifier::ext_equal]
pub struct BusModel {
    /// SynIC message page.
    pub simp: DmaRegion,
    /// SynIC event flags page.
    pub siefp: DmaRegion,
    /// Protocol version.
    pub version: u32,
    /// Channel offers, in the order in which they came.
    pub offers: Seq<ChannelOffer>,
    /// Monitor pages.
    pub parent_to_child: DmaRegion,
    pub child_to_parent: DmaRegion,
}

/// VMBus connection handle.
///
/// Holds the SynIC state, negotiated protocol version, and discovered channel
/// offers.
pub struct VmBus {
    synic: SynIC,
    version: u32,
    offers: Vec<ChannelOffer>,
    parent_to_child: DmaRegion,
    child_to_parent: DmaRegion,
}

impl View for VmBus {
    type V = BusModel;

    closed spec fn view(&self) -> BusModel {
        BusModel {
            simp: self.synic.simp(),
            siefp: self.synic.siefp(),
            version: self.version,
            offers: self.offers@,
            parent_to_child: self.parent_to_child,
            child_to_parent: self.child_to_parent,
        }
    }
}

impl VmBus {
    /// A connection that is up. The monitor pages are kept for it.
    pub(crate) fn connected(
        synic: SynIC,
        version: u32,
        offers: Vec<ChannelOffer>,
        parent_to_child: DmaRegion,
        child_to_parent: DmaRegion,
    ) -> (bus: Self)
        ensures
            bus@ == (BusModel {
                simp: synic.simp(),
                siefp: synic.siefp(),
                version,
                offers: offers@,
                parent_to_child,
                child_to_parent,
            }),
    {
        VmBus { synic, version, offers, parent_to_child, child_to_parent }
    }

    /// The negotiated VMBus protocol version.
    pub fn version(&self) -> (version: u32)
        ensures
            version == self@.version,
    {
        self.version
    }

    /// All discovered channel offers (synthetic devices).
    pub fn offers(&self) -> (offers: &[ChannelOffer])
        ensures
            offers@ == self@.offers,
    {
        self.offers.as_slice()
    }

    /// Find a channel offer by device type GUID: the first that has it.
    pub fn find_offer(&self, device_type: &Guid) -> (r: Option<&ChannelOffer>)
        ensures
            match r {
                Some(offer) => exists|i: int| #[trigger]
                    is_first_offer(self@.offers, device_type@, i) && self@.offers[i] == *offer,
                None => no_offer(self@.offers, device_type@),
            },
    {
        match position_of(self.offers.as_slice(), device_type) {
            Some(i) => {
                assert(is_first_offer(self@.offers, device_type@, i as int));
                Some(&self.offers[i])
            },
            None => None,
        }
    }

    /// SynIC state.
    pub fn synic(&self) -> (synic: SynIC)
        ensures
            synic.simp() == self@.simp,
            synic.siefp() == self@.siefp,
    {
        self.synic
    }

    /// Virtual address of the SIEFP page (SynIC Event Flags).
    pub(crate) fn siefp_vaddr(&self) -> (vaddr: usize)
        ensures
            vaddr == self@.siefp.vaddr,
    {
        self.synic.siefp_vaddr()
    }

    /// Virtual address of the SIMP page (SynIC Messages).
    pub(crate) fn simp_vaddr(&self) -> (vaddr: usize)
        ensures
            vaddr == self@.simp.vaddr,
    {
        self.synic.simp_vaddr()
    }
}

/// An offer that is found has the device type asked for, and none before it
/// has; none is found only where none has it.
pub proof fn first_of_its_type_is_found(
    offers: &[ChannelOffer],
    device_type: &Guid,
    r: Option<usize>,
    bus: &VmBus,
    found: Option<&ChannelOffer>,
)
    ensures
        call_ensures(position_of, (offers, device_type), r) ==> match r {
            Some(i) => {
                &&& i < offers@.len()
                &&& offers@[i as int].device_type@ == device_type@
                &&& forall|j: int|
                    0 <= j < i ==> (#[trigger] offers@[j]).device_type@ != device_type@
            },
            None => forall|j: int|
                0 <= j < offers@.len() ==> (#[trigger] offers@[j]).device_type@ != device_type@,
        },
        call_ensures(VmBus::find_offer, (bus, device_type), found) ==> match found {
            Some(offer) => exists|i: int|
                {
                    &&& 0 <= i < bus@.offers.len()
                    &&& #[trigger] bus@.offers[i] == *offer
                    &&& offer.device_type@ == device_type@
                    &&& forall|j: int|
                        0 <= j < i ==> (#[trigger] bus@.offers[j]).device_type@ != device_type@
                },
            None => forall|j: int|
                0 <= j < bus@.offers.len() ==> (#[trigger] bus@.offers[j]).device_type@
                    != device_type@,
        },
{
    if call_ensures(VmBus::find_offer, (bus, device_type), found) && found is Some {
        let offer = found->0;
        let i = choose|i: int| #[trigger]
            is_first_offer(bus@.offers, device_type@, i) && bus@.offers[i] == *offer;
        assert(bus@.offers[i] == *offer);
    }
}

/// A connection tells what it is made of, piece by piece.
pub(crate) proof fn connection_tells_what_it_is_made_of(
    synic: SynIC,
    version: u32,
    offers: Vec<ChannelOffer>,
    p2c: DmaRegion,
    c2p: DmaRegion,
    bus: VmBus,
    told: u32,
    listed: &[ChannelOffer],
    pages: SynIC,
    events: usize,
    messages: usize,
)
    requires
        call_ensures(VmBus::connected, (synic, version, offers, p2c, c2p), bus),
    ensures
        bus@.parent_to_child == p2c,
        bus@.child_to_parent == c2p,
        call_ensures(VmBus::version, (&bus,), told) ==> told == version,
        call_ensures(VmBus::offers, (&bus,), listed) ==> listed@ == offers@,
        call_ensures(VmBus::synic, (&bus,), pages) ==> pages.simp() == synic.simp()
            && pages.siefp() == synic.siefp(),
        call_ensures(VmBus::siefp_vaddr, (&bus,), events) ==> events == synic.siefp().vaddr,
        call_ensures(VmBus::simp_vaddr, (&bus,), messages) ==> messages == synic.simp().vaddr,
{
}

} // verus!
