//! Bus abstraction.
//!
//! The small [`Bus`] trait that probing uses for uniform enumeration of the
//! concrete buses.

use crate::hal::pci::{
    devices, devices_are_listed, lists_what_is_there, PciBus, PciDevice,
};
use crate::hyperv::{ChannelOffer, VmBus};
use crate::regs::{answered_by, extends, reads_once, since, RegisterAccess, Traced};
use vstd::prelude::*;

verus! {

/// A bus that knows how to enumerate its attached devices, given access to
/// its hardware.
pub trait Bus<Io> {
    type Device: Clone;

    /// Whether `devices` is what is on the bus, as access to its hardware
    /// shows it that went from `before` to `after`.
    spec fn enumerated(&self, before: Io, after: Io, devices: Seq<Self::Device>) -> bool;

    /// Returns a freshly enumerated list of devices.
    fn enumerate(&self, io: &mut Io) -> (devices: Vec<Self::Device>)
        ensures
            self.enumerated(*old(io), *final(io), devices@),
    ;
}

/// What enumeration of PCI bus 0 does and gives: it reads registers, none
/// twice, and lists the devices that they tell of.
pub open spec fn pci_enumerated<R: RegisterAccess>(
    before: Traced<R>,
    after: Traced<R>,
    list: Seq<PciDevice>,
) -> bool {
    &&& extends(before.trace(), after.trace())
    &&& reads_once(since(before.trace(), after.trace()))
    &&& forall|space: spec_fn(usize) -> u32| #[trigger]
        answered_by(since(before.trace(), after.trace()), space) ==> list == devices(space, 32)
}

impl<R: RegisterAccess> Bus<Traced<R>> for PciBus {
    type Device = PciDevice;

    open spec fn enumerated(&self, before: Traced<R>, after: Traced<R>, devices: Seq<PciDevice>) -> bool {
        pci_enumerated(before, after, devices)
    }

    fn enumerate(&self, io: &mut Traced<R>) -> (devices: Vec<PciDevice>) {
        PciBus::enumerate(self, io)
    }
}

/// Newtype around a live [`VmBus`] that enumerates its channel offers. No
/// hardware is touched: the offers were fetched when VMBus came up.
pub struct VmBusEnum<'a>(pub &'a VmBus);

impl<'a> Bus<()> for VmBusEnum<'a> {
    type Device = ChannelOffer;

    open spec fn enumerated(&self, before: (), after: (), devices: Seq<ChannelOffer>) -> bool {
        devices == self.0@.offers
    }

    fn enumerate(&self, io: &mut ()) -> (devices: Vec<ChannelOffer>) {
        let offers: &[ChannelOffer] = self.0.offers();
        let n: usize = offers.len();
        let mut out: Vec<ChannelOffer> = Vec::new();
        let mut i: usize = 0;
        while i < n
            invariant
                i <= n,
                n == offers@.len(),
                out@ == offers@.take(i as int),
            decreases n - i,
        {
            out.push(offers[i]);
            i += 1;
            assert(out@ =~= offers@.take(i as int));
        }
        assert(out@ =~= offers@);
        out
    }
}

/// A VMBus lists its offers, one by one and in their order.
pub proof fn vmbus_lists_its_offers<'a>(bus: &VmBusEnum<'a>, listed: Vec<ChannelOffer>)
    ensures
        forall|io: &mut ()| #[trigger]
            call_ensures(<VmBusEnum<'a> as Bus<()>>::enumerate, (bus, io), listed) ==> {
                &&& listed@.len() == bus.0@.offers.len()
                &&& forall|i: int|
                    0 <= i < listed@.len() ==> #[trigger] listed@[i] == bus.0@.offers[i]
            },
{
}

/// PCI lists every function of bus 0 that can be found, as its registers
/// describe it, in the order of their places, and nothing else.
pub proof fn pci_lists_what_is_there<R: RegisterAccess>(
    bus: &PciBus,
    space: spec_fn(usize) -> u32,
    listed: Vec<PciDevice>,
)
    ensures
        forall|io: &mut Traced<R>| #[trigger]
            call_ensures(<PciBus as Bus<Traced<R>>>::enumerate, (bus, io), listed) && answered_by(
                since((*io).trace(), (*final(io)).trace()),
                space,
            ) ==> lists_what_is_there(space, listed@),
{
    devices_are_listed(space);
}

} // verus!
