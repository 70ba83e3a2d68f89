//! What a network stack has to know of an e1000.

use crate::driver::drivers::host::ETHERNET_MTU;
use vstd::prelude::*;

verus! {

/// An e1000 as a network stack sees it: the device (`D`), with its address.
pub struct E1000Embassy<D> {
    device: D,
    mac: [u8; 6],
}

impl<D> E1000Embassy<D> {
    /// The device.
    pub closed spec fn inner(&self) -> D {
        self.device
    }

    /// The hardware address.
    pub closed spec fn address(&self) -> Seq<u8> {
        self.mac@
    }

    pub fn new(device: D, mac: [u8; 6]) -> (nic: Self)
        ensures
            nic.inner() == device,
            nic.address() == mac@,
    {
        E1000Embassy { device, mac }
    }

    /// The device, to send and receive with.
    pub fn device(&mut self) -> (device: &mut D)
        ensures
            *device == old(self).inner(),
            final(self).inner() == *final(device),
            final(self).address() == old(self).address(),
    {
        &mut self.device
    }

    /// The hardware address.
    pub fn hardware_address(&self) -> (mac: [u8; 6])
        ensures
            mac@ == self.address(),
    {
        self.mac
    }

    /// The transmission unit.
    pub fn max_transmission_unit(&self) -> (mtu: usize)
        ensures
            mtu == ETHERNET_MTU,
    {
        ETHERNET_MTU
    }
}

/// A network stack sees the device with the address that it was given, and the
/// largest frame of Ethernet.
pub proof fn stack_sees_the_device<D>(device: D, mac: [u8; 6], nic: E1000Embassy<D>, at: [u8; 6], mtu: usize)
    requires
        call_ensures(E1000Embassy::<D>::new, (device, mac), nic),
    ensures
        nic.inner() == device,
        call_ensures(E1000Embassy::<D>::hardware_address, (&nic,), at) ==> at@ == mac@,
        call_ensures(E1000Embassy::<D>::max_transmission_unit, (&nic,), mtu) ==> mtu == 1514,
{
}

} // verus!
