//! What a network stack has to know of the NetVSC synthetic NIC.

use super::netvsc::{DeviceState, NetvscDevice};
use vstd::prelude::*;

verus! {

/// A NetVSC as a network stack sees it: the device, with its address and
/// transmission unit as they were when it came up.
pub struct NetvscEmbassy {
    device: NetvscDevice,
    mac: [u8; 6],
    mtu: u32,
}

impl NetvscEmbassy {
    /// The device.
    pub closed spec fn state(&self) -> DeviceState {
        self.device@
    }

    /// The hardware address.
    pub closed spec fn address(&self) -> Seq<u8> {
        self.mac@
    }

    /// The transmission unit.
    pub closed spec fn unit(&self) -> u32 {
        self.mtu
    }

    pub fn new(device: NetvscDevice) -> (nic: Self)
        ensures
            nic.state() == device@,
            nic.address() == device@.mac,
            nic.unit() == device@.mtu,
    {
        let mac = device.mac();
        let mtu: u32 = device.mtu();
        NetvscEmbassy { device, mac, mtu }
    }

    /// The device, to send and receive with.
    pub fn device(&mut self) -> (device: &mut NetvscDevice)
        ensures
            device@ == old(self).state(),
            final(self).state() == final(device)@,
            final(self).address() == old(self).address(),
            final(self).unit() == old(self).unit(),
    {
        &mut self.device
    }

    /// The hardware address.
    pub fn hardware_address(&self) -> (mac: [u8; 6])
        ensures
            mac@ == self.address(),
    {
        self.mac
    }

    /// The transmission unit.
    pub fn max_transmission_unit(&self) -> (mtu: u32)
        ensures
            mtu == self.unit(),
    {
        self.mtu
    }
}

/// A network stack sees the device that came up, with the address and the
/// transmission unit that it came up with; what is done to the device does not
/// change what the stack sees of these.
pub proof fn stack_sees_the_device(
    device: NetvscDevice,
    nic: NetvscEmbassy,
    mac: [u8; 6],
    mtu: u32,
)
    requires
        call_ensures(NetvscEmbassy::new, (device,), nic),
    ensures
        nic.state() == device@,
        call_ensures(NetvscEmbassy::hardware_address, (&nic,), mac) ==> mac@ == device@.mac,
        call_ensures(NetvscEmbassy::max_transmission_unit, (&nic,), mtu) ==> mtu == device@.mtu,
{
}

} // verus!
