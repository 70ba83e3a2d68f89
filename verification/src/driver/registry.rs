//! Driver registry.

use vstd::prelude::*;

verus! {

/// Registry of compiled-in drivers: `P` is what drives PCI devices, `V` what
/// drives VMBus devices.
///
/// Built mutably during boot, then borrowed shared for the probe loop. Dropped
/// after probing completes.
pub struct DriverRegistry<P, V> {
    pci: Vec<P>,
    vmbus: Vec<V>,
}

impl<P, V> DriverRegistry<P, V> {
    /// The PCI drivers, in the order of their registration.
    pub closed spec fn pci_drivers(&self) -> Seq<P> {
        self.pci@
    }

    /// The VMBus drivers, in the order of their registration.
    pub closed spec fn vmbus_drivers(&self) -> Seq<V> {
        self.vmbus@
    }

    pub fn new() -> (registry: Self)
        ensures
            registry.pci_drivers() == Seq::<P>::empty(),
            registry.vmbus_drivers() == Seq::<V>::empty(),
    {
        DriverRegistry { pci: Vec::new(), vmbus: Vec::new() }
    }

    /// Register a PCI driver.
    pub fn register_pci(&mut self, drv: P)
        ensures
            final(self).pci_drivers() == old(self).pci_drivers().push(drv),
            final(self).vmbus_drivers() == old(self).vmbus_drivers(),
    {
        self.pci.push(drv);
    }

    /// Register a VMBus driver.
    pub fn register_vmbus(&mut self, drv: V)
        ensures
            final(self).vmbus_drivers() == old(self).vmbus_drivers().push(drv),
            final(self).pci_drivers() == old(self).pci_drivers(),
    {
        self.vmbus.push(drv);
    }

    pub fn pci(&self) -> (drivers: &[P])
        ensures
            drivers@ == self.pci_drivers(),
    {
        self.pci.as_slice()
    }

    pub fn vmbus(&self) -> (drivers: &[V])
        ensures
            drivers@ == self.vmbus_drivers(),
    {
        self.vmbus.as_slice()
    }
}

/// What is registered comes behind what was, on its own bus, and is listed so;
/// a new registry lists nothing.
pub proof fn registered_drivers_are_listed<P, V>(
    registry: DriverRegistry<P, V>,
    p: P,
    v: V,
    pci: &[P],
    vmbus: &[V],
)
    ensures
        call_ensures(DriverRegistry::<P, V>::new, (), registry)
            ==> registry.pci_drivers().len() == 0 && registry.vmbus_drivers().len() == 0,
        call_ensures(DriverRegistry::<P, V>::pci, (&registry,), pci) ==> pci@
            == registry.pci_drivers(),
        call_ensures(DriverRegistry::<P, V>::vmbus, (&registry,), vmbus) ==> vmbus@
            == registry.vmbus_drivers(),
        forall|r: &mut DriverRegistry<P, V>| #[trigger]
            call_ensures(DriverRegistry::<P, V>::register_pci, (r, p), ()) ==> {
                let n = (*r).pci_drivers().len() as int;
                &&& (*final(r)).pci_drivers().len() == n + 1
                &&& (*final(r)).pci_drivers()[n] == p
                &&& (*final(r)).pci_drivers().take(n) == (*r).pci_drivers()
                &&& (*final(r)).vmbus_drivers() == (*r).vmbus_drivers()
            },
        forall|r: &mut DriverRegistry<P, V>| #[trigger]
            call_ensures(DriverRegistry::<P, V>::register_vmbus, (r, v), ()) ==> {
                let n = (*r).vmbus_drivers().len() as int;
                &&& (*final(r)).vmbus_drivers().len() == n + 1
                &&& (*final(r)).vmbus_drivers()[n] == v
                &&& (*final(r)).vmbus_drivers().take(n) == (*r).vmbus_drivers()
                &&& (*final(r)).pci_drivers() == (*r).pci_drivers()
            },
{
    assert forall|r: &mut DriverRegistry<P, V>| #[trigger]
        call_ensures(DriverRegistry::<P, V>::register_pci, (r, p), ()) implies (*final(
        r)).pci_drivers().take((*r).pci_drivers().len() as int) == (*r).pci_drivers() by {
        let n = (*r).pci_drivers().len() as int;
        assert((*final(r)).pci_drivers().take(n) =~= (*r).pci_drivers());
    }
    assert forall|r: &mut DriverRegistry<P, V>| #[trigger]
        call_ensures(DriverRegistry::<P, V>::register_vmbus, (r, v), ()) implies (*final(
        r)).vmbus_drivers().take((*r).vmbus_drivers().len() as int) == (*r).vmbus_drivers() by {
        let n = (*r).vmbus_drivers().len() as int;
        assert((*final(r)).vmbus_drivers().take(n) =~= (*r).vmbus_drivers());
    }
}

} // verus!
