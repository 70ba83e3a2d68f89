//! `register_default_drivers` helper.

use super::drivers::e1000::is_e1000;
use super::drivers::tulip::is_tulip;
use super::drivers::{E1000Driver, InTreePci, NetvscDriver, NicHost, Platform, TulipDriver};
use super::driver::ProbedNic;
use super::error::ProbeError;
use super::probe::{is_pci_nic, is_vmbus_nic, pci_said, Answer, Answers, Claim};
use super::registry::DriverRegistry;
use crate::hal::pci::PciDevice;
use crate::regs::RegisterAccess;
use crate::text::same_text;
use vstd::prelude::*;

verus! {

/// Register every in-tree driver with the registry. Applications that want a
/// custom subset should call `registry.register_pci()` /
/// `registry.register_vmbus()` directly instead.
pub fn register_default_drivers(registry: &mut DriverRegistry<InTreePci, NetvscDriver>)
    ensures
        final(registry).pci_drivers() == old(registry).pci_drivers().push(
            InTreePci::E1000(E1000Driver),
        ).push(InTreePci::Tulip(TulipDriver)),
        final(registry).vmbus_drivers() == old(registry).vmbus_drivers().push(NetvscDriver),
{
    registry.register_pci(InTreePci::E1000(E1000Driver));
    registry.register_pci(InTreePci::Tulip(TulipDriver));
    registry.register_vmbus(NetvscDriver);
}

/// The drivers that there are of a name, among the in-tree ones.
pub open spec fn named_pci(name: Seq<char>) -> Seq<InTreePci> {
    if name == "e1000"@ {
        seq![InTreePci::E1000(E1000Driver)]
    } else if name == "tulip"@ {
        seq![InTreePci::Tulip(TulipDriver)]
    } else {
        seq![]
    }
}

/// Register only the in-tree driver that is called `name`, to force the use of
/// its NIC where there are several. A name that no driver has registers none.
pub fn register_named_driver(registry: &mut DriverRegistry<InTreePci, NetvscDriver>, name: &str)
    ensures
        final(registry).pci_drivers() == old(registry).pci_drivers() + named_pci(name@),
        final(registry).vmbus_drivers() == if name@ == "netvsc"@ {
            old(registry).vmbus_drivers().push(NetvscDriver)
        } else {
            old(registry).vmbus_drivers()
        },
{
    proof {
        reveal_strlit("e1000");
        reveal_strlit("tulip");
        reveal_strlit("netvsc");
        assert("e1000"@[0] != "tulip"@[0] && "e1000"@[0] != "netvsc"@[0]);
        assert("tulip"@[0] != "netvsc"@[0]);
    }
    if same_text(name, "e1000") {
        registry.register_pci(InTreePci::E1000(E1000Driver));
    } else if same_text(name, "tulip") {
        registry.register_pci(InTreePci::Tulip(TulipDriver));
    } else if same_text(name, "netvsc") {
        registry.register_vmbus(NetvscDriver);
    }
    assert(registry.pci_drivers() =~= old(registry).pci_drivers() + named_pci(name@));
}

/// A driver that is registered by name has that name.
pub proof fn named_driver_has_the_name(name: Seq<char>)
    ensures
        named_pci(name).len() <= 1,
        forall|i: int|
            0 <= i < named_pci(name).len() ==> (#[trigger] named_pci(name)[i]).label() == name,
{
}

/// No PCI device is driven by both PCI drivers.
pub proof fn families_are_disjoint(dev: PciDevice)
    ensures
        !(is_e1000(dev) && is_tulip(dev)),
{
}

/// An in-tree PCI driver probes exactly the devices of its family.
pub proof fn in_tree_answers<H: NicHost, C: RegisterAccess>(
    driver: InTreePci,
    dev: PciDevice,
    answer: Answer<H::Nic>,
)
    requires
        pci_said::<Platform<H, C>, H::Nic, InTreePci>(driver, dev, answer),
    ensures
        answer is Tried <==> driver.drives(dev),
{
    reveal(pci_said);
}

/// An in-tree PCI driver fails only where the device does not come out of
/// reset, or where its interrupt cannot be routed.
pub proof fn in_tree_failures<H: NicHost, C: RegisterAccess>(
    driver: InTreePci,
    dev: PciDevice,
    e: ProbeError,
)
    requires
        pci_said::<Platform<H, C>, H::Nic, InTreePci>(driver, dev, Answer::Tried(Err(e))),
    ensures
        e is InvalidIrqLine || e is NoFreeVector || (driver is E1000 && e == ProbeError::Driver(
            "e1000 reset timeout",
        )),
{
    reveal(pci_said);
}

/// A NetVSC is preferred to an e1000, and that to a tulip.
pub proof fn netvsc_comes_first<N>(
    pci: Seq<InTreePci>,
    vmbus: Seq<NetvscDriver>,
    answers: Answers<N>,
    claims: (Claim, Claim, Claim),
    nics: (ProbedNic<N>, ProbedNic<N>, ProbedNic<N>),
)
    requires
        is_vmbus_nic(nics.0, vmbus, answers, claims.0),
        is_pci_nic(nics.1, pci, answers, claims.1),
        pci[claims.1.driver] is E1000,
        is_pci_nic(nics.2, pci, answers, claims.2),
        pci[claims.2.driver] is Tulip,
    ensures
        nics.0.priority < nics.1.priority < nics.2.priority,
{
}

/// A name registers the driver that says that name, and no other; a name that
/// none says registers none. Without a name every in-tree driver is registered,
/// each on its own bus.
pub proof fn drivers_are_registered_by_name(name: &str)
    ensures
        forall|r: &mut DriverRegistry<InTreePci, NetvscDriver>| #[trigger]
            call_ensures(register_named_driver, (r, name), ()) ==> {
                let pci = (*r).pci_drivers().len() as int;
                let vmbus = (*r).vmbus_drivers().len() as int;
                let pci_now = (*final(r)).pci_drivers();
                let vmbus_now = (*final(r)).vmbus_drivers();
                &&& name@ == "e1000"@ ==> pci_now.len() == pci + 1 && pci_now[pci] is E1000
                    && vmbus_now.len() == vmbus
                &&& name@ == "tulip"@ ==> pci_now.len() == pci + 1 && pci_now[pci] is Tulip
                    && vmbus_now.len() == vmbus
                &&& name@ == "netvsc"@ ==> pci_now.len() == pci && vmbus_now.len() == vmbus + 1
                &&& name@ != "e1000"@ && name@ != "tulip"@ && name@ != "netvsc"@ ==> pci_now.len()
                    == pci && vmbus_now.len() == vmbus
            },
        forall|r: &mut DriverRegistry<InTreePci, NetvscDriver>| #[trigger]
            call_ensures(register_default_drivers, (r,), ()) ==> {
                let pci = (*r).pci_drivers().len() as int;
                let vmbus = (*r).vmbus_drivers().len() as int;
                &&& (*final(r)).pci_drivers().len() == pci + 2
                &&& (*final(r)).pci_drivers()[pci] is E1000
                &&& (*final(r)).pci_drivers()[pci + 1] is Tulip
                &&& (*final(r)).vmbus_drivers().len() == vmbus + 1
            },
{
    reveal_strlit("e1000");
    reveal_strlit("tulip");
    reveal_strlit("netvsc");
    assert("e1000"@[0] == 'e' && "tulip"@[0] == 't' && "netvsc"@[0] == 'n');
}

} // verus!
