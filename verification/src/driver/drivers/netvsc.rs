//! Hyper-V synthetic NIC (NetVSC) VMBus driver.

use super::host::{NicHost, Platform};
use crate::driver::driver::{ProbeCtx, VmBusDriver, VmBusProbe};
use crate::driver::error::ProbeError;
use crate::hyperv::guid;
use crate::hyperv::{ChannelOffer, HvError, VmBus};
use vstd::prelude::*;

verus! {

/// Marker registered with the driver registry.
pub struct NetvscDriver;

/// The devices of the family.
pub open spec fn is_netvsc(offer: ChannelOffer) -> bool {
    offer.device_type@ == guid::netvsc_bytes()
}

/// Whether only the VMBus and the state of the platform differ.
pub open spec fn same_pci<H: NicHost, C>(
    before: ProbeCtx<Platform<H, C>>,
    after: ProbeCtx<Platform<H, C>>,
) -> bool {
    &&& after.hw.cfg == before.hw.cfg
    &&& after.hw.host.acts() == before.hw.host.acts()
    &&& after.irq_pins == before.irq_pins
    &&& after.irq_alloc == before.irq_alloc
    &&& after.cpus == before.cpus
}

/// What the platform's answer makes of a probe.
pub open spec fn netvsc_result<N>(answer: Result<N, HvError>) -> Result<N, ProbeError> {
    match answer {
        Ok(nic) => Ok(nic),
        Err(_) => Err(ProbeError::Driver("netvsc: NetvscDevice::init failed")),
    }
}

impl VmBusDriver for NetvscDriver {
    fn name(&self) -> (name: &'static str)
        ensures
            name@ == "netvsc"@,
    {
        "netvsc"
    }

    fn priority(&self) -> (priority: u8)
        ensures
            priority == 10,
    {
        10
    }

    fn matches(&self, offer: &ChannelOffer) -> (r: bool)
        ensures
            r == is_netvsc(*offer),
    {
        offer.device_type == guid::netvsc()
    }
}

impl<H: NicHost, C> VmBusProbe<Platform<H, C>, H::Nic> for NetvscDriver {
    fn probe(&self, offer: ChannelOffer, ctx: &mut ProbeCtx<Platform<H, C>>) -> (r: Result<
        H::Nic,
        ProbeError,
    >)
        ensures
            same_pci(*old(ctx), *final(ctx)),
            old(ctx).vmbus is None ==> *final(ctx) == *old(ctx) && r == Err::<H::Nic, ProbeError>(
                ProbeError::Driver("netvsc: vmbus unavailable"),
            ),
            old(ctx).vmbus matches Some(vmbus) ==> exists|
                host: &mut H,
                bus: &mut VmBus,
                answer: Result<H::Nic, HvError>,
            |
                *host == old(ctx).hw.host.host() && *final(host) == final(ctx).hw.host.host()
                    && *bus == vmbus && final(ctx).vmbus == Some(*final(bus)) && r
                    == netvsc_result(answer) && #[trigger] call_ensures(
                    <H as NicHost>::netvsc,
                    (host, bus),
                    answer,
                ),
    {
        match &mut ctx.vmbus {
            None => Err(ProbeError::Driver("netvsc: vmbus unavailable")),
            Some(vmbus) => match ctx.hw.host.netvsc(vmbus) {
                Ok(nic) => Ok(nic),
                Err(_) => Err(ProbeError::Driver("netvsc: NetvscDevice::init failed")),
            },
        }
    }
}

/// The driver says its name, its priority, and which offers are of its family:
/// those of the network device type.
pub proof fn netvsc_is_this_family(
    driver: &NetvscDriver,
    offer: &ChannelOffer,
    name: &'static str,
    priority: u8,
    r: bool,
)
    ensures
        call_ensures(<NetvscDriver as VmBusDriver>::name, (driver,), name) ==> name@ == "netvsc"@,
        call_ensures(<NetvscDriver as VmBusDriver>::priority, (driver,), priority) ==> priority
            == 10,
        call_ensures(<NetvscDriver as VmBusDriver>::matches, (driver, offer), r) ==> (r
            <==> offer.device_type@ == guid::netvsc_bytes()),
        is_netvsc(*offer) <==> offer.device_type@ == guid::netvsc_bytes(),
{
}

/// A NetVSC that is probed is brought up by the platform, with the VMBus there
/// is: its answer is what is given, and fails exactly where it failed. Nothing
/// is done where there is no VMBus, and nothing to what is not its own in any
/// case.
pub proof fn netvsc_goes_up<H: NicHost, C>(
    driver: &NetvscDriver,
    offer: ChannelOffer,
    r: Result<H::Nic, ProbeError>,
)
    ensures
        forall|ctx: &mut ProbeCtx<Platform<H, C>>| #[trigger]
            call_ensures(
                <NetvscDriver as VmBusProbe<Platform<H, C>, H::Nic>>::probe,
                (driver, offer, ctx),
                r,
            ) ==> match (*ctx).vmbus {
                None => r is Err && r->Err_0 == ProbeError::Driver("netvsc: vmbus unavailable")
                    && *final(ctx) == *ctx,
                Some(vmbus) => exists|
                    host: &mut H,
                    bus: &mut VmBus,
                    answer: Result<H::Nic, HvError>,
                |
                    *host == (*ctx).hw.host.host() && *bus == vmbus && (*final(ctx)).vmbus == Some(
                        *final(bus),
                    ) && #[trigger] call_ensures(<H as NicHost>::netvsc, (host, bus), answer) && (
                    answer is Ok <==> r is Ok) && (r is Ok ==> r->Ok_0 == answer->Ok_0) && (r is Err
                        ==> r->Err_0 == ProbeError::Driver("netvsc: NetvscDevice::init failed")),
            },
        forall|ctx: &mut ProbeCtx<Platform<H, C>>| #[trigger]
            call_ensures(
                <NetvscDriver as VmBusProbe<Platform<H, C>, H::Nic>>::probe,
                (driver, offer, ctx),
                r,
            ) ==> {
                &&& (*final(ctx)).hw.cfg == (*ctx).hw.cfg
                &&& (*final(ctx)).hw.host.acts() == (*ctx).hw.host.acts()
                &&& (*final(ctx)).irq_pins == (*ctx).irq_pins
                &&& (*final(ctx)).irq_alloc == (*ctx).irq_alloc
                &&& (*final(ctx)).cpus == (*ctx).cpus
            },
{
}

} // verus!
