//! How the network is configured.

use super::arp::{asks, build_gratuitous_arp, padded_request, request_asks};
use vstd::prelude::*;

verus! {

/// Addresses by DHCP, or fixed.
#[derive(Debug, Clone, Copy)]
pub enum NetMode {
    Dhcp,
    Static { ip: [u8; 4], prefix: u8, gw: [u8; 4] },
}

/// The announcement to make before the network is used. With DHCP there is
/// none: the first DHCP message itself announces us.
pub fn announcement(mode: &NetMode, mac: &[u8; 6]) -> (frame: Option<[u8; 60]>)
    ensures
        match mode {
            NetMode::Dhcp => frame is None,
            NetMode::Static { ip, .. } => frame matches Some(f) && f@ == padded_request(
                mac@,
                ip@,
                ip@,
            ),
        },
{
    match mode {
        NetMode::Dhcp => None,
        NetMode::Static { ip, prefix: _, gw: _ } => Some(build_gratuitous_arp(mac, ip)),
    }
}

/// A fixed address is announced, under the hardware address, and one that DHCP
/// gives is not.
pub proof fn fixed_addresses_are_announced(mode: &NetMode, mac: &[u8; 6], frame: Option<[u8; 60]>)
    requires
        call_ensures(announcement, (mode, mac), frame),
    ensures
        frame is Some <==> *mode is Static,
        frame matches Some(f) ==> ({
            let frame = f@;
            let mac = mac@;
            let sender = mode->ip@;
            let target = mode->ip@;
            &&& frame.len() >= 42
            &&& forall|i: int| 0 <= i < 6 ==> #[trigger] frame[i] == 0xff
            &&& forall|i: int| 0 <= i < 6 ==> frame[6 + i] == #[trigger] mac[i]
            &&& frame[12] == 0x08 && frame[13] == 0x06
            &&& frame[14] == 0 && frame[15] == 1
            &&& frame[16] == 0x08 && frame[17] == 0
            &&& frame[18] == 6 && frame[19] == 4
            &&& frame[20] == 0 && frame[21] == 1
            &&& forall|i: int| 0 <= i < 6 ==> frame[22 + i] == #[trigger] mac[i]
            &&& forall|i: int| 0 <= i < 4 ==> frame[28 + i] == #[trigger] sender[i]
            &&& forall|i: int| 32 <= i < 38 ==> #[trigger] frame[i] == 0
            &&& forall|i: int| 0 <= i < 4 ==> frame[38 + i] == #[trigger] target[i]
        }) && forall|i: int|
            42 <= i < 60 ==> #[trigger] f@[i] == 0,
{
    if let NetMode::Static { ip, .. } = *mode {
        request_asks(mac@, ip@, ip@);
    }
}

} // verus!
