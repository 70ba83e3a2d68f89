//! ARP announcements.
//!
//! A kernel announces its address before any traffic flows, so that the
//! network learns where it is.

use crate::bytes::{le32_at, write_bytes};
use crate::hyperv::netvsc::{ChannelSend, DeviceState, NetvscDevice, NETVSC_SEND_BUF_SIZE};
use crate::hyperv::nvsp::{
    nvsp_messages_say, nvsp_send_rndis_pkt, rndis_packet, rndis_packet_says, RNDIS_PACKET_HDR_SIZE,
};
use vstd::prelude::*;

verus! {

/// Length of an ARP request over Ethernet.
pub const ARP_LEN: usize = 42;

/// Shortest Ethernet frame without its checksum.
pub const MIN_FRAME: usize = 60;

/// `n` zero bytes.
pub open spec fn zeros(n: nat) -> Seq<u8> {
    Seq::new(n, |i: int| 0u8)
}

/// The broadcast address.
pub open spec fn broadcast() -> Seq<u8> {
    Seq::new(6, |i: int| 0xffu8)
}

/// What an ARP request over Ethernet for IPv4 begins with, after the two
/// Ethernet addresses: Ethernet type ARP, hardware type Ethernet, protocol
/// IPv4, the lengths of their addresses, operation "request".
pub open spec fn arp_header() -> Seq<u8> {
    seq![0x08u8, 0x06, 0x00, 0x01, 0x08, 0x00, 0x06, 0x04, 0x00, 0x01]
}

/// A broadcast ARP request by `mac` at `sender` for `target`.
pub open spec fn arp_request(mac: Seq<u8>, sender: Seq<u8>, target: Seq<u8>) -> Seq<u8> {
    broadcast() + mac + arp_header() + mac + sender + zeros(6) + target
}

/// The same, padded to the shortest frame.
pub open spec fn padded_request(mac: Seq<u8>, sender: Seq<u8>, target: Seq<u8>) -> Seq<u8> {
    arp_request(mac, sender, target) + zeros((MIN_FRAME - ARP_LEN) as nat)
}

fn write_request(frame: &mut [u8], mac: &[u8; 6], sender: &[u8; 4], target: &[u8; 4])
    requires
        old(frame)@.len() >= ARP_LEN,
    ensures
        final(frame)@ == arp_request(mac@, sender@, target@) + old(frame)@.skip(ARP_LEN as int),
{
    let ghost before = frame@;
    let all: [u8; 6] = [0xff; 6];
    let header: [u8; 10] = [0x08, 0x06, 0x00, 0x01, 0x08, 0x00, 0x06, 0x04, 0x00, 0x01];
    let none: [u8; 6] = [0; 6];
    write_bytes(frame, 0, &all);
    write_bytes(frame, 6, mac);
    write_bytes(frame, 12, &header);
    write_bytes(frame, 22, mac);
    write_bytes(frame, 28, sender);
    write_bytes(frame, 32, &none);
    write_bytes(frame, 38, target);
    assert(header@ =~= arp_header());
    assert(all@ =~= broadcast());
    assert(none@ =~= zeros(6));
    assert(frame@ =~= arp_request(mac@, sender@, target@) + before.skip(ARP_LEN as int));
}

/// Build a broadcast ARP request by `mac` at `sender` for `target`.
pub fn build_arp_request(mac: &[u8; 6], sender: &[u8; 4], target: &[u8; 4]) -> (frame: [u8; 42])
    ensures
        frame@ == arp_request(mac@, sender@, target@),
{
    let mut frame: [u8; 42] = [0; 42];
    write_request(&mut frame, mac, sender, target);
    assert(frame@ =~= arp_request(mac@, sender@, target@));
    frame
}

/// The same, padded to the 60-byte Ethernet minimum.
pub fn build_padded_request(mac: &[u8; 6], sender: &[u8; 4], target: &[u8; 4]) -> (frame: [u8; 60])
    ensures
        frame@ == padded_request(mac@, sender@, target@),
{
    let mut frame: [u8; 60] = [0; 60];
    write_request(&mut frame, mac, sender, target);
    assert(frame@ =~= padded_request(mac@, sender@, target@));
    frame
}

/// Build a gratuitous ARP: a request for `our_ip` that claims `mac` as its MAC
/// address, padded to the 60-byte Ethernet minimum.
pub fn build_gratuitous_arp(mac: &[u8; 6], our_ip: &[u8; 4]) -> (frame: [u8; 60])
    ensures
        frame@ == padded_request(mac@, our_ip@, our_ip@),
{
    build_padded_request(mac, our_ip, our_ip)
}

/// Send a gratuitous ARP for `our_ip` claiming `mac` as the MAC address,
/// through the device's send buffer. The result is to be sent on the channel.
pub fn send_gratuitous_arp(
    netvsc: &mut NetvscDevice,
    mac: &[u8; 6],
    our_ip: &[u8; 4],
    send_buf: &mut [u8],
) -> (send: ChannelSend)
    requires
        old(send_buf)@.len() == NETVSC_SEND_BUF_SIZE,
        old(netvsc)@.next_txid < u64::MAX,
    ensures
        final(send_buf)@ == rndis_packet(padded_request(mac@, our_ip@, our_ip@)) + old(
            send_buf,
        )@.skip((RNDIS_PACKET_HDR_SIZE + MIN_FRAME) as int),
        send.message@ == nvsp_send_rndis_pkt(0, 0, 104),
        send.txid == old(netvsc)@.next_txid,
        final(netvsc)@ == (DeviceState {
            next_txid: (old(netvsc)@.next_txid + 1) as u64,
            ..old(netvsc)@
        }),
{
    let frame = build_gratuitous_arp(mac, our_ip);
    netvsc.transmit(&frame, send_buf)
}

/// A request says who asks, twice, and for whom; and it is a whole frame.
pub proof fn request_fields(mac: Seq<u8>, sender: Seq<u8>, target: Seq<u8>)
    requires
        mac.len() == 6,
        sender.len() == 4,
        target.len() == 4,
    ensures
        arp_request(mac, sender, target).len() == ARP_LEN,
        padded_request(mac, sender, target).len() == MIN_FRAME,
        arp_request(mac, sender, target).subrange(6, 12) == mac,
        arp_request(mac, sender, target).subrange(22, 28) == mac,
        arp_request(mac, sender, target).subrange(28, 32) == sender,
        arp_request(mac, sender, target).subrange(38, 42) == target,
{
    let r = arp_request(mac, sender, target);
    assert(r.subrange(6, 12) =~= mac);
    assert(r.subrange(22, 28) =~= mac);
    assert(r.subrange(28, 32) =~= sender);
    assert(r.subrange(38, 42) =~= target);
}

/// A request, byte by byte: to everyone, from `mac`; ARP over Ethernet for
/// IPv4; "request"; who asks, by both addresses; for whom, with the hardware
/// address left open.
pub proof fn request_is_so(
    mac: &[u8; 6],
    sender: &[u8; 4],
    target: &[u8; 4],
    frame: [u8; 42],
    padded: [u8; 60],
    claim: [u8; 60],
)
    ensures
        call_ensures(build_arp_request, (mac, sender, target), frame) ==> ({
            let frame = frame@;
            let mac = mac@;
            let sender = sender@;
            let target = target@;
            &&& frame.len() >= 42
            &&& forall|i: int| 0 <= i < 6 ==> #[trigger] frame[i] == 0xff
            &&& forall|i: int| 0 <= i < 6 ==> frame[6 + i] == #[trigger] mac[i]
            &&& frame[12] == 0x08 && frame[13] == 0x06
            &&& frame[14] == 0 && frame[15] == 1
            &&& frame[16] == 0x08 && frame[17] == 0
            &&& frame[18] == 6 && frame[19] == 4
            &&& frame[20] == 0 && frame[21] == 1
            &&& forall|i: int| 0 <= i < 6 ==> frame[22 + i] == #[trigger] mac[i]
            &&& forall|i: int| 0 <= i < 4 ==> frame[28 + i] == #[trigger] sender[i]
            &&& forall|i: int| 32 <= i < 38 ==> #[trigger] frame[i] == 0
            &&& forall|i: int| 0 <= i < 4 ==> frame[38 + i] == #[trigger] target[i]
        }),
        call_ensures(build_padded_request, (mac, sender, target), padded) ==> ({
            let frame = padded@;
            let mac = mac@;
            let sender = sender@;
            let target = target@;
            &&& frame.len() >= 42
            &&& forall|i: int| 0 <= i < 6 ==> #[trigger] frame[i] == 0xff
            &&& forall|i: int| 0 <= i < 6 ==> frame[6 + i] == #[trigger] mac[i]
            &&& frame[12] == 0x08 && frame[13] == 0x06
            &&& frame[14] == 0 && frame[15] == 1
            &&& frame[16] == 0x08 && frame[17] == 0
            &&& frame[18] == 6 && frame[19] == 4
            &&& frame[20] == 0 && frame[21] == 1
            &&& forall|i: int| 0 <= i < 6 ==> frame[22 + i] == #[trigger] mac[i]
            &&& forall|i: int| 0 <= i < 4 ==> frame[28 + i] == #[trigger] sender[i]
            &&& forall|i: int| 32 <= i < 38 ==> #[trigger] frame[i] == 0
            &&& forall|i: int| 0 <= i < 4 ==> frame[38 + i] == #[trigger] target[i]
        }) && forall|i: int| 42 <= i < 60 ==> #[trigger] padded@[i] == 0,
        call_ensures(build_gratuitous_arp, (mac, sender), claim) ==> ({
            let (frame, mac, sender, target) = (claim@, mac@, sender@, sender@);
            &&& frame.len() >= 42
            &&& forall|i: int| 0 <= i < 6 ==> #[trigger] frame[i] == 0xff
            &&& forall|i: int| 0 <= i < 6 ==> frame[6 + i] == #[trigger] mac[i]
            &&& frame[12] == 0x08 && frame[13] == 0x06
            &&& frame[14] == 0 && frame[15] == 1
            &&& frame[16] == 0x08 && frame[17] == 0
            &&& frame[18] == 6 && frame[19] == 4
            &&& frame[20] == 0 && frame[21] == 1
            &&& forall|i: int| 0 <= i < 6 ==> frame[22 + i] == #[trigger] mac[i]
            &&& forall|i: int| 0 <= i < 4 ==> frame[28 + i] == #[trigger] sender[i]
            &&& forall|i: int| 32 <= i < 38 ==> #[trigger] frame[i] == 0
            &&& forall|i: int| 0 <= i < 4 ==> frame[38 + i] == #[trigger] target[i]
        }) && forall|i: int| 42 <= i < 60 ==> #[trigger] claim@[i] == 0,
{
    request_asks(mac@, sender@, target@);
    request_asks(mac@, sender@, sender@);
}

/// Whether `frame` begins with a request by `mac` at `sender` for `target`.
pub open spec fn asks(frame: Seq<u8>, mac: Seq<u8>, sender: Seq<u8>, target: Seq<u8>) -> bool {
    &&& frame.len() >= 42
    &&& forall|i: int| 0 <= i < 6 ==> #[trigger] frame[i] == 0xff
    &&& forall|i: int| 0 <= i < 6 ==> frame[6 + i] == #[trigger] mac[i]
    &&& frame[12] == 0x08 && frame[13] == 0x06
    &&& frame[14] == 0 && frame[15] == 1
    &&& frame[16] == 0x08 && frame[17] == 0
    &&& frame[18] == 6 && frame[19] == 4
    &&& frame[20] == 0 && frame[21] == 1
    &&& forall|i: int| 0 <= i < 6 ==> frame[22 + i] == #[trigger] mac[i]
    &&& forall|i: int| 0 <= i < 4 ==> frame[28 + i] == #[trigger] sender[i]
    &&& forall|i: int| 32 <= i < 38 ==> #[trigger] frame[i] == 0
    &&& forall|i: int| 0 <= i < 4 ==> frame[38 + i] == #[trigger] target[i]
}

/// What requests are made of.
pub proof fn request_asks(mac: Seq<u8>, sender: Seq<u8>, target: Seq<u8>)
    requires
        mac.len() == 6,
        sender.len() == 4,
        target.len() == 4,
    ensures
        asks(arp_request(mac, sender, target), mac, sender, target),
        asks(padded_request(mac, sender, target), mac, sender, target),
        padded_request(mac, sender, target).len() == 60,
        arp_request(mac, sender, target).len() == 42,
        forall|i: int| 42 <= i < 60 ==> #[trigger] padded_request(mac, sender, target)[i] == 0,
{
    let r = arp_request(mac, sender, target);
    assert forall|i: int| 0 <= i < 6 implies r[6 + i] == #[trigger] mac[i] && r[22 + i] == mac[i] by {}
    assert forall|i: int| 0 <= i < 10 implies r[12 + i] == #[trigger] arp_header()[i] by {}
    let h = arp_header();
    assert(r[12] == h[0] && r[13] == h[1] && r[14] == h[2] && r[15] == h[3] && r[16] == h[4]
        && r[17] == h[5] && r[18] == h[6] && r[19] == h[7] && r[20] == h[8] && r[21] == h[9]);
    assert forall|i: int| 0 <= i < 4 implies r[28 + i] == #[trigger] sender[i] by {}
    assert forall|i: int| 0 <= i < 4 implies r[38 + i] == #[trigger] target[i] by {}
    let p = padded_request(mac, sender, target);
    assert forall|i: int| 0 <= i < 42 implies #[trigger] p[i] == r[i] by {}
}

/// What is sent to announce an address: a packet of 104 bytes on the data
/// channel, of which the last sixty claim the address.
pub proof fn announcement_is_sent(mac: &[u8; 6], ip: &[u8; 4], send: ChannelSend)
    ensures
        forall|dev: &mut NetvscDevice, buf: &mut [u8]| #[trigger]
            call_ensures(send_gratuitous_arp, (dev, mac, ip, buf), send) && (*buf)@.len() == 1048576
                && (*dev)@.next_txid < u64::MAX ==> {
                let out = (*final(buf))@;
                &&& out.len() == 1048576
                &&& le32_at(out, 4) == 104
                &&& le32_at(out, 12) == 60
                &&& ({
                    let frame = out.subrange(44, 104);
                    let mac = mac@;
                    let sender = ip@;
                    let target = ip@;
                    &&& frame.len() >= 42
                    &&& forall|i: int| 0 <= i < 6 ==> #[trigger] frame[i] == 0xff
                    &&& forall|i: int| 0 <= i < 6 ==> frame[6 + i] == #[trigger] mac[i]
                    &&& frame[12] == 0x08 && frame[13] == 0x06
                    &&& frame[14] == 0 && frame[15] == 1
                    &&& frame[16] == 0x08 && frame[17] == 0
                    &&& frame[18] == 6 && frame[19] == 4
                    &&& frame[20] == 0 && frame[21] == 1
                    &&& forall|i: int| 0 <= i < 6 ==> frame[22 + i] == #[trigger] mac[i]
                    &&& forall|i: int| 0 <= i < 4 ==> frame[28 + i] == #[trigger] sender[i]
                    &&& forall|i: int| 32 <= i < 38 ==> #[trigger] frame[i] == 0
                    &&& forall|i: int| 0 <= i < 4 ==> frame[38 + i] == #[trigger] target[i]
                })
                &&& out.skip(104) == (*buf)@.skip(104)
                &&& le32_at(send.message@, 0) == 107
                &&& le32_at(send.message@, 4) == 0
                &&& le32_at(send.message@, 12) == 104
                &&& send.txid == (*dev)@.next_txid
                &&& (*final(dev))@ == (DeviceState {
                    next_txid: (send.txid + 1) as u64,
                    ..(*dev)@
                })
            },
{
    request_asks(mac@, ip@, ip@);
    let frame = padded_request(mac@, ip@, ip@);
    rndis_packet_says(frame);
    nvsp_messages_say(0, 0, 0, 0, 0, 104);
    assert forall|dev: &mut NetvscDevice, buf: &mut [u8]| #[trigger]
        call_ensures(send_gratuitous_arp, (dev, mac, ip, buf), send) && (*buf)@.len() == 1048576
            && (*dev)@.next_txid < u64::MAX implies {
        let out = (*final(buf))@;
        &&& out.len() == 1048576
        &&& le32_at(out, 4) == 104
        &&& le32_at(out, 12) == 60
        &&& asks(out.subrange(44, 104), mac@, ip@, ip@)
        &&& out.skip(104) == (*buf)@.skip(104)
    } by {
        let out = (*final(buf))@;
        let m = rndis_packet(frame);
        assert(out == m + (*buf)@.skip(104));
        assert forall|i: int| 0 <= i < 104 implies #[trigger] out[i] == m[i] by {}
        assert(out.subrange(44, 104) =~= m.skip(44));
        assert(m.skip(8 + le32_at(m, 8)) == frame);
        assert(out.skip(104) =~= (*buf)@.skip(104));
    }
}

} // verus!
