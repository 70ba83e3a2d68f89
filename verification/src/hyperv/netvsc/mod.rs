//! NetVSC (Hyper-V synthetic NIC): the device and its data path.
//!
//! The device speaks NVSP over a VMBus channel and RNDIS through two buffers
//! that it shares with the host. This module decides what goes into the
//! buffers and onto the channel and what comes out of them; the caller owns
//! the channel and the shared memory.

pub mod init;
pub mod session;

use crate::hyperv::error::HvError;
use crate::hyperv::nvsp::{
    build_nvsp_send_rndis_pkt, build_rndis_keepalive_cmplt, build_rndis_packet,
    keepalive_answer_says, nvsp_messages_say, nvsp_send_rndis_pkt, nvsp_type, parse_nvsp_type,
    rndis_keepalive_cmplt, rndis_packet, rndis_packet_says, NVSP_MSG1_TYPE_SEND_RNDIS_PKT,
    RNDIS_MSG_KEEPALIVE, RNDIS_MSG_PACKET, RNDIS_PACKET_HDR_SIZE,
};
use crate::bytes::{le32_at, overwrite, read_le32, words_round_trip, write_bytes};
use crate::dma::DmaRegion;
use vstd::prelude::*;

verus! {

/// NVSP receive buffer id (arbitrary, must be non-zero).
pub const NETVSC_RECEIVE_BUFFER_ID: u16 = 0xCAFE;

/// NVSP send buffer id.
pub const NETVSC_SEND_BUFFER_ID: u16 = 0xBEEF;

/// 2 MiB.
pub const NETVSC_RECV_BUF_SIZE: usize = 2097152;

/// 1 MiB.
pub const NETVSC_SEND_BUF_SIZE: usize = 1048576;

/// 256 KiB (128 KiB each way).
pub const NETVSC_RING_SIZE: usize = 262144;

/// Page frame numbers of a region.
pub open spec fn pfns(region: DmaRegion) -> Seq<u64> {
    Seq::new((region.size / 4096) as nat, |i: int| ((region.paddr + i * 4096) / 4096) as u64)
}

/// Build PFN list from a DmaRegion (contiguous physical pages).
pub fn pfn_list(region: &DmaRegion) -> (list: Vec<u64>)
    requires
        region.paddr + region.size <= usize::MAX,
    ensures
        list@ == pfns(*region),
{
    let num_pages: usize = region.size / 4096;
    let mut list: Vec<u64> = Vec::with_capacity(num_pages);
    let mut i: usize = 0;
    while i < num_pages
        invariant
            i <= num_pages,
            num_pages == region.size / 4096,
            region.paddr + region.size <= usize::MAX,
            list@ == pfns(*region).take(i as int),
        decreases num_pages - i,
    {
        list.push(((region.paddr + i * 4096) / 4096) as u64);
        i += 1;
        assert(list@ =~= pfns(*region).take(i as int));
    }
    assert(list@ =~= pfns(*region));
    list
}

/// What a [`NetvscDevice`] keeps.
pub struct DeviceState {
    pub recv_buf: DmaRegion,
    pub recv_gpadl: u32,
    pub send_buf: DmaRegion,
    pub send_gpadl: u32,
    pub nvsp_version: u32,
    pub mac: Seq<u8>,
    pub mtu: u32,
    pub next_request_id: u32,
    pub next_txid: u64,
}

/// NetVSC synthetic NIC device.
#[derive(Clone, Copy)]
pub struct NetvscDevice {
    recv_buf: DmaRegion,
    recv_gpadl: u32,
    send_buf: DmaRegion,
    send_gpadl: u32,
    nvsp_version: u32,
    mac: [u8; 6],
    mtu: u32,
    next_request_id: u32,
    next_txid: u64,
}

impl View for NetvscDevice {
    type V = DeviceState;

    closed spec fn view(&self) -> DeviceState {
        DeviceState {
            recv_buf: self.recv_buf,
            recv_gpadl: self.recv_gpadl,
            send_buf: self.send_buf,
            send_gpadl: self.send_gpadl,
            nvsp_version: self.nvsp_version,
            mac: self.mac@,
            mtu: self.mtu,
            next_request_id: self.next_request_id,
            next_txid: self.next_txid,
        }
    }
}

/// A packet for the VMBus channel: an NVSP message and its transaction id.
pub struct ChannelSend {
    pub message: [u8; 64],
    pub txid: u64,
}

/// What came of a look at the channel.
pub struct Received {
    /// Length of the frame that was delivered, if one was.
    pub frame: Option<usize>,
    /// Packet that answers the host, if it asked for an answer. Sending it is
    /// best-effort.
    pub answer: Option<ChannelSend>,
}

/// The Ethernet frame that the receive buffer holds, cut to `room` bytes.
///
/// RNDIS_PACKET_MSG is type, length, data offset and data length; the offset
/// counts from the offset field itself.
pub open spec fn frame_in(recv: Seq<u8>, room: nat) -> Option<Seq<u8>> {
    let start = 8 + le32_at(recv, 8);
    let n = if le32_at(recv, 12) < room {
        le32_at(recv, 12) as int
    } else {
        room as int
    };
    if le32_at(recv, 0) == RNDIS_MSG_PACKET && start + n <= NETVSC_RECV_BUF_SIZE {
        Some(recv.subrange(start, start + n))
    } else {
        None
    }
}

/// What the answer to the receive buffer's keepalive does to the send buffer.
pub open spec fn keepalive_answer(recv: Seq<u8>) -> Seq<u8> {
    rndis_keepalive_cmplt(le32_at(recv, 8))
}

/// Whether what the channel had says that there is data in the receive buffer.
pub open spec fn carries_data(packet: Result<Option<&[u8]>, HvError>) -> bool {
    packet matches Ok(Some(bytes)) && nvsp_type(bytes@) == Some(NVSP_MSG1_TYPE_SEND_RNDIS_PKT)
}

impl NetvscDevice {
    /// MAC address assigned by the hypervisor.
    pub fn mac(&self) -> (mac: [u8; 6])
        ensures
            mac@ == self@.mac,
    {
        self.mac
    }

    /// Maximum transmission unit.
    pub fn mtu(&self) -> (mtu: u32)
        ensures
            mtu == self@.mtu,
    {
        self.mtu
    }

    /// NVSP protocol version negotiated with the host.
    pub fn nvsp_version(&self) -> (version: u32)
        ensures
            version == self@.nvsp_version,
    {
        self.nvsp_version
    }

    /// Where the receive buffer lies.
    pub fn recv_buf(&self) -> (region: DmaRegion)
        ensures
            region == self@.recv_buf,
    {
        self.recv_buf
    }

    /// Where the send buffer lies.
    pub fn send_buf(&self) -> (region: DmaRegion)
        ensures
            region == self@.send_buf,
    {
        self.send_buf
    }

    /// The number of the next transaction.
    pub fn next_txid(&self) -> (txid: u64)
        ensures
            txid == self@.next_txid,
    {
        self.next_txid
    }

    /// Transmit an Ethernet frame via RNDIS_PACKET_MSG: put it into the send
    /// buffer and hand back the packet that tells the host.
    pub fn transmit(&mut self, frame: &[u8], send_buf: &mut [u8]) -> (send: ChannelSend)
        requires
            old(send_buf)@.len() == NETVSC_SEND_BUF_SIZE,
            RNDIS_PACKET_HDR_SIZE + frame@.len() <= NETVSC_SEND_BUF_SIZE,
            old(self)@.next_txid < u64::MAX,
        ensures
            final(send_buf)@ == rndis_packet(frame@) + old(send_buf)@.skip(
                (RNDIS_PACKET_HDR_SIZE + frame@.len()) as int,
            ),
            send.message@ == nvsp_send_rndis_pkt(0, 0, (44 + frame@.len()) as u32),
            send.txid == old(self)@.next_txid,
            final(self)@ == (DeviceState {
                next_txid: (old(self)@.next_txid + 1) as u64,
                ..old(self)@
            }),
    {
        let rndis_len: usize = build_rndis_packet(frame, send_buf);
        let mut message = [0u8; 64];
        build_nvsp_send_rndis_pkt(0, 0, rndis_len as u32, &mut message);
        assert(message@ =~= nvsp_send_rndis_pkt(0, 0, (44 + frame@.len()) as u32));
        let txid: u64 = self.next_txid;
        self.next_txid = txid + 1;
        ChannelSend { message, txid }
    }

    /// Try to receive an Ethernet frame. `packet` is what the channel had, if
    /// it had anything; the frame itself is taken out of the receive buffer. An
    /// error of the channel is handed on.
    pub fn try_receive(
        &self,
        packet: Result<Option<&[u8]>, HvError>,
        recv_buf: &[u8],
        frame_buf: &mut [u8],
        send_buf: &mut [u8],
    ) -> (r: Result<Received, HvError>)
        requires
            recv_buf@.len() == NETVSC_RECV_BUF_SIZE,
            old(send_buf)@.len() == NETVSC_SEND_BUF_SIZE,
        ensures
            r is Ok <==> packet is Ok,
            packet matches Err(e) ==> r == Err::<Received, HvError>(e),
            carries_data(packet) ==> extracted(
                recv_buf@,
                old(frame_buf)@,
                final(frame_buf)@,
                old(send_buf)@,
                final(send_buf)@,
                r->Ok_0,
            ),
            !carries_data(packet) ==> {
                &&& r matches Ok(received) ==> received.frame is None && received.answer is None
                &&& final(frame_buf)@ == old(frame_buf)@
                &&& final(send_buf)@ == old(send_buf)@
            },
    {
        match packet {
            Err(e) => {
                return Err(e);
            },
            Ok(Some(pkt)) => {
                match parse_nvsp_type(pkt) {
                    Some(NVSP_MSG1_TYPE_SEND_RNDIS_PKT) => {
                        return Ok(self.extract_data_frame(recv_buf, frame_buf, send_buf));
                    },
                    // TX completions and messages of other types are dropped.
                    _ => {},
                }
            },
            Ok(None) => {},
        }
        Ok(Received { frame: None, answer: None })
    }

    /// Extract a data frame from the receive buffer, or answer a keepalive
    /// that lies in it.
    pub fn extract_data_frame(
        &self,
        recv_buf: &[u8],
        frame_buf: &mut [u8],
        send_buf: &mut [u8],
    ) -> (r: Received)
        requires
            recv_buf@.len() == NETVSC_RECV_BUF_SIZE,
            old(send_buf)@.len() == NETVSC_SEND_BUF_SIZE,
        ensures
            extracted(
                recv_buf@,
                old(frame_buf)@,
                final(frame_buf)@,
                old(send_buf)@,
                final(send_buf)@,
                r,
            ),
    {
        let rndis_type: u32 = read_le32(recv_buf, 0);
        if rndis_type == RNDIS_MSG_PACKET {
            let data_offset: u32 = read_le32(recv_buf, 8);
            let data_len: u32 = read_le32(recv_buf, 12);
            let frame_start: u64 = 8 + data_offset as u64;
            let room: usize = frame_buf.len();
            let copy_len: usize = if (data_len as u64) < room as u64 {
                data_len as usize
            } else {
                room
            };
            if copy_len <= NETVSC_RECV_BUF_SIZE && frame_start + copy_len as u64
                <= NETVSC_RECV_BUF_SIZE as u64 {
                let at: usize = frame_start as usize;
                let part = vstd::slice::slice_subrange(recv_buf, at, at + copy_len);
                write_bytes(frame_buf, 0, part);
                return Received { frame: Some(copy_len), answer: None };
            }
        } else if rndis_type == RNDIS_MSG_KEEPALIVE {
            let send = self.answer_keepalive(recv_buf, send_buf);
            return Received { frame: None, answer: Some(send) };
        }
        Received { frame: None, answer: None }
    }

    /// Answer the keepalive in the receive buffer.
    fn answer_keepalive(&self, recv_buf: &[u8], send_buf: &mut [u8]) -> (send: ChannelSend)
        requires
            recv_buf@.len() == NETVSC_RECV_BUF_SIZE,
            old(send_buf)@.len() == NETVSC_SEND_BUF_SIZE,
        ensures
            final(send_buf)@ == overwrite(old(send_buf)@, 0, keepalive_answer(recv_buf@)),
            send.message@ == nvsp_send_rndis_pkt(1, 0, 16),
            send.txid == 0,
    {
        let req_id: u32 = read_le32(recv_buf, 8);
        let mut resp = [0u8; 16];
        build_rndis_keepalive_cmplt(req_id, &mut resp);
        assert(resp@ =~= keepalive_answer(recv_buf@));
        self.send_rndis_control_inner(&resp, send_buf)
    }

    /// Put an RNDIS control message into the send buffer, outside the
    /// numbering of transactions.
    fn send_rndis_control_inner(&self, rndis_msg: &[u8], send_buf: &mut [u8]) -> (send: ChannelSend)
        requires
            rndis_msg@.len() <= old(send_buf)@.len() == NETVSC_SEND_BUF_SIZE,
        ensures
            final(send_buf)@ == overwrite(old(send_buf)@, 0, rndis_msg@),
            send.message@ == nvsp_send_rndis_pkt(1, 0, rndis_msg@.len() as u32),
            send.txid == 0,
    {
        write_bytes(send_buf, 0, rndis_msg);
        let mut message = [0u8; 64];
        build_nvsp_send_rndis_pkt(1, 0, rndis_msg.len() as u32, &mut message);
        assert(message@ =~= nvsp_send_rndis_pkt(1, 0, rndis_msg@.len() as u32));
        ChannelSend { message, txid: 0 }
    }
}

/// What [`NetvscDevice::extract_data_frame`] does with a receive buffer: a
/// packet is copied out, a keepalive is answered, anything else is left alone.
pub open spec fn extracted(
    recv: Seq<u8>,
    frame_before: Seq<u8>,
    frame_after: Seq<u8>,
    send_before: Seq<u8>,
    send_after: Seq<u8>,
    r: Received,
) -> bool {
    &&& match frame_in(recv, frame_before.len()) {
        Some(frame) => r.frame == Some(frame.len() as usize) && frame_after == overwrite(
            frame_before,
            0,
            frame,
        ),
        None => r.frame is None && frame_after == frame_before,
    }
    &&& if le32_at(recv, 0) == RNDIS_MSG_KEEPALIVE {
        &&& r.answer is Some
        &&& r.answer->0.message@ == nvsp_send_rndis_pkt(1, 0, 16)
        &&& r.answer->0.txid == 0
        &&& send_after == overwrite(send_before, 0, keepalive_answer(recv))
    } else {
        r.answer is None && send_after == send_before
    }
}

/// A frame that [`NetvscDevice::transmit`] wraps is the frame that
/// [`NetvscDevice::extract_data_frame`] unwraps, cut to the room there is.
pub proof fn packet_round_trip(frame: Seq<u8>, rest: Seq<u8>, room: nat)
    requires
        RNDIS_PACKET_HDR_SIZE + frame.len() + rest.len() == NETVSC_RECV_BUF_SIZE,
    ensures
        frame_in(rndis_packet(frame) + rest, room) == Some(
            frame.take(
                if frame.len() < room {
                    frame.len() as int
                } else {
                    room as int
                },
            ),
        ),
{
    let header = seq![
        RNDIS_MSG_PACKET,
        (44 + frame.len()) as u32,
        36u32,
        frame.len() as u32,
        0u32,
        0u32,
        0u32,
        0u32,
        0u32,
        0u32,
        0u32,
    ];
    let recv = rndis_packet(frame) + rest;
    assert(recv =~= crate::bytes::words(header) + (frame + rest));
    words_round_trip(header, frame + rest, 0);
    words_round_trip(header, frame + rest, 2);
    words_round_trip(header, frame + rest, 3);
    let n = if frame.len() < room {
        frame.len() as int
    } else {
        room as int
    };
    assert(recv.subrange(44, 44 + n) =~= frame.take(n));
}

// ── What the data path comes to ─────────────────────────────────────────

/// The page frame numbers of a region are those of its pages, one after
/// another from its address on, and there are as many as whole pages fit in it.
pub proof fn pfns_are_the_pages(region: &DmaRegion, list: Vec<u64>)
    requires
        call_ensures(pfn_list, (region,), list),
    ensures
        list@.len() * 4096 <= region.size < (list@.len() + 1) * 4096,
        forall|i: int|
            0 <= i < list@.len() ==> (#[trigger] list@[i]) * 4096 <= region.paddr + i * 4096 < (
            list@[i] + 1) * 4096,
        region.paddr % 4096 == 0 ==> forall|i: int|
            0 <= i < list@.len() ==> (#[trigger] list@[i]) * 4096 == region.paddr + i * 4096,
        list@ == pfns(*region),
{
}

/// What is sent for a frame: the send buffer begins with a packet message of
/// its own length that ends with the frame, byte for byte, and is as before
/// behind it; the host is told, on the data channel, how long the message is.
/// Transactions are numbered on by one, and nothing else of the device changes.
pub proof fn transmitted_frame_is_told(frame: &[u8], send: ChannelSend)
    requires
        44 + frame@.len() <= 1048576,
    ensures
        forall|dev: &mut NetvscDevice, buf: &mut [u8]| #[trigger]
            call_ensures(NetvscDevice::transmit, (dev, frame, buf), send) && (*buf)@.len()
                == 1048576 && (*dev)@.next_txid < u64::MAX ==> {
                let out = (*final(buf))@;
                let told = send.message@;
                &&& out.len() == 1048576
                &&& le32_at(out, 0) == 1
                &&& le32_at(out, 4) == 44 + frame@.len()
                &&& le32_at(out, 8) == 36
                &&& le32_at(out, 12) == frame@.len()
                &&& forall|i: int| 16 <= i < 44 ==> #[trigger] out[i] == 0
                &&& out.subrange(44, 44int + frame@.len()) == frame@
                &&& out.skip((44 + frame@.len()) as int) == (*buf)@.skip((44 + frame@.len()) as int)
                &&& le32_at(told, 0) == 107
                &&& le32_at(told, 4) == 0
                &&& le32_at(told, 8) == 0
                &&& le32_at(told, 12) == 44 + frame@.len()
                &&& forall|i: int| 16 <= i < 64 ==> #[trigger] told[i] == 0
                &&& send.txid == (*dev)@.next_txid
                &&& (*final(dev))@.next_txid == (*dev)@.next_txid + 1
                &&& (*final(dev))@ == (DeviceState {
                    next_txid: (*final(dev))@.next_txid,
                    ..(*dev)@
                })
            },
{
    nvsp_messages_say(0, 0, 0, 0, 0, (44 + frame@.len()) as u32);
    rndis_packet_says(frame@);
    let m = rndis_packet(frame@);
    assert(8 + le32_at(m, 8) + frame@.len() == 44 + frame@.len());
    assert forall|dev: &mut NetvscDevice, buf: &mut [u8]| #[trigger]
        call_ensures(NetvscDevice::transmit, (dev, frame, buf), send) && (*buf)@.len() == 1048576
            && (*dev)@.next_txid < u64::MAX implies {
        let out = (*final(buf))@;
        &&& out.len() == 1048576
        &&& le32_at(out, 0) == 1
        &&& le32_at(out, 4) == 44 + frame@.len()
        &&& le32_at(out, 8) == 36
        &&& le32_at(out, 12) == frame@.len()
        &&& forall|i: int| 16 <= i < 44 ==> #[trigger] out[i] == 0
        &&& out.subrange(44, 44int + frame@.len()) == frame@
        &&& out.skip((44 + frame@.len()) as int) == (*buf)@.skip((44 + frame@.len()) as int)
    } by {
        let out = (*final(buf))@;
        let rest = (*buf)@.skip((44 + frame@.len()) as int);
        assert(out == m + rest);
        assert forall|i: int| 0 <= i < m.len() implies #[trigger] out[i] == m[i] by {}
        assert(out.skip((44 + frame@.len()) as int) =~= rest);
        assert(out.subrange(44, 44int + frame@.len()) =~= m.skip(44));
    }
}

/// What a receive buffer with a packet message in it delivers: the bytes at
/// eight behind its data offset, as many as it says or as there is room for,
/// at the beginning of the frame buffer; the rest of that buffer, and the send
/// buffer, are left alone. A frame that would reach past the receive buffer is
/// not delivered.
pub proof fn received_frame_is_delivered(
    dev: &NetvscDevice,
    recv: &[u8],
    r: Received,
)
    requires
        recv@.len() == 2097152,
        le32_at(recv@, 0) == 1,
    ensures
        forall|frame: &mut [u8], send: &mut [u8]| #[trigger]
            call_ensures(NetvscDevice::extract_data_frame, (dev, recv, frame, send), r)
                && (*send)@.len() == 1048576 ==> {
                let start = 8 + le32_at(recv@, 8);
                let n = if le32_at(recv@, 12) <= (*frame)@.len() {
                    le32_at(recv@, 12) as int
                } else {
                    (*frame)@.len() as int
                };
                &&& r.answer is None
                &&& (*final(send))@ == (*send)@
                &&& (*final(frame))@.len() == (*frame)@.len()
                &&& start + n > 2097152 ==> r.frame is None && (*final(frame))@ == (*frame)@
                &&& start + n <= 2097152 ==> {
                    &&& r.frame matches Some(len) && len == n
                    &&& forall|i: int|
                        0 <= i < n ==> #[trigger] (*final(frame))@[i] == recv@[start + i]
                    &&& forall|i: int|
                        n <= i < (*frame)@.len() ==> #[trigger] (*final(frame))@[i] == (*frame)@[i]
                }
            },
{
    assert forall|frame: &mut [u8], send: &mut [u8]| #[trigger]
        call_ensures(NetvscDevice::extract_data_frame, (dev, recv, frame, send), r)
            && (*send)@.len() == 1048576 implies {
        let start = 8 + le32_at(recv@, 8);
        let n = if le32_at(recv@, 12) <= (*frame)@.len() {
            le32_at(recv@, 12) as int
        } else {
            (*frame)@.len() as int
        };
        &&& r.answer is None
        &&& (*final(send))@ == (*send)@
        &&& (*final(frame))@.len() == (*frame)@.len()
        &&& start + n > 2097152 ==> r.frame is None && (*final(frame))@ == (*frame)@
        &&& start + n <= 2097152 ==> {
            &&& r.frame matches Some(len) && len == n
            &&& forall|i: int| 0 <= i < n ==> #[trigger] (*final(frame))@[i] == recv@[start + i]
            &&& forall|i: int|
                n <= i < (*frame)@.len() ==> #[trigger] (*final(frame))@[i] == (*frame)@[i]
        }
    } by {
        let start = 8 + le32_at(recv@, 8);
        let n = if le32_at(recv@, 12) <= (*frame)@.len() {
            le32_at(recv@, 12) as int
        } else {
            (*frame)@.len() as int
        };
        if start + n <= 2097152 {
            let data = recv@.subrange(start, start + n);
            assert((*final(frame))@ == overwrite((*frame)@, 0, data));
        }
    }
}

/// A keepalive is answered with its own request id, on the control channel and
/// outside the numbering of transactions: sixteen bytes at the beginning of the
/// send buffer. No frame is delivered.
pub proof fn keepalive_is_answered(dev: &NetvscDevice, recv: &[u8], r: Received)
    requires
        recv@.len() == 2097152,
        le32_at(recv@, 0) == 8,
    ensures
        forall|frame: &mut [u8], send: &mut [u8]| #[trigger]
            call_ensures(NetvscDevice::extract_data_frame, (dev, recv, frame, send), r)
                && (*send)@.len() == 1048576 ==> {
                let out = (*final(send))@;
                &&& r.frame is None
                &&& (*final(frame))@ == (*frame)@
                &&& out.len() == 1048576
                &&& le32_at(out, 0) == 0x8000_0008
                &&& le32_at(out, 4) == 16
                &&& le32_at(out, 8) == le32_at(recv@, 8)
                &&& le32_at(out, 12) == 0
                &&& out.skip(16) == (*send)@.skip(16)
                &&& r.answer matches Some(told) && {
                    &&& told.txid == 0
                    &&& le32_at(told.message@, 0) == 107
                    &&& le32_at(told.message@, 4) == 1
                    &&& le32_at(told.message@, 8) == 0
                    &&& le32_at(told.message@, 12) == 16
                }
            },
{
    nvsp_messages_say(0, 0, 0, 1, 0, 16);
    keepalive_answer_says(le32_at(recv@, 8), 16);
    assert forall|frame: &mut [u8], send: &mut [u8]| #[trigger]
        call_ensures(NetvscDevice::extract_data_frame, (dev, recv, frame, send), r)
            && (*send)@.len() == 1048576 implies {
        let out = (*final(send))@;
        &&& out.len() == 1048576
        &&& le32_at(out, 0) == 0x8000_0008
        &&& le32_at(out, 4) == 16
        &&& le32_at(out, 8) == le32_at(recv@, 8)
        &&& le32_at(out, 12) == 0
        &&& out.skip(16) == (*send)@.skip(16)
    } by {
        let out = (*final(send))@;
        let k = keepalive_answer(recv@);
        assert(out == overwrite((*send)@, 0, k));
        assert forall|i: int| 0 <= i < 16 implies #[trigger] out[i] == k[i] by {}
        assert(out.skip(16) =~= (*send)@.skip(16));
    }
}

/// A receive buffer with anything else in it is left alone.
pub proof fn other_messages_are_left_alone(dev: &NetvscDevice, recv: &[u8], r: Received)
    requires
        recv@.len() == 2097152,
        le32_at(recv@, 0) != 1,
        le32_at(recv@, 0) != 8,
    ensures
        forall|frame: &mut [u8], send: &mut [u8]| #[trigger]
            call_ensures(NetvscDevice::extract_data_frame, (dev, recv, frame, send), r)
                && (*send)@.len() == 1048576 ==> r.frame is None && r.answer is None
                && (*final(frame))@ == (*frame)@ && (*final(send))@ == (*send)@,
{
}

/// The receive buffer is looked at exactly where the channel had a packet whose
/// first word is 107, and then as [`NetvscDevice::extract_data_frame`] does;
/// an error of the channel is handed on, and anything else is dropped.
pub proof fn channel_decides(
    dev: &NetvscDevice,
    packet: Result<Option<&[u8]>, HvError>,
    recv: &[u8],
    r: Result<Received, HvError>,
)
    requires
        recv@.len() == 2097152,
    ensures
        forall|frame: &mut [u8], send: &mut [u8]| #[trigger]
            call_ensures(NetvscDevice::try_receive, (dev, packet, recv, frame, send), r)
                && (*send)@.len() == 1048576 ==> match packet {
                Err(e) => r == Err::<Received, _>(e) && (*final(frame))@ == (*frame)@
                    && (*final(send))@ == (*send)@,
                Ok(None) => r is Ok && r->Ok_0.frame is None && r->Ok_0.answer is None
                    && (*final(frame))@ == (*frame)@ && (*final(send))@ == (*send)@,
                Ok(Some(bytes)) => r is Ok && if bytes@.len() >= 4 && le32_at(bytes@, 0) == 107 {
                    extracted(
                        recv@,
                        (*frame)@,
                        (*final(frame))@,
                        (*send)@,
                        (*final(send))@,
                        r->Ok_0,
                    )
                } else {
                    r->Ok_0.frame is None && r->Ok_0.answer is None && (*final(frame))@
                        == (*frame)@ && (*final(send))@ == (*send)@
                },
            },
{
}

/// A device tells what it keeps.
pub proof fn device_tells_what_it_keeps(
    dev: &NetvscDevice,
    mac: [u8; 6],
    mtu: u32,
    version: u32,
    region: DmaRegion,
    txid: u64,
)
    ensures
        call_ensures(NetvscDevice::mac, (dev,), mac) ==> mac@ == dev@.mac,
        call_ensures(NetvscDevice::mtu, (dev,), mtu) ==> mtu == dev@.mtu,
        call_ensures(NetvscDevice::nvsp_version, (dev,), version) ==> version == dev@.nvsp_version,
        call_ensures(NetvscDevice::recv_buf, (dev,), region) ==> region == dev@.recv_buf,
        call_ensures(NetvscDevice::send_buf, (dev,), region) ==> region == dev@.send_buf,
        call_ensures(NetvscDevice::next_txid, (dev,), txid) ==> txid == dev@.next_txid,
{
}

} // verus!
