//! Bringing a NetVSC device up.
//!
//! Initialisation is a conversation: the guest asks for one thing at a time
//! (open the channel, send this message, allocate that buffer) and goes on
//! from the reply. [`NetvscInit`] holds the guest's side of it. It never
//! touches hardware: each step hands the caller a [`HostCall`] to carry out
//! and takes the [`HostReply`] back.
//!
//! The order is: open the channel; agree on an NVSP version (newest first);
//! share the receive buffer, then the send buffer; announce the NDIS
//! configuration and version; then, over RNDIS, initialise, read the MAC
//! address and the MTU, and set the packet filter.

use super::{
    pfn_list, pfns, DeviceState, NetvscDevice, NETVSC_RECEIVE_BUFFER_ID, NETVSC_RECV_BUF_SIZE,
    NETVSC_RING_SIZE, NETVSC_SEND_BUFFER_ID, NETVSC_SEND_BUF_SIZE,
};
use crate::bytes::{le32_at, read_le32};
use crate::dma::DmaRegion;
use crate::hyperv::error::HvError;
use crate::hyperv::guid::{netvsc, netvsc_bytes};
use crate::hyperv::nvsp::{
    accepts_version, buffer_accepted, build_nvsp_init, build_nvsp_ndis_config,
    build_nvsp_ndis_version, build_nvsp_send_recv_buf, build_nvsp_send_rndis_pkt,
    build_nvsp_send_send_buf, build_rndis_init, build_rndis_query, build_rndis_set_u32,
    check_init_complete, check_recv_buf_complete, check_send_buf_complete, check_set_complete,
    init_complete, mac_in, mtu_in, nvsp_init, nvsp_ndis_config, nvsp_ndis_version,
    nvsp_send_recv_buf, nvsp_send_rndis_pkt, nvsp_send_send_buf, nvsp_type, parse_mac, parse_mtu,
    parse_nvsp_type, rndis_init, rndis_query, rndis_set_u32, set_complete, version_accepted,
    nvsp_messages_say, rndis_messages_say, NVSP_MSG1_TYPE_SEND_RNDIS_PKT, NVSP_PROTOCOL_VERSION_1, NVSP_PROTOCOL_VERSION_4,
    NVSP_PROTOCOL_VERSION_5, OID_802_3_PERMANENT_ADDRESS, OID_GEN_CURRENT_PACKET_FILTER,
    OID_GEN_MAXIMUM_FRAME_SIZE, PACKET_FILTER,
};
use crate::hyperv::vmbus::{is_first_offer, no_offer, position_of, ChannelOffer};
use vstd::prelude::*;

verus! {

/// How often to look for a control response before giving up.
pub const CONTROL_POLLS: u64 = 50_000_000;

/// Room for a control response.
pub const CONTROL_ROOM: usize = 256;

/// Something the caller has to do for the device.
pub enum HostCall {
    /// Open the VMBus channel `child_relid` with a ring of `ring_size` bytes.
    OpenChannel { child_relid: u32, ring_size: usize },
    /// Send an in-band packet and ask for its completion.
    Send { message: Vec<u8>, txid: u64 },
    /// Send an in-band packet without asking for a completion.
    SendRaw { message: Vec<u8>, txid: u64 },
    /// Wait for a packet, for at most `spins` turns.
    Recv { spins: u64 },
    /// Allocate coherent memory.
    AllocDma { size: usize, align: usize },
    /// Allocate a GPADL handle and share `pfns` with the host under it.
    CreateGpadl { child_relid: u32, size: usize, pfns: Vec<u64> },
    /// Put `rndis` at the start of the send buffer, then send `message`.
    SendControl { rndis: Vec<u8>, message: Vec<u8>, txid: u64 },
    /// Look once whether a packet has arrived.
    Poll,
}

/// What came of a [`HostCall`].
pub enum HostReply {
    /// It succeeded and there is nothing to hand back.
    Done,
    /// It failed.
    Failed(HvError),
    /// A packet arrived.
    Packet(Vec<u8>),
    /// No packet is there.
    Empty,
    /// The memory that was allocated.
    Region(DmaRegion),
    /// The handle of the GPADL.
    Gpadl(u32),
}

/// [`HostCall`] by its contents.
pub enum Call {
    OpenChannel { child_relid: u32, ring_size: usize },
    Send { message: Seq<u8>, txid: u64 },
    SendRaw { message: Seq<u8>, txid: u64 },
    Recv { spins: u64 },
    AllocDma { size: usize, align: usize },
    CreateGpadl { child_relid: u32, size: usize, pfns: Seq<u64> },
    SendControl { rndis: Seq<u8>, message: Seq<u8>, txid: u64 },
    Poll,
}

/// [`HostReply`] by its contents.
pub enum Reply {
    Done,
    Failed(HvError),
    Packet(Seq<u8>),
    Empty,
    Region(DmaRegion),
    Gpadl(u32),
}

impl View for HostCall {
    type V = Call;

    open spec fn view(&self) -> Call {
        match *self {
            HostCall::OpenChannel { child_relid, ring_size } => Call::OpenChannel {
                child_relid,
                ring_size,
            },
            HostCall::Send { message, txid } => Call::Send { message: message@, txid },
            HostCall::SendRaw { message, txid } => Call::SendRaw { message: message@, txid },
            HostCall::Recv { spins } => Call::Recv { spins },
            HostCall::AllocDma { size, align } => Call::AllocDma { size, align },
            HostCall::CreateGpadl { child_relid, size, pfns } => Call::CreateGpadl {
                child_relid,
                size,
                pfns: pfns@,
            },
            HostCall::SendControl { rndis, message, txid } => Call::SendControl {
                rndis: rndis@,
                message: message@,
                txid,
            },
            HostCall::Poll => Call::Poll,
        }
    }
}

impl View for HostReply {
    type V = Reply;

    open spec fn view(&self) -> Reply {
        match *self {
            HostReply::Done => Reply::Done,
            HostReply::Failed(e) => Reply::Failed(e),
            HostReply::Packet(p) => Reply::Packet(p@),
            HostReply::Empty => Reply::Empty,
            HostReply::Region(r) => Reply::Region(r),
            HostReply::Gpadl(h) => Reply::Gpadl(h),
        }
    }
}

/// The four RNDIS requests, in order.
#[derive(Debug, Clone, Copy, PartialEq, Eq, Structural)]
pub enum Request {
    Init,
    Mac,
    Mtu,
    Filter,
}

/// Which reply the device is waiting for.
#[derive(Debug, Clone, Copy, PartialEq, Eq, Structural)]
pub enum Stage {
    Opening,
    VersionSent { attempt: u8 },
    VersionReply { attempt: u8 },
    RecvAlloc,
    RecvGpadl,
    RecvBufSent,
    RecvBufReply,
    SendAlloc,
    SendGpadl,
    SendBufSent,
    SendBufReply,
    NdisConfigSent,
    NdisVersionSent,
    RequestSent { request: Request },
    /// `polls` looks are left, the one under way included.
    RequestReply { request: Request, polls: u64 },
}

/// A device on its way up.
pub struct NetvscInit {
    stage: Stage,
    child_relid: u32,
    dev: NetvscDevice,
}

/// [`NetvscInit`] by its contents.
pub struct InitState {
    pub stage: Stage,
    pub child_relid: u32,
    pub dev: DeviceState,
}

impl View for NetvscInit {
    type V = InitState;

    closed spec fn view(&self) -> InitState {
        InitState { stage: self.stage, child_relid: self.child_relid, dev: self.dev@ }
    }
}

/// How a step ended.
pub enum Progress {
    /// Carry this out and come back with the reply.
    Call(HostCall),
    /// The device is up.
    Ready(NetvscDevice),
    /// The device cannot be brought up.
    Failed(HvError),
}

/// [`Progress`] by its contents.
pub enum Outcome {
    Call(Call),
    Ready(DeviceState),
    Failed(HvError),
}

impl View for Progress {
    type V = Outcome;

    open spec fn view(&self) -> Outcome {
        match *self {
            Progress::Call(c) => Outcome::Call(c@),
            Progress::Ready(d) => Outcome::Ready(d@),
            Progress::Failed(e) => Outcome::Failed(e),
        }
    }
}

// ── The conversation ────────────────────────────────────────────────────

/// Protocol version offered at attempt `k`: newest first.
pub open spec fn offered_version(k: int) -> u32 {
    if k == 0 {
        NVSP_PROTOCOL_VERSION_5
    } else if k == 1 {
        NVSP_PROTOCOL_VERSION_4
    } else {
        NVSP_PROTOCOL_VERSION_1
    }
}

/// The RNDIS message of a request.
pub open spec fn request_message(request: Request, id: u32) -> Seq<u8> {
    match request {
        Request::Init => rndis_init(id),
        Request::Mac => rndis_query(id, OID_802_3_PERMANENT_ADDRESS),
        Request::Mtu => rndis_query(id, OID_GEN_MAXIMUM_FRAME_SIZE),
        Request::Filter => rndis_set_u32(id, OID_GEN_CURRENT_PACKET_FILTER, PACKET_FILTER),
    }
}

/// The control response that the receive buffer holds when `packet` says that
/// there is one: as many bytes as its length field says, cut to
/// [`CONTROL_ROOM`]. A response of length zero, or longer than the buffer, is
/// no response.
pub open spec fn control_response(packet: Seq<u8>, recv: Seq<u8>) -> Option<Seq<u8>> {
    let n = le32_at(recv, 4);
    if nvsp_type(packet) == Some(NVSP_MSG1_TYPE_SEND_RNDIS_PKT) && 0 < n <= NETVSC_RECV_BUF_SIZE {
        Some(
            recv.take(
                if n < CONTROL_ROOM {
                    n as int
                } else {
                    CONTROL_ROOM as int
                },
            ),
        )
    } else {
        None
    }
}

/// `reply` answers what the device is waiting for. Any call may fail, except
/// an allocation; memory that is allocated ends within the address space.
pub open spec fn answers(stage: Stage, reply: Reply) -> bool {
    match reply {
        Reply::Failed(_) => !(stage is RecvAlloc || stage is SendAlloc),
        Reply::Done => match stage {
            Stage::Opening => true,
            Stage::VersionSent { .. } => true,
            Stage::RecvBufSent => true,
            Stage::SendBufSent => true,
            Stage::NdisConfigSent => true,
            Stage::NdisVersionSent => true,
            Stage::RequestSent { .. } => true,
            _ => false,
        },
        Reply::Packet(_) => match stage {
            Stage::VersionReply { .. } => true,
            Stage::RecvBufReply => true,
            Stage::SendBufReply => true,
            Stage::RequestReply { .. } => true,
            _ => false,
        },
        Reply::Empty => stage is RequestReply,
        Reply::Region(r) => (stage is RecvAlloc || stage is SendAlloc) && r.paddr + r.size
            <= usize::MAX,
        Reply::Gpadl(_) => stage is RecvGpadl || stage is SendGpadl,
    }
}

impl InitState {
    /// Move to `stage` and ask for `call`.
    pub open spec fn ask(self, stage: Stage, call: Call) -> (InitState, Outcome) {
        (InitState { stage, ..self }, Outcome::Call(call))
    }

    /// Give up.
    pub open spec fn fail(self, e: HvError) -> (InitState, Outcome) {
        (self, Outcome::Failed(e))
    }

    /// Offer the version of attempt `k`.
    pub open spec fn offer_version(self, k: u8) -> (InitState, Outcome) {
        self.ask(
            Stage::VersionSent { attempt: k },
            Call::Send { message: nvsp_init(offered_version(k as int)), txid: 0 },
        )
    }

    /// Announce the NDIS version.
    pub open spec fn announce_ndis(self) -> (InitState, Outcome) {
        self.ask(Stage::NdisVersionSent, Call::SendRaw { message: nvsp_ndis_version(), txid: 0 })
    }

    /// Send a request under the next request id and transaction id.
    pub open spec fn request(self, request: Request) -> (InitState, Outcome) {
        let rndis = request_message(request, self.dev.next_request_id);
        (
            InitState {
                stage: Stage::RequestSent { request },
                dev: DeviceState {
                    next_request_id: (self.dev.next_request_id + 1) as u32,
                    next_txid: (self.dev.next_txid + 1) as u64,
                    ..self.dev
                },
                ..self
            },
            Outcome::Call(
                Call::SendControl {
                    rndis,
                    message: nvsp_send_rndis_pkt(1, 0, rndis.len() as u32),
                    txid: self.dev.next_txid,
                },
            ),
        )
    }

    /// Look again for the response to `request`, or give up after the last
    /// look.
    pub open spec fn look_again(self, request: Request, polls: u64) -> (InitState, Outcome) {
        if polls <= 1 {
            self.fail(HvError::Timeout)
        } else {
            self.ask(Stage::RequestReply { request, polls: (polls - 1) as u64 }, Call::Poll)
        }
    }

    /// Go on from the response to `request`.
    pub open spec fn respond(self, request: Request, resp: Seq<u8>) -> (InitState, Outcome) {
        match request {
            Request::Init => match init_complete(resp) {
                Ok(_) => self.request(Request::Mac),
                Err(e) => self.fail(e),
            },
            Request::Mac => match mac_in(resp) {
                Ok(Some(mac)) => InitState {
                    dev: DeviceState { mac, ..self.dev },
                    ..self
                }.request(Request::Mtu),
                Ok(None) => self.request(Request::Mtu),
                Err(e) => self.fail(e),
            },
            Request::Mtu => match mtu_in(resp) {
                Some(mtu) => InitState {
                    dev: DeviceState { mtu, ..self.dev },
                    ..self
                }.request(Request::Filter),
                None => self.request(Request::Filter),
            },
            Request::Filter => match set_complete(resp) {
                Ok(_) => (self, Outcome::Ready(self.dev)),
                Err(e) => self.fail(e),
            },
        }
    }

    /// Go on from a packet.
    pub open spec fn hear(self, packet: Seq<u8>, recv: Seq<u8>) -> (InitState, Outcome) {
        match self.stage {
            Stage::VersionReply { attempt } => if accepts_version(packet) {
                InitState {
                    dev: DeviceState { nvsp_version: offered_version(attempt as int), ..self.dev },
                    ..self
                }.ask(Stage::RecvAlloc, Call::AllocDma { size: NETVSC_RECV_BUF_SIZE, align: 4096 })
            } else if attempt < 2 {
                self.offer_version((attempt + 1) as u8)
            } else {
                self.fail(HvError::VersionRejected)
            },
            Stage::RecvBufReply => if packet.len() == 0 {
                self.ask(Stage::RecvBufReply, Call::Recv { spins: 50_000_000 })
            } else {
                match buffer_accepted(packet) {
                    Ok(_) => self.ask(
                        Stage::SendAlloc,
                        Call::AllocDma { size: NETVSC_SEND_BUF_SIZE, align: 4096 },
                    ),
                    Err(e) => self.fail(e),
                }
            },
            Stage::SendBufReply => if packet.len() == 0 {
                self.ask(Stage::SendBufReply, Call::Recv { spins: 5_000_000 })
            } else {
                match buffer_accepted(packet) {
                    Ok(_) => if self.dev.nvsp_version > NVSP_PROTOCOL_VERSION_1 {
                        self.ask(
                            Stage::NdisConfigSent,
                            Call::SendRaw { message: nvsp_ndis_config(), txid: 0 },
                        )
                    } else {
                        self.announce_ndis()
                    },
                    Err(e) => self.fail(e),
                }
            },
            Stage::RequestReply { request, polls } => match control_response(packet, recv) {
                Some(resp) => self.respond(request, resp),
                None => self.look_again(request, polls),
            },
            _ => self.fail(HvError::Timeout),
        }
    }

    /// Go on after a call that succeeded without handing anything back.
    pub open spec fn go_on(self) -> (InitState, Outcome) {
        match self.stage {
            Stage::Opening => self.offer_version(0),
            Stage::VersionSent { attempt } => self.ask(
                Stage::VersionReply { attempt },
                Call::Recv { spins: 5_000_000 },
            ),
            Stage::RecvBufSent => self.ask(Stage::RecvBufReply, Call::Recv { spins: 50_000_000 }),
            Stage::SendBufSent => self.ask(Stage::SendBufReply, Call::Recv { spins: 5_000_000 }),
            Stage::NdisConfigSent => self.announce_ndis(),
            Stage::NdisVersionSent => self.request(Request::Init),
            Stage::RequestSent { request } => self.ask(
                Stage::RequestReply { request, polls: CONTROL_POLLS },
                Call::Poll,
            ),
            _ => self.fail(HvError::Timeout),
        }
    }

    /// The whole step: from a state and the reply it waited for to the next
    /// state and what to do there. `recv` is the receive buffer.
    pub open spec fn step(self, reply: Reply, recv: Seq<u8>) -> (InitState, Outcome) {
        match reply {
            Reply::Failed(e) => self.fail(e),
            Reply::Done => self.go_on(),
            Reply::Packet(p) => self.hear(p, recv),
            Reply::Empty => match self.stage {
                Stage::RequestReply { request, polls } => self.look_again(request, polls),
                _ => self.fail(HvError::Timeout),
            },
            Reply::Region(region) => if self.stage is RecvAlloc {
                InitState { dev: DeviceState { recv_buf: region, ..self.dev }, ..self }.ask(
                    Stage::RecvGpadl,
                    Call::CreateGpadl {
                        child_relid: self.child_relid,
                        size: NETVSC_RECV_BUF_SIZE,
                        pfns: pfns(region),
                    },
                )
            } else {
                InitState { dev: DeviceState { send_buf: region, ..self.dev }, ..self }.ask(
                    Stage::SendGpadl,
                    Call::CreateGpadl {
                        child_relid: self.child_relid,
                        size: NETVSC_SEND_BUF_SIZE,
                        pfns: pfns(region),
                    },
                )
            },
            Reply::Gpadl(handle) => if self.stage is RecvGpadl {
                InitState { dev: DeviceState { recv_gpadl: handle, ..self.dev }, ..self }.ask(
                    Stage::RecvBufSent,
                    Call::Send {
                        message: nvsp_send_recv_buf(handle, NETVSC_RECEIVE_BUFFER_ID),
                        txid: 1,
                    },
                )
            } else {
                InitState { dev: DeviceState { send_gpadl: handle, ..self.dev }, ..self }.ask(
                    Stage::SendBufSent,
                    Call::Send {
                        message: nvsp_send_send_buf(handle, NETVSC_SEND_BUFFER_ID),
                        txid: 2,
                    },
                )
            },
        }
    }

    /// How many requests have been sent.
    pub open spec fn requests(self) -> int {
        match self.stage {
            Stage::RequestSent { request } => 1 + request_index(request),
            Stage::RequestReply { request, .. } => 1 + request_index(request),
            _ => 0,
        }
    }

    /// A state that initialisation can be in: no fourth version is offered,
    /// requests are numbered from 1 and their transactions from 100.
    pub open spec fn wf(self) -> bool {
        &&& self.dev.mac.len() == 6
        &&& self.dev.next_request_id == 1 + self.requests()
        &&& self.dev.next_txid == 100 + self.requests()
        &&& match self.stage {
            Stage::VersionSent { attempt } => attempt < 3,
            Stage::VersionReply { attempt } => attempt < 3,
            Stage::RequestReply { polls, .. } => 0 < polls <= CONTROL_POLLS,
            _ => true,
        }
    }
}

/// The state right after the channel has been asked for.
pub open spec fn starting(child_relid: u32, s: InitState) -> bool {
    &&& s.stage == Stage::Opening
    &&& s.child_relid == child_relid
    &&& s.dev.mac == Seq::new(6, |i: int| 0u8)
    &&& s.dev.mtu == 1514
    &&& s.dev.next_request_id == 1
    &&& s.dev.next_txid == 100
}

// ── Carrying it out ─────────────────────────────────────────────────────

impl NetvscDevice {
    /// Initialize a NetVSC device: open channel, negotiate NVSP, set up
    /// shared buffers, negotiate RNDIS, query MAC and MTU, enable receive.
    ///
    /// Picks the first NetVSC offer and asks for its channel; go on with
    /// [`NetvscInit::resume`].
    pub fn init(offers: &[ChannelOffer]) -> (r: Result<(NetvscInit, HostCall), HvError>)
        ensures
            match r {
                Ok((init, call)) => exists|i: int| #[trigger]
                    is_first_offer(offers@, netvsc_bytes(), i) && starting(
                        offers@[i].child_relid,
                        init@,
                    ) && init@.wf() && call@ == (Call::OpenChannel {
                        child_relid: offers@[i].child_relid,
                        ring_size: NETVSC_RING_SIZE,
                    }),
                Err(e) => no_offer(offers@, netvsc_bytes()) && e == HvError::NotHyperV,
            },
    {
        match position_of(offers, &netvsc()) {
            None => Err(HvError::NotHyperV),
            Some(i) => {
                let child_relid: u32 = offers[i].child_relid;
                let none = DmaRegion { vaddr: 0, paddr: 0, size: 0 };
                let init = NetvscInit {
                    stage: Stage::Opening,
                    child_relid,
                    dev: NetvscDevice {
                        recv_buf: none,
                        recv_gpadl: 0,
                        send_buf: none,
                        send_gpadl: 0,
                        nvsp_version: 0,
                        mac: [0u8; 6],
                        mtu: 1514,
                        next_request_id: 1,
                        next_txid: 100,
                    },
                };
                assert(init@.dev.mac =~= Seq::new(6, |i: int| 0u8));
                assert(is_first_offer(offers@, netvsc_bytes(), i as int));
                Ok((init, HostCall::OpenChannel { child_relid, ring_size: NETVSC_RING_SIZE }))
            },
        }
    }
}

/// The control response in the receive buffer, if `packet` announces one.
pub fn take_control_response(packet: &[u8], recv_buf: &[u8]) -> (r: Option<Vec<u8>>)
    requires
        recv_buf@.len() == NETVSC_RECV_BUF_SIZE,
    ensures
        match r {
            Some(resp) => control_response(packet@, recv_buf@) == Some(resp@),
            None => control_response(packet@, recv_buf@) is None,
        },
{
    match parse_nvsp_type(packet) {
        Some(NVSP_MSG1_TYPE_SEND_RNDIS_PKT) => {
            let rndis_len: u32 = read_le32(recv_buf, 4);
            if rndis_len == 0 || rndis_len as u64 > NETVSC_RECV_BUF_SIZE as u64 {
                return None;
            }
            let copy_len: usize = if rndis_len < CONTROL_ROOM as u32 {
                rndis_len as usize
            } else {
                CONTROL_ROOM
            };
            let part = vstd::slice::slice_subrange(recv_buf, 0, copy_len);
            let resp = vstd::slice::slice_to_vec(part);
            assert(resp@ =~= recv_buf@.take(copy_len as int));
            Some(resp)
        },
        // TX completions and messages of other types are skipped.
        _ => None,
    }
}

impl NetvscInit {
    /// Which reply the device is waiting for.
    pub fn stage(&self) -> (stage: Stage)
        ensures
            stage == self@.stage,
    {
        self.stage
    }

    /// Whether `reply` answers what the device is waiting for.
    pub fn expects(&self, reply: &HostReply) -> (r: bool)
        ensures
            r == answers(self@.stage, reply@),
    {
        match reply {
            HostReply::Failed(_) => match self.stage {
                Stage::RecvAlloc => false,
                Stage::SendAlloc => false,
                _ => true,
            },
            HostReply::Done => match self.stage {
                Stage::Opening => true,
                Stage::VersionSent { .. } => true,
                Stage::RecvBufSent => true,
                Stage::SendBufSent => true,
                Stage::NdisConfigSent => true,
                Stage::NdisVersionSent => true,
                Stage::RequestSent { .. } => true,
                _ => false,
            },
            HostReply::Packet(_) => match self.stage {
                Stage::VersionReply { .. } => true,
                Stage::RecvBufReply => true,
                Stage::SendBufReply => true,
                Stage::RequestReply { .. } => true,
                _ => false,
            },
            HostReply::Empty => match self.stage {
                Stage::RequestReply { .. } => true,
                _ => false,
            },
            HostReply::Region(r) => match self.stage {
                Stage::RecvAlloc => r.size <= usize::MAX - r.paddr,
                Stage::SendAlloc => r.size <= usize::MAX - r.paddr,
                _ => false,
            },
            HostReply::Gpadl(_) => match self.stage {
                Stage::RecvGpadl => true,
                Stage::SendGpadl => true,
                _ => false,
            },
        }
    }

    /// Go on from the reply to the last call. `recv_buf` is the receive
    /// buffer; it is only read once it has been shared.
    pub fn resume(&mut self, reply: HostReply, recv_buf: &[u8]) -> (p: Progress)
        requires
            old(self)@.wf(),
            answers(old(self)@.stage, reply@),
            old(self)@.stage is RequestReply ==> recv_buf@.len() == NETVSC_RECV_BUF_SIZE,
        ensures
            (final(self)@, p@) == old(self)@.step(reply@, recv_buf@),
            final(self)@.wf(),
    {
        match reply {
            HostReply::Failed(e) => Progress::Failed(e),
            HostReply::Done => self.go_on(),
            HostReply::Packet(packet) => self.hear(packet.as_slice(), recv_buf),
            HostReply::Empty => match self.stage {
                Stage::RequestReply { request, polls } => self.look_again(request, polls),
                _ => Progress::Failed(HvError::Timeout),
            },
            HostReply::Region(region) => {
                let list = pfn_list(&region);
                match self.stage {
                    Stage::RecvAlloc => {
                        self.dev.recv_buf = region;
                        self.stage = Stage::RecvGpadl;
                        Progress::Call(
                            HostCall::CreateGpadl {
                                child_relid: self.child_relid,
                                size: NETVSC_RECV_BUF_SIZE,
                                pfns: list,
                            },
                        )
                    },
                    _ => {
                        self.dev.send_buf = region;
                        self.stage = Stage::SendGpadl;
                        Progress::Call(
                            HostCall::CreateGpadl {
                                child_relid: self.child_relid,
                                size: NETVSC_SEND_BUF_SIZE,
                                pfns: list,
                            },
                        )
                    },
                }
            },
            HostReply::Gpadl(handle) => {
                let mut msg = [0u8; 64];
                match self.stage {
                    Stage::RecvGpadl => {
                        build_nvsp_send_recv_buf(handle, NETVSC_RECEIVE_BUFFER_ID, &mut msg);
                        let message = vstd::slice::slice_to_vec(&msg);
                        assert(message@ =~= nvsp_send_recv_buf(handle, NETVSC_RECEIVE_BUFFER_ID));
                        self.dev.recv_gpadl = handle;
                        self.stage = Stage::RecvBufSent;
                        Progress::Call(HostCall::Send { message, txid: 1 })
                    },
                    _ => {
                        build_nvsp_send_send_buf(handle, NETVSC_SEND_BUFFER_ID, &mut msg);
                        let message = vstd::slice::slice_to_vec(&msg);
                        assert(message@ =~= nvsp_send_send_buf(handle, NETVSC_SEND_BUFFER_ID));
                        self.dev.send_gpadl = handle;
                        self.stage = Stage::SendBufSent;
                        Progress::Call(HostCall::Send { message, txid: 2 })
                    },
                }
            },
        }
    }

    fn go_on(&mut self) -> (p: Progress)
        requires
            old(self)@.wf(),
            answers(old(self)@.stage, Reply::Done),
        ensures
            (final(self)@, p@) == old(self)@.go_on(),
            final(self)@.wf(),
    {
        match self.stage {
            Stage::Opening => self.offer_version(0),
            Stage::VersionSent { attempt } => {
                self.stage = Stage::VersionReply { attempt };
                Progress::Call(HostCall::Recv { spins: 5_000_000 })
            },
            Stage::RecvBufSent => {
                self.stage = Stage::RecvBufReply;
                Progress::Call(HostCall::Recv { spins: 50_000_000 })
            },
            Stage::SendBufSent => {
                self.stage = Stage::SendBufReply;
                Progress::Call(HostCall::Recv { spins: 5_000_000 })
            },
            Stage::NdisConfigSent => self.announce_ndis(),
            Stage::NdisVersionSent => self.request(Request::Init),
            Stage::RequestSent { request } => {
                self.stage = Stage::RequestReply { request, polls: CONTROL_POLLS };
                Progress::Call(HostCall::Poll)
            },
            _ => Progress::Failed(HvError::Timeout),
        }
    }

    fn hear(&mut self, packet: &[u8], recv_buf: &[u8]) -> (p: Progress)
        requires
            old(self)@.wf(),
            answers(old(self)@.stage, Reply::Packet(packet@)),
            old(self)@.stage is RequestReply ==> recv_buf@.len() == NETVSC_RECV_BUF_SIZE,
        ensures
            (final(self)@, p@) == old(self)@.hear(packet@, recv_buf@),
            final(self)@.wf(),
    {
        match self.stage {
            Stage::VersionReply { attempt } => {
                if version_accepted(packet) {
                    self.dev.nvsp_version = version_of(attempt);
                    self.stage = Stage::RecvAlloc;
                    Progress::Call(HostCall::AllocDma { size: NETVSC_RECV_BUF_SIZE, align: 4096 })
                } else if attempt < 2 {
                    self.offer_version(attempt + 1)
                } else {
                    Progress::Failed(HvError::VersionRejected)
                }
            },
            Stage::RecvBufReply => {
                if packet.len() == 0 {
                    return Progress::Call(HostCall::Recv { spins: 50_000_000 });
                }
                match check_recv_buf_complete(packet) {
                    Err(e) => Progress::Failed(e),
                    Ok(_) => {
                        self.stage = Stage::SendAlloc;
                        Progress::Call(
                            HostCall::AllocDma { size: NETVSC_SEND_BUF_SIZE, align: 4096 },
                        )
                    },
                }
            },
            Stage::SendBufReply => {
                if packet.len() == 0 {
                    return Progress::Call(HostCall::Recv { spins: 5_000_000 });
                }
                match check_send_buf_complete(packet) {
                    Err(e) => Progress::Failed(e),
                    Ok(_) => {
                        if self.dev.nvsp_version > NVSP_PROTOCOL_VERSION_1 {
                            let mut msg = [0u8; 64];
                            build_nvsp_ndis_config(&mut msg);
                            let message = vstd::slice::slice_to_vec(&msg);
                            assert(message@ =~= nvsp_ndis_config());
                            self.stage = Stage::NdisConfigSent;
                            Progress::Call(HostCall::SendRaw { message, txid: 0 })
                        } else {
                            self.announce_ndis()
                        }
                    },
                }
            },
            Stage::RequestReply { request, polls } => match take_control_response(
                packet,
                recv_buf,
            ) {
                Some(resp) => self.respond(request, resp.as_slice()),
                None => self.look_again(request, polls),
            },
            _ => Progress::Failed(HvError::Timeout),
        }
    }

    fn offer_version(&mut self, attempt: u8) -> (p: Progress)
        requires
            attempt < 3,
            old(self)@.wf(),
            old(self)@.requests() == 0,
        ensures
            (final(self)@, p@) == old(self)@.offer_version(attempt),
            final(self)@.wf(),
    {
        let mut msg = [0u8; 64];
        let version: u32 = version_of(attempt);
        build_nvsp_init(version, &mut msg);
        let message = vstd::slice::slice_to_vec(&msg);
        assert(message@ =~= nvsp_init(version));
        self.stage = Stage::VersionSent { attempt };
        Progress::Call(HostCall::Send { message, txid: 0 })
    }

    fn announce_ndis(&mut self) -> (p: Progress)
        requires
            old(self)@.wf(),
            old(self)@.requests() == 0,
        ensures
            (final(self)@, p@) == old(self)@.announce_ndis(),
            final(self)@.wf(),
    {
        let mut msg = [0u8; 64];
        build_nvsp_ndis_version(&mut msg);
        let message = vstd::slice::slice_to_vec(&msg);
        assert(message@ =~= nvsp_ndis_version());
        self.stage = Stage::NdisVersionSent;
        Progress::Call(HostCall::SendRaw { message, txid: 0 })
    }

    fn request(&mut self, request: Request) -> (p: Progress)
        requires
            old(self)@.dev.mac.len() == 6,
            old(self)@.dev.next_request_id == 1 + request_index(request),
            old(self)@.dev.next_txid == 100 + request_index(request),
        ensures
            (final(self)@, p@) == old(self)@.request(request),
            final(self)@.wf(),
    {
        let id: u32 = self.dev.next_request_id;
        let mut msg = [0u8; 64];
        let len: usize = match request {
            Request::Init => build_rndis_init(id, &mut msg),
            Request::Mac => build_rndis_query(id, OID_802_3_PERMANENT_ADDRESS, &mut msg),
            Request::Mtu => build_rndis_query(id, OID_GEN_MAXIMUM_FRAME_SIZE, &mut msg),
            Request::Filter => build_rndis_set_u32(
                id,
                OID_GEN_CURRENT_PACKET_FILTER,
                PACKET_FILTER,
                &mut msg,
            ),
        };
        let part = vstd::slice::slice_subrange(&msg, 0, len);
        let rndis = vstd::slice::slice_to_vec(part);
        assert(rndis@ =~= request_message(request, id));
        self.send_rndis_control(request, rndis)
    }

    /// Send an RNDIS control message via the send buffer.
    fn send_rndis_control(&mut self, request: Request, rndis: Vec<u8>) -> (p: Progress)
        requires
            old(self)@.dev.mac.len() == 6,
            old(self)@.dev.next_request_id == 1 + request_index(request),
            old(self)@.dev.next_txid == 100 + request_index(request),
            rndis@ == request_message(request, old(self)@.dev.next_request_id),
        ensures
            (final(self)@, p@) == old(self)@.request(request),
            final(self)@.wf(),
    {
        let mut msg = [0u8; 64];
        build_nvsp_send_rndis_pkt(1, 0, rndis.len() as u32, &mut msg);
        let message = vstd::slice::slice_to_vec(&msg);
        assert(message@ =~= nvsp_send_rndis_pkt(1, 0, rndis@.len() as u32));
        let txid: u64 = self.dev.next_txid;
        self.dev.next_txid = txid + 1;
        self.dev.next_request_id = self.dev.next_request_id + 1;
        self.stage = Stage::RequestSent { request };
        Progress::Call(HostCall::SendControl { rndis, message, txid })
    }

    fn look_again(&mut self, request: Request, polls: u64) -> (p: Progress)
        requires
            old(self)@.wf(),
            old(self)@.stage == (Stage::RequestReply { request, polls }),
        ensures
            (final(self)@, p@) == old(self)@.look_again(request, polls),
            final(self)@.wf(),
    {
        if polls <= 1 {
            Progress::Failed(HvError::Timeout)
        } else {
            self.stage = Stage::RequestReply { request, polls: polls - 1 };
            Progress::Call(HostCall::Poll)
        }
    }

    fn respond(&mut self, request: Request, resp: &[u8]) -> (p: Progress)
        requires
            old(self)@.wf(),
            old(self)@.stage is RequestReply,
            old(self)@.stage->RequestReply_request == request,
        ensures
            (final(self)@, p@) == old(self)@.respond(request, resp@),
            final(self)@.wf(),
    {
        match request {
            Request::Init => match check_init_complete(resp) {
                Ok(_) => self.request(Request::Mac),
                Err(e) => Progress::Failed(e),
            },
            Request::Mac => match parse_mac(resp) {
                Ok(Some(mac)) => {
                    self.dev.mac = mac;
                    self.request(Request::Mtu)
                },
                Ok(None) => self.request(Request::Mtu),
                Err(e) => Progress::Failed(e),
            },
            Request::Mtu => match parse_mtu(resp) {
                Some(mtu) => {
                    self.dev.mtu = mtu;
                    self.request(Request::Filter)
                },
                None => self.request(Request::Filter),
            },
            Request::Filter => match check_set_complete(resp) {
                Ok(_) => Progress::Ready(self.dev),
                Err(e) => Progress::Failed(e),
            },
        }
    }
}

/// Requests that come before `request`.
pub open spec fn request_index(request: Request) -> int {
    match request {
        Request::Init => 0,
        Request::Mac => 1,
        Request::Mtu => 2,
        Request::Filter => 3,
    }
}

fn version_of(attempt: u8) -> (version: u32)
    ensures
        version == offered_version(attempt as int),
{
    if attempt == 0 {
        NVSP_PROTOCOL_VERSION_5
    } else if attempt == 1 {
        NVSP_PROTOCOL_VERSION_4
    } else {
        NVSP_PROTOCOL_VERSION_1
    }
}

// ── What the conversation comes to ──────────────────────────────────────

/// The control response in the receive buffer: there is one exactly where the
/// packet's first word is 107 and the length in the buffer's second word is
/// neither zero nor more than the buffer holds; it is the beginning of the
/// buffer, byte for byte, as long as that length and no longer than 256.
pub proof fn response_is_what_the_buffer_holds(packet: &[u8], recv: &[u8], r: Option<Vec<u8>>)
    requires
        recv@.len() == 2097152,
        call_ensures(take_control_response, (packet, recv), r),
    ensures
        r is Some <==> packet@.len() >= 4 && le32_at(packet@, 0) == 107 && 0 < le32_at(recv@, 4)
            <= 2097152,
        r matches Some(resp) ==> {
            &&& resp@.len() == if le32_at(recv@, 4) <= 256 {
                le32_at(recv@, 4) as int
            } else {
                256
            }
            &&& forall|i: int| 0 <= i < resp@.len() ==> #[trigger] resp@[i] == recv@[i]
            &&& control_response(packet@, recv@) == Some(resp@)
        },
        r is None ==> control_response(packet@, recv@) is None,
{
}

/// Which device is brought up: the one whose offer comes first among those of
/// network devices, with a ring of 256 KiB. There is none only where no offer
/// is that of a network device.
pub proof fn first_offer_is_taken(
    offers: &[ChannelOffer],
    r: Result<(NetvscInit, HostCall), HvError>,
)
    requires
        call_ensures(NetvscDevice::init, (offers,), r),
    ensures
        match r {
            Ok((init, call)) => exists|i: int|
                {
                    &&& 0 <= i < offers@.len()
                    &&& (#[trigger] offers@[i]).device_type@ == netvsc_bytes()
                    &&& forall|j: int|
                        0 <= j < i ==> (#[trigger] offers@[j]).device_type@
                            != netvsc_bytes()
                    &&& init@.child_relid == offers@[i].child_relid
                    &&& call@ == (Call::OpenChannel {
                        child_relid: offers@[i].child_relid,
                        ring_size: 262144,
                    })
                    &&& starting(offers@[i].child_relid, init@)
                },
            Err(e) => e == HvError::NotHyperV && forall|i: int|
                0 <= i < offers@.len() ==> (#[trigger] offers@[i]).device_type@
                    != netvsc_bytes(),
        },
{
    if let Ok((init, call)) = r {
        let i = choose|i: int| #[trigger]
            is_first_offer(offers@, netvsc_bytes(), i) && starting(offers@[i].child_relid, init@)
                && init@.wf() && call@ == (Call::OpenChannel {
                child_relid: offers@[i].child_relid,
                ring_size: NETVSC_RING_SIZE,
            });
        assert(offers@[i].device_type@ == netvsc_bytes());
    }
}

/// A device begins with no MAC address and the largest frame of Ethernet, its
/// requests numbered from 1 and their transactions from 100.
pub proof fn device_begins_so(child_relid: u32, s: InitState)
    requires
        starting(child_relid, s),
    ensures
        s.stage == Stage::Opening,
        s.child_relid == child_relid,
        s.dev.mac == seq![0u8, 0, 0, 0, 0, 0],
        s.dev.mtu == 1514,
        s.dev.next_request_id == 1,
        s.dev.next_txid == 100,
{
}

/// A device on its way up goes by the replies it is handed, one step for each.
pub proof fn device_follows_the_replies(
    reply: HostReply,
    recv: &[u8],
    p: Progress,
    init: &NetvscInit,
    stage: Stage,
)
    ensures
        forall|i: &mut NetvscInit| #[trigger]
            call_ensures(NetvscInit::resume, (i, reply, recv), p) && (*i)@.wf() && answers(
                (*i)@.stage,
                reply@,
            ) && ((*i)@.stage is RequestReply ==> recv@.len() == 2097152) ==> (*final(i))@
                == (*i)@.step(reply@, recv@).0 && p@ == (*i)@.step(reply@, recv@).1,
        call_ensures(NetvscInit::stage, (init,), stage) ==> stage == init@.stage,
{
}

/// What a device takes for an answer: memory where it asked for memory, a
/// handle where it asked for one, a packet where it waits for one, that nothing
/// is there where it looks, and otherwise that it is done. A failure is one
/// everywhere but where it asked for memory.
pub proof fn device_takes_answers(init: &NetvscInit, reply: &HostReply, r: bool)
    requires
        call_ensures(NetvscInit::expects, (init, reply), r),
    ensures
        r == match reply@ {
            Reply::Failed(_) => init@.stage != Stage::RecvAlloc && init@.stage != Stage::SendAlloc,
            Reply::Region(region) => (init@.stage == Stage::RecvAlloc || init@.stage
                == Stage::SendAlloc) && region.paddr + region.size <= usize::MAX,
            Reply::Gpadl(_) => init@.stage == Stage::RecvGpadl || init@.stage == Stage::SendGpadl,
            Reply::Packet(_) => init@.stage is VersionReply || init@.stage is RecvBufReply
                || init@.stage is SendBufReply || init@.stage is RequestReply,
            Reply::Empty => init@.stage is RequestReply,
            Reply::Done => init@.stage is Opening || init@.stage is VersionSent
                || init@.stage is RecvBufSent || init@.stage is SendBufSent
                || init@.stage is NdisConfigSent || init@.stage is NdisVersionSent
                || init@.stage is RequestSent,
        },
        r == answers(init@.stage, reply@),
{
}

/// What is asked of the host with each stage that the device comes to.
#[verifier::spinoff_prover]
#[verifier::rlimit(50)]
pub proof fn calls_fit_the_stage(s: InitState, reply: Reply, recv: Seq<u8>)
    requires
        s.wf(),
        answers(s.stage, reply),
    ensures
        ({
            let t = s.step(reply, recv).0;
            s.step(reply, recv).1 matches Outcome::Call(call) ==> {
                &&& t.child_relid == s.child_relid
                &&& match t.stage {
                    Stage::Opening => false,
                    Stage::VersionSent { attempt } => call matches Call::Send { message, txid } && {
                        &&& txid == 0
                        &&& message.len() == 64
                        &&& le32_at(message, 0) == 1
                        &&& le32_at(message, 4) == if attempt == 0 {
                            0x3_0002
                        } else if attempt == 1 {
                            0x3_0001int
                        } else {
                            2
                        }
                        &&& le32_at(message, 8) == le32_at(message, 4)
                    },
                    Stage::VersionReply { .. } => call == (Call::Recv { spins: 5_000_000 }),
                    Stage::RecvAlloc => call == (Call::AllocDma { size: 2097152, align: 4096 }),
                    Stage::RecvGpadl => call == (Call::CreateGpadl {
                        child_relid: s.child_relid,
                        size: 2097152,
                        pfns: pfns(t.dev.recv_buf),
                    }),
                    Stage::RecvBufSent => call matches Call::Send { message, txid } && {
                        &&& txid == 1
                        &&& message.len() == 64
                        &&& le32_at(message, 0) == 101
                        &&& le32_at(message, 4) == t.dev.recv_gpadl
                        &&& le32_at(message, 8) == 0xCAFE
                    },
                    Stage::RecvBufReply => call == (Call::Recv { spins: 50_000_000 }),
                    Stage::SendAlloc => call == (Call::AllocDma { size: 1048576, align: 4096 }),
                    Stage::SendGpadl => call == (Call::CreateGpadl {
                        child_relid: s.child_relid,
                        size: 1048576,
                        pfns: pfns(t.dev.send_buf),
                    }),
                    Stage::SendBufSent => call matches Call::Send { message, txid } && {
                        &&& txid == 2
                        &&& message.len() == 64
                        &&& le32_at(message, 0) == 104
                        &&& le32_at(message, 4) == t.dev.send_gpadl
                        &&& le32_at(message, 8) == 0xBEEF
                    },
                    Stage::SendBufReply => call == (Call::Recv { spins: 5_000_000 }),
                    Stage::NdisConfigSent => call matches Call::SendRaw { message, txid } && {
                        &&& txid == 0
                        &&& message.len() == 64
                        &&& le32_at(message, 0) == 196
                        &&& le32_at(message, 4) == 1528
                        &&& le32_at(message, 8) == 1
                    },
                    Stage::NdisVersionSent => call matches Call::SendRaw { message, txid } && {
                        &&& txid == 0
                        &&& message.len() == 64
                        &&& le32_at(message, 0) == 100
                        &&& le32_at(message, 4) == 6
                        &&& le32_at(message, 8) == 30
                    },
                    Stage::RequestSent { request } => call matches Call::SendControl {
                        rndis,
                        message,
                        txid,
                    } && ({
                        &&& message.len() == 64
                        &&& le32_at(message, 0) == 107
                        &&& le32_at(message, 4) == 1
                        &&& le32_at(message, 8) == 0
                        &&& le32_at(message, 12) == rndis.len()
                        &&& le32_at(rndis, 4) == rndis.len()
                        &&& match request {
                            Request::Init => {
                                &&& txid == 100
                                &&& rndis.len() == 24
                                &&& le32_at(rndis, 0) == 2
                                &&& le32_at(rndis, 8) == 1
                                &&& le32_at(rndis, 12) == 1
                                &&& le32_at(rndis, 16) == 0
                                &&& le32_at(rndis, 20) == 16384
                            },
                            Request::Mac => {
                                &&& txid == 101
                                &&& rndis.len() == 28
                                &&& le32_at(rndis, 0) == 4
                                &&& le32_at(rndis, 8) == 2
                                &&& le32_at(rndis, 12) == 0x0101_0101
                            },
                            Request::Mtu => {
                                &&& txid == 102
                                &&& rndis.len() == 28
                                &&& le32_at(rndis, 0) == 4
                                &&& le32_at(rndis, 8) == 3
                                &&& le32_at(rndis, 12) == 0x0001_0106
                            },
                            Request::Filter => {
                                &&& txid == 103
                                &&& rndis.len() == 32
                                &&& le32_at(rndis, 0) == 5
                                &&& le32_at(rndis, 8) == 4
                                &&& le32_at(rndis, 12) == 0x0001_010E
                                &&& le32_at(rndis, 16) == 4
                                &&& le32_at(rndis, 20) == 20
                                &&& le32_at(rndis, 28) == 0xB
                            },
                        }
                    }),
                    Stage::RequestReply { polls, .. } => call is Poll && polls <= 50_000_000,
                }
            }
        }),
{
    let (t, outcome) = s.step(reply, recv);
    nvsp_messages_say(0x3_0002, t.dev.recv_gpadl, 0xCAFE, 1, 0, 24);
    nvsp_messages_say(0x3_0001, t.dev.send_gpadl, 0xBEEF, 1, 0, 28);
    nvsp_messages_say(2, 0, 0, 1, 0, 32);
    rndis_messages_say(1, 0, 0);
    rndis_messages_say(2, 0x0101_0101, 0);
    rndis_messages_say(3, 0x0001_0106, 0);
    rndis_messages_say(4, 0x0001_010E, 0xB);
}

/// What a request says: on the control channel, as long as its RNDIS message;
/// that says what it is, its own length, its number, and what it asks.
pub open spec fn request_says(
    request: Request,
    rndis: Seq<u8>,
    message: Seq<u8>,
    txid: u64,
) -> bool {
    &&& message.len() == 64
    &&& le32_at(message, 0) == 107
    &&& le32_at(message, 4) == 1
    &&& le32_at(message, 8) == 0
    &&& le32_at(message, 12) == rndis.len()
    &&& le32_at(rndis, 4) == rndis.len()
    &&& match request {
        Request::Init => {
            &&& txid == 100
            &&& rndis.len() == 24
            &&& le32_at(rndis, 0) == 2
            &&& le32_at(rndis, 8) == 1
            &&& le32_at(rndis, 12) == 1
            &&& le32_at(rndis, 16) == 0
            &&& le32_at(rndis, 20) == 16384
        },
        Request::Mac => {
            &&& txid == 101
            &&& rndis.len() == 28
            &&& le32_at(rndis, 0) == 4
            &&& le32_at(rndis, 8) == 2
            &&& le32_at(rndis, 12) == 0x0101_0101
        },
        Request::Mtu => {
            &&& txid == 102
            &&& rndis.len() == 28
            &&& le32_at(rndis, 0) == 4
            &&& le32_at(rndis, 8) == 3
            &&& le32_at(rndis, 12) == 0x0001_0106
        },
        Request::Filter => {
            &&& txid == 103
            &&& rndis.len() == 32
            &&& le32_at(rndis, 0) == 5
            &&& le32_at(rndis, 8) == 4
            &&& le32_at(rndis, 12) == 0x0001_010E
            &&& le32_at(rndis, 16) == 4
            &&& le32_at(rndis, 20) == 20
            &&& le32_at(rndis, 28) == 0xB
        },
    }
}

/// The stages in the order in which a device goes through them.
pub open spec fn place(stage: Stage) -> int {
    match stage {
        Stage::Opening => 0,
        Stage::VersionSent { attempt } => 1 + 2 * attempt,
        Stage::VersionReply { attempt } => 2 + 2 * attempt,
        Stage::RecvAlloc => 7,
        Stage::RecvGpadl => 8,
        Stage::RecvBufSent => 9,
        Stage::RecvBufReply => 10,
        Stage::SendAlloc => 11,
        Stage::SendGpadl => 12,
        Stage::SendBufSent => 13,
        Stage::SendBufReply => 14,
        Stage::NdisConfigSent => 15,
        Stage::NdisVersionSent => 16,
        Stage::RequestSent { request } => 17 + 2 * request_index(request),
        Stage::RequestReply { request, .. } => 18 + 2 * request_index(request),
    }
}

/// A device goes through the stages in order, and leaves none out but two: a
/// version that need not be offered, and a configuration that the version has
/// none of. It stays where it is only to wait again.
pub proof fn stages_come_in_order(s: InitState, reply: Reply, recv: Seq<u8>)
    requires
        s.wf(),
        answers(s.stage, reply),
    ensures
        ({
            let (t, outcome) = s.step(reply, recv);
            &&& outcome is Call ==> {
                ||| place(t.stage) == place(s.stage) + 1
                ||| s.stage is VersionReply && t.stage is RecvAlloc
                ||| s.stage is SendBufReply && t.stage is NdisVersionSent && s.dev.nvsp_version <= 2
                ||| s.stage is RecvBufReply && t.stage == s.stage && reply == Reply::Packet(
                    Seq::empty(),
                )
                ||| s.stage is SendBufReply && t.stage == s.stage && reply == Reply::Packet(
                    Seq::empty(),
                )
                ||| s.stage matches Stage::RequestReply { request, polls } && polls > 1 && t.stage
                    == (Stage::RequestReply { request, polls: (polls - 1) as u64 })
            }
            &&& t.stage is NdisConfigSent && s.stage is SendBufReply ==> s.dev.nvsp_version > 2
            &&& s.stage is VersionReply && t.stage is RecvAlloc ==> (reply matches Reply::Packet(p)
                && p.len() >= 16 && le32_at(p, 0) == 2 && le32_at(p, 12) == 1)
            &&& s.stage is VersionReply && t.stage is VersionSent ==> !(reply matches Reply::Packet(
                p,
            ) && p.len() >= 16 && le32_at(p, 0) == 2 && le32_at(p, 12) == 1)
            &&& outcome is Ready ==> s.stage is RequestReply && place(s.stage) == 24
            &&& t.stage is RequestReply && s.stage is RequestSent ==> t.stage->RequestReply_polls
                == 50_000_000
        }),
{
    if let Reply::Packet(p) = reply {
        assert(p.len() == 0 ==> p =~= Seq::empty());
    }
}

/// A device gives up only for a cause, and with the error that tells it: the
/// call failed, no version was accepted, a buffer was refused, a request was
/// refused, or no response came in time. Where there is no cause it goes on.
pub proof fn failures_have_a_cause(s: InitState, reply: Reply, recv: Seq<u8>)
    requires
        s.wf(),
        answers(s.stage, reply),
    ensures
        s.step(reply, recv).1 matches Outcome::Failed(e) ==> match reply {
            Reply::Failed(why) => e == why,
            Reply::Done | Reply::Region(_) | Reply::Gpadl(_) => false,
            Reply::Empty => s.stage->RequestReply_polls == 1 && e == HvError::Timeout,
            Reply::Packet(p) => match s.stage {
                Stage::VersionReply { attempt } => attempt == 2 && e == HvError::VersionRejected
                    && !(p.len() >= 16 && le32_at(p, 0) == 2 && le32_at(p, 12) == 1),
                Stage::RecvBufReply | Stage::SendBufReply => {
                    &&& p.len() > 0
                    &&& !(p.len() >= 8 && le32_at(p, 4) == 1)
                    &&& e == HvError::HypercallFailed(
                        if p.len() >= 8 {
                            (le32_at(p, 4) % 0x1_0000) as u16
                        } else {
                            0xFFFF
                        },
                    )
                },
                Stage::RequestReply { request, polls } => match control_response(p, recv) {
                    None => polls == 1 && e == HvError::Timeout,
                    Some(resp) => match request {
                        Request::Init => if resp.len() >= 4 && le32_at(resp, 0) != 0x8000_0002 {
                            e == HvError::VersionRejected
                        } else {
                            resp.len() >= 16 && le32_at(resp, 12) != 0 && e
                                == HvError::HypercallFailed((le32_at(resp, 12) % 0x1_0000) as u16)
                        },
                        Request::Mac => resp.len() >= 4 && le32_at(resp, 0) != 0x8000_0004 && e
                            == HvError::VersionRejected,
                        Request::Mtu => false,
                        Request::Filter => resp.len() >= 4 && le32_at(resp, 0) != 0x8000_0005 && e
                            == HvError::VersionRejected,
                    },
                },
                _ => false,
            },
        },
        reply is Failed ==> s.step(reply, recv).1 is Failed,
        reply == Reply::Empty && s.stage->RequestReply_polls == 1 ==> s.step(reply, recv).1
            is Failed,
        reply matches Reply::Packet(p) ==> match s.stage {
            Stage::RecvBufReply | Stage::SendBufReply => p.len() > 0 && !(p.len() >= 8 && le32_at(
                p,
                4,
            ) == 1) ==> s.step(reply, recv).1 is Failed,
            Stage::VersionReply { attempt } => attempt == 2 && !(p.len() >= 16 && le32_at(p, 0) == 2
                && le32_at(p, 12) == 1) ==> s.step(reply, recv).1 is Failed,
            _ => true,
        },
{
}

/// Calls, replies and outcomes are seen as they are.
pub proof fn calls_are_seen_as_they_are(call: HostCall, reply: HostReply, p: Progress)
    ensures
        match call {
            HostCall::OpenChannel { child_relid, ring_size } => call@ == (Call::OpenChannel {
                child_relid,
                ring_size,
            }),
            HostCall::Send { message, txid } => call@ == (Call::Send { message: message@, txid }),
            HostCall::SendRaw { message, txid } => call@ == (Call::SendRaw {
                message: message@,
                txid,
            }),
            HostCall::Recv { spins } => call@ == (Call::Recv { spins }),
            HostCall::AllocDma { size, align } => call@ == (Call::AllocDma { size, align }),
            HostCall::CreateGpadl { child_relid, size, pfns } => call@ == (Call::CreateGpadl {
                child_relid,
                size,
                pfns: pfns@,
            }),
            HostCall::SendControl { rndis, message, txid } => call@ == (Call::SendControl {
                rndis: rndis@,
                message: message@,
                txid,
            }),
            HostCall::Poll => call@ is Poll,
        },
        match reply {
            HostReply::Done => reply@ is Done,
            HostReply::Failed(e) => reply@ == Reply::Failed(e),
            HostReply::Packet(bytes) => reply@ == Reply::Packet(bytes@),
            HostReply::Empty => reply@ is Empty,
            HostReply::Region(region) => reply@ == Reply::Region(region),
            HostReply::Gpadl(handle) => reply@ == Reply::Gpadl(handle),
        },
        match p {
            Progress::Call(c) => p@ == Outcome::Call(c@),
            Progress::Ready(d) => p@ == Outcome::Ready(d@),
            Progress::Failed(e) => p@ == Outcome::Failed(e),
        },
{
}

} // verus!
