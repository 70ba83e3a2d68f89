//! What a whole initialisation looks like from the host's side.

use super::init::{
    answers, control_response, offered_version, place, request_index, request_message,
    request_says, stages_come_in_order, starting, Call, InitState, Outcome, Reply, Request, Stage,
};
use super::{DeviceState, NETVSC_RECEIVE_BUFFER_ID, NETVSC_SEND_BUFFER_ID};
use crate::bytes::le32_at;
use crate::hyperv::error::HvError;
use crate::hyperv::nvsp::{
    accepts_version, mac_in, mtu_in, nvsp_init, nvsp_messages_say, nvsp_ndis_config,
    nvsp_ndis_version, nvsp_send_recv_buf, nvsp_send_rndis_pkt, nvsp_send_send_buf,
    rndis_messages_say, NVSP_PROTOCOL_VERSION_1, NVSP_PROTOCOL_VERSION_4, NVSP_PROTOCOL_VERSION_5,
};
use vstd::prelude::*;

verus! {

/// A packet that the guest sends: the NVSP message, its transaction id, and
/// the RNDIS message that lies in the send buffer (empty if there is none).
pub struct Sent {
    pub message: Seq<u8>,
    pub txid: u64,
    pub rndis: Seq<u8>,
}

/// An NVSP message on its own.
pub open spec fn plain(message: Seq<u8>, txid: u64) -> Sent {
    Sent { message, txid, rndis: Seq::empty() }
}

/// What a call puts on the channel.
pub open spec fn sends_of(call: Call) -> Seq<Sent> {
    match call {
        Call::Send { message, txid } => seq![plain(message, txid)],
        Call::SendRaw { message, txid } => seq![plain(message, txid)],
        Call::SendControl { rndis, message, txid } => seq![Sent { message, txid, rndis }],
        _ => Seq::empty(),
    }
}

/// The first `n` version offers.
pub open spec fn offers(n: nat) -> Seq<Sent> {
    Seq::new(n, |k: int| plain(nvsp_init(offered_version(k)), 0))
}

/// How many offers it takes to agree on `version`.
pub open spec fn attempts(version: u32) -> nat {
    if version == NVSP_PROTOCOL_VERSION_5 {
        1
    } else if version == NVSP_PROTOCOL_VERSION_4 {
        2
    } else {
        3
    }
}

/// Request number `k`.
pub open spec fn request_at(k: int) -> Request {
    if k == 0 {
        Request::Init
    } else if k == 1 {
        Request::Mac
    } else if k == 2 {
        Request::Mtu
    } else {
        Request::Filter
    }
}

/// The first `n` requests, under request ids from 1 and transactions from 100.
pub open spec fn requests(n: nat) -> Seq<Sent> {
    Seq::new(
        n,
        |k: int|
            {
                let rndis = request_message(request_at(k), (1 + k) as u32);
                Sent {
                    message: nvsp_send_rndis_pkt(1, 0, rndis.len() as u32),
                    txid: (100 + k) as u64,
                    rndis,
                }
            },
    )
}

/// The buffer announcements.
pub open spec fn recv_buf_shared(dev: DeviceState) -> Seq<Sent> {
    seq![plain(nvsp_send_recv_buf(dev.recv_gpadl, NETVSC_RECEIVE_BUFFER_ID), 1)]
}

pub open spec fn send_buf_shared(dev: DeviceState) -> Seq<Sent> {
    seq![plain(nvsp_send_send_buf(dev.send_gpadl, NETVSC_SEND_BUFFER_ID), 2)]
}

/// The NDIS configuration is only announced above protocol version 1.
pub open spec fn config_announced(dev: DeviceState) -> Seq<Sent> {
    if dev.nvsp_version > NVSP_PROTOCOL_VERSION_1 {
        seq![plain(nvsp_ndis_config(), 0)]
    } else {
        Seq::empty()
    }
}

/// Everything up to and including the send buffer.
pub open spec fn buffers_shared(dev: DeviceState) -> Seq<Sent> {
    offers(attempts(dev.nvsp_version)) + recv_buf_shared(dev) + send_buf_shared(dev)
}

/// Everything before the first request.
pub open spec fn nvsp_done(dev: DeviceState) -> Seq<Sent> {
    buffers_shared(dev) + config_announced(dev) + seq![plain(nvsp_ndis_version(), 0)]
}

/// Everything that is sent to bring `dev` up.
pub open spec fn full_session(dev: DeviceState) -> Seq<Sent> {
    nvsp_done(dev) + requests(4)
}

/// Everything that has been sent when initialisation is in state `s`.
pub open spec fn sent_by(s: InitState) -> Seq<Sent> {
    match s.stage {
        Stage::Opening => Seq::empty(),
        Stage::VersionSent { attempt } => offers((attempt + 1) as nat),
        Stage::VersionReply { attempt } => offers((attempt + 1) as nat),
        Stage::RecvAlloc => offers(attempts(s.dev.nvsp_version)),
        Stage::RecvGpadl => offers(attempts(s.dev.nvsp_version)),
        Stage::RecvBufSent => offers(attempts(s.dev.nvsp_version)) + recv_buf_shared(s.dev),
        Stage::RecvBufReply => offers(attempts(s.dev.nvsp_version)) + recv_buf_shared(s.dev),
        Stage::SendAlloc => offers(attempts(s.dev.nvsp_version)) + recv_buf_shared(s.dev),
        Stage::SendGpadl => offers(attempts(s.dev.nvsp_version)) + recv_buf_shared(s.dev),
        Stage::SendBufSent => buffers_shared(s.dev),
        Stage::SendBufReply => buffers_shared(s.dev),
        Stage::NdisConfigSent => buffers_shared(s.dev) + config_announced(s.dev),
        Stage::NdisVersionSent => nvsp_done(s.dev),
        Stage::RequestSent { request } => nvsp_done(s.dev) + requests(
            (request_index(request) + 1) as nat,
        ),
        Stage::RequestReply { request, .. } => nvsp_done(s.dev) + requests(
            (request_index(request) + 1) as nat,
        ),
    }
}

/// A version has been agreed on before anything else is sent, and the NDIS
/// configuration is only announced where it is due.
pub open spec fn in_order(s: InitState) -> bool {
    &&& (s.stage is Opening || s.stage is VersionSent || s.stage is VersionReply || {
        ||| s.dev.nvsp_version == NVSP_PROTOCOL_VERSION_5
        ||| s.dev.nvsp_version == NVSP_PROTOCOL_VERSION_4
        ||| s.dev.nvsp_version == NVSP_PROTOCOL_VERSION_1
    })
    &&& s.stage is NdisConfigSent ==> s.dev.nvsp_version > NVSP_PROTOCOL_VERSION_1
}

/// A step sends exactly what separates the state after it from the state
/// before it, and keeps the order.
pub proof fn step_sends(s: InitState, reply: Reply, recv: Seq<u8>)
    requires
        s.wf(),
        in_order(s),
        answers(s.stage, reply),
    ensures
        s.step(reply, recv).1 matches Outcome::Call(call) ==> {
            &&& sent_by(s.step(reply, recv).0) == sent_by(s) + sends_of(call)
            &&& s.step(reply, recv).0.wf()
            &&& in_order(s.step(reply, recv).0)
        },
{
    match reply {
        Reply::Failed(_) => {},
        Reply::Done => {
            done_sends(s);
        },
        Reply::Packet(packet) => {
            packet_sends(s, packet, recv);
        },
        Reply::Empty => {},
        Reply::Region(_) => {},
        Reply::Gpadl(handle) => {
            let (next, outcome) = s.step(reply, recv);
            if s.stage is RecvGpadl {
                assert(sent_by(next) =~= sent_by(s) + recv_buf_shared(next.dev));
            } else {
                assert(sent_by(next) =~= sent_by(s) + send_buf_shared(next.dev));
            }
        },
    }
    let (next, outcome) = s.step(reply, recv);
    if outcome is Call && sends_of(outcome->Call_0).len() == 0 {
        assert(sent_by(s) + sends_of(outcome->Call_0) =~= sent_by(s));
    }
}

/// One more request.
proof fn one_more_request(s: InitState, request: Request)
    requires
        s.dev.next_request_id == 1 + request_index(request),
        s.dev.next_txid == 100 + request_index(request),
    ensures
        s.request(request).1 is Call,
        nvsp_done(s.dev) == nvsp_done(s.request(request).0.dev),
        requests((request_index(request) + 1) as nat) == requests(request_index(request) as nat)
            + sends_of(s.request(request).1->Call_0),
{
    let k = request_index(request);
    assert(request_at(k) == request);
    assert(requests((k + 1) as nat) =~= requests(k as nat) + sends_of(
        s.request(request).1->Call_0,
    ));
}

proof fn done_sends(s: InitState)
    requires
        s.wf(),
        in_order(s),
        answers(s.stage, Reply::Done),
    ensures
        s.go_on().1 matches Outcome::Call(call) ==> {
            &&& sent_by(s.go_on().0) == sent_by(s) + sends_of(call)
            &&& s.go_on().0.wf()
            &&& in_order(s.go_on().0)
        },
{
    match s.stage {
        Stage::Opening => {
            assert(offers(1) =~= Seq::<Sent>::empty() + seq![
                plain(nvsp_init(offered_version(0)), 0),
            ]);
        },
        Stage::NdisVersionSent => {
            one_more_request(s, Request::Init);
            assert(requests(0) =~= Seq::<Sent>::empty());
            assert(nvsp_done(s.dev) + requests(1) =~= nvsp_done(s.dev) + sends_of(
                s.request(Request::Init).1->Call_0,
            ));
        },
        Stage::NdisConfigSent => {},
        _ => {
            assert(sent_by(s) + Seq::<Sent>::empty() =~= sent_by(s));
        },
    }
}

proof fn packet_sends(s: InitState, packet: Seq<u8>, recv: Seq<u8>)
    requires
        s.wf(),
        in_order(s),
        answers(s.stage, Reply::Packet(packet)),
    ensures
        s.hear(packet, recv).1 matches Outcome::Call(call) ==> {
            &&& sent_by(s.hear(packet, recv).0) == sent_by(s) + sends_of(call)
            &&& s.hear(packet, recv).0.wf()
            &&& in_order(s.hear(packet, recv).0)
        },
{
    match s.stage {
        Stage::VersionReply { attempt } => {
            if accepts_version(packet) {
                assert(sent_by(s) + Seq::<Sent>::empty() =~= sent_by(s));
            } else if attempt < 2 {
                assert(offers((attempt + 2) as nat) =~= offers((attempt + 1) as nat) + seq![
                    plain(nvsp_init(offered_version(attempt + 1)), 0),
                ]);
            }
        },
        Stage::SendBufReply => {
            if packet.len() == 0 {
                assert(sent_by(s) + Seq::<Sent>::empty() =~= sent_by(s));
            } else if s.dev.nvsp_version <= NVSP_PROTOCOL_VERSION_1 {
                assert(buffers_shared(s.dev) + config_announced(s.dev) =~= buffers_shared(s.dev));
            }
        },
        Stage::RequestReply { request, polls } => {
            match control_response(packet, recv) {
                None => {
                    assert(sent_by(s) + Seq::<Sent>::empty() =~= sent_by(s));
                },
                Some(resp) => {
                    response_sends(s, request, resp);
                },
            }
        },
        _ => {
            assert(sent_by(s) + Seq::<Sent>::empty() =~= sent_by(s));
        },
    }
}

proof fn response_sends(s: InitState, request: Request, resp: Seq<u8>)
    requires
        s.wf(),
        in_order(s),
        s.stage is RequestReply,
        s.stage->RequestReply_request == request,
    ensures
        s.respond(request, resp).1 matches Outcome::Call(call) ==> {
            &&& sent_by(s.respond(request, resp).0) == sent_by(s) + sends_of(call)
            &&& s.respond(request, resp).0.wf()
            &&& in_order(s.respond(request, resp).0)
        },
{
    if !(request is Filter) {
        let following = request_at(request_index(request) + 1);
        let filled = match request {
            Request::Mac => match mac_in(resp) {
                Ok(Some(mac)) => InitState { dev: DeviceState { mac, ..s.dev }, ..s },
                _ => s,
            },
            Request::Mtu => match mtu_in(resp) {
                Some(mtu) => InitState { dev: DeviceState { mtu, ..s.dev }, ..s },
                None => s,
            },
            _ => s,
        };
        one_more_request(filled, following);
        if let Outcome::Call(call) = s.respond(request, resp).1 {
            assert(s.respond(request, resp) == filled.request(following));
            assert(nvsp_done(filled.dev) == nvsp_done(s.dev));
            assert(sent_by(s.respond(request, resp).0) =~= sent_by(s) + sends_of(call));
        }
    }
}

/// A conversation: what came back from each call in turn, with the receive
/// buffer at that time.
pub open spec fn well_answered(s: InitState, inputs: Seq<(Reply, Seq<u8>)>) -> bool
    decreases inputs.len(),
{
    inputs.len() > 0 ==> {
        &&& answers(s.stage, inputs[0].0)
        &&& s.step(inputs[0].0, inputs[0].1).1 is Call ==> well_answered(
            s.step(inputs[0].0, inputs[0].1).0,
            inputs.skip(1),
        )
    }
}

/// Everything that is sent in the course of a conversation.
pub open spec fn said(s: InitState, inputs: Seq<(Reply, Seq<u8>)>) -> Seq<Sent>
    decreases inputs.len(),
{
    if inputs.len() == 0 {
        Seq::empty()
    } else {
        match s.step(inputs[0].0, inputs[0].1).1 {
            Outcome::Call(call) => sends_of(call) + said(
                s.step(inputs[0].0, inputs[0].1).0,
                inputs.skip(1),
            ),
            _ => Seq::empty(),
        }
    }
}

/// How a conversation ends, if it does.
pub open spec fn ending(s: InitState, inputs: Seq<(Reply, Seq<u8>)>) -> Option<Outcome>
    decreases inputs.len(),
{
    if inputs.len() == 0 {
        None
    } else {
        match s.step(inputs[0].0, inputs[0].1).1 {
            Outcome::Call(_) => ending(s.step(inputs[0].0, inputs[0].1).0, inputs.skip(1)),
            outcome => Some(outcome),
        }
    }
}

/// From any state: what has been sent and what is still said add up to the
/// full session of the device that comes up.
pub proof fn conversation_sends(s: InitState, inputs: Seq<(Reply, Seq<u8>)>)
    requires
        s.wf(),
        in_order(s),
        well_answered(s, inputs),
    ensures
        ending(s, inputs) matches Some(Outcome::Ready(dev)) ==> {
            &&& sent_by(s) + said(s, inputs) == full_session(dev)
            &&& attempts(dev.nvsp_version) <= 3
            &&& dev.mac.len() == 6
            &&& dev.next_request_id == 5
            &&& dev.next_txid == 104
        },
    decreases inputs.len(),
{
    if inputs.len() > 0 {
        let (reply, recv) = inputs[0];
        step_sends(s, reply, recv);
        let (next, outcome) = s.step(reply, recv);
        match outcome {
            Outcome::Call(call) => {
                conversation_sends(next, inputs.skip(1));
                assert(sent_by(s) + said(s, inputs) =~= sent_by(next) + said(
                    next,
                    inputs.skip(1),
                ));
            },
            Outcome::Ready(dev) => {
                assert(sent_by(s) + said(s, inputs) =~= full_session(dev));
            },
            Outcome::Failed(_) => {},
        }
    }
}

/// A device only comes up after the host has seen, in this order: version
/// offers, newest first, up to the one it accepted; the receive buffer; the
/// send buffer; the NDIS configuration (above version 1) and version; and the
/// four RNDIS requests, numbered from 1.
pub proof fn bring_up_order(child_relid: u32, s: InitState, inputs: Seq<(Reply, Seq<u8>)>)
    requires
        starting(child_relid, s),
        well_answered(s, inputs),
    ensures
        ending(s, inputs) matches Some(Outcome::Ready(dev)) ==> said(s, inputs) == full_session(
            dev,
        ),
{
    conversation_sends(s, inputs);
    assert(sent_by(s) + said(s, inputs) =~= said(s, inputs));
}

/// A call that fails ends the conversation with its error.
pub proof fn failure_ends(s: InitState, e: HvError, recv: Seq<u8>)
    ensures
        s.step(Reply::Failed(e), recv).1 == Outcome::Failed(e),
{
}

/// A host that stays silent is given up on after exactly as many looks as
/// are left.
pub proof fn silence_times_out(s: InitState, request: Request, polls: u64, recv: Seq<u8>)
    requires
        s.stage == (Stage::RequestReply { request, polls }),
        polls > 0,
    ensures
        ending(s, Seq::new(polls as nat, |i: int| (Reply::Empty, recv))) == Some(
            Outcome::Failed(HvError::Timeout),
        ),
        ending(s, Seq::new((polls - 1) as nat, |i: int| (Reply::Empty, recv))) is None,
    decreases polls,
{
    let looks = Seq::new(polls as nat, |i: int| (Reply::Empty, recv));
    let fewer = Seq::new((polls - 1) as nat, |i: int| (Reply::Empty, recv));
    assert(looks.skip(1) =~= fewer);
    if polls > 1 {
        let next = s.look_again(request, polls).0;
        let rest = (polls - 1) as u64;
        silence_times_out(next, request, rest, recv);
        assert(fewer.skip(1) =~= Seq::new((rest - 1) as nat, |i: int| (Reply::Empty, recv)));
    }
}

// ── What the device comes up with ───────────────────────────────────────

/// What a device has been told stays with it: once it is past the stage at
/// which it learns a thing, the device that comes up has that thing as it was
/// learnt.
proof fn what_is_learnt_stays(s: InitState, inputs: Seq<(Reply, Seq<u8>)>)
    requires
        s.wf(),
        well_answered(s, inputs),
    ensures
        ending(s, inputs) matches Some(Outcome::Ready(dev)) ==> {
            &&& place(s.stage) > 6 ==> dev.nvsp_version == s.dev.nvsp_version
            &&& place(s.stage) > 7 ==> dev.recv_buf == s.dev.recv_buf
            &&& place(s.stage) > 8 ==> dev.recv_gpadl == s.dev.recv_gpadl
            &&& place(s.stage) > 11 ==> dev.send_buf == s.dev.send_buf
            &&& place(s.stage) > 12 ==> dev.send_gpadl == s.dev.send_gpadl
            &&& place(s.stage) > 20 ==> dev.mac == s.dev.mac
            &&& place(s.stage) > 22 ==> dev.mtu == s.dev.mtu
        },
    decreases inputs.len(),
{
    if inputs.len() > 0 {
        let (reply, recv) = inputs[0];
        let (next, outcome) = s.step(reply, recv);
        stages_come_in_order(s, reply, recv);
        if outcome is Call {
            step_is_wf(s, reply, recv);
            what_is_learnt_stays(next, inputs.skip(1));
        }
    }
}

proof fn step_is_wf(s: InitState, reply: Reply, recv: Seq<u8>)
    requires
        s.wf(),
        answers(s.stage, reply),
        s.step(reply, recv).1 is Call,
    ensures
        s.step(reply, recv).0.wf(),
{
}

/// A device that waits for its MAC address and is sent a response that carries
/// one comes up with it, if it comes up: whatever the six bytes are, and
/// wherever the response says that they lie.
pub proof fn device_has_the_mac_it_was_sent(
    s: InitState,
    inputs: Seq<(Reply, Seq<u8>)>,
    packet: Seq<u8>,
    mac: Seq<u8>,
)
    requires
        s.wf(),
        well_answered(s, inputs),
        s.stage matches Stage::RequestReply { request, .. } && request == Request::Mac,
        inputs.len() > 0,
        inputs[0].0 == Reply::Packet(packet),
        packet.len() >= 4,
        le32_at(packet, 0) == 107,
        inputs[0].1.len() == 2097152,
        mac.len() == 6,
        ({
            let recv = inputs[0].1;
            let at = 8 + le32_at(recv, 20);
            &&& 24 <= le32_at(recv, 4) <= 2097152
            &&& le32_at(recv, 0) == 0x8000_0004
            &&& le32_at(recv, 16) >= 6
            &&& at + 6 <= le32_at(recv, 4)
            &&& at + 6 <= 256
            &&& forall|i: int| 0 <= i < 6 ==> recv[at + i] == #[trigger] mac[i]
        }),
    ensures
        s.step(inputs[0].0, inputs[0].1).1 is Call,
        ending(s, inputs) matches Some(Outcome::Ready(dev)) ==> dev.mac == mac,
{
    let recv = inputs[0].1;
    let n: int = if le32_at(recv, 4) < 256 {
        le32_at(recv, 4) as int
    } else {
        256
    };
    let resp = recv.take(n);
    assert(control_response(packet, recv) == Some(resp));
    let at = 8 + le32_at(recv, 20);
    assert(le32_at(resp, 0) == le32_at(recv, 0) && le32_at(resp, 16) == le32_at(recv, 16)
        && le32_at(resp, 20) == le32_at(recv, 20));
    assert(resp.subrange(at, at + 6) =~= mac);
    let next = s.step(inputs[0].0, recv).0;
    assert(next.dev.mac == mac);
    step_is_wf(s, inputs[0].0, recv);
    what_is_learnt_stays(next, inputs.skip(1));
}

/// A device that is sent no MAC address has none when it comes up: six zeros.
pub proof fn device_makes_no_mac_up(s: InitState, inputs: Seq<(Reply, Seq<u8>)>)
    requires
        s.wf(),
        well_answered(s, inputs),
        place(s.stage) <= 20,
        forall|k: int|
            0 <= k < inputs.len() ==> !(#[trigger] inputs[k].0 matches Reply::Packet(packet)
                && control_response(packet, inputs[k].1) matches Some(resp) && mac_in(
                resp,
            ) matches Ok(Some(_))),
    ensures
        ending(s, inputs) matches Some(Outcome::Ready(dev)) ==> dev.mac == s.dev.mac,
    decreases inputs.len(),
{
    if inputs.len() > 0 {
        let (reply, recv) = inputs[0];
        let (next, outcome) = s.step(reply, recv);
        stages_come_in_order(s, reply, recv);
        if outcome is Call {
            step_is_wf(s, reply, recv);
            assert(next.dev.mac == s.dev.mac) by {
                assert(!(inputs[0].0 matches Reply::Packet(packet) && control_response(
                    packet,
                    inputs[0].1,
                ) matches Some(resp) && mac_in(resp) matches Ok(Some(_))));
            }
            let rest = inputs.skip(1);
            if place(next.stage) <= 20 {
                assert forall|k: int| 0 <= k < rest.len() implies !(#[trigger] rest[k].0
                    matches Reply::Packet(packet) && control_response(packet, rest[k].1)
                    matches Some(resp) && mac_in(resp) matches Ok(Some(_))) by {
                    assert(rest[k] == inputs[k + 1]);
                }
                device_makes_no_mac_up(next, rest);
            } else {
                what_is_learnt_stays(next, rest);
            }
        }
    }
}

/// A device that waits for its largest frame and is sent it comes up with it.
pub proof fn device_has_the_mtu_it_was_sent(
    s: InitState,
    inputs: Seq<(Reply, Seq<u8>)>,
    packet: Seq<u8>,
)
    requires
        s.wf(),
        well_answered(s, inputs),
        s.stage matches Stage::RequestReply { request, .. } && request == Request::Mtu,
        inputs.len() > 0,
        inputs[0].0 == Reply::Packet(packet),
        packet.len() >= 4,
        le32_at(packet, 0) == 107,
        inputs[0].1.len() == 2097152,
        ({
            let recv = inputs[0].1;
            &&& 24 <= le32_at(recv, 4) <= 2097152
            &&& le32_at(recv, 0) == 0x8000_0004
            &&& le32_at(recv, 16) >= 4
            &&& 12 + le32_at(recv, 20) <= le32_at(recv, 4)
            &&& 12 + le32_at(recv, 20) <= 256
        }),
    ensures
        s.step(inputs[0].0, inputs[0].1).1 is Call,
        ending(s, inputs) matches Some(Outcome::Ready(dev)) ==> dev.mtu == le32_at(
            inputs[0].1,
            8 + le32_at(inputs[0].1, 20),
        ),
{
    let recv = inputs[0].1;
    let n: int = if le32_at(recv, 4) < 256 {
        le32_at(recv, 4) as int
    } else {
        256
    };
    let resp = recv.take(n);
    assert(control_response(packet, recv) == Some(resp));
    let at = 8 + le32_at(recv, 20);
    assert(le32_at(resp, 0) == le32_at(recv, 0) && le32_at(resp, 16) == le32_at(recv, 16)
        && le32_at(resp, 20) == le32_at(recv, 20));
    let info = resp.subrange(at, at + 4);
    assert(info[0] == recv[at] && info[1] == recv[at + 1] && info[2] == recv[at + 2] && info[3]
        == recv[at + 3]);
    let next = s.step(inputs[0].0, recv).0;
    assert(next.dev.mtu == le32_at(recv, at));
    step_is_wf(s, inputs[0].0, recv);
    what_is_learnt_stays(next, inputs.skip(1));
}

/// A device comes up with the memory and the handles that it was handed, each
/// for the buffer that it asked them for, and with the version that the host
/// accepted.
pub proof fn device_has_what_it_was_handed(s: InitState, inputs: Seq<(Reply, Seq<u8>)>)
    requires
        s.wf(),
        well_answered(s, inputs),
        inputs.len() > 0,
    ensures
        ending(s, inputs) matches Some(Outcome::Ready(dev)) ==> match inputs[0].0 {
            Reply::Region(region) => if s.stage == Stage::RecvAlloc {
                dev.recv_buf == region
            } else {
                dev.send_buf == region
            },
            Reply::Gpadl(handle) => if s.stage == Stage::RecvGpadl {
                dev.recv_gpadl == handle
            } else {
                dev.send_gpadl == handle
            },
            Reply::Packet(p) => (s.stage matches Stage::VersionReply { attempt } && p.len() >= 16
                && le32_at(p, 0) == 2 && le32_at(p, 12) == 1) ==> dev.nvsp_version == (
            match s.stage->VersionReply_attempt {
                0 => 0x3_0002int,
                1 => 0x3_0001,
                _ => 2,
            }),
            _ => true,
        },
{
    let (reply, recv) = inputs[0];
    let (next, outcome) = s.step(reply, recv);
    if outcome is Call {
        step_is_wf(s, reply, recv);
        stages_come_in_order(s, reply, recv);
        what_is_learnt_stays(next, inputs.skip(1));
    }
}

/// What the host has seen, message by message, once a device is up.
#[verifier::spinoff_prover]
#[verifier::rlimit(50)]
pub proof fn session_says(dev: DeviceState)
    requires
        dev.nvsp_version == 0x3_0002 || dev.nvsp_version == 0x3_0001 || dev.nvsp_version == 2,
    ensures
        ({
            let said = full_session(dev);
            let k: int = if dev.nvsp_version == 0x3_0002 {
                1
            } else if dev.nvsp_version == 0x3_0001 {
                2
            } else {
                3
            };
            let c: int = if dev.nvsp_version > 2 {
                1
            } else {
                0
            };
            &&& said.len() == k + c + 7
            &&& says(said[0], 0, 1, 0x3_0002)
            &&& k > 1 ==> says(said[1], 0, 1, 0x3_0001)
            &&& k > 2 ==> says(said[2], 0, 1, 2)
            &&& says(said[k], 1, 101, dev.recv_gpadl as int)
            &&& le32_at(said[k].message, 8) == 0xCAFE
            &&& says(said[k + 1], 2, 104, dev.send_gpadl as int)
            &&& le32_at(said[k + 1].message, 8) == 0xBEEF
            &&& c == 1 ==> says(said[k + 2], 0, 196, 1528)
            &&& says(said[k + c + 2], 0, 100, 6)
            &&& request_says(
                Request::Init,
                said[k + c + 3].rndis,
                said[k + c + 3].message,
                said[k + c + 3].txid,
            )
            &&& request_says(
                Request::Mac,
                said[k + c + 4].rndis,
                said[k + c + 4].message,
                said[k + c + 4].txid,
            )
            &&& request_says(
                Request::Mtu,
                said[k + c + 5].rndis,
                said[k + c + 5].message,
                said[k + c + 5].txid,
            )
            &&& request_says(
                Request::Filter,
                said[k + c + 6].rndis,
                said[k + c + 6].message,
                said[k + c + 6].txid,
            )
        }),
{
    let k: int = attempts(dev.nvsp_version) as int;
    let c: int = config_announced(dev).len() as int;
    let said = full_session(dev);
    assert(said[0] == offers(attempts(dev.nvsp_version))[0]);
    if k > 1 {
        assert(said[1] == offers(attempts(dev.nvsp_version))[1]);
    }
    if k > 2 {
        assert(said[2] == offers(attempts(dev.nvsp_version))[2]);
    }
    assert(said[k] == recv_buf_shared(dev)[0]);
    assert(said[k + 1] == send_buf_shared(dev)[0]);
    if c == 1 {
        assert(said[k + 2] == plain(nvsp_ndis_config(), 0));
    }
    assert(said[k + c + 2] == plain(nvsp_ndis_version(), 0));
    assert(said[k + c + 3] == requests(4)[0]);
    assert(said[k + c + 4] == requests(4)[1]);
    assert(said[k + c + 5] == requests(4)[2]);
    assert(said[k + c + 6] == requests(4)[3]);
    plain_messages_say(0x3_0002, dev.recv_gpadl, dev.send_gpadl);
    plain_messages_say(0x3_0001, 0, 0);
    plain_messages_say(2, 0, 0);
    request_is_said(0);
    request_is_said(1);
    request_is_said(2);
    request_is_said(3);
}

proof fn plain_messages_say(version: u32, recv_gpadl: u32, send_gpadl: u32)
    ensures
        says(plain(nvsp_init(version), 0), 0, 1, version as int),
        says(plain(nvsp_send_recv_buf(recv_gpadl, 0xCAFE), 1), 1, 101, recv_gpadl as int),
        le32_at(nvsp_send_recv_buf(recv_gpadl, 0xCAFE), 8) == 0xCAFE,
        says(plain(nvsp_send_send_buf(send_gpadl, 0xBEEF), 2), 2, 104, send_gpadl as int),
        le32_at(nvsp_send_send_buf(send_gpadl, 0xBEEF), 8) == 0xBEEF,
        says(plain(nvsp_ndis_config(), 0), 0, 196, 1528),
        says(plain(nvsp_ndis_version(), 0), 0, 100, 6),
{
    nvsp_messages_say(version, recv_gpadl, 0xCAFE, 0, 0, 0);
    nvsp_messages_say(version, send_gpadl, 0xBEEF, 0, 0, 0);
}

proof fn request_is_said(k: int)
    requires
        0 <= k < 4,
    ensures
        request_says(
            request_at(k),
            requests(4)[k].rndis,
            requests(4)[k].message,
            requests(4)[k].txid,
        ),
{
    let rndis = request_message(request_at(k), (1 + k) as u32);
    nvsp_messages_say(0, 0, 0, 1, 0, rndis.len() as u32);
    if k == 0 {
        rndis_messages_say(1, 0, 0);
    } else if k == 1 {
        rndis_messages_say(2, 0x0101_0101, 0);
    } else if k == 2 {
        rndis_messages_say(3, 0x0001_0106, 0);
    } else {
        rndis_messages_say(4, 0x0001_010E, 0xB);
    }
}

/// A message on its own: its transaction, its type and its next word.
pub open spec fn says(sent: Sent, txid: int, kind: int, word: int) -> bool {
    &&& sent.txid == txid
    &&& sent.rndis.len() == 0
    &&& sent.message.len() == 64
    &&& le32_at(sent.message, 0) == kind
    &&& le32_at(sent.message, 4) == word
}

} // verus!
