//! NVSP and RNDIS messages: what NetVSC sends and how it reads the replies.
//!
//! Every message is a row of little-endian words. NVSP messages are padded
//! to [`NVSP_MESSAGE_SIZE`] bytes; RNDIS messages carry their own length in
//! their second word.

use super::error::HvError;
use crate::bytes::{
    le32_at, read_le32, words, words_round_trip, write_bytes, write_words, zero_words,
};
use vstd::prelude::*;

verus! {

// NVSP message types.
pub const NVSP_MSG_TYPE_INIT: u32 = 1;

pub const NVSP_MSG_TYPE_INIT_COMPLETE: u32 = 2;

pub const NVSP_MSG1_TYPE_SEND_NDIS_VER: u32 = 100;

pub const NVSP_MSG1_TYPE_SEND_RECV_BUF: u32 = 101;

pub const NVSP_MSG1_TYPE_SEND_SEND_BUF: u32 = 104;

pub const NVSP_MSG1_TYPE_SEND_RNDIS_PKT: u32 = 107;

pub const NVSP_MSG1_TYPE_SEND_RNDIS_PKT_COMPLETE: u32 = 108;

pub const NVSP_MSG2_TYPE_SEND_NDIS_CONFIG: u32 = 196;

// NVSP protocol versions.
/// WIN2012R2 and later.
pub const NVSP_PROTOCOL_VERSION_5: u32 = 0x30002;

/// WIN2012.
pub const NVSP_PROTOCOL_VERSION_4: u32 = 0x30001;

/// WIN2008.
pub const NVSP_PROTOCOL_VERSION_1: u32 = 0x00002;

/// The host expects at least this many bytes for every NVSP message.
pub const NVSP_MESSAGE_SIZE: usize = 64;

// RNDIS message types.
pub const RNDIS_MSG_PACKET: u32 = 0x0000_0001;

pub const RNDIS_MSG_INIT: u32 = 0x0000_0002;

pub const RNDIS_MSG_INIT_CMPLT: u32 = 0x8000_0002;

pub const RNDIS_MSG_QUERY: u32 = 0x0000_0004;

pub const RNDIS_MSG_QUERY_CMPLT: u32 = 0x8000_0004;

pub const RNDIS_MSG_SET: u32 = 0x0000_0005;

pub const RNDIS_MSG_SET_CMPLT: u32 = 0x8000_0005;

pub const RNDIS_MSG_KEEPALIVE: u32 = 0x0000_0008;

pub const RNDIS_MSG_KEEPALIVE_CMPLT: u32 = 0x8000_0008;

// Object identifiers.
pub const OID_802_3_PERMANENT_ADDRESS: u32 = 0x0101_0101;

pub const OID_GEN_MAXIMUM_FRAME_SIZE: u32 = 0x0001_0106;

pub const OID_GEN_CURRENT_PACKET_FILTER: u32 = 0x0001_010E;

/// Directed, multicast and broadcast frames (0x01, 0x02 and 0x08).
pub const PACKET_FILTER: u32 = 0x0B;

/// Size of the RNDIS_PACKET_MSG header.
pub const RNDIS_PACKET_HDR_SIZE: usize = 44;

/// An NVSP message: four words, padded with zeros to sixteen.
pub open spec fn nvsp_message(kind: u32, a: u32, b: u32, c: u32) -> Seq<u8> {
    words(seq![kind, a, b, c] + zero_words(12))
}

/// Write the NVSP message `kind, a, b, c` over the start of `buf`.
fn write_nvsp(buf: &mut [u8], kind: u32, a: u32, b: u32, c: u32)
    requires
        old(buf)@.len() >= NVSP_MESSAGE_SIZE,
    ensures
        final(buf)@ == nvsp_message(kind, a, b, c) + old(buf)@.skip(NVSP_MESSAGE_SIZE as int),
{
    let ws: [u32; 16] = [kind, a, b, c, 0, 0, 0, 0, 0, 0, 0, 0, 0, 0, 0, 0];
    assert(ws@ =~= seq![kind, a, b, c] + zero_words(12));
    write_words(buf, &ws);
}

// ── NVSP messages ───────────────────────────────────────────────────────

/// Offer the host protocol `version`.
pub open spec fn nvsp_init(version: u32) -> Seq<u8> {
    nvsp_message(NVSP_MSG_TYPE_INIT, version, version, 0)
}

/// Share the receive buffer behind a GPADL.
pub open spec fn nvsp_send_recv_buf(gpadl_handle: u32, id: u16) -> Seq<u8> {
    nvsp_message(NVSP_MSG1_TYPE_SEND_RECV_BUF, gpadl_handle, id as u32, 0)
}

/// Share the send buffer behind a GPADL.
pub open spec fn nvsp_send_send_buf(gpadl_handle: u32, id: u16) -> Seq<u8> {
    nvsp_message(NVSP_MSG1_TYPE_SEND_SEND_BUF, gpadl_handle, id as u32, 0)
}

/// Announce an RNDIS message of `size` bytes in section `section` of the
/// send buffer. Channel type 1 is control, 0 is data.
pub open spec fn nvsp_send_rndis_pkt(channel_type: u32, section: u32, size: u32) -> Seq<u8> {
    nvsp_message(NVSP_MSG1_TYPE_SEND_RNDIS_PKT, channel_type, section, size)
}

/// Frames of up to 1514 + 14 bytes, with 802.1Q tags.
pub open spec fn nvsp_ndis_config() -> Seq<u8> {
    nvsp_message(NVSP_MSG2_TYPE_SEND_NDIS_CONFIG, 1528, 1, 0)
}

/// NDIS 6.30.
pub open spec fn nvsp_ndis_version() -> Seq<u8> {
    nvsp_message(NVSP_MSG1_TYPE_SEND_NDIS_VER, 0x0006, 0x001e, 0)
}

/// Build an NVSP_MSG_TYPE_INIT message (padded to 64 bytes).
pub fn build_nvsp_init(version: u32, buf: &mut [u8]) -> (len: usize)
    requires
        old(buf)@.len() >= NVSP_MESSAGE_SIZE,
    ensures
        len == NVSP_MESSAGE_SIZE,
        final(buf)@ == nvsp_init(version) + old(buf)@.skip(NVSP_MESSAGE_SIZE as int),
{
    write_nvsp(buf, NVSP_MSG_TYPE_INIT, version, version, 0);
    NVSP_MESSAGE_SIZE
}

/// Build NVSP_MSG1_TYPE_SEND_RECV_BUF message (padded to 64 bytes).
pub fn build_nvsp_send_recv_buf(gpadl_handle: u32, id: u16, buf: &mut [u8]) -> (len: usize)
    requires
        old(buf)@.len() >= NVSP_MESSAGE_SIZE,
    ensures
        len == NVSP_MESSAGE_SIZE,
        final(buf)@ == nvsp_send_recv_buf(gpadl_handle, id) + old(buf)@.skip(
            NVSP_MESSAGE_SIZE as int,
        ),
{
    write_nvsp(buf, NVSP_MSG1_TYPE_SEND_RECV_BUF, gpadl_handle, id as u32, 0);
    NVSP_MESSAGE_SIZE
}

/// Build NVSP_MSG1_TYPE_SEND_SEND_BUF message (padded to 64 bytes).
pub fn build_nvsp_send_send_buf(gpadl_handle: u32, id: u16, buf: &mut [u8]) -> (len: usize)
    requires
        old(buf)@.len() >= NVSP_MESSAGE_SIZE,
    ensures
        len == NVSP_MESSAGE_SIZE,
        final(buf)@ == nvsp_send_send_buf(gpadl_handle, id) + old(buf)@.skip(
            NVSP_MESSAGE_SIZE as int,
        ),
{
    write_nvsp(buf, NVSP_MSG1_TYPE_SEND_SEND_BUF, gpadl_handle, id as u32, 0);
    NVSP_MESSAGE_SIZE
}

/// Build NVSP_MSG1_TYPE_SEND_RNDIS_PKT message (padded to 64 bytes).
/// channel_type: 1 = control, 0 = data
pub fn build_nvsp_send_rndis_pkt(
    channel_type: u32,
    send_buf_section_idx: u32,
    send_buf_section_size: u32,
    buf: &mut [u8],
) -> (len: usize)
    requires
        old(buf)@.len() >= NVSP_MESSAGE_SIZE,
    ensures
        len == NVSP_MESSAGE_SIZE,
        final(buf)@ == nvsp_send_rndis_pkt(
            channel_type,
            send_buf_section_idx,
            send_buf_section_size,
        ) + old(buf)@.skip(NVSP_MESSAGE_SIZE as int),
{
    write_nvsp(
        buf,
        NVSP_MSG1_TYPE_SEND_RNDIS_PKT,
        channel_type,
        send_buf_section_idx,
        send_buf_section_size,
    );
    NVSP_MESSAGE_SIZE
}

/// Build the NDIS configuration message (padded to 64 bytes).
pub fn build_nvsp_ndis_config(buf: &mut [u8]) -> (len: usize)
    requires
        old(buf)@.len() >= NVSP_MESSAGE_SIZE,
    ensures
        len == NVSP_MESSAGE_SIZE,
        final(buf)@ == nvsp_ndis_config() + old(buf)@.skip(NVSP_MESSAGE_SIZE as int),
{
    let mtu_with_hdr: u32 = 1514 + 14;
    write_nvsp(buf, NVSP_MSG2_TYPE_SEND_NDIS_CONFIG, mtu_with_hdr, 1, 0);
    NVSP_MESSAGE_SIZE
}

/// Build the NDIS version message (padded to 64 bytes).
pub fn build_nvsp_ndis_version(buf: &mut [u8]) -> (len: usize)
    requires
        old(buf)@.len() >= NVSP_MESSAGE_SIZE,
    ensures
        len == NVSP_MESSAGE_SIZE,
        final(buf)@ == nvsp_ndis_version() + old(buf)@.skip(NVSP_MESSAGE_SIZE as int),
{
    write_nvsp(buf, NVSP_MSG1_TYPE_SEND_NDIS_VER, 0x0006, 0x001e, 0);
    NVSP_MESSAGE_SIZE
}

// ── NVSP replies ────────────────────────────────────────────────────────

/// The NVSP message type of `payload`, if it is long enough to hold one.
pub open spec fn nvsp_type(payload: Seq<u8>) -> Option<u32> {
    if payload.len() < 4 {
        None
    } else {
        Some(le32_at(payload, 0))
    }
}

/// Parse NVSP message type from received payload.
pub fn parse_nvsp_type(payload: &[u8]) -> (r: Option<u32>)
    ensures
        r == nvsp_type(payload@),
{
    if payload.len() < 4 {
        return None;
    }
    Some(read_le32(payload, 0))
}

/// INIT_COMPLETE: msg_type, negotiated version, max MDL, status; status 1 is
/// success.
pub open spec fn accepts_version(resp: Seq<u8>) -> bool {
    nvsp_type(resp) == Some(NVSP_MSG_TYPE_INIT_COMPLETE) && resp.len() >= 16 && le32_at(resp, 12)
        == 1
}

/// Whether `resp` accepts the protocol version that was offered.
pub fn version_accepted(resp: &[u8]) -> (r: bool)
    ensures
        r == accepts_version(resp@),
{
    match parse_nvsp_type(resp) {
        Some(NVSP_MSG_TYPE_INIT_COMPLETE) => {
            let status: u32 = if resp.len() >= 16 {
                read_le32(resp, 12)
            } else {
                0
            };
            status == 1
        },
        _ => false,
    }
}

/// The status word of a reply to a shared buffer: msg_type, status, ...;
/// a reply too short to hold one counts as status 0xFFFF.
pub open spec fn buffer_status(resp: Seq<u8>) -> u32 {
    if resp.len() >= 8 {
        le32_at(resp, 4)
    } else {
        0xFFFF
    }
}

/// Status 1 is success; anything else is reported by its low 16 bits.
pub open spec fn buffer_accepted(resp: Seq<u8>) -> Result<(), HvError> {
    if buffer_status(resp) == 1 {
        Ok(())
    } else {
        Err(HvError::HypercallFailed((buffer_status(resp) % 65536) as u16))
    }
}

/// The section size in a reply to the send buffer, or 0.
pub open spec fn section_size(resp: Seq<u8>) -> u32 {
    if resp.len() >= 12 {
        le32_at(resp, 8)
    } else {
        0
    }
}

/// Check the host's reply to the receive buffer.
pub fn check_recv_buf_complete(resp: &[u8]) -> (r: Result<(), HvError>)
    ensures
        r == buffer_accepted(resp@),
{
    let status: u32 = if resp.len() >= 8 {
        read_le32(resp, 4)
    } else {
        0xFFFF
    };
    if status != 1 {
        return Err(HvError::HypercallFailed((status % 65536) as u16));
    }
    Ok(())
}

/// Check the host's reply to the send buffer; on success, its section size.
pub fn check_send_buf_complete(resp: &[u8]) -> (r: Result<u32, HvError>)
    ensures
        r == (match buffer_accepted(resp@) {
            Ok(_) => Ok::<u32, HvError>(section_size(resp@)),
            Err(e) => Err(e),
        }),
{
    match check_recv_buf_complete(resp) {
        Err(e) => Err(e),
        Ok(_) => {
            if resp.len() >= 12 {
                Ok(read_le32(resp, 8))
            } else {
                Ok(0)
            }
        },
    }
}

// ── RNDIS messages ──────────────────────────────────────────────────────

/// Version 1.0, transfers of up to 16 KiB.
pub open spec fn rndis_init(request_id: u32) -> Seq<u8> {
    words(seq![RNDIS_MSG_INIT, 24, request_id, 1, 0, 0x4000])
}

/// Ask for `oid`, with an empty information buffer.
pub open spec fn rndis_query(request_id: u32, oid: u32) -> Seq<u8> {
    words(seq![RNDIS_MSG_QUERY, 28, request_id, oid, 0, 0, 0])
}

/// Set `oid` to `value`: four bytes, 20 bytes after the request id.
pub open spec fn rndis_set_u32(request_id: u32, oid: u32, value: u32) -> Seq<u8> {
    words(seq![RNDIS_MSG_SET, 32, request_id, oid, 4, 20, 0, value])
}

/// Answer a keepalive with success.
pub open spec fn rndis_keepalive_cmplt(request_id: u32) -> Seq<u8> {
    words(seq![RNDIS_MSG_KEEPALIVE_CMPLT, 16, request_id, 0])
}

/// One Ethernet frame: the frame starts 36 bytes after the offset field,
/// that is right behind the header.
pub open spec fn rndis_packet(frame: Seq<u8>) -> Seq<u8> {
    words(
        seq![
            RNDIS_MSG_PACKET,
            (44 + frame.len()) as u32,
            36u32,
            frame.len() as u32,
            0u32,
            0u32,
            0u32,
            0u32,
            0u32,
            0u32,
            0u32,
        ],
    ) + frame
}

/// Build RNDIS_INITIALIZE_MSG.
pub fn build_rndis_init(request_id: u32, buf: &mut [u8]) -> (len: usize)
    requires
        old(buf)@.len() >= 24,
    ensures
        len == 24,
        final(buf)@ == rndis_init(request_id) + old(buf)@.skip(24),
{
    let ws: [u32; 6] = [RNDIS_MSG_INIT, 24, request_id, 1, 0, 0x4000];
    assert(ws@ =~= seq![RNDIS_MSG_INIT, 24, request_id, 1, 0, 0x4000]);
    write_words(buf, &ws);
    24
}

/// Build RNDIS_QUERY_MSG.
pub fn build_rndis_query(request_id: u32, oid: u32, buf: &mut [u8]) -> (len: usize)
    requires
        old(buf)@.len() >= 28,
    ensures
        len == 28,
        final(buf)@ == rndis_query(request_id, oid) + old(buf)@.skip(28),
{
    let ws: [u32; 7] = [RNDIS_MSG_QUERY, 28, request_id, oid, 0, 0, 0];
    assert(ws@ =~= seq![RNDIS_MSG_QUERY, 28, request_id, oid, 0, 0, 0]);
    write_words(buf, &ws);
    28
}

/// Build RNDIS_SET_MSG with a u32 value.
pub fn build_rndis_set_u32(request_id: u32, oid: u32, value: u32, buf: &mut [u8]) -> (len: usize)
    requires
        old(buf)@.len() >= 32,
    ensures
        len == 32,
        final(buf)@ == rndis_set_u32(request_id, oid, value) + old(buf)@.skip(32),
{
    let ws: [u32; 8] = [RNDIS_MSG_SET, 32, request_id, oid, 4, 20, 0, value];
    assert(ws@ =~= seq![RNDIS_MSG_SET, 32, request_id, oid, 4, 20, 0, value]);
    write_words(buf, &ws);
    32
}

/// Build RNDIS_KEEPALIVE_CMPLT response.
pub fn build_rndis_keepalive_cmplt(request_id: u32, buf: &mut [u8]) -> (len: usize)
    requires
        old(buf)@.len() >= 16,
    ensures
        len == 16,
        final(buf)@ == rndis_keepalive_cmplt(request_id) + old(buf)@.skip(16),
{
    let ws: [u32; 4] = [RNDIS_MSG_KEEPALIVE_CMPLT, 16, request_id, 0];
    assert(ws@ =~= seq![RNDIS_MSG_KEEPALIVE_CMPLT, 16, request_id, 0]);
    write_words(buf, &ws);
    16
}

/// Build RNDIS_PACKET_MSG around an Ethernet frame.
pub fn build_rndis_packet(frame: &[u8], buf: &mut [u8]) -> (len: usize)
    requires
        RNDIS_PACKET_HDR_SIZE + frame@.len() <= old(buf)@.len(),
        RNDIS_PACKET_HDR_SIZE + frame@.len() <= u32::MAX,
    ensures
        len == RNDIS_PACKET_HDR_SIZE + frame@.len(),
        final(buf)@ == rndis_packet(frame@) + old(buf)@.skip((44 + frame@.len()) as int),
{
    let n: usize = frame.len();
    let total: usize = buf.len();
    let ws: [u32; 11] = [
        RNDIS_MSG_PACKET,
        44 + n as u32,
        36,
        n as u32,
        0,
        0,
        0,
        0,
        0,
        0,
        0,
    ];
    write_words(buf, &ws);
    write_bytes(buf, RNDIS_PACKET_HDR_SIZE, frame);
    proof {
        let header = seq![
            RNDIS_MSG_PACKET,
            (44 + frame@.len()) as u32,
            36u32,
            frame@.len() as u32,
            0u32,
            0u32,
            0u32,
            0u32,
            0u32,
            0u32,
            0u32,
        ];
        assert(ws@ =~= header);
        assert(buf@ =~= rndis_packet(frame@) + old(buf)@.skip((44 + frame@.len()) as int));
    }
    RNDIS_PACKET_HDR_SIZE + n
}

// ── RNDIS replies ───────────────────────────────────────────────────────

/// The RNDIS type of a reply is checked when it is there to check.
pub open spec fn has_other_type(resp: Seq<u8>, expected: u32) -> bool {
    resp.len() >= 4 && le32_at(resp, 0) != expected
}

/// INIT_CMPLT with status 0. A reply too short to carry a type or a status
/// is let through.
pub open spec fn init_complete(resp: Seq<u8>) -> Result<(), HvError> {
    if has_other_type(resp, RNDIS_MSG_INIT_CMPLT) {
        Err(HvError::VersionRejected)
    } else if resp.len() >= 16 && le32_at(resp, 12) != 0 {
        Err(HvError::HypercallFailed((le32_at(resp, 12) % 65536) as u16))
    } else {
        Ok(())
    }
}

/// Check the reply to RNDIS_INITIALIZE_MSG.
pub fn check_init_complete(resp: &[u8]) -> (r: Result<(), HvError>)
    ensures
        r == init_complete(resp@),
{
    if resp.len() >= 4 {
        let rndis_type: u32 = read_le32(resp, 0);
        if rndis_type != RNDIS_MSG_INIT_CMPLT {
            return Err(HvError::VersionRejected);
        }
    }
    if resp.len() >= 16 {
        let status: u32 = read_le32(resp, 12);
        if status != 0 {
            return Err(HvError::HypercallFailed((status % 65536) as u16));
        }
    }
    Ok(())
}

/// The first `want` bytes of the information buffer of a QUERY_CMPLT.
///
/// QUERY_CMPLT is header (8 bytes), request id, status, buffer length and
/// buffer offset; the offset counts from the request id.
pub open spec fn query_info(resp: Seq<u8>, want: nat) -> Option<Seq<u8>> {
    if resp.len() >= 24 && le32_at(resp, 16) >= want && 8 + le32_at(resp, 20) + want
        <= resp.len() {
        Some(resp.subrange(8 + le32_at(resp, 20), 8 + le32_at(resp, 20) + want))
    } else {
        None
    }
}

/// Where the first `want` bytes of the information buffer start.
fn query_info_start(resp: &[u8], want: u32) -> (r: Option<usize>)
    ensures
        match r {
            Some(start) => {
                &&& start + want <= resp@.len()
                &&& query_info(resp@, want as nat) == Some(
                    resp@.subrange(start as int, start + want),
                )
            },
            None => query_info(resp@, want as nat) is None,
        },
{
    let resp_len: usize = resp.len();
    if resp_len >= 24 {
        let info_buf_len: u32 = read_le32(resp, 16);
        let info_buf_offset: u32 = read_le32(resp, 20);
        let data_start: u64 = 8 + info_buf_offset as u64;
        if info_buf_len >= want && data_start + want as u64 <= resp_len as u64 {
            return Some(data_start as usize);
        }
    }
    None
}

/// The MAC address in a reply to OID_802_3_PERMANENT_ADDRESS: none when the
/// reply is too short, an error when it is of another type.
pub open spec fn mac_in(resp: Seq<u8>) -> Result<Option<Seq<u8>>, HvError> {
    if has_other_type(resp, RNDIS_MSG_QUERY_CMPLT) {
        Err(HvError::VersionRejected)
    } else {
        Ok(query_info(resp, 6))
    }
}

/// Read the MAC address out of a QUERY_CMPLT.
pub fn parse_mac(resp: &[u8]) -> (r: Result<Option<[u8; 6]>, HvError>)
    ensures
        match r {
            Ok(Some(mac)) => mac_in(resp@) == Ok::<_, HvError>(Some(mac@)),
            Ok(None) => mac_in(resp@) == Ok::<Option<Seq<u8>>, HvError>(None),
            Err(e) => mac_in(resp@) == Err::<Option<Seq<u8>>, _>(e),
        },
{
    if resp.len() >= 4 {
        let rndis_type: u32 = read_le32(resp, 0);
        if rndis_type != RNDIS_MSG_QUERY_CMPLT {
            return Err(HvError::VersionRejected);
        }
    }
    match query_info_start(resp, 6) {
        Some(at) => {
            let mac: [u8; 6] = [
                resp[at],
                resp[at + 1],
                resp[at + 2],
                resp[at + 3],
                resp[at + 4],
                resp[at + 5],
            ];
            assert(mac@ =~= resp@.subrange(at as int, at + 6));
            Ok(Some(mac))
        },
        None => Ok(None),
    }
}

/// The frame size in a reply to OID_GEN_MAXIMUM_FRAME_SIZE; none when the
/// reply is too short or of another type.
pub open spec fn mtu_in(resp: Seq<u8>) -> Option<u32> {
    if has_other_type(resp, RNDIS_MSG_QUERY_CMPLT) {
        None
    } else {
        match query_info(resp, 4) {
            Some(info) => Some(le32_at(info, 0)),
            None => None,
        }
    }
}

/// Read the MTU out of a QUERY_CMPLT.
pub fn parse_mtu(resp: &[u8]) -> (r: Option<u32>)
    ensures
        r == mtu_in(resp@),
{
    if resp.len() >= 24 {
        let rndis_type: u32 = read_le32(resp, 0);
        if rndis_type == RNDIS_MSG_QUERY_CMPLT {
            match query_info_start(resp, 4) {
                Some(at) => {
                    return Some(read_le32(resp, at));
                },
                None => {},
            }
        }
    }
    None
}

/// SET_CMPLT, whatever its status.
pub open spec fn set_complete(resp: Seq<u8>) -> Result<(), HvError> {
    if has_other_type(resp, RNDIS_MSG_SET_CMPLT) {
        Err(HvError::VersionRejected)
    } else {
        Ok(())
    }
}

/// Check the reply to RNDIS_SET_MSG. A host that refuses the value is not an
/// error: the device then keeps its own filter.
pub fn check_set_complete(resp: &[u8]) -> (r: Result<(), HvError>)
    ensures
        r == set_complete(resp@),
{
    if resp.len() >= 4 {
        let rndis_type: u32 = read_le32(resp, 0);
        if rndis_type != RNDIS_MSG_SET_CMPLT {
            return Err(HvError::VersionRejected);
        }
    }
    Ok(())
}

// ── What the messages say ───────────────────────────────────────────────

/// An NVSP message is padded to its full size, and reads back as what it was
/// built from, whatever follows it.
pub proof fn nvsp_reads_back(kind: u32, a: u32, b: u32, c: u32, rest: Seq<u8>)
    ensures
        nvsp_message(kind, a, b, c).len() == NVSP_MESSAGE_SIZE,
        nvsp_type(nvsp_message(kind, a, b, c) + rest) == Some(kind),
        le32_at(nvsp_message(kind, a, b, c) + rest, 4) == a,
        le32_at(nvsp_message(kind, a, b, c) + rest, 8) == b,
        le32_at(nvsp_message(kind, a, b, c) + rest, 12) == c,
{
    let ws = seq![kind, a, b, c] + zero_words(12);
    words_round_trip(ws, rest, 0);
    words_round_trip(ws, rest, 1);
    words_round_trip(ws, rest, 2);
    words_round_trip(ws, rest, 3);
}

/// RNDIS messages carry their own length, and the id of the request they make
/// or answer; what is to be set lies where the message says it does.
pub proof fn rndis_reads_back(id: u32, oid: u32, value: u32)
    ensures
        le32_at(rndis_init(id), 4) == rndis_init(id).len(),
        le32_at(rndis_init(id), 8) == id,
        le32_at(rndis_query(id, oid), 4) == rndis_query(id, oid).len(),
        le32_at(rndis_query(id, oid), 8) == id,
        le32_at(rndis_set_u32(id, oid, value), 4) == rndis_set_u32(id, oid, value).len(),
        le32_at(rndis_set_u32(id, oid, value), 8) == id,
        le32_at(
            rndis_set_u32(id, oid, value),
            8 + le32_at(rndis_set_u32(id, oid, value), 20),
        ) == value,
        le32_at(rndis_keepalive_cmplt(id), 4) == rndis_keepalive_cmplt(id).len(),
        le32_at(rndis_keepalive_cmplt(id), 8) == id,
{
    let none = Seq::<u8>::empty();
    let init = seq![RNDIS_MSG_INIT, 24, id, 1, 0, 0x4000];
    assert(words(init) + none =~= words(init));
    words_round_trip(init, none, 1);
    words_round_trip(init, none, 2);
    let query = seq![RNDIS_MSG_QUERY, 28, id, oid, 0, 0, 0];
    assert(words(query) + none =~= words(query));
    words_round_trip(query, none, 1);
    words_round_trip(query, none, 2);
    let set = seq![RNDIS_MSG_SET, 32, id, oid, 4, 20, 0, value];
    assert(words(set) + none =~= words(set));
    words_round_trip(set, none, 1);
    words_round_trip(set, none, 2);
    words_round_trip(set, none, 5);
    words_round_trip(set, none, 7);
    let cmplt = seq![RNDIS_MSG_KEEPALIVE_CMPLT, 16, id, 0];
    assert(words(cmplt) + none =~= words(cmplt));
    words_round_trip(cmplt, none, 1);
    words_round_trip(cmplt, none, 2);
}

/// What each NVSP message says: what kind it is, and what it is about. Nothing
/// follows the words that count but zeros.
pub proof fn nvsp_messages_say(version: u32, handle: u32, id: u16, a: u32, b: u32, c: u32)
    ensures
        le32_at(nvsp_init(version), 0) == 1,
        le32_at(nvsp_init(version), 4) == version,
        le32_at(nvsp_init(version), 8) == version,
        le32_at(nvsp_send_recv_buf(handle, id), 0) == 101,
        le32_at(nvsp_send_recv_buf(handle, id), 4) == handle,
        le32_at(nvsp_send_recv_buf(handle, id), 8) == id,
        le32_at(nvsp_send_send_buf(handle, id), 0) == 104,
        le32_at(nvsp_send_send_buf(handle, id), 4) == handle,
        le32_at(nvsp_send_send_buf(handle, id), 8) == id,
        le32_at(nvsp_send_rndis_pkt(a, b, c), 0) == 107,
        le32_at(nvsp_send_rndis_pkt(a, b, c), 4) == a,
        le32_at(nvsp_send_rndis_pkt(a, b, c), 8) == b,
        le32_at(nvsp_send_rndis_pkt(a, b, c), 12) == c,
        le32_at(nvsp_ndis_config(), 0) == 196,
        le32_at(nvsp_ndis_config(), 4) == 1514 + 14,
        le32_at(nvsp_ndis_config(), 8) == 1,
        le32_at(nvsp_ndis_version(), 0) == 100,
        le32_at(nvsp_ndis_version(), 4) == 6,
        le32_at(nvsp_ndis_version(), 8) == 30,
        forall|i: int|
            12 <= i < 64 ==> {
                &&& #[trigger] nvsp_init(version)[i] == 0
                &&& nvsp_send_recv_buf(handle, id)[i] == 0
                &&& nvsp_send_send_buf(handle, id)[i] == 0
                &&& nvsp_ndis_config()[i] == 0
                &&& nvsp_ndis_version()[i] == 0
            },
        forall|i: int| 16 <= i < 64 ==> #[trigger] nvsp_send_rndis_pkt(a, b, c)[i] == 0,
        nvsp_init(version).len() == 64,
        nvsp_send_recv_buf(handle, id).len() == 64,
        nvsp_send_send_buf(handle, id).len() == 64,
        nvsp_send_rndis_pkt(a, b, c).len() == 64,
        nvsp_ndis_config().len() == 64,
        nvsp_ndis_version().len() == 64,
{
    words_of_nvsp(1, version, version, 0);
    words_of_nvsp(101, handle, id as u32, 0);
    words_of_nvsp(104, handle, id as u32, 0);
    words_of_nvsp(107, a, b, c);
    words_of_nvsp(196, 1528, 1, 0);
    words_of_nvsp(100, 6, 30, 0);
}

proof fn words_of_nvsp(kind: u32, a: u32, b: u32, c: u32)
    ensures
        ({
            let m = nvsp_message(kind, a, b, c);
            &&& m.len() == 64
            &&& le32_at(m, 0) == kind
            &&& le32_at(m, 4) == a
            &&& le32_at(m, 8) == b
            &&& le32_at(m, 12) == c
            &&& forall|i: int| 16 <= i < 64 ==> #[trigger] m[i] == 0
            &&& c == 0 ==> forall|i: int| 12 <= i < 64 ==> #[trigger] m[i] == 0
        }),
{
    let m = nvsp_message(kind, a, b, c);
    let none = Seq::<u8>::empty();
    assert(m + none =~= m);
    nvsp_reads_back(kind, a, b, c, none);
    let ws = seq![kind, a, b, c] + zero_words(12);
    assert forall|i: int| 16 <= i < 64 implies #[trigger] m[i] == 0 by {
        assert(ws[i / 4] == 0);
    }
    if c == 0 {
        assert forall|i: int| 12 <= i < 64 implies #[trigger] m[i] == 0 by {
            assert(ws[i / 4] == 0);
        }
    }
}

/// What each RNDIS message says, word by word.
pub proof fn rndis_messages_say(id: u32, oid: u32, value: u32)
    ensures
        rndis_init(id).len() == 24,
        le32_at(rndis_init(id), 0) == 2,
        le32_at(rndis_init(id), 4) == 24,
        le32_at(rndis_init(id), 8) == id,
        le32_at(rndis_init(id), 12) == 1,
        le32_at(rndis_init(id), 16) == 0,
        le32_at(rndis_init(id), 20) == 16384,
        rndis_query(id, oid).len() == 28,
        le32_at(rndis_query(id, oid), 0) == 4,
        le32_at(rndis_query(id, oid), 4) == 28,
        le32_at(rndis_query(id, oid), 8) == id,
        le32_at(rndis_query(id, oid), 12) == oid,
        le32_at(rndis_query(id, oid), 16) == 0,
        le32_at(rndis_query(id, oid), 20) == 0,
        le32_at(rndis_query(id, oid), 24) == 0,
        rndis_set_u32(id, oid, value).len() == 32,
        le32_at(rndis_set_u32(id, oid, value), 0) == 5,
        le32_at(rndis_set_u32(id, oid, value), 4) == 32,
        le32_at(rndis_set_u32(id, oid, value), 8) == id,
        le32_at(rndis_set_u32(id, oid, value), 12) == oid,
        le32_at(rndis_set_u32(id, oid, value), 16) == 4,
        le32_at(rndis_set_u32(id, oid, value), 20) == 20,
        le32_at(rndis_set_u32(id, oid, value), 24) == 0,
        le32_at(rndis_set_u32(id, oid, value), 28) == value,
{
    let none = Seq::<u8>::empty();
    let init = seq![2u32, 24, id, 1, 0, 16384];
    assert(rndis_init(id) + none =~= words(init) + none);
    assert(rndis_init(id) + none =~= rndis_init(id));
    assert forall|i: int| 0 <= i < 6 implies #[trigger] le32_at(rndis_init(id), 4 * i) == init[i] by {
        words_round_trip(init, none, i);
    }
    assert(le32_at(rndis_init(id), 4 * 0int) == 2 && le32_at(rndis_init(id), 4 * 1int) == 24 && le32_at(
        rndis_init(id),
        4 * 2int,
    ) == id && le32_at(rndis_init(id), 4 * 3int) == 1 && le32_at(rndis_init(id), 4 * 4int) == 0
        && le32_at(rndis_init(id), 4 * 5int) == 16384);
    let query = seq![4u32, 28, id, oid, 0, 0, 0];
    assert(rndis_query(id, oid) + none =~= words(query) + none);
    assert(rndis_query(id, oid) + none =~= rndis_query(id, oid));
    assert forall|i: int| 0 <= i < 7 implies #[trigger] le32_at(rndis_query(id, oid), 4 * i)
        == query[i] by {
        words_round_trip(query, none, i);
    }
    assert(le32_at(rndis_query(id, oid), 4 * 0int) == 4 && le32_at(rndis_query(id, oid), 4 * 1int) == 28
        && le32_at(rndis_query(id, oid), 4 * 2int) == id && le32_at(rndis_query(id, oid), 4 * 3int) == oid
        && le32_at(rndis_query(id, oid), 4 * 4int) == 0 && le32_at(rndis_query(id, oid), 4 * 5int) == 0
        && le32_at(rndis_query(id, oid), 4 * 6int) == 0);
    let set = seq![5u32, 32, id, oid, 4, 20, 0, value];
    let s = rndis_set_u32(id, oid, value);
    assert(s + none =~= words(set) + none);
    assert(s + none =~= s);
    assert forall|i: int| 0 <= i < 8 implies #[trigger] le32_at(s, 4 * i) == set[i] by {
        words_round_trip(set, none, i);
    }
    assert(le32_at(s, 4 * 0int) == 5 && le32_at(s, 4 * 1int) == 32 && le32_at(s, 4 * 2int) == id && le32_at(
        s,
        4 * 3int,
    ) == oid && le32_at(s, 4 * 4int) == 4 && le32_at(s, 4 * 5int) == 20 && le32_at(s, 4 * 6int) == 0
        && le32_at(s, 4 * 7int) == value);
}

/// What the answer to a keepalive says: type, length, the request it answers,
/// and success.
pub proof fn keepalive_answer_says(id: u32, len: usize)
    ensures
        rndis_keepalive_cmplt(id).len() == 16,
        le32_at(rndis_keepalive_cmplt(id), 0) == 0x8000_0008,
        le32_at(rndis_keepalive_cmplt(id), 4) == 16,
        le32_at(rndis_keepalive_cmplt(id), 8) == id,
        le32_at(rndis_keepalive_cmplt(id), 12) == 0,
        forall|buf: &mut [u8]| #[trigger]
            call_ensures(build_rndis_keepalive_cmplt, (id, buf), len) && (*buf)@.len() >= 16 ==> {
                &&& len == 16
                &&& le32_at((*final(buf))@, 0) == 0x8000_0008
                &&& le32_at((*final(buf))@, 4) == len
                &&& le32_at((*final(buf))@, 8) == id
                &&& le32_at((*final(buf))@, 12) == 0
                &&& (*final(buf))@.skip(16) == (*buf)@.skip(16)
            },
{
    let none = Seq::<u8>::empty();
    let alive = seq![0x8000_0008u32, 16, id, 0];
    let k = rndis_keepalive_cmplt(id);
    assert(k + none =~= words(alive) + none);
    assert(k + none =~= k);
    assert forall|i: int| 0 <= i < 4 implies #[trigger] le32_at(k, 4 * i) == alive[i] by {
        words_round_trip(alive, none, i);
    }
    assert(le32_at(k, 4 * 0int) == 0x8000_0008 && le32_at(k, 4 * 1int) == 16 && le32_at(k, 4 * 2int) == id
        && le32_at(k, 4 * 3int) == 0);
}

/// An RNDIS packet carries its own length and that of its frame, and says where
/// the frame lies: there it is, byte for byte, at the end of the message.
pub proof fn rndis_packet_says(frame: Seq<u8>)
    requires
        44 + frame.len() <= u32::MAX,
    ensures
        ({
            let m = rndis_packet(frame);
            &&& m.len() == 44 + frame.len()
            &&& le32_at(m, 0) == 1
            &&& le32_at(m, 4) == m.len()
            &&& le32_at(m, 12) == frame.len()
            &&& 8 + le32_at(m, 8) + le32_at(m, 12) == m.len()
            &&& m.skip(8 + le32_at(m, 8)) == frame
            &&& forall|i: int| 16 <= i < 44 ==> #[trigger] m[i] == 0
        }),
{
    let m = rndis_packet(frame);
    let header = seq![
        1u32,
        (44 + frame.len()) as u32,
        36u32,
        frame.len() as u32,
        0u32,
        0u32,
        0u32,
        0u32,
        0u32,
        0u32,
        0u32,
    ];
    assert(m =~= words(header) + frame);
    words_round_trip(header, frame, 0);
    words_round_trip(header, frame, 1);
    words_round_trip(header, frame, 2);
    words_round_trip(header, frame, 3);
    assert(m.skip(44) =~= frame);
    assert forall|i: int| 16 <= i < 44 implies #[trigger] m[i] == 0 by {
        assert(header[i / 4] == 0);
    }
}

/// Whatever message is built, what is handed on is as long as the message says
/// it is, and nothing behind it is touched.
pub proof fn built_messages_say(frame: &[u8], id: u32, oid: u32, value: u32, len: usize)
    ensures
        forall|buf: &mut [u8]| #[trigger]
            call_ensures(build_rndis_packet, (frame, buf), len) && 44 + frame@.len()
                <= (*buf)@.len() && 44 + frame@.len() <= u32::MAX ==> {
                &&& len == 44 + frame@.len()
                &&& le32_at((*final(buf))@, 4) == len
                &&& le32_at((*final(buf))@, 12) == frame@.len()
                &&& (*final(buf))@.subrange(8 + le32_at((*final(buf))@, 8), len as int) == frame@
                &&& (*final(buf))@.skip(len as int) == (*buf)@.skip(len as int)
            },
        forall|buf: &mut [u8]| #[trigger]
            call_ensures(build_rndis_init, (id, buf), len) && (*buf)@.len() >= 24 ==> le32_at(
                (*final(buf))@,
                4,
            ) == len && le32_at((*final(buf))@, 8) == id && (*final(buf))@.skip(len as int)
                == (*buf)@.skip(len as int),
        forall|buf: &mut [u8]| #[trigger]
            call_ensures(build_rndis_query, (id, oid, buf), len) && (*buf)@.len() >= 28
                ==> le32_at((*final(buf))@, 4) == len && le32_at((*final(buf))@, 8) == id
                && le32_at((*final(buf))@, 12) == oid && (*final(buf))@.skip(len as int)
                == (*buf)@.skip(len as int),
        forall|buf: &mut [u8]| #[trigger]
            call_ensures(build_rndis_set_u32, (id, oid, value, buf), len) && (*buf)@.len() >= 32
                ==> le32_at((*final(buf))@, 4) == len && le32_at((*final(buf))@, 8) == id
                && le32_at((*final(buf))@, 12) == oid && le32_at((*final(buf))@, 28) == value
                && (*final(buf))@.skip(len as int) == (*buf)@.skip(len as int),
{
    rndis_messages_say(id, oid, value);
    assert forall|buf: &mut [u8]| #[trigger]
        call_ensures(build_rndis_packet, (frame, buf), len) && 44 + frame@.len() <= (*buf)@.len()
            && 44 + frame@.len() <= u32::MAX implies {
        &&& len == 44 + frame@.len()
        &&& le32_at((*final(buf))@, 4) == len
        &&& le32_at((*final(buf))@, 12) == frame@.len()
        &&& (*final(buf))@.subrange(8 + le32_at((*final(buf))@, 8), len as int) == frame@
        &&& (*final(buf))@.skip(len as int) == (*buf)@.skip(len as int)
    } by {
        rndis_packet_says(frame@);
        let m = rndis_packet(frame@);
        let all = (*final(buf))@;
        assert(all =~= m + (*buf)@.skip((44 + frame@.len()) as int));
        assert(le32_at(all, 4) == le32_at(m, 4) && le32_at(all, 8) == le32_at(m, 8) && le32_at(
            all,
            12,
        ) == le32_at(m, 12));
        assert(all.subrange(8 + le32_at(all, 8), len as int) =~= m.skip(8 + le32_at(m, 8)));
        assert(all.skip(len as int) =~= (*buf)@.skip(len as int));
    }
}

// ── What the replies are taken for ──────────────────────────────────────

/// The MAC address that is read is the one that the reply carries: the first
/// six bytes of its information buffer, byte for byte, wherever the reply says
/// that the buffer lies.
pub proof fn mac_is_read_as_sent(
    resp: &[u8],
    mac: Seq<u8>,
    r: Result<Option<[u8; 6]>, HvError>,
)
    requires
        resp@.len() >= 24,
        le32_at(resp@, 0) == 0x8000_0004,
        le32_at(resp@, 16) >= 6,
        8 + le32_at(resp@, 20) + 6 <= resp@.len(),
        mac.len() == 6,
        forall|i: int| 0 <= i < 6 ==> resp@[8 + le32_at(resp@, 20) + i] == #[trigger] mac[i],
    ensures
        mac_in(resp@) == Ok::<_, HvError>(Some(mac)),
        call_ensures(parse_mac, (resp,), r) ==> (r matches Ok(Some(m)) && m@ == mac),
{
    let at = 8 + le32_at(resp@, 20);
    assert(resp@.subrange(at, at + 6) =~= mac);
}

/// A reply that is cut short, or whose information buffer is too short or lies
/// outside of it, carries no MAC address; one of another type is an error.
pub proof fn mac_is_not_made_up(resp: &[u8], r: Result<Option<[u8; 6]>, HvError>)
    requires
        call_ensures(parse_mac, (resp,), r),
    ensures
        r is Err <==> resp@.len() >= 4 && le32_at(resp@, 0) != 0x8000_0004,
        r matches Err(e) ==> e == HvError::VersionRejected,
        r matches Ok(Some(_)) ==> resp@.len() >= 24 && le32_at(resp@, 16) >= 6 && 14 + le32_at(
            resp@,
            20,
        ) <= resp@.len(),
{
}

/// The MTU that is read is the word at the beginning of the information buffer.
pub proof fn mtu_is_read_as_sent(resp: &[u8], r: Option<u32>)
    ensures
        call_ensures(parse_mtu, (resp,), r) ==> r == if resp@.len() >= 24 && le32_at(resp@, 0)
            == 0x8000_0004 && le32_at(resp@, 16) >= 4 && 12 + le32_at(resp@, 20) <= resp@.len() {
            Some(le32_at(resp@, 8 + le32_at(resp@, 20)))
        } else {
            None
        },
        mtu_in(resp@) == if resp@.len() >= 24 && le32_at(resp@, 0) == 0x8000_0004 && le32_at(
            resp@,
            16,
        ) >= 4 && 12 + le32_at(resp@, 20) <= resp@.len() {
            Some(le32_at(resp@, 8 + le32_at(resp@, 20)))
        } else {
            None
        },
{
    let at = 8 + le32_at(resp@, 20);
    if resp@.len() >= 24 && at + 4 <= resp@.len() {
        let info = resp@.subrange(at, at + 4);
        assert(info[0] == resp@[at] && info[1] == resp@[at + 1] && info[2] == resp@[at + 2]
            && info[3] == resp@[at + 3]);
    }
}

/// A reply is of the type that its first word says; one of fewer than four
/// bytes is of none.
pub proof fn type_is_the_first_word(payload: &[u8], r: Option<u32>)
    requires
        call_ensures(parse_nvsp_type, (payload,), r),
    ensures
        r is Some <==> payload@.len() >= 4,
        r matches Some(kind) ==> kind == payload@[0] + 0x100 * payload@[1] + 0x1_0000 * payload@[2]
            + 0x100_0000 * payload@[3],
        nvsp_type(payload@) == r,
{
}

/// A version is accepted exactly by a completion (type 2) of at least sixteen
/// bytes whose status is 1.
pub proof fn version_needs_success(resp: &[u8], r: bool)
    ensures
        accepts_version(resp@) == (resp@.len() >= 16 && le32_at(resp@, 0) == 2 && le32_at(resp@, 12)
            == 1),
        call_ensures(version_accepted, (resp,), r) ==> r == (resp@.len() >= 16 && le32_at(resp@, 0)
            == 2 && le32_at(resp@, 12) == 1),
{
}

/// A shared buffer is accepted exactly by status 1 in the second word. Any other
/// status is handed on by its low 16 bits; a reply without one as 0xFFFF.
pub proof fn buffer_needs_success(resp: &[u8], r: Result<(), HvError>, s: Result<u32, HvError>)
    ensures
        buffer_accepted(resp@) is Ok <==> resp@.len() >= 8 && le32_at(resp@, 4) == 1,
        buffer_accepted(resp@) matches Err(e) ==> e == HvError::HypercallFailed(
            if resp@.len() >= 8 {
                (le32_at(resp@, 4) % 0x1_0000) as u16
            } else {
                0xFFFF
            },
        ),
        call_ensures(check_recv_buf_complete, (resp,), r) ==> r == buffer_accepted(resp@),
        call_ensures(check_send_buf_complete, (resp,), s) ==> match s {
            Ok(section) => {
                &&& resp@.len() >= 8 && le32_at(resp@, 4) == 1
                &&& section == if resp@.len() >= 12 {
                    le32_at(resp@, 8)
                } else {
                    0
                }
            },
            Err(e) => buffer_accepted(resp@) == Err::<(), _>(e),
        },
{
}

/// A request for initialisation is complete unless the reply is of another type
/// (not 0x80000002), or has a status (the fourth word) other than 0, which is
/// handed on by its low 16 bits.
pub proof fn init_needs_success(resp: &[u8], r: Result<(), HvError>)
    ensures
        init_complete(resp@) == if resp@.len() >= 4 && le32_at(resp@, 0) != 0x8000_0002 {
            Err(HvError::VersionRejected)
        } else if resp@.len() >= 16 && le32_at(resp@, 12) != 0 {
            Err(HvError::HypercallFailed((le32_at(resp@, 12) % 0x1_0000) as u16))
        } else {
            Ok::<(), HvError>(())
        },
        call_ensures(check_init_complete, (resp,), r) ==> r == init_complete(resp@),
{
}

/// A value counts as set unless the reply is of another type (not 0x80000005).
pub proof fn set_needs_its_type(resp: &[u8], r: Result<(), HvError>)
    ensures
        set_complete(resp@) == if resp@.len() >= 4 && le32_at(resp@, 0) != 0x8000_0005 {
            Err(HvError::VersionRejected)
        } else {
            Ok::<(), HvError>(())
        },
        call_ensures(check_set_complete, (resp,), r) ==> r == set_complete(resp@),
{
}

/// Each NVSP message is built into the first 64 bytes of its buffer: the words
/// that count, then zeros. What lies behind stays as it was.
pub proof fn built_nvsp_messages_say(
    version: u32,
    handle: u32,
    id: u16,
    channel: u32,
    section: u32,
    size: u32,
    len: usize,
)
    ensures
        forall|buf: &mut [u8]| #[trigger]
            call_ensures(build_nvsp_init, (version, buf), len) && (*buf)@.len() >= 64 ==> {
                &&& len == 64
                &&& le32_at((*final(buf))@, 0) == 1
                &&& le32_at((*final(buf))@, 4) == version
                &&& le32_at((*final(buf))@, 8) == version
                &&& forall|i: int| 12 <= i < 64 ==> #[trigger] (*final(buf))@[i] == 0
                &&& (*final(buf))@.skip(64) == (*buf)@.skip(64)
            },
        forall|buf: &mut [u8]| #[trigger]
            call_ensures(build_nvsp_send_recv_buf, (handle, id, buf), len) && (*buf)@.len() >= 64 ==> {
                &&& len == 64
                &&& le32_at((*final(buf))@, 0) == 101
                &&& le32_at((*final(buf))@, 4) == handle
                &&& le32_at((*final(buf))@, 8) == id
                &&& forall|i: int| 12 <= i < 64 ==> #[trigger] (*final(buf))@[i] == 0
                &&& (*final(buf))@.skip(64) == (*buf)@.skip(64)
            },
        forall|buf: &mut [u8]| #[trigger]
            call_ensures(build_nvsp_send_send_buf, (handle, id, buf), len) && (*buf)@.len() >= 64 ==> {
                &&& len == 64
                &&& le32_at((*final(buf))@, 0) == 104
                &&& le32_at((*final(buf))@, 4) == handle
                &&& le32_at((*final(buf))@, 8) == id
                &&& forall|i: int| 12 <= i < 64 ==> #[trigger] (*final(buf))@[i] == 0
                &&& (*final(buf))@.skip(64) == (*buf)@.skip(64)
            },
        forall|buf: &mut [u8]| #[trigger]
            call_ensures(build_nvsp_send_rndis_pkt, (channel, section, size, buf), len) && (*buf)@.len() >= 64 ==> {
                &&& len == 64
                &&& le32_at((*final(buf))@, 0) == 107
                &&& le32_at((*final(buf))@, 4) == channel
                &&& le32_at((*final(buf))@, 8) == section
                &&& le32_at((*final(buf))@, 12) == size
                &&& forall|i: int| 16 <= i < 64 ==> #[trigger] (*final(buf))@[i] == 0
                &&& (*final(buf))@.skip(64) == (*buf)@.skip(64)
            },
        forall|buf: &mut [u8]| #[trigger]
            call_ensures(build_nvsp_ndis_config, (buf,), len) && (*buf)@.len() >= 64 ==> {
                &&& len == 64
                &&& le32_at((*final(buf))@, 0) == 196
                &&& le32_at((*final(buf))@, 4) == 1514 + 14
                &&& le32_at((*final(buf))@, 8) == 1
                &&& forall|i: int| 12 <= i < 64 ==> #[trigger] (*final(buf))@[i] == 0
                &&& (*final(buf))@.skip(64) == (*buf)@.skip(64)
            },
        forall|buf: &mut [u8]| #[trigger]
            call_ensures(build_nvsp_ndis_version, (buf,), len) && (*buf)@.len() >= 64 ==> {
                &&& len == 64
                &&& le32_at((*final(buf))@, 0) == 100
                &&& le32_at((*final(buf))@, 4) == 6
                &&& le32_at((*final(buf))@, 8) == 30
                &&& forall|i: int| 12 <= i < 64 ==> #[trigger] (*final(buf))@[i] == 0
                &&& (*final(buf))@.skip(64) == (*buf)@.skip(64)
            },
{
    built_nvsp(1, version, version, 0);
    built_nvsp(101, handle, id as u32, 0);
    built_nvsp(104, handle, id as u32, 0);
    built_nvsp(107, channel, section, size);
    built_nvsp(196, 1528, 1, 0);
    built_nvsp(100, 6, 30, 0);
}

proof fn built_nvsp(kind: u32, a: u32, b: u32, c: u32)
    ensures
        forall|rest: Seq<u8>|
            {
                let m = #[trigger] (nvsp_message(kind, a, b, c) + rest);
                &&& le32_at(m, 0) == kind
                &&& le32_at(m, 4) == a
                &&& le32_at(m, 8) == b
                &&& le32_at(m, 12) == c
                &&& forall|i: int| 16 <= i < 64 ==> #[trigger] m[i] == 0
                &&& c == 0 ==> forall|i: int| 12 <= i < 64 ==> #[trigger] m[i] == 0
                &&& m.skip(64) == rest
            },
{
    assert forall|rest: Seq<u8>|
        {
            let m = #[trigger] (nvsp_message(kind, a, b, c) + rest);
            &&& le32_at(m, 0) == kind
            &&& le32_at(m, 4) == a
            &&& le32_at(m, 8) == b
            &&& le32_at(m, 12) == c
            &&& forall|i: int| 16 <= i < 64 ==> #[trigger] m[i] == 0
            &&& c == 0 ==> forall|i: int| 12 <= i < 64 ==> #[trigger] m[i] == 0
            &&& m.skip(64) == rest
        } by {
        words_of_nvsp(kind, a, b, c);
        nvsp_reads_back(kind, a, b, c, rest);
        let all = nvsp_message(kind, a, b, c) + rest;
        assert(all.skip(64) =~= rest);
    }
}

/// A completion of NVSP bears the type after that of its message, and one of
/// RNDIS the type of its message with the highest bit set.
pub proof fn completions_are_known_by_type()
    ensures
        NVSP_MSG_TYPE_INIT == 1,
        NVSP_MSG_TYPE_INIT_COMPLETE == NVSP_MSG_TYPE_INIT + 1,
        NVSP_MSG1_TYPE_SEND_RNDIS_PKT == 107,
        NVSP_MSG1_TYPE_SEND_RNDIS_PKT_COMPLETE == NVSP_MSG1_TYPE_SEND_RNDIS_PKT + 1,
        RNDIS_MSG_INIT == 2,
        RNDIS_MSG_INIT_CMPLT == RNDIS_MSG_INIT + 0x8000_0000,
        RNDIS_MSG_QUERY == 4,
        RNDIS_MSG_QUERY_CMPLT == RNDIS_MSG_QUERY + 0x8000_0000,
        RNDIS_MSG_SET == 5,
        RNDIS_MSG_SET_CMPLT == RNDIS_MSG_SET + 0x8000_0000,
        RNDIS_MSG_KEEPALIVE == 8,
        RNDIS_MSG_KEEPALIVE_CMPLT == RNDIS_MSG_KEEPALIVE + 0x8000_0000,
{
}

} // verus!
