use embclox::dma::DmaRegion;
use embclox::hyperv::netvsc::init::{HostCall, HostReply, NetvscInit, Progress, Stage};
use embclox::hyperv::netvsc::{
    pfn_list, NetvscDevice, NETVSC_RECV_BUF_SIZE, NETVSC_SEND_BUF_SIZE,
};
use embclox::hyperv::netvsc_embassy::NetvscEmbassy;
use embclox::hyperv::nvsp::{
    build_nvsp_init, build_nvsp_ndis_config, build_nvsp_ndis_version, build_nvsp_send_recv_buf,
    build_nvsp_send_rndis_pkt, build_nvsp_send_send_buf, build_rndis_init,
    build_rndis_keepalive_cmplt, build_rndis_packet, build_rndis_query, build_rndis_set_u32,
    check_init_complete, check_recv_buf_complete, check_send_buf_complete, check_set_complete,
    parse_mac, parse_mtu, parse_nvsp_type, version_accepted,
};
use embclox::hyperv::{guid, ChannelOffer, HvError};
use embclox::net::arp::send_gratuitous_arp;

fn words(ws: &[u32]) -> Vec<u8> {
    ws.iter().flat_map(|w| w.to_le_bytes()).collect()
}

fn nvsp(ws: &[u32]) -> Vec<u8> {
    let mut m = words(ws);
    m.resize(64, 0);
    m
}

// ── Messages ────────────────────────────────────────────────────────────

#[test]
fn nvsp_messages() {
    let mut buf = [0xEEu8; 66];
    assert_eq!(build_nvsp_init(0x30002, &mut buf), 64);
    assert_eq!(&buf[..64], nvsp(&[1, 0x30002, 0x30002]).as_slice());
    assert_eq!(&buf[64..], &[0xEE, 0xEE]);
    build_nvsp_send_recv_buf(0xE1E10, 0xCAFE, &mut buf);
    assert_eq!(&buf[..64], nvsp(&[101, 0xE1E10, 0xCAFE]).as_slice());
    build_nvsp_send_send_buf(0xE1E11, 0xBEEF, &mut buf);
    assert_eq!(&buf[..64], nvsp(&[104, 0xE1E11, 0xBEEF]).as_slice());
    build_nvsp_send_rndis_pkt(1, 2, 3, &mut buf);
    assert_eq!(&buf[..64], nvsp(&[107, 1, 2, 3]).as_slice());
    build_nvsp_ndis_config(&mut buf);
    assert_eq!(&buf[..64], nvsp(&[196, 1528, 1]).as_slice());
    build_nvsp_ndis_version(&mut buf);
    assert_eq!(&buf[..64], nvsp(&[100, 6, 30]).as_slice());
}

#[test]
fn rndis_messages() {
    let mut buf = [0u8; 64];
    assert_eq!(build_rndis_init(5, &mut buf), 24);
    assert_eq!(&buf[..24], words(&[2, 24, 5, 1, 0, 0x4000]).as_slice());
    assert_eq!(build_rndis_query(6, 0x0101_0101, &mut buf), 28);
    assert_eq!(&buf[..28], words(&[4, 28, 6, 0x0101_0101, 0, 0, 0]).as_slice());
    assert_eq!(build_rndis_set_u32(7, 0x1010E, 11, &mut buf), 32);
    assert_eq!(&buf[..32], words(&[5, 32, 7, 0x1010E, 4, 20, 0, 11]).as_slice());
    assert_eq!(build_rndis_keepalive_cmplt(8, &mut buf), 16);
    assert_eq!(&buf[..16], words(&[0x8000_0008, 16, 8, 0]).as_slice());
    assert_eq!(build_rndis_packet(&[1, 2, 3], &mut buf), 47);
    assert_eq!(&buf[..44], words(&[1, 47, 36, 3, 0, 0, 0, 0, 0, 0, 0]).as_slice());
    assert_eq!(&buf[44..47], &[1, 2, 3]);
}

#[test]
fn nvsp_replies() {
    assert_eq!(parse_nvsp_type(&[107, 0, 0]), None);
    assert_eq!(parse_nvsp_type(&[107, 0, 0, 0, 9]), Some(107));
    assert!(version_accepted(&words(&[2, 0x30002, 0, 1])));
    assert!(!version_accepted(&words(&[2, 0x30002, 0, 2])));
    assert!(!version_accepted(&words(&[2, 0x30002, 0])));
    assert!(!version_accepted(&words(&[3, 0x30002, 0, 1])));
    assert_eq!(check_recv_buf_complete(&words(&[102, 1])), Ok(()));
    assert_eq!(
        check_recv_buf_complete(&words(&[102, 0x5_0002])),
        Err(HvError::HypercallFailed(2))
    );
    assert_eq!(
        check_recv_buf_complete(&words(&[102])),
        Err(HvError::HypercallFailed(0xFFFF))
    );
    assert_eq!(check_send_buf_complete(&words(&[105, 1, 6144])), Ok(6144));
    assert_eq!(check_send_buf_complete(&words(&[105, 1])), Ok(0));
    assert_eq!(
        check_send_buf_complete(&words(&[105, 3, 6144])),
        Err(HvError::HypercallFailed(3))
    );
}

#[test]
fn rndis_replies() {
    assert_eq!(check_init_complete(&words(&[0x8000_0002, 52, 1, 0])), Ok(()));
    assert_eq!(
        check_init_complete(&words(&[0x8000_0002, 52, 1, 0xC000_0001])),
        Err(HvError::HypercallFailed(1))
    );
    assert_eq!(check_init_complete(&words(&[2])), Err(HvError::VersionRejected));
    assert_eq!(check_init_complete(&[0, 0]), Ok(()));

    let mut mac = words(&[0x8000_0004, 30, 2, 0, 6, 16]);
    mac.extend_from_slice(&[1, 2, 3, 4, 5, 6]);
    assert_eq!(parse_mac(&mac), Ok(Some([1, 2, 3, 4, 5, 6])));
    assert_eq!(parse_mac(&mac[..29]), Ok(None));
    assert_eq!(parse_mac(&words(&[0x8000_0005])), Err(HvError::VersionRejected));
    let far = words(&[0x8000_0004, 30, 2, 0, 6, u32::MAX]);
    assert_eq!(parse_mac(&far), Ok(None));

    assert_eq!(parse_mtu(&words(&[0x8000_0004, 28, 3, 0, 4, 16, 9000])), Some(9000));
    assert_eq!(parse_mtu(&words(&[0x8000_0004, 28, 3, 0, 3, 16, 9000])), None);
    assert_eq!(parse_mtu(&words(&[0x8000_0005, 28, 3, 0, 4, 16, 9000])), None);
    assert_eq!(check_set_complete(&words(&[0x8000_0005, 16, 4, 7])), Ok(()));
    assert_eq!(check_set_complete(&words(&[0x8000_0004])), Err(HvError::VersionRejected));
}

#[test]
fn page_numbers() {
    let region = DmaRegion { vaddr: 0, paddr: 0x20_0000, size: 3 * 4096 + 5 };
    assert_eq!(pfn_list(&region), vec![0x200, 0x201, 0x202]);
    assert!(pfn_list(&DmaRegion { vaddr: 0, paddr: 0, size: 4095 }).is_empty());
}

// ── Bringing a device up ────────────────────────────────────────────────

/// A host that answers as a Hyper-V host does, from the version it accepts.
struct FakeHost {
    accepts: u32,
    offered: u32,
    awaiting: u32,
    recv: Vec<u8>,
    heard: Vec<String>,
    mute: bool,
}

impl FakeHost {
    fn new(accepts: u32) -> Self {
        FakeHost {
            accepts,
            offered: 0,
            awaiting: 0,
            recv: vec![0; NETVSC_RECV_BUF_SIZE],
            heard: vec![],
            mute: false,
        }
    }

    fn put(&mut self, message: Vec<u8>) {
        self.recv[..message.len()].copy_from_slice(&message);
    }

    fn answer(&mut self, call: HostCall) -> HostReply {
        match call {
            HostCall::OpenChannel { child_relid, ring_size } => {
                self.heard.push(format!("open {} {}", child_relid, ring_size));
                HostReply::Done
            }
            HostCall::Send { message, txid } => {
                let kind = u32::from_le_bytes(message[0..4].try_into().unwrap());
                let arg = u32::from_le_bytes(message[4..8].try_into().unwrap());
                self.heard.push(format!("send {} {:x} {}", kind, arg, txid));
                self.awaiting = kind;
                self.offered = arg;
                HostReply::Done
            }
            HostCall::SendRaw { message, txid } => {
                let kind = u32::from_le_bytes(message[0..4].try_into().unwrap());
                self.heard.push(format!("raw {} {}", kind, txid));
                HostReply::Done
            }
            HostCall::Recv { .. } => HostReply::Packet(match self.awaiting {
                1 => words(&[2, self.offered, 0, (self.offered == self.accepts) as u32]),
                101 => words(&[102, 1, 1]),
                _ => words(&[105, 1, 6144]),
            }),
            HostCall::AllocDma { size, align } => {
                assert_eq!(align, 4096);
                HostReply::Region(DmaRegion { vaddr: size, paddr: 0x10_0000, size })
            }
            HostCall::CreateGpadl { child_relid, size, pfns } => {
                assert_eq!(child_relid, 17);
                assert_eq!(pfns.len(), size / 4096);
                assert_eq!(pfns[0], 0x100);
                HostReply::Gpadl(if size == NETVSC_RECV_BUF_SIZE { 0xE1E10 } else { 0xE1E11 })
            }
            HostCall::SendControl { rndis, message, txid } => {
                let kind = u32::from_le_bytes(rndis[0..4].try_into().unwrap());
                let id = u32::from_le_bytes(rndis[8..12].try_into().unwrap());
                self.heard.push(format!("control {} {} {}", kind, id, txid));
                assert_eq!(message[12..16], (rndis.len() as u32).to_le_bytes());
                let oid = if rndis.len() > 24 {
                    u32::from_le_bytes(rndis[12..16].try_into().unwrap())
                } else {
                    0
                };
                match (kind, oid) {
                    (2, _) => self.put(words(&[0x8000_0002, 16, id, 0])),
                    (4, 0x0101_0101) => {
                        let mut m = words(&[0x8000_0004, 30, id, 0, 6, 16]);
                        m.extend_from_slice(&[0, 0x15, 0x5D, 1, 2, 3]);
                        self.put(m);
                    }
                    (4, _) => self.put(words(&[0x8000_0004, 28, id, 0, 4, 16, 1500])),
                    _ => self.put(words(&[0x8000_0005, 16, id, 0])),
                }
                HostReply::Done
            }
            HostCall::Poll => {
                if self.mute {
                    HostReply::Empty
                } else {
                    HostReply::Packet(words(&[107, 1, 0, 0]))
                }
            }
        }
    }
}

fn offers() -> Vec<ChannelOffer> {
    let offer = |relid, device_type| ChannelOffer {
        child_relid: relid,
        connection_id: 1,
        device_type,
        instance_id: device_type,
    };
    vec![offer(16, guid::synthvid()), offer(17, guid::netvsc()), offer(18, guid::netvsc())]
}

fn run(host: &mut FakeHost) -> Result<NetvscDevice, HvError> {
    let (mut init, mut call) = NetvscDevice::init(&offers())?;
    loop {
        let reply = host.answer(call);
        assert!(init.expects(&reply));
        let recv = host.recv.clone();
        match init.resume(reply, &recv) {
            Progress::Call(next) => call = next,
            Progress::Ready(device) => return Ok(device),
            Progress::Failed(e) => return Err(e),
        }
    }
}

#[test]
fn device_comes_up_in_order() {
    let mut host = FakeHost::new(0x30001);
    let device = run(&mut host).unwrap();
    assert_eq!(
        host.heard,
        vec![
            "open 17 262144",
            "send 1 30002 0",
            "send 1 30001 0",
            "send 101 e1e10 1",
            "send 104 e1e11 2",
            "raw 196 0",
            "raw 100 0",
            "control 2 1 100",
            "control 4 2 101",
            "control 4 3 102",
            "control 5 4 103",
        ]
    );
    assert_eq!(device.mac(), [0, 0x15, 0x5D, 1, 2, 3]);
    assert_eq!(device.mtu(), 1500);
    assert_eq!(device.nvsp_version(), 0x30001);
    assert_eq!(device.recv_buf().size, NETVSC_RECV_BUF_SIZE);
    assert_eq!(device.send_buf().size, NETVSC_SEND_BUF_SIZE);
}

#[test]
fn oldest_version_is_told_no_configuration() {
    let mut host = FakeHost::new(2);
    let device = run(&mut host).unwrap();
    assert_eq!(device.nvsp_version(), 2);
    assert!(!host.heard.contains(&"raw 196 0".to_string()));
}

#[test]
fn no_version_in_common() {
    let mut host = FakeHost::new(99);
    assert_eq!(run(&mut host).err(), Some(HvError::VersionRejected));
    assert_eq!(host.heard.len(), 4);
}

#[test]
fn no_netvsc_offered() {
    assert_eq!(NetvscDevice::init(&offers()[..1]).err(), Some(HvError::NotHyperV));
    assert_eq!(NetvscDevice::init(&[]).err(), Some(HvError::NotHyperV));
}

/// A device that has sent its first request and waits for the response.
fn asked() -> (NetvscInit, FakeHost) {
    let mut host = FakeHost::new(0x30002);
    let (mut init, mut call) = NetvscDevice::init(&offers()).unwrap();
    loop {
        if let HostCall::Poll = call {
            return (init, host);
        }
        let reply = host.answer(call);
        match init.resume(reply, &[]) {
            Progress::Call(next) => call = next,
            _ => panic!("bring-up goes on"),
        }
    }
}

#[test]
fn replies_fit_what_was_asked() {
    let (mut init, host) = asked();
    assert!(matches!(init.stage(), Stage::RequestReply { polls: 50_000_000, .. }));
    assert!(init.expects(&HostReply::Empty));
    assert!(!init.expects(&HostReply::Done));
    assert!(!init.expects(&HostReply::Gpadl(1)));
    assert!(matches!(init.resume(HostReply::Empty, &host.recv), Progress::Call(HostCall::Poll)));
    assert!(matches!(init.stage(), Stage::RequestReply { polls: 49_999_999, .. }));
    // A completion is no response.
    let completion = HostReply::Packet(words(&[108, 1]));
    assert!(matches!(init.resume(completion, &host.recv), Progress::Call(HostCall::Poll)));
    let failed = HostReply::Failed(HvError::Timeout);
    assert!(matches!(
        init.resume(failed, &host.recv),
        Progress::Failed(HvError::Timeout)
    ));
}

#[test]
fn bad_control_lengths_are_skipped() {
    let (mut init, mut host) = asked();
    for n in [0u32, NETVSC_RECV_BUF_SIZE as u32 + 1] {
        host.put(words(&[0x8000_0002, n, 1, 0]));
        let packet = HostReply::Packet(words(&[107, 1, 0, 0]));
        assert!(matches!(init.resume(packet, &host.recv), Progress::Call(HostCall::Poll)));
    }
    // A response of another type ends bring-up.
    host.put(words(&[0x8000_0004, 16, 1, 0]));
    let packet = HostReply::Packet(words(&[107, 1, 0, 0]));
    assert!(matches!(
        init.resume(packet, &host.recv),
        Progress::Failed(HvError::VersionRejected)
    ));
}

// ── Sending and receiving ───────────────────────────────────────────────

fn device() -> NetvscDevice {
    run(&mut FakeHost::new(0x30002)).unwrap()
}

#[test]
fn frames_round_trip() {
    let mut dev = device();
    let mut send_buf = vec![0xAAu8; NETVSC_SEND_BUF_SIZE];
    let frame: Vec<u8> = (0..200).map(|i| i as u8).collect();
    let first = dev.transmit(&frame, &mut send_buf);
    assert_eq!(first.message.to_vec(), nvsp(&[107, 0, 0, 244]));
    assert_eq!(first.txid, 104);
    assert_eq!(dev.transmit(&[], &mut vec![0u8; NETVSC_SEND_BUF_SIZE]).txid, 105);

    let mut recv_buf = vec![0u8; NETVSC_RECV_BUF_SIZE];
    recv_buf[..244].copy_from_slice(&send_buf[..244]);
    let packet = words(&[107, 0, 0, 244]);
    let mut out = [0u8; 1514];
    let r = dev.try_receive(Ok(Some(&packet)), &recv_buf, &mut out, &mut send_buf).unwrap();
    assert_eq!(r.frame, Some(200));
    assert!(r.answer.is_none());
    assert_eq!(&out[..200], frame.as_slice());
    // A short buffer takes what fits.
    let mut short = [0u8; 10];
    let r = dev.try_receive(Ok(Some(&packet)), &recv_buf, &mut short, &mut send_buf).unwrap();
    assert_eq!(r.frame, Some(10));
    assert_eq!(&short, &frame[..10]);
}

#[test]
fn other_packets_bring_no_frame() {
    let dev = device();
    let mut send_buf = vec![0u8; NETVSC_SEND_BUF_SIZE];
    let mut recv_buf = vec![0u8; NETVSC_RECV_BUF_SIZE];
    recv_buf[..16].copy_from_slice(&words(&[1, 44, 36, 0]));
    let mut out = [0u8; 64];
    let r = dev.try_receive(Ok(None), &recv_buf, &mut out, &mut send_buf).unwrap();
    assert!(r.frame.is_none());
    let r = dev.try_receive(Err(HvError::HypercallRetryExhausted), &recv_buf, &mut out, &mut send_buf);
    assert_eq!(r.err(), Some(HvError::HypercallRetryExhausted));
    let completion = words(&[108]);
    let r = dev.try_receive(Ok(Some(&completion)), &recv_buf, &mut out, &mut send_buf).unwrap();
    assert!(r.frame.is_none());
    // A frame that would lie beyond the buffer.
    recv_buf[..16].copy_from_slice(&words(&[1, 44, NETVSC_RECV_BUF_SIZE as u32, 8]));
    let data = words(&[107]);
    let r = dev.try_receive(Ok(Some(&data)), &recv_buf, &mut out, &mut send_buf).unwrap();
    assert!(r.frame.is_none());
}

#[test]
fn keepalives_are_answered() {
    let dev = device();
    let mut send_buf = vec![0xAAu8; NETVSC_SEND_BUF_SIZE];
    let mut recv_buf = vec![0u8; NETVSC_RECV_BUF_SIZE];
    recv_buf[..12].copy_from_slice(&words(&[8, 12, 77]));
    let data = words(&[107]);
    let r = dev.try_receive(Ok(Some(&data)), &recv_buf, &mut [0u8; 64], &mut send_buf).unwrap();
    assert!(r.frame.is_none());
    let answer = r.answer.unwrap();
    assert_eq!(answer.txid, 0);
    assert_eq!(answer.message.to_vec(), nvsp(&[107, 1, 0, 16]));
    assert_eq!(&send_buf[..16], words(&[0x8000_0008, 16, 77, 0]).as_slice());
    assert_eq!(send_buf[16], 0xAA);
}

#[test]
fn arp_goes_through_the_send_buffer() {
    let mut dev = device();
    let mut send_buf = vec![0u8; NETVSC_SEND_BUF_SIZE];
    let send = send_gratuitous_arp(&mut dev, &[2, 0, 0, 0, 0, 1], &[10, 1, 2, 3], &mut send_buf);
    assert_eq!(send.message.to_vec(), nvsp(&[107, 0, 0, 104]));
    assert_eq!(&send_buf[44..50], &[0xFF; 6]);
    assert_eq!(&send_buf[44 + 38..44 + 42], &[10, 1, 2, 3]);
}

#[test]
fn adapter_knows_address_and_unit() {
    let mut nic = NetvscEmbassy::new(device());
    assert_eq!(nic.hardware_address(), [0, 0x15, 0x5D, 1, 2, 3]);
    assert_eq!(nic.max_transmission_unit(), 1500);
    assert_eq!(nic.device().nvsp_version(), 0x30002);
}
