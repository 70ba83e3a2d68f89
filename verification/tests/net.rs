use embclox::net::arp::{build_arp_request, build_gratuitous_arp, build_padded_request};
use embclox::net::config::{announcement, NetMode};

const MAC: [u8; 6] = [0x52, 0x54, 0x00, 0x12, 0x34, 0x56];

#[test]
fn arp_request_layout() {
    let frame = build_arp_request(&MAC, &[10, 0, 2, 15], &[10, 0, 2, 2]);
    assert_eq!(
        frame,
        [
            0xff, 0xff, 0xff, 0xff, 0xff, 0xff, 0x52, 0x54, 0x00, 0x12, 0x34, 0x56, 0x08, 0x06,
            0x00, 0x01, 0x08, 0x00, 0x06, 0x04, 0x00, 0x01, 0x52, 0x54, 0x00, 0x12, 0x34, 0x56,
            10, 0, 2, 15, 0, 0, 0, 0, 0, 0, 10, 0, 2, 2
        ]
    );
}

#[test]
fn padded_requests_are_whole_frames() {
    let frame = build_padded_request(&MAC, &[10, 0, 2, 15], &[10, 0, 2, 2]);
    assert_eq!(&frame[..42], &build_arp_request(&MAC, &[10, 0, 2, 15], &[10, 0, 2, 2]));
    assert_eq!(&frame[42..], &[0; 18]);
}

#[test]
fn gratuitous_arp_asks_for_itself() {
    let ip = [192, 168, 234, 50];
    let frame = build_gratuitous_arp(&MAC, &ip);
    assert_eq!(&frame[28..32], &ip);
    assert_eq!(&frame[38..42], &ip);
    assert_eq!(&frame[32..38], &[0; 6]);
}

#[test]
fn only_static_addresses_are_announced() {
    assert!(announcement(&NetMode::Dhcp, &MAC).is_none());
    let mode = NetMode::Static { ip: [10, 0, 2, 15], prefix: 24, gw: [10, 0, 2, 2] };
    assert_eq!(announcement(&mode, &MAC).unwrap(), build_gratuitous_arp(&MAC, &[10, 0, 2, 15]));
}
