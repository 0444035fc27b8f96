//! Tests of the IP datagram helpers, the connection snapshot, and the
//! crate's version facts.

use llp::connection::{ConnectionInfo, ConnectionState};
use llp::ip::{
    accept_datagram_counter, extract_dst_ip, extract_protocol, extract_src_ip, ip_version,
    vpn_host_octet, DpiBypassList, IpDest,
};
use llp::packet::MimicryProfile;

#[test]
fn test_version() {
    assert!(!llp::version().is_empty());
}

#[test]
fn lib_test_version() {
    assert!(!llp::version().is_empty());
}

#[test]
fn test_protocol_version() {
    assert_eq!(llp::PROTOCOL_VERSION, 1);
}

#[test]
fn test_ip_version_parsing() {
    // an IPv4 packet opens with 0x45: version 4, header length 5
    let ipv4_packet = vec![0x45, 0x00, 0x00, 0x3c];
    let version = (ipv4_packet[0] >> 4) & 0x0F;
    assert_eq!(version, 4);

    // an IPv6 packet opens with 0x60
    let ipv6_packet = vec![0x60, 0x00, 0x00, 0x00];
    let version = (ipv6_packet[0] >> 4) & 0x0F;
    assert_eq!(version, 6);

    assert_eq!(ip_version(&ipv4_packet), Some(4));
    assert_eq!(ip_version(&ipv6_packet), Some(6));
    assert_eq!(ip_version(&[]), None);
}

#[test]
fn test_extract_src_ip() {
    let packet = vec![
        0x45, 0x00, 0x00, 0x14, // version, IHL, TOS, length
        0x00, 0x00, 0x00, 0x00, // id, flags, fragment
        0x40, 0x00, 0x00, 0x00, // TTL, protocol, checksum
        192, 168, 1, 1, // source
        10, 0, 0, 1, // destination
    ];

    let src_ip = extract_src_ip(&packet).unwrap();
    assert_eq!(src_ip, IpDest::V4 { a: 192, b: 168, c: 1, d: 1 });
}

#[test]
fn test_extract_dst_ip() {
    let packet = vec![
        0x45, 0x00, 0x00, 0x14, 0x00, 0x00, 0x00, 0x00, 0x40, 0x00, 0x00, 0x00, 192, 168, 1, 1,
        10, 0, 0, 1,
    ];

    let dst_ip = extract_dst_ip(&packet).unwrap();
    assert_eq!(dst_ip, IpDest::V4 { a: 10, b: 0, c: 0, d: 1 });
}

#[test]
fn test_extract_dst_ip_v4() {
    let packet = vec![
        0x45, 0x00, 0x00, 0x14, 0x00, 0x00, 0x00, 0x00, 0x40, 0x00, 0x00, 0x00, 192, 168, 1, 1,
        10, 8, 0, 2,
    ];

    let dst_ip = extract_dst_ip(&packet).unwrap();
    assert_eq!(dst_ip, IpDest::V4 { a: 10, b: 8, c: 0, d: 2 });
}

#[test]
fn test_extract_protocol() {
    // a TCP packet: protocol byte 6
    let mut packet = vec![0u8; 20];
    packet[9] = 6;

    let proto = extract_protocol(&packet).unwrap();
    assert_eq!(proto, 6);
}

#[test]
fn test_vpn_host_octet() {
    assert_eq!(vpn_host_octet(0), 2);
    assert_eq!(vpn_host_octet(1), 3);
    assert_eq!(vpn_host_octet(252), 254);
    assert_eq!(vpn_host_octet(253), 2);
    assert_eq!(vpn_host_octet(12345), 2 + (12345 % 253) as u8);
}

#[test]
fn test_accept_datagram_counter() {
    let mut expected: u64 = 0;
    assert!(accept_datagram_counter(&mut expected, 0));
    assert_eq!(expected, 1);
    assert!(!accept_datagram_counter(&mut expected, 0));
    assert!(accept_datagram_counter(&mut expected, 5));
    assert_eq!(expected, 6);
    assert!(!accept_datagram_counter(&mut expected, 3));
}

#[test]
fn test_blocked_domains() {
    let mut list = DpiBypassList::new();
    for domain in [
        "facebook.com",
        "instagram.com",
        "twitter.com",
        "x.com",
        "youtube.com",
        "youtu.be",
        "googlevideo.com",
        "t.me",
        "telegram.org",
        "discord.com",
        "linkedin.com",
        "medium.com",
    ] {
        list.add(domain);
    }

    assert!(list.needs_bypass(b"youtube.com"));
    assert!(list.needs_bypass(b"instagram.com"));
    assert!(list.needs_bypass(b"facebook.com"));

    // subdomains match too
    assert!(list.needs_bypass(b"www.youtube.com"));
    assert!(list.needs_bypass(b"api.instagram.com"));

    // unblocked domains do not
    assert!(!list.needs_bypass(b"google.com"));
    assert!(!list.needs_bypass(b"yandex.ru"));
    assert!(!list.needs_bypass(b"vk.com"));
    // a name that merely ends in a blocked name without a dot is unrelated
    assert!(!list.needs_bypass(b"notyoutube.com"));
}

#[test]
fn test_connection_state() {
    let info = ConnectionInfo {
        state: ConnectionState::Disconnected,
        session_id: None,
        mimicry_profile: MimicryProfile::Plain,
        reconnect_attempts: 0,
    };

    assert_eq!(info.state, ConnectionState::Disconnected);
    assert!(info.session_id.is_none());
}

#[test]
fn test_connection_info_new() {
    let info = ConnectionInfo::new(MimicryProfile::VkVideo);
    assert!(!info.is_connected());
    assert_eq!(info.mimicry_profile, MimicryProfile::VkVideo);
    assert_eq!(info.reconnect_attempts, 0);
}
