use pytherparse::builder::build_packet;
use pytherparse::error::{BuildError, DecodeError, Layer};
use pytherparse::ethernet::Ethernet2Header;
use pytherparse::icmpv6::{Icmpv6Header, Icmpv6Type};
use pytherparse::ipv4::Ipv4Header;
use pytherparse::ipv6::Ipv6Header;
use pytherparse::packet::{parse_packet, NetworkHeader, ParsedPacket, TransportHeader};
use pytherparse::tcp::TcpHeader;
use pytherparse::udp::UdpHeader;

const SRC_MAC: [u8; 6] = [0x00, 0x11, 0x22, 0x33, 0x44, 0x55];
const DST_MAC: [u8; 6] = [0xAA, 0xBB, 0xCC, 0xDD, 0xEE, 0xFF];

#[test]
fn end_to_end_ethernet_ipv4_udp_hello() {
    let eth = Ethernet2Header::new(SRC_MAC, DST_MAC, 0x0800);
    let ip = Ipv4Header::new([192, 168, 0, 1], [192, 168, 0, 2], 64, 17);
    let udp = UdpHeader::new(1234, 5678, 8, 0);
    let bytes = build_packet(
        Some(eth),
        Some(NetworkHeader::Ipv4(ip)),
        Some(TransportHeader::Udp(udp)),
        b"hello",
    )
    .unwrap();
    assert_eq!(bytes.len(), 14 + 20 + 8 + 5);
    let p = parse_packet(&bytes).unwrap();
    let link = p.link.unwrap();
    assert_eq!(link.source(), SRC_MAC);
    assert_eq!(link.destination(), DST_MAC);
    assert_eq!(link.ether_type(), 0x0800);
    assert!(p.has_ipv4());
    assert!(!p.has_ipv6());
    assert_eq!(p.ip_version(), 4);
    match &p.network {
        Some(NetworkHeader::Ipv4(h)) => {
            assert_eq!(h.source(), [192, 168, 0, 1]);
            assert_eq!(h.destination(), [192, 168, 0, 2]);
            assert_eq!(h.ttl(), 64);
            assert_eq!(h.protocol(), 17);
            assert_eq!(h.total_length(), 33);
        }
        _ => panic!("expected an IPv4 header"),
    }
    assert!(p.has_udp());
    assert!(!p.has_tcp());
    match &p.transport {
        Some(TransportHeader::Udp(h)) => {
            assert_eq!(h.source_port(), 1234);
            assert_eq!(h.destination_port(), 5678);
            assert_eq!(h.length(), 13);
        }
        _ => panic!("expected a UDP header"),
    }
    assert_eq!(p.get_payload(), b"hello");
    assert_eq!(p.payload_length(), 5);
}

#[test]
fn unrecognized_ether_type_degrades_to_payload() {
    let mut bytes = Ethernet2Header::new(SRC_MAC, DST_MAC, 0x1234).to_bytes();
    bytes.extend_from_slice(&[9, 8, 7]);
    let p = parse_packet(&bytes).unwrap();
    assert_eq!(p.link.unwrap().ether_type(), 0x1234);
    assert!(p.network.is_none());
    assert!(p.transport.is_none());
    assert_eq!(p.ip_version(), 0);
    assert_eq!(p.payload, vec![9, 8, 7]);
}

#[test]
fn bare_ipv4_packet_falls_back_without_link() {
    // The source address puts 0x0800 where an EtherType would stand, and the
    // 14 bytes after it are too few for the IPv4 header that it announces, so
    // the Ethernet reading fails and the IP reading decides.
    let ip = Ipv4Header::new([8, 0, 0, 1], [10, 0, 0, 2], 64, 17);
    let udp = UdpHeader::new(53, 5353, 8, 0);
    let bytes = build_packet(None, Some(NetworkHeader::Ipv4(ip)), Some(TransportHeader::Udp(udp)), b"").unwrap();
    assert_eq!(bytes.len(), 28);
    let p = parse_packet(&bytes).unwrap();
    assert!(p.link.is_none());
    assert!(p.has_ipv4());
    match &p.network {
        Some(NetworkHeader::Ipv4(h)) => {
            assert_eq!(h.source(), [8, 0, 0, 1]);
            assert_eq!(h.header_length(), 20);
        }
        _ => panic!("expected an IPv4 header"),
    }
    match &p.transport {
        Some(TransportHeader::Udp(h)) => assert_eq!(h.source_port(), 53),
        _ => panic!("expected a UDP header"),
    }
    assert_eq!(p.payload_length(), 0);
}

#[test]
fn unrecognized_ip_protocol_keeps_network_header() {
    let ip = Ipv4Header::new([192, 168, 0, 1], [192, 168, 0, 2], 64, 1);
    let mut bytes = Ethernet2Header::new(SRC_MAC, DST_MAC, 0x0800).to_bytes();
    let mut ip = ip;
    ip.payload_len = 4;
    bytes.extend_from_slice(&ip.to_bytes());
    bytes.extend_from_slice(&[8, 0, 1, 2]);
    let p = parse_packet(&bytes).unwrap();
    assert!(p.link.is_some());
    assert!(p.has_ipv4());
    assert!(p.transport.is_none());
    assert_eq!(p.payload, vec![8, 0, 1, 2]);
}

#[test]
fn ipv6_icmpv6_is_decoded() {
    let mut ip = Ipv6Header::new([1; 16], [2; 16], 255, 58, 7);
    ip.payload_length = 8;
    let icmp = Icmpv6Header::new(Icmpv6Type::EchoReply { code: 0 }, 0xBEEF);
    let mut bytes = Ethernet2Header::new(SRC_MAC, DST_MAC, 0x86DD).to_bytes();
    bytes.extend_from_slice(&ip.to_bytes());
    bytes.extend_from_slice(&icmp.to_bytes());
    let p = parse_packet(&bytes).unwrap();
    assert!(p.has_ipv6());
    assert_eq!(p.ip_version(), 6);
    assert!(p.has_icmpv6());
    match &p.transport {
        Some(TransportHeader::Icmpv6(h)) => assert_eq!(*h, icmp),
        _ => panic!("expected an ICMPv6 header"),
    }
    assert_eq!(p.payload_length(), 0);
}

#[test]
fn truncated_transport_is_an_error() {
    // A bare IPv4 header announcing TCP, with only 10 bytes after it; its
    // source address makes the Ethernet reading fail, so the IP reading decides.
    let ip = Ipv4Header::new([8, 0, 0, 1], [4, 0, 0, 2], 64, 6);
    let mut bytes = ip.to_bytes();
    bytes.extend_from_slice(&[0u8; 10]);
    assert_eq!(
        parse_packet(&bytes).unwrap_err(),
        DecodeError::Truncated { layer: Layer::Transport, needed: 20, available: 10 }
    );
}

#[test]
fn bare_ip_packet_of_fourteen_bytes_or_more_reads_as_ethernet_first() {
    // Bytes 12 and 13 of this IPv6 header stand where an EtherType would, and
    // name no modelled protocol: the Ethernet reading succeeds.
    let ip = Ipv6Header::new([1; 16], [2; 16], 64, 59, 0);
    let bytes = ip.to_bytes();
    let p = parse_packet(&bytes).unwrap();
    assert!(p.link.is_some());
    assert!(p.network.is_none());
    assert_eq!(p.payload, bytes[14..].to_vec());
}

#[test]
fn empty_and_short_buffers() {
    assert_eq!(
        parse_packet(&[]).unwrap_err(),
        DecodeError::Truncated { layer: Layer::Network, needed: 1, available: 0 }
    );
    assert_eq!(
        parse_packet(&[0x45, 0, 0]).unwrap_err(),
        DecodeError::Truncated { layer: Layer::Network, needed: 20, available: 3 }
    );
    let p = parse_packet(&[0x12, 0x34]).unwrap();
    assert!(p.link.is_none() && p.network.is_none() && p.transport.is_none());
    assert_eq!(p.payload, vec![0x12, 0x34]);
}

#[test]
fn builder_ipv6_tcp_without_link() {
    let ip = Ipv6Header::new([1; 16], [2; 16], 64, 6, 0);
    let mut tcp = TcpHeader::new(1, 2, 3, 4, 5);
    tcp.set_syn(true);
    let bytes = build_packet(None, Some(NetworkHeader::Ipv6(ip)), Some(TransportHeader::Tcp(tcp.clone())), &[1, 2, 3]).unwrap();
    assert_eq!(bytes.len(), 40 + 20 + 3);
    assert_eq!(&bytes[4..6], &[0, 23]);
    let (d, n) = Ipv6Header::decode(&bytes).unwrap();
    assert_eq!(n, 40);
    assert_eq!(d.payload_length(), 23);
    let (t, m) = TcpHeader::decode(&bytes[40..]).unwrap();
    assert_eq!(m, 20);
    assert_eq!(t, tcp);
    assert_eq!(&bytes[60..], &[1, 2, 3]);
}

#[test]
fn builder_rejects_incompatible_stacks() {
    let eth = Ethernet2Header::new(SRC_MAC, DST_MAC, 0x0800);
    let tcp = TcpHeader::new(1, 2, 3, 4, 5);
    assert_eq!(
        build_packet(Some(eth), None, Some(TransportHeader::Tcp(tcp)), b"").unwrap_err(),
        BuildError::IncompatibleStack
    );
    let ip = Ipv4Header::new([1, 2, 3, 4], [5, 6, 7, 8], 64, 17);
    assert_eq!(
        build_packet(None, Some(NetworkHeader::Ipv4(ip.clone())), None, b"").unwrap_err(),
        BuildError::IncompatibleStack
    );
    let icmp = Icmpv6Header::new(Icmpv6Type::EchoRequest { code: 0 }, 0);
    assert_eq!(
        build_packet(None, Some(NetworkHeader::Ipv4(ip)), Some(TransportHeader::Icmpv6(icmp)), b"").unwrap_err(),
        BuildError::IncompatibleStack
    );
}

#[test]
fn builder_rejects_oversized_payload() {
    let ip = Ipv4Header::new([1, 2, 3, 4], [5, 6, 7, 8], 64, 17);
    let udp = UdpHeader::new(1, 2, 8, 0);
    let big = vec![0u8; 65535 - 28 + 1];
    assert_eq!(
        build_packet(None, Some(NetworkHeader::Ipv4(ip.clone())), Some(TransportHeader::Udp(udp)), &big).unwrap_err(),
        BuildError::PayloadTooLarge
    );
    let fits = vec![0u8; 65535 - 28];
    let bytes = build_packet(None, Some(NetworkHeader::Ipv4(ip)), Some(TransportHeader::Udp(udp)), &fits).unwrap();
    assert_eq!(bytes.len(), 65535);
}

#[test]
fn parsed_packet_model_methods() {
    let mut p = ParsedPacket::new();
    assert_eq!(p.ip_version(), 0);
    assert!(!p.has_ipv4() && !p.has_ipv6() && !p.has_tcp() && !p.has_udp() && !p.has_icmpv6());
    assert_eq!(p.payload_length(), 0);
    p.set_payload(vec![1, 2, 3]);
    assert_eq!(p.get_payload(), &[1, 2, 3]);
    assert_eq!(p.payload_length(), 3);
}

#[test]
fn malformed_ipv4_length_degrades_without_error() {
    let mut bytes = Ethernet2Header::new(SRC_MAC, DST_MAC, 0x0800).to_bytes();
    bytes[0] = 0x44;
    let mut ip = Ipv4Header::new([192, 168, 0, 1], [192, 168, 0, 2], 64, 17).to_bytes();
    ip[0] = 0x44;
    bytes.extend_from_slice(&ip);
    assert_eq!(bytes.len(), 34);
    let p = parse_packet(&bytes).unwrap();
    assert_eq!(p.link.unwrap().ether_type(), 0x0800);
    assert!(p.network.is_none());
    assert!(p.transport.is_none());
    assert_eq!(p.payload, ip);
}

#[test]
fn ipv4_total_length_below_header_degrades_without_error() {
    let mut bytes = Ethernet2Header::new(SRC_MAC, DST_MAC, 0x0800).to_bytes();
    let mut ip = Ipv4Header::new([192, 168, 0, 1], [192, 168, 0, 2], 64, 17).to_bytes();
    ip[3] = 10;
    bytes.extend_from_slice(&ip);
    let p = parse_packet(&bytes).unwrap();
    assert!(p.link.is_some());
    assert!(p.network.is_none());
    assert_eq!(p.payload, ip);
}

#[test]
fn tcp_data_offset_below_minimum_degrades_without_error() {
    let mut ip = Ipv4Header::new([192, 168, 0, 1], [192, 168, 0, 2], 64, 6);
    ip.payload_len = 20;
    let mut tcp = TcpHeader::new(1, 2, 3, 4, 5).to_bytes();
    tcp[12] = 0x40;
    let mut bytes = Ethernet2Header::new(SRC_MAC, DST_MAC, 0x0800).to_bytes();
    bytes.extend_from_slice(&ip.to_bytes());
    bytes.extend_from_slice(&tcp);
    let p = parse_packet(&bytes).unwrap();
    assert!(p.has_ipv4());
    assert!(p.transport.is_none());
    assert_eq!(p.payload, tcp);
}
