use pytherparse::error::{DecodeError, Layer};
use pytherparse::ethernet::Ethernet2Header;
use pytherparse::icmpv6::{Icmpv6Header, Icmpv6Type};
use pytherparse::ipv4::Ipv4Header;
use pytherparse::ipv6::Ipv6Header;
use pytherparse::tcp::TcpHeader;
use pytherparse::udp::UdpHeader;

#[test]
fn ethernet_encodes_destination_source_type() {
    let h = Ethernet2Header::new([0, 0x11, 0x22, 0x33, 0x44, 0x55], [0xAA, 0xBB, 0xCC, 0xDD, 0xEE, 0xFF], 0x0800);
    assert_eq!(
        h.to_bytes(),
        vec![0xAA, 0xBB, 0xCC, 0xDD, 0xEE, 0xFF, 0, 0x11, 0x22, 0x33, 0x44, 0x55, 0x08, 0x00]
    );
    let (d, n) = Ethernet2Header::decode(&h.to_bytes()).unwrap();
    assert_eq!(n, 14);
    assert_eq!(d, h);
    assert_eq!(d.source(), [0, 0x11, 0x22, 0x33, 0x44, 0x55]);
    assert_eq!(d.destination(), [0xAA, 0xBB, 0xCC, 0xDD, 0xEE, 0xFF]);
    assert_eq!(d.ether_type(), 0x0800);
}

#[test]
fn ethernet_truncation_boundary() {
    let bytes = [7u8; 14];
    assert_eq!(
        Ethernet2Header::decode(&bytes[..13]).unwrap_err(),
        DecodeError::Truncated { layer: Layer::Link, needed: 14, available: 13 }
    );
    assert!(Ethernet2Header::decode(&bytes).is_ok());
}

#[test]
fn ipv4_round_trip_ttl_boundaries() {
    for ttl in [0u8, 255u8] {
        let h = Ipv4Header::new([192, 168, 0, 1], [192, 168, 0, 2], ttl, 17);
        let bytes = h.to_bytes();
        assert_eq!(bytes.len(), 20);
        assert_eq!(bytes[0], 0x45);
        assert_eq!(bytes[8], ttl);
        let (d, n) = Ipv4Header::decode(&bytes).unwrap();
        assert_eq!(n, 20);
        assert_eq!(d, h);
        assert_eq!(d.ttl(), ttl);
        assert_eq!(d.protocol(), 17);
        assert_eq!(d.header_length(), 20);
    }
}

#[test]
fn ipv4_round_trip_with_options_and_fields() {
    let mut h = Ipv4Header::new([10, 0, 0, 1], [10, 0, 0, 2], 64, 6);
    h.set_fragmentation(false, true, 0x1FFF);
    h.identification = 0xBEEF;
    h.dscp = 0x3F;
    h.ecn = 3;
    h.header_checksum = 0x1234;
    h.payload_len = 100;
    h.options = vec![1, 1, 1, 0];
    let bytes = h.to_bytes();
    assert_eq!(bytes.len(), 24);
    assert_eq!(bytes[0], 0x46);
    assert_eq!(&bytes[2..4], &[0, 124]);
    assert_eq!(&bytes[10..12], &[0x12, 0x34]);
    let (d, n) = Ipv4Header::decode(&bytes).unwrap();
    assert_eq!(n, 24);
    assert_eq!(d, h);
    assert_eq!(d.total_length(), 124);
    assert!(!d.dont_fragment());
    assert!(d.more_fragments());
    assert_eq!(d.fragment_offset(), 0x1FFF);
    assert_eq!(d.identification(), 0xBEEF);
}

#[test]
fn ipv4_dont_fragment_flag_bits() {
    let mut h = Ipv4Header::new([1, 2, 3, 4], [5, 6, 7, 8], 64, 17);
    h.set_fragmentation(true, false, 0);
    let bytes = h.to_bytes();
    assert_eq!(bytes[6] >> 5, 0b010);
    assert_eq!(bytes[6], 0x40);
    assert_eq!(bytes[7], 0);
}

#[test]
fn ipv4_truncation_and_errors() {
    let h = Ipv4Header::new([1, 2, 3, 4], [5, 6, 7, 8], 64, 17);
    let bytes = h.to_bytes();
    assert_eq!(
        Ipv4Header::decode(&bytes[..19]).unwrap_err(),
        DecodeError::Truncated { layer: Layer::Network, needed: 20, available: 19 }
    );
    assert!(Ipv4Header::decode(&bytes[..20]).is_ok());
    let mut v6 = bytes.clone();
    v6[0] = 0x65;
    assert_eq!(
        Ipv4Header::decode(&v6).unwrap_err(),
        DecodeError::UnexpectedVersion { layer: Layer::Network, version: 6 }
    );
    let mut short_ihl = bytes.clone();
    short_ihl[0] = 0x44;
    assert_eq!(
        Ipv4Header::decode(&short_ihl).unwrap_err(),
        DecodeError::HeaderLengthTooSmall { layer: Layer::Network, words: 4 }
    );
    let mut long_ihl = bytes.clone();
    long_ihl[0] = 0x46;
    long_ihl[3] = 24;
    assert_eq!(
        Ipv4Header::decode(&long_ihl).unwrap_err(),
        DecodeError::Truncated { layer: Layer::Network, needed: 24, available: 20 }
    );
    let mut small_total = bytes.clone();
    small_total[3] = 10;
    assert_eq!(
        Ipv4Header::decode(&small_total).unwrap_err(),
        DecodeError::TotalLengthTooSmall { total_length: 10 }
    );
}

#[test]
fn ipv6_flow_label_masking_and_round_trip() {
    let src = [0x20, 0x01, 0x0d, 0xb8, 0, 0, 0, 0, 0, 0, 0, 0, 0, 0, 0, 1];
    let dst = [0xfe, 0x80, 0, 0, 0, 0, 0, 0, 0, 0, 0, 0, 0, 0, 0, 2];
    let full = Ipv6Header::new(src, dst, 64, 17, 0xFFFFF);
    assert_eq!(full.flow_label(), 0xFFFFF);
    let wrapped = Ipv6Header::new(src, dst, 64, 17, 0x100000);
    assert_eq!(wrapped.flow_label(), 0);
    let bytes = full.to_bytes();
    assert_eq!(bytes.len(), 40);
    assert_eq!(&bytes[0..4], &[0x60, 0x0F, 0xFF, 0xFF]);
    let (d, n) = Ipv6Header::decode(&bytes).unwrap();
    assert_eq!(n, 40);
    assert_eq!(d, full);
    assert_eq!(d.hop_limit(), 64);
    assert_eq!(d.next_header(), 17);
    assert_eq!(d.source(), src);
    assert_eq!(d.destination(), dst);
    assert_eq!(d.header_length(), 40);
    let (w, _) = Ipv6Header::decode(&wrapped.to_bytes()).unwrap();
    assert_eq!(w, wrapped);
}

#[test]
fn ipv6_traffic_class_round_trip() {
    let mut h = Ipv6Header::new([1; 16], [2; 16], 1, 6, 0x12345);
    h.traffic_class = 0xAB;
    h.payload_length = 0x0102;
    let bytes = h.to_bytes();
    assert_eq!(&bytes[0..6], &[0x6A, 0xB1, 0x23, 0x45, 0x01, 0x02]);
    let (d, _) = Ipv6Header::decode(&bytes).unwrap();
    assert_eq!(d, h);
    assert_eq!(d.traffic_class(), 0xAB);
    assert_eq!(d.payload_length(), 0x0102);
}

#[test]
fn ipv6_truncation_boundary() {
    let bytes = Ipv6Header::new([1; 16], [2; 16], 1, 6, 0).to_bytes();
    assert_eq!(
        Ipv6Header::decode(&bytes[..39]).unwrap_err(),
        DecodeError::Truncated { layer: Layer::Network, needed: 40, available: 39 }
    );
    assert!(Ipv6Header::decode(&bytes).is_ok());
}

#[test]
fn tcp_round_trip_all_flags_set_and_clear() {
    let clear = TcpHeader::new(1234, 80, 0xDEADBEEF, 0x01020304, 64240);
    let bytes = clear.to_bytes();
    assert_eq!(bytes.len(), 20);
    assert_eq!(bytes[12], 0x50);
    assert_eq!(bytes[13], 0);
    let (d, n) = TcpHeader::decode(&bytes).unwrap();
    assert_eq!(n, 20);
    assert_eq!(d, clear);

    let mut set = clear.clone();
    set.set_syn(true);
    set.set_ack(true);
    set.set_psh(true);
    set.set_rst(true);
    set.set_fin(true);
    set.set_urg(true);
    set.ece = true;
    set.cwr = true;
    set.ns = true;
    let bytes = set.to_bytes();
    assert_eq!(bytes[12], 0x51);
    assert_eq!(bytes[13], 0xFF);
    let (d, _) = TcpHeader::decode(&bytes).unwrap();
    assert_eq!(d, set);
    assert!(d.syn() && d.ack() && d.psh() && d.rst() && d.fin() && d.urg() && d.ece() && d.cwr());
    assert_eq!(d.sequence_number(), 0xDEADBEEF);
    assert_eq!(d.acknowledgment_number(), 0x01020304);
    assert_eq!(d.window_size(), 64240);
    assert_eq!(d.source_port(), 1234);
    assert_eq!(d.destination_port(), 80);
    assert_eq!(d.urgent_pointer(), 0);
}

#[test]
fn tcp_options_and_truncation() {
    let mut h = TcpHeader::new(1, 2, 3, 4, 5);
    h.options = vec![2, 4, 5, 0xB4, 1, 1, 1, 0];
    let bytes = h.to_bytes();
    assert_eq!(bytes.len(), 28);
    assert_eq!(bytes[12] >> 4, 7);
    let (d, n) = TcpHeader::decode(&bytes).unwrap();
    assert_eq!(n, 28);
    assert_eq!(d.data_offset(), 7);
    assert_eq!(d.header_length(), 28);
    assert_eq!(d, h);
    assert_eq!(
        TcpHeader::decode(&bytes[..27]).unwrap_err(),
        DecodeError::Truncated { layer: Layer::Transport, needed: 28, available: 27 }
    );
    assert_eq!(
        TcpHeader::decode(&bytes[..19]).unwrap_err(),
        DecodeError::Truncated { layer: Layer::Transport, needed: 20, available: 19 }
    );
    let mut bad = bytes.clone();
    bad[12] = 0x40;
    assert_eq!(
        TcpHeader::decode(&bad).unwrap_err(),
        DecodeError::HeaderLengthTooSmall { layer: Layer::Transport, words: 4 }
    );
}

#[test]
fn udp_round_trip_and_lengths() {
    let mut h = UdpHeader::new(1234, 5678, 8, 0);
    assert_eq!(h.payload_length(), 0);
    h.set_length(13);
    h.set_checksum(0xABCD);
    assert_eq!(h.length(), 13);
    assert_eq!(h.checksum(), 0xABCD);
    assert_eq!(h.payload_length(), 5);
    assert_eq!(h.header_length(), 8);
    let bytes = h.to_bytes();
    assert_eq!(bytes, vec![0x04, 0xD2, 0x16, 0x2E, 0, 13, 0xAB, 0xCD]);
    let (d, n) = UdpHeader::decode(&bytes).unwrap();
    assert_eq!(n, 8);
    assert_eq!(d, h);
    assert_eq!(
        UdpHeader::decode(&bytes[..7]).unwrap_err(),
        DecodeError::Truncated { layer: Layer::Transport, needed: 8, available: 7 }
    );
    assert_eq!(UdpHeader::new(1, 2, 3, 4).payload_length(), 0);
}

fn reference_udp_checksum(src: [u8; 4], dst: [u8; 4], h: &UdpHeader, payload: &[u8]) -> u16 {
    let mut bytes: Vec<u8> = Vec::new();
    bytes.extend_from_slice(&src);
    bytes.extend_from_slice(&dst);
    bytes.extend_from_slice(&[0, 17]);
    bytes.extend_from_slice(&h.length.to_be_bytes());
    bytes.extend_from_slice(&h.source_port.to_be_bytes());
    bytes.extend_from_slice(&h.destination_port.to_be_bytes());
    bytes.extend_from_slice(&h.length.to_be_bytes());
    bytes.extend_from_slice(&[0, 0]);
    bytes.extend_from_slice(payload);
    if bytes.len() % 2 == 1 {
        bytes.push(0);
    }
    let mut sum: u32 = 0;
    for pair in bytes.chunks(2) {
        sum += u32::from(u16::from_be_bytes([pair[0], pair[1]]));
    }
    while sum > 0xFFFF {
        sum = (sum & 0xFFFF) + (sum >> 16);
    }
    let c = !(sum as u16);
    if c == 0 { 0xFFFF } else { c }
}

#[test]
fn udp_checksum_over_ipv4_pseudo_header() {
    let src = [192, 168, 0, 1];
    let dst = [192, 168, 0, 2];
    let mut h = UdpHeader::new(1234, 5678, 8, 0);
    h.calc_checksum_ipv4(src, dst, b"hello");
    assert_eq!(h.length(), 13);
    assert_ne!(h.checksum(), 0);
    assert_eq!(h.checksum(), reference_udp_checksum(src, dst, &h, b"hello"));
}

#[test]
fn icmpv6_round_trip_and_classification() {
    let h = Icmpv6Header::new(Icmpv6Type::EchoRequest { code: 0 }, 0x1234);
    let bytes = h.to_bytes();
    assert_eq!(bytes, vec![128, 0, 0x12, 0x34, 0, 0, 0, 0]);
    assert_eq!(h.header_length(), 8);
    let (d, n) = Icmpv6Header::decode(&bytes).unwrap();
    assert_eq!(n, 8);
    assert_eq!(d, h);
    assert_eq!(Icmpv6Type::from_type_code(1, 4), Icmpv6Type::DestinationUnreachable { code: 4 });
    assert_eq!(Icmpv6Type::from_type_code(135, 0), Icmpv6Type::Other { type_u8: 135, code: 0 });
    assert_eq!(Icmpv6Type::from_type_code(129, 0).type_u8(), 129);
    assert_eq!(Icmpv6Type::from_type_code(3, 1).code_u8(), 1);
    let other = Icmpv6Header::new(Icmpv6Type::from_type_code(135, 0), 0);
    let (d, _) = Icmpv6Header::decode(&other.to_bytes()).unwrap();
    assert_eq!(d, other);
    assert_eq!(
        Icmpv6Header::decode(&bytes[..7]).unwrap_err(),
        DecodeError::Truncated { layer: Layer::Transport, needed: 8, available: 7 }
    );
}
