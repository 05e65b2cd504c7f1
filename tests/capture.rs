use pytherparse::builder::build_packet;
use pytherparse::capture::{parse_pcap_data, CaptureReader};
use pytherparse::error::CaptureError;
use pytherparse::ethernet::Ethernet2Header;
use pytherparse::ipv4::Ipv4Header;
use pytherparse::packet::{NetworkHeader, TransportHeader};
use pytherparse::udp::UdpHeader;

fn global_header() -> Vec<u8> {
    let mut v = vec![0xD4, 0xC3, 0xB2, 0xA1, 2, 0, 4, 0];
    v.extend_from_slice(&[0; 8]);
    v.extend_from_slice(&65535u32.to_le_bytes());
    v.extend_from_slice(&1u32.to_le_bytes());
    v
}

fn record(data: &[u8], captured: u32) -> Vec<u8> {
    let mut v = Vec::new();
    v.extend_from_slice(&1_700_000_000u32.to_le_bytes());
    v.extend_from_slice(&250u32.to_le_bytes());
    v.extend_from_slice(&captured.to_le_bytes());
    v.extend_from_slice(&(data.len() as u32).to_le_bytes());
    v.extend_from_slice(data);
    v
}

fn sample_frame() -> Vec<u8> {
    let eth = Ethernet2Header::new([0, 0x11, 0x22, 0x33, 0x44, 0x55], [0xAA, 0xBB, 0xCC, 0xDD, 0xEE, 0xFF], 0x0800);
    let ip = Ipv4Header::new([192, 168, 0, 1], [192, 168, 0, 2], 64, 17);
    let udp = UdpHeader::new(1234, 5678, 8, 0);
    build_packet(Some(eth), Some(NetworkHeader::Ipv4(ip)), Some(TransportHeader::Udp(udp)), b"hello").unwrap()
}

#[test]
fn empty_container_yields_no_packets() {
    assert_eq!(parse_pcap_data(global_header()).unwrap().len(), 0);
}

#[test]
fn malformed_global_header_fails_to_open() {
    assert_eq!(parse_pcap_data(vec![1, 2, 3]).unwrap_err(), CaptureError::ContainerOpenFailed);
    let mut bad = global_header();
    bad[0] = 0;
    assert_eq!(parse_pcap_data(bad).unwrap_err(), CaptureError::ContainerOpenFailed);
}

#[test]
fn truncated_record_ends_the_sequence() {
    let frame = sample_frame();
    let mut file = global_header();
    file.extend_from_slice(&record(&frame, frame.len() as u32 + 10));
    assert_eq!(parse_pcap_data(file).unwrap().len(), 0);
}

#[test]
fn records_are_decoded_and_bad_ones_skipped() {
    let frame = sample_frame();
    let mut file = global_header();
    file.extend_from_slice(&record(&frame, frame.len() as u32));
    file.extend_from_slice(&record(&[], 0));
    file.extend_from_slice(&record(&frame, frame.len() as u32));
    let packets = parse_pcap_data(file).unwrap();
    assert_eq!(packets.len(), 2);
    for p in &packets {
        assert!(p.has_udp());
        assert_eq!(p.payload, b"hello".to_vec());
    }
}

#[test]
fn reader_walks_records_in_order() {
    let mut file = global_header();
    file.extend_from_slice(&record(&[1, 2, 3], 3));
    file.extend_from_slice(&record(&[4], 1));
    let mut reader = CaptureReader::open(file).unwrap();
    let h = reader.header();
    assert!(!h.big_endian);
    assert_eq!(h.version_major, 2);
    assert_eq!(h.version_minor, 4);
    assert_eq!(h.snaplen, 65535);
    assert_eq!(h.link_type, 1);
    let first = reader.next_record().unwrap();
    assert_eq!(first.data, vec![1, 2, 3]);
    assert_eq!(first.ts_sec, 1_700_000_000);
    assert_eq!(first.ts_frac, 250);
    assert_eq!(first.orig_len, 3);
    assert_eq!(reader.next_record().unwrap().data, vec![4]);
    assert!(reader.next_record().is_none());
    assert!(reader.next_record().is_none());
}

#[test]
fn big_endian_container_is_read() {
    let mut file = vec![0xA1, 0xB2, 0xC3, 0xD4, 0, 2, 0, 4];
    file.extend_from_slice(&[0; 8]);
    file.extend_from_slice(&65535u32.to_be_bytes());
    file.extend_from_slice(&1u32.to_be_bytes());
    file.extend_from_slice(&[0, 0, 0, 1, 0, 0, 0, 0, 0, 0, 0, 2, 0, 0, 0, 2, 0x12, 0x34]);
    let mut reader = CaptureReader::open(file).unwrap();
    assert!(reader.header().big_endian);
    assert_eq!(reader.header().link_type, 1);
    assert_eq!(reader.next_record().unwrap().data, vec![0x12, 0x34]);
    assert!(reader.next_record().is_none());
}

#[test]
fn complete_records_then_a_cut_one() {
    let frame = sample_frame();
    let mut file = global_header();
    file.extend_from_slice(&record(&frame, frame.len() as u32));
    file.extend_from_slice(&record(&[1, 2], 2));
    file.extend_from_slice(&record(&frame, frame.len() as u32));
    file.extend_from_slice(&record(&frame[..10], 40));
    let packets = parse_pcap_data(file).unwrap();
    assert_eq!(packets.len(), 3);
    assert!(packets[0].has_udp());
    assert_eq!(packets[1].payload, vec![1, 2]);
    assert!(packets[2].has_udp());
}
