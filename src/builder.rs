//! The packet builder: a header stack and a payload into one byte buffer,
//! with the dependent length fields filled in.

use vstd::prelude::*;
use crate::error::BuildError;
use crate::ethernet::{Ethernet2Header, ETHER_TYPE_IPV4, ETHER_TYPE_IPV6};
use crate::ipv4::Ipv4Header;
use crate::ipv6::Ipv6Header;
use crate::udp::UdpHeader;
use crate::packet::{
    NetworkHeader, TransportHeader, ParsedPacket, TransportKind, packet_decoded, ethernet_path_accepts,
    rest, transport_accepts, transport_decoded, network_accepts, network_decoded,
    spec_kind_of_ether_type, spec_kind_of_protocol,
};
use crate::ethernet::{lemma_ethernet_wire_decodes, lemma_ethernet_decodes_prefix};
use crate::ipv4::{lemma_ipv4_accepts_prefix, lemma_ipv4_decodes_prefix};
use crate::ipv6::{lemma_ipv6_accepts_prefix, lemma_ipv6_decodes_prefix};
use crate::tcp::{TcpHeader, lemma_tcp_accepts_prefix, lemma_tcp_decodes_prefix};
use crate::udp::lemma_udp_decodes_prefix;

verus! {

/// The headers are each within their field ranges.
pub open spec fn headers_wf(network: Option<NetworkHeader>, transport: Option<TransportHeader>) -> bool {
    &&& (network matches Some(NetworkHeader::Ipv4(h)) ==> h.options@.len() <= 40 && h.options@.len() % 4 == 0
        && h.dscp <= 0x3F && h.ecn <= 3 && h.fragments_offset <= 0x1FFF)
    &&& (network matches Some(NetworkHeader::Ipv6(h)) ==> h.wf())
    &&& (transport matches Some(TransportHeader::Tcp(h)) ==> h.wf())
}

/// The layering is one of Ethernet? -> IPv4/IPv6 -> TCP/UDP.
pub open spec fn stack_valid(network: Option<NetworkHeader>, transport: Option<TransportHeader>) -> bool {
    &&& network is Some
    &&& (transport matches Some(TransportHeader::Tcp(_)) || transport matches Some(TransportHeader::Udp(_)))
}

/// Length of the transport header on the wire.
pub open spec fn transport_len(t: TransportHeader) -> int {
    match t {
        TransportHeader::Tcp(h) => h.spec_header_len(),
        TransportHeader::Udp(_) => 8,
        TransportHeader::Icmpv6(_) => 8,
    }
}

/// Length of the network header on the wire.
pub open spec fn network_len(n: NetworkHeader) -> int {
    match n {
        NetworkHeader::Ipv4(h) => h.spec_header_len(),
        NetworkHeader::Ipv6(_) => 40,
    }
}

/// The length fields can hold the sizes they must announce.
pub open spec fn lengths_fit(n: NetworkHeader, t: TransportHeader, payload_len: int) -> bool {
    network_len(n) + transport_len(t) + payload_len <= u16::MAX
}

/// The transport header with its length field set for `payload_len` bytes.
pub open spec fn patched_transport(t: TransportHeader, payload_len: int) -> TransportHeader {
    match t {
        TransportHeader::Udp(h) => TransportHeader::Udp(UdpHeader {
            length: (8 + payload_len) as u16,
            ..h
        }),
        _ => t,
    }
}

/// Wire form of a transport header.
pub open spec fn transport_wire(t: TransportHeader) -> Seq<u8> {
    match t {
        TransportHeader::Tcp(h) => h.wire(),
        TransportHeader::Udp(h) => h.wire(),
        TransportHeader::Icmpv6(h) => h.wire(),
    }
}

/// The network header with its payload length set to `inner_len`.
pub open spec fn patched_network(n: NetworkHeader, inner_len: int) -> NetworkHeader {
    match n {
        NetworkHeader::Ipv4(h) => NetworkHeader::Ipv4(Ipv4Header { payload_len: inner_len as u16, ..h }),
        NetworkHeader::Ipv6(h) => NetworkHeader::Ipv6(Ipv6Header { payload_length: inner_len as u16, ..h }),
    }
}

/// Wire form of a network header.
pub open spec fn network_wire(n: NetworkHeader) -> Seq<u8> {
    match n {
        NetworkHeader::Ipv4(h) => h.wire(),
        NetworkHeader::Ipv6(h) => h.wire(),
    }
}

/// Wire form of a link header, empty without one.
pub open spec fn link_wire(link: Option<Ethernet2Header>) -> Seq<u8> {
    match link {
        Some(e) => e.wire(),
        None => Seq::empty(),
    }
}

/// The bytes of the packet: each header in wire order with the IPv4 total
/// length (or IPv6 payload length) and the UDP length covering what follows,
/// then the payload.
pub open spec fn built_packet(
    link: Option<Ethernet2Header>,
    n: NetworkHeader,
    t: TransportHeader,
    payload: Seq<u8>,
) -> Seq<u8> {
    link_wire(link) + network_wire(patched_network(n, transport_len(t) + payload.len()))
        + transport_wire(patched_transport(t, payload.len() as int)) + payload
}

/// Serializes the header stack and the payload, filling in the IPv4 total
/// length, the IPv6 payload length and the UDP length. Checksums are written
/// as stored.
pub fn build_packet(
    link: Option<Ethernet2Header>,
    network: Option<NetworkHeader>,
    transport: Option<TransportHeader>,
    payload: &[u8],
) -> (r: Result<Vec<u8>, BuildError>)
    requires
        headers_wf(network, transport),
    ensures
        !stack_valid(network, transport) ==> r == Err::<Vec<u8>, BuildError>(BuildError::IncompatibleStack),
        stack_valid(network, transport) ==> match r {
            Ok(bytes) => lengths_fit(network.unwrap(), transport.unwrap(), payload@.len() as int)
                && bytes@ == built_packet(link, network.unwrap(), transport.unwrap(), payload@),
            Err(e) => e == BuildError::PayloadTooLarge
                && !lengths_fit(network.unwrap(), transport.unwrap(), payload@.len() as int),
        },
{
    let (n, t) = match (network, transport) {
        (Some(n), Some(t)) => (n, t),
        _ => return Err(BuildError::IncompatibleStack),
    };
    let tlen: usize = match &t {
        TransportHeader::Tcp(h) => h.header_length() as usize,
        TransportHeader::Udp(_) => 8,
        TransportHeader::Icmpv6(_) => return Err(BuildError::IncompatibleStack),
    };
    let nlen: usize = match &n {
        NetworkHeader::Ipv4(h) => 20 + h.options.len(),
        NetworkHeader::Ipv6(_) => 40,
    };
    if payload.len() > 65535 || nlen + tlen + payload.len() > 65535 {
        return Err(BuildError::PayloadTooLarge);
    }
    let inner = (tlen + payload.len()) as u16;
    let mut out: Vec<u8> = Vec::new();
    if let Some(e) = &link {
        let mut lb = e.to_bytes();
        out.append(&mut lb);
    }
    let mut nb = match n {
        NetworkHeader::Ipv4(h) => {
            let mut h = h;
            h.payload_len = inner;
            h.to_bytes()
        },
        NetworkHeader::Ipv6(h) => {
            let mut h = h;
            h.payload_length = inner;
            h.to_bytes()
        },
    };
    out.append(&mut nb);
    let mut tb = match t {
        TransportHeader::Tcp(h) => h.to_bytes(),
        TransportHeader::Udp(h) => {
            let mut h = h;
            h.length = 8 + payload.len() as u16;
            h.to_bytes()
        },
        TransportHeader::Icmpv6(h) => h.to_bytes(),
    };
    out.append(&mut tb);
    let mut pb = vstd::slice::slice_to_vec(payload);
    out.append(&mut pb);
    Ok(out)
}

/// The EtherType that announces a network header.
pub open spec fn ether_type_of(n: NetworkHeader) -> u16 {
    match n {
        NetworkHeader::Ipv4(_) => ETHER_TYPE_IPV4,
        NetworkHeader::Ipv6(_) => ETHER_TYPE_IPV6,
    }
}

/// The protocol number that a network header announces.
pub open spec fn protocol_of(n: NetworkHeader) -> u8 {
    match n {
        NetworkHeader::Ipv4(h) => h.protocol,
        NetworkHeader::Ipv6(h) => h.next_header,
    }
}

/// The IP protocol number of a transport header.
pub open spec fn protocol_number(t: TransportHeader) -> u8 {
    match t {
        TransportHeader::Tcp(_) => 6,
        TransportHeader::Udp(_) => 17,
        TransportHeader::Icmpv6(_) => 58,
    }
}

/// Same variant and same fields.
pub open spec fn network_same(a: NetworkHeader, b: NetworkHeader) -> bool {
    match (a, b) {
        (NetworkHeader::Ipv4(x), NetworkHeader::Ipv4(y)) => x.same(&y),
        (NetworkHeader::Ipv6(x), NetworkHeader::Ipv6(y)) => x == y,
        _ => false,
    }
}

/// Same variant and same fields.
pub open spec fn transport_same(a: TransportHeader, b: TransportHeader) -> bool {
    match (a, b) {
        (TransportHeader::Tcp(x), TransportHeader::Tcp(y)) => x.same(&y),
        (TransportHeader::Udp(x), TransportHeader::Udp(y)) => x == y,
        (TransportHeader::Icmpv6(x), TransportHeader::Icmpv6(y)) => x == y,
        _ => false,
    }
}

/// The TCP stage reads back a header followed by the payload.
proof fn lemma_tcp_reads_back(h: TcpHeader, payload: Seq<u8>, t2: Option<TransportHeader>, payload2: Seq<u8>)
    requires
        h.wf(),
    ensures
        transport_accepts(TransportKind::Tcp, h.wire() + payload),
        transport_decoded(TransportKind::Tcp, h.wire() + payload, t2, payload2) ==> (t2 matches Some(x)
            && transport_same(x, TransportHeader::Tcp(h)) && payload2 == payload),
{
    let b = h.wire() + payload;
    lemma_tcp_accepts_prefix(h, payload);
    if transport_decoded(TransportKind::Tcp, b, t2, payload2) {
        let d = t2.unwrap()->Tcp_0;
        lemma_tcp_decodes_prefix(h, payload, d);
        assert(rest(b, d.spec_header_len()) =~= payload);
    }
}

/// The UDP stage reads back a header followed by the payload.
proof fn lemma_udp_reads_back(h: UdpHeader, payload: Seq<u8>, t2: Option<TransportHeader>, payload2: Seq<u8>)
    ensures
        transport_accepts(TransportKind::Udp, h.wire() + payload),
        transport_decoded(TransportKind::Udp, h.wire() + payload, t2, payload2) ==> (t2 matches Some(x)
            && transport_same(x, TransportHeader::Udp(h)) && payload2 == payload),
{
    let b = h.wire() + payload;
    if transport_decoded(TransportKind::Udp, b, t2, payload2) {
        lemma_udp_decodes_prefix(h, payload, t2.unwrap()->Udp_0);
        assert(rest(b, 8) =~= payload);
    }
}

/// The transport stage reads back a TCP or UDP header followed by the payload.
proof fn lemma_transport_reads_back(
    t: TransportHeader,
    payload: Seq<u8>,
    t2: Option<TransportHeader>,
    payload2: Seq<u8>,
)
    requires
        t matches TransportHeader::Tcp(h) ==> h.wf(),
        !(t is Icmpv6),
    ensures
        transport_accepts(kind_for(t), transport_wire(t) + payload),
        transport_decoded(kind_for(t), transport_wire(t) + payload, t2, payload2) ==> (t2 matches Some(x)
            && transport_same(x, t) && payload2 == payload),
{
    match t {
        TransportHeader::Tcp(h) => lemma_tcp_reads_back(h, payload, t2, payload2),
        TransportHeader::Udp(h) => lemma_udp_reads_back(h, payload, t2, payload2),
        TransportHeader::Icmpv6(_) => {},
    }
}

/// The transport decoder for a TCP or UDP header.
pub open spec fn kind_for(t: TransportHeader) -> TransportKind {
    match t {
        TransportHeader::Tcp(_) => TransportKind::Tcp,
        TransportHeader::Udp(_) => TransportKind::Udp,
        TransportHeader::Icmpv6(_) => TransportKind::Icmpv6,
    }
}

/// The network and transport stages read back an IP header, a TCP or UDP
/// header announced by it, and the payload.
proof fn lemma_network_reads_back(
    n: NetworkHeader,
    t: TransportHeader,
    payload: Seq<u8>,
    n2: Option<NetworkHeader>,
    t2: Option<TransportHeader>,
    payload2: Seq<u8>,
)
    requires
        n matches NetworkHeader::Ipv4(h) ==> h.wf(),
        n matches NetworkHeader::Ipv6(h) ==> h.wf(),
        t matches TransportHeader::Tcp(h) ==> h.wf(),
        !(t is Icmpv6),
        protocol_of(n) == protocol_number(t),
    ensures
        network_accepts(spec_kind_of_ether_type(ether_type_of(n)), network_wire(n) + (transport_wire(t) + payload)),
        network_decoded(
            spec_kind_of_ether_type(ether_type_of(n)),
            network_wire(n) + (transport_wire(t) + payload),
            n2,
            t2,
            payload2,
        ) ==> ((n2 matches Some(x) && network_same(x, n)) && (t2 matches Some(y) && transport_same(y, t))
            && payload2 == payload),
{
    let after = transport_wire(t) + payload;
    let b = network_wire(n) + after;
    lemma_transport_reads_back(t, payload, t2, payload2);
    match n {
        NetworkHeader::Ipv4(h) => {
            lemma_ipv4_accepts_prefix(h, after);
            assert(rest(b, h.spec_header_len()) =~= after);
            assert(spec_kind_of_protocol(false, h.protocol) == kind_for(t));
            if network_decoded(spec_kind_of_ether_type(ether_type_of(n)), b, n2, t2, payload2) {
                let d = n2.unwrap()->Ipv4_0;
                lemma_ipv4_decodes_prefix(h, after, d);
                assert(d.options@.len() == h.options@.len());
            }
        },
        NetworkHeader::Ipv6(h) => {
            lemma_ipv6_accepts_prefix(h, after);
            assert(rest(b, 40) =~= after);
            assert(spec_kind_of_protocol(true, h.next_header) == kind_for(t));
            if network_decoded(spec_kind_of_ether_type(ether_type_of(n)), b, n2, t2, payload2) {
                lemma_ipv6_decodes_prefix(h, after, n2.unwrap()->Ipv6_0);
            }
        },
    }
}

/// A packet built from an Ethernet II header, an IP header and a TCP or UDP
/// header, each announcing the next, decodes to those headers (with the
/// length fields the builder filled in) and to the payload.
pub proof fn lemma_build_then_parse(
    e: Ethernet2Header,
    n: NetworkHeader,
    t: TransportHeader,
    payload: Seq<u8>,
    p: ParsedPacket,
)
    requires
        headers_wf(Some(n), Some(t)),
        stack_valid(Some(n), Some(t)),
        lengths_fit(n, t, payload.len() as int),
        e.ether_type == ether_type_of(n),
        protocol_of(n) == protocol_number(t),
        packet_decoded(built_packet(Some(e), n, t, payload), p),
    ensures
        ethernet_path_accepts(built_packet(Some(e), n, t, payload)),
        p.link == Some(e),
        p.network matches Some(pn) && network_same(pn, patched_network(n, transport_len(t) + payload.len())),
        p.transport matches Some(pt) && transport_same(pt, patched_transport(t, payload.len() as int)),
        p.payload@ == payload,
{
    let pn = patched_network(n, transport_len(t) + payload.len());
    let pt = patched_transport(t, payload.len() as int);
    let after_link = network_wire(pn) + (transport_wire(pt) + payload);
    let b = built_packet(Some(e), n, t, payload);
    assert(b =~= e.wire() + after_link);
    lemma_ethernet_wire_decodes(e);
    assert(b[12] == e.wire()[12] && b[13] == e.wire()[13]);
    assert(rest(b, 14) =~= after_link);
    assert(ether_type_of(pn) == ether_type_of(n));
    lemma_network_reads_back(pn, pt, payload, p.network, p.transport, p.payload@);
    lemma_ethernet_decodes_prefix(e, after_link, p.link.unwrap());
}

} // verus!
