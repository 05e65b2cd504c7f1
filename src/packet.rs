//! The parsed-packet model and the layered decoder.

use vstd::prelude::*;
use crate::wire::{be16, lemma_be16_round_trip};
use crate::error::{DecodeError, Layer};
use crate::ethernet::{
    Ethernet2Header, ETHER_TYPE_IPV4, ETHER_TYPE_IPV6, lemma_ethernet_wire_decodes, lemma_ethernet_round_trip,
};
use crate::ipv4::{Ipv4Header, lemma_ipv4_truncation, lemma_ipv4_wire_decodes, lemma_ipv4_round_trip};
use crate::ipv6::{Ipv6Header, lemma_ipv6_wire_decodes, lemma_ipv6_round_trip};
use crate::tcp::{TcpHeader, lemma_tcp_truncation, lemma_tcp_wire_decodes, lemma_tcp_round_trip};
use crate::udp::{UdpHeader, lemma_udp_wire_decodes, lemma_udp_round_trip};
use crate::icmpv6::{Icmpv6Header, lemma_icmpv6_wire_decodes, lemma_icmpv6_round_trip};

verus! {

/// IP protocol number of TCP.
pub const IP_NUMBER_TCP: u8 = 6;

/// IP protocol number of UDP.
pub const IP_NUMBER_UDP: u8 = 17;

/// IP protocol number of ICMPv6.
pub const IP_NUMBER_ICMPV6: u8 = 58;

/// The network-layer header of a packet.
#[derive(Clone, Debug, PartialEq, Eq)]
pub enum NetworkHeader {
    Ipv4(Ipv4Header),
    Ipv6(Ipv6Header),
}

/// The transport-layer header of a packet.
#[derive(Clone, Debug, PartialEq, Eq)]
pub enum TransportHeader {
    Tcp(TcpHeader),
    Udp(UdpHeader),
    Icmpv6(Icmpv6Header),
}

/// Which network decoder a type code selects.
#[derive(Clone, Copy, Debug, PartialEq, Eq, Structural)]
pub enum NetworkKind {
    Ipv4,
    Ipv6,
    /// A code that names no modelled network protocol.
    Unrecognized(u16),
}

/// Which transport decoder a protocol number selects.
#[derive(Clone, Copy, Debug, PartialEq, Eq, Structural)]
pub enum TransportKind {
    Tcp,
    Udp,
    Icmpv6,
    /// A number that names no modelled transport protocol.
    Unrecognized(u8),
}

/// The network decoder that an EtherType selects.
pub open spec fn spec_kind_of_ether_type(t: u16) -> NetworkKind {
    if t == ETHER_TYPE_IPV4 {
        NetworkKind::Ipv4
    } else if t == ETHER_TYPE_IPV6 {
        NetworkKind::Ipv6
    } else {
        NetworkKind::Unrecognized(t)
    }
}

/// The network decoder that an IP version nibble selects.
pub open spec fn spec_kind_of_version(v: u8) -> NetworkKind {
    if v == 4 {
        NetworkKind::Ipv4
    } else if v == 6 {
        NetworkKind::Ipv6
    } else {
        NetworkKind::Unrecognized(v as u16)
    }
}

/// The transport decoder that a protocol number selects: TCP and UDP after
/// either IP version, ICMPv6 after IPv6 only.
pub open spec fn spec_kind_of_protocol(ipv6: bool, p: u8) -> TransportKind {
    if p == IP_NUMBER_TCP {
        TransportKind::Tcp
    } else if p == IP_NUMBER_UDP {
        TransportKind::Udp
    } else if ipv6 && p == IP_NUMBER_ICMPV6 {
        TransportKind::Icmpv6
    } else {
        TransportKind::Unrecognized(p)
    }
}

pub fn kind_of_ether_type(t: u16) -> (r: NetworkKind)
    ensures
        r == spec_kind_of_ether_type(t),
{
    if t == ETHER_TYPE_IPV4 {
        NetworkKind::Ipv4
    } else if t == ETHER_TYPE_IPV6 {
        NetworkKind::Ipv6
    } else {
        NetworkKind::Unrecognized(t)
    }
}

pub fn kind_of_version(v: u8) -> (r: NetworkKind)
    ensures
        r == spec_kind_of_version(v),
{
    if v == 4 {
        NetworkKind::Ipv4
    } else if v == 6 {
        NetworkKind::Ipv6
    } else {
        NetworkKind::Unrecognized(v as u16)
    }
}

pub fn kind_of_protocol(ipv6: bool, p: u8) -> (r: TransportKind)
    ensures
        r == spec_kind_of_protocol(ipv6, p),
{
    if p == IP_NUMBER_TCP {
        TransportKind::Tcp
    } else if p == IP_NUMBER_UDP {
        TransportKind::Udp
    } else if ipv6 && p == IP_NUMBER_ICMPV6 {
        TransportKind::Icmpv6
    } else {
        TransportKind::Unrecognized(p)
    }
}

/// The bytes of `b` from `i` on.
pub open spec fn rest(b: Seq<u8>, i: int) -> Seq<u8> {
    b.subrange(i, b.len() as int)
}

/// The transport stage succeeds on `b`: it fails only on a header cut short.
/// A TCP header whose data offset is below five words is malformed, not cut
/// short; the stage then reads no header.
pub open spec fn transport_accepts(k: TransportKind, b: Seq<u8>) -> bool {
    match k {
        TransportKind::Tcp => TcpHeader::accepts(b) || !(TcpHeader::decode_error(b) is Truncated),
        TransportKind::Udp => b.len() >= 8,
        TransportKind::Icmpv6 => b.len() >= 8,
        TransportKind::Unrecognized(_) => true,
    }
}

/// The error of the transport stage on `b`, when it fails.
pub open spec fn transport_error(k: TransportKind, b: Seq<u8>) -> DecodeError {
    match k {
        TransportKind::Tcp => TcpHeader::decode_error(b),
        _ => DecodeError::Truncated { layer: Layer::Transport, needed: 8, available: b.len() as usize },
    }
}

/// `t` and `payload` are what the transport stage reads from `b`: the header
/// that `k` selects and the bytes after it; or, for an unrecognized kind or a
/// malformed header, no header and all of `b`.
pub open spec fn transport_decoded(
    k: TransportKind,
    b: Seq<u8>,
    t: Option<TransportHeader>,
    payload: Seq<u8>,
) -> bool {
    match k {
        TransportKind::Tcp => if TcpHeader::accepts(b) {
            t matches Some(TransportHeader::Tcp(h)) && h.wf() && h.decoded_from(b)
                && payload == rest(b, h.spec_header_len())
        } else {
            t is None && payload == b
        },
        TransportKind::Udp => t matches Some(TransportHeader::Udp(h)) && h.decoded_from(b)
            && payload == rest(b, 8),
        TransportKind::Icmpv6 => t matches Some(TransportHeader::Icmpv6(h)) && h.wf()
            && h.decoded_from(b) && payload == rest(b, 8),
        TransportKind::Unrecognized(_) => t is None && payload == b,
    }
}

/// The network stage, and the transport stage after it, succeed on `b`: they
/// fail only on a header cut short. An IP header with another version, a
/// length field below five words or a total length below its own length is
/// malformed, not cut short; the stage then reads no header.
pub open spec fn network_accepts(k: NetworkKind, b: Seq<u8>) -> bool {
    match k {
        NetworkKind::Ipv4 => if Ipv4Header::accepts(b) {
            transport_accepts(spec_kind_of_protocol(false, b[9]), rest(b, Ipv4Header::announced_len(b)))
        } else {
            !(Ipv4Header::decode_error(b) is Truncated)
        },
        NetworkKind::Ipv6 => if Ipv6Header::accepts(b) {
            transport_accepts(spec_kind_of_protocol(true, b[6]), rest(b, 40))
        } else {
            !(Ipv6Header::decode_error(b) is Truncated)
        },
        NetworkKind::Unrecognized(_) => true,
    }
}

/// The error of the network stage (or of the transport stage after it) on
/// `b`, when it fails. Only a recognized kind can fail.
pub open spec fn network_error(k: NetworkKind, b: Seq<u8>) -> DecodeError
    recommends
        !(k is Unrecognized),
{
    match k {
        NetworkKind::Ipv4 => if !Ipv4Header::accepts(b) {
            Ipv4Header::decode_error(b)
        } else {
            transport_error(spec_kind_of_protocol(false, b[9]), rest(b, Ipv4Header::announced_len(b)))
        },
        _ => if !Ipv6Header::accepts(b) {
            Ipv6Header::decode_error(b)
        } else {
            transport_error(spec_kind_of_protocol(true, b[6]), rest(b, 40))
        },
    }
}

/// `n`, `t` and `payload` are what the network and transport stages read from
/// `b`: the header that `k` selects, then the transport stage on the bytes
/// after it; or, for an unrecognized kind or a malformed header, no header and
/// all of `b`.
pub open spec fn network_decoded(
    k: NetworkKind,
    b: Seq<u8>,
    n: Option<NetworkHeader>,
    t: Option<TransportHeader>,
    payload: Seq<u8>,
) -> bool {
    match k {
        NetworkKind::Ipv4 => if Ipv4Header::accepts(b) {
            n matches Some(NetworkHeader::Ipv4(h)) && h.wf() && h.decoded_from(b) && transport_decoded(
                spec_kind_of_protocol(false, h.protocol),
                rest(b, h.spec_header_len()),
                t,
                payload,
            )
        } else {
            n is None && t is None && payload == b
        },
        NetworkKind::Ipv6 => if Ipv6Header::accepts(b) {
            n matches Some(NetworkHeader::Ipv6(h)) && h.wf() && h.decoded_from(b) && transport_decoded(
                spec_kind_of_protocol(true, h.next_header),
                rest(b, 40),
                t,
                payload,
            )
        } else {
            n is None && t is None && payload == b
        },
        NetworkKind::Unrecognized(_) => n is None && t is None && payload == b,
    }
}

/// Decoding from an Ethernet II header down succeeds on `b`.
pub open spec fn ethernet_path_accepts(b: Seq<u8>) -> bool {
    b.len() >= 14 && network_accepts(spec_kind_of_ether_type(be16(b[12], b[13])), rest(b, 14))
}

/// Decoding from an IP header down, the version nibble choosing the decoder,
/// succeeds on `b`.
pub open spec fn ip_path_accepts(b: Seq<u8>) -> bool {
    b.len() > 0 && network_accepts(spec_kind_of_version(b[0] / 16), b)
}

/// The error of decoding from an IP header down.
pub open spec fn ip_path_error(b: Seq<u8>) -> DecodeError {
    if b.len() == 0 {
        DecodeError::Truncated { layer: Layer::Network, needed: 1, available: 0 }
    } else {
        network_error(spec_kind_of_version(b[0] / 16), b)
    }
}

/// `p` is what the layered decoder reads from `b`: from an Ethernet II header
/// down where that succeeds, else from an IP header down with no link header.
pub open spec fn packet_decoded(b: Seq<u8>, p: ParsedPacket) -> bool {
    if ethernet_path_accepts(b) {
        p.link matches Some(e) && e.decoded_from(b) && network_decoded(
            spec_kind_of_ether_type(e.ether_type),
            rest(b, 14),
            p.network,
            p.transport,
            p.payload@,
        )
    } else {
        p.link is None && network_decoded(
            spec_kind_of_version(b[0] / 16),
            b,
            p.network,
            p.transport,
            p.payload@,
        )
    }
}

/// A decoded packet: at most one header per layer, and the bytes after the
/// last decoded header.
#[derive(Clone, Debug, PartialEq, Eq)]
pub struct ParsedPacket {
    pub link: Option<Ethernet2Header>,
    pub network: Option<NetworkHeader>,
    pub transport: Option<TransportHeader>,
    pub payload: Vec<u8>,
}

impl ParsedPacket {
    /// A packet with no header and an empty payload.
    pub fn new() -> (r: Self)
        ensures
            r.link is None,
            r.network is None,
            r.transport is None,
            r.payload@.len() == 0,
    {
        ParsedPacket { link: None, network: None, transport: None, payload: Vec::new() }
    }

    pub fn has_ipv4(&self) -> (r: bool)
        ensures
            r == self.network matches Some(NetworkHeader::Ipv4(_)),
    {
        matches!(self.network, Some(NetworkHeader::Ipv4(_)))
    }

    pub fn has_ipv6(&self) -> (r: bool)
        ensures
            r == self.network matches Some(NetworkHeader::Ipv6(_)),
    {
        matches!(self.network, Some(NetworkHeader::Ipv6(_)))
    }

    pub fn has_tcp(&self) -> (r: bool)
        ensures
            r == self.transport matches Some(TransportHeader::Tcp(_)),
    {
        matches!(self.transport, Some(TransportHeader::Tcp(_)))
    }

    pub fn has_udp(&self) -> (r: bool)
        ensures
            r == self.transport matches Some(TransportHeader::Udp(_)),
    {
        matches!(self.transport, Some(TransportHeader::Udp(_)))
    }

    pub fn has_icmpv6(&self) -> (r: bool)
        ensures
            r == self.transport matches Some(TransportHeader::Icmpv6(_)),
    {
        matches!(self.transport, Some(TransportHeader::Icmpv6(_)))
    }

    /// 4 or 6 by the network header, 0 without one.
    pub fn ip_version(&self) -> (r: u8)
        ensures
            r == match self.network {
                Some(NetworkHeader::Ipv4(_)) => 4u8,
                Some(NetworkHeader::Ipv6(_)) => 6u8,
                None => 0u8,
            },
    {
        match &self.network {
            Some(NetworkHeader::Ipv4(_)) => 4,
            Some(NetworkHeader::Ipv6(_)) => 6,
            None => 0,
        }
    }

    pub fn payload_length(&self) -> (r: usize)
        ensures
            r == self.payload@.len(),
    {
        self.payload.len()
    }

    pub fn get_payload(&self) -> (r: &[u8])
        ensures
            r@ == self.payload@,
    {
        self.payload.as_slice()
    }

    pub fn set_payload(&mut self, data: Vec<u8>)
        ensures
            final(self).payload@ == data@,
            final(self).link == old(self).link,
            final(self).network == old(self).network,
            final(self).transport == old(self).transport,
    {
        self.payload = data;
    }
}

/// The transport stage: the header that `k` selects, then the rest as payload.
fn decode_transport(k: TransportKind, b: &[u8]) -> (r: Result<(Option<TransportHeader>, Vec<u8>), DecodeError>)
    ensures
        transport_accepts(k, b@) <==> r.is_ok(),
        r matches Ok((t, p)) ==> transport_decoded(k, b@, t, p@),
        r matches Err(e) ==> e == transport_error(k, b@),
{
    match k {
        TransportKind::Tcp => match TcpHeader::decode(b) {
            Ok((h, n)) => {
                let p = vstd::slice::slice_to_vec(vstd::slice::slice_subrange(b, n, b.len()));
                Ok((Some(TransportHeader::Tcp(h)), p))
            },
            Err(e) => if matches!(e, DecodeError::Truncated { .. }) {
                Err(e)
            } else {
                proof {
                    assert(b@ =~= b@.subrange(0, b@.len() as int));
                }
                Ok((None, vstd::slice::slice_to_vec(b)))
            },
        },
        TransportKind::Udp => {
            let (h, n) = UdpHeader::decode(b)?;
            let p = vstd::slice::slice_to_vec(vstd::slice::slice_subrange(b, n, b.len()));
            Ok((Some(TransportHeader::Udp(h)), p))
        },
        TransportKind::Icmpv6 => {
            let (h, n) = Icmpv6Header::decode(b)?;
            let p = vstd::slice::slice_to_vec(vstd::slice::slice_subrange(b, n, b.len()));
            Ok((Some(TransportHeader::Icmpv6(h)), p))
        },
        TransportKind::Unrecognized(_) => {
            proof {
                assert(b@ =~= b@.subrange(0, b@.len() as int));
            }
            Ok((None, vstd::slice::slice_to_vec(b)))
        },
    }
}

/// A network header that cannot be read fails the stage when it is cut
/// short, and otherwise leaves no header and all of `b` as payload.
fn malformed_or_cut(e: DecodeError, b: &[u8]) -> (r: Result<
    (Option<NetworkHeader>, Option<TransportHeader>, Vec<u8>),
    DecodeError,
>)
    ensures
        e is Truncated ==> r == Err::<(Option<NetworkHeader>, Option<TransportHeader>, Vec<u8>), DecodeError>(e),
        !(e is Truncated) ==> (r matches Ok((n, t, p)) && n is None && t is None && p@ == b@),
{
    if matches!(e, DecodeError::Truncated { .. }) {
        Err(e)
    } else {
        proof {
            assert(b@ =~= b@.subrange(0, b@.len() as int));
        }
        Ok((None, None, vstd::slice::slice_to_vec(b)))
    }
}

/// The network stage: the header that `k` selects, then the transport stage
/// on the bytes after it.
fn decode_network(k: NetworkKind, b: &[u8]) -> (r: Result<
    (Option<NetworkHeader>, Option<TransportHeader>, Vec<u8>),
    DecodeError,
>)
    ensures
        network_accepts(k, b@) <==> r.is_ok(),
        r matches Ok((n, t, p)) ==> network_decoded(k, b@, n, t, p@),
        r matches Err(e) ==> e == network_error(k, b@),
{
    match k {
        NetworkKind::Ipv4 => {
            let (h, n) = match Ipv4Header::decode(b) {
                Ok(v) => v,
                Err(e) => return malformed_or_cut(e, b),
            };
            let tk = kind_of_protocol(false, h.protocol);
            let (t, p) = decode_transport(tk, vstd::slice::slice_subrange(b, n, b.len()))?;
            Ok((Some(NetworkHeader::Ipv4(h)), t, p))
        },
        NetworkKind::Ipv6 => {
            let (h, n) = match Ipv6Header::decode(b) {
                Ok(v) => v,
                Err(e) => return malformed_or_cut(e, b),
            };
            let tk = kind_of_protocol(true, h.next_header);
            let (t, p) = decode_transport(tk, vstd::slice::slice_subrange(b, n, b.len()))?;
            Ok((Some(NetworkHeader::Ipv6(h)), t, p))
        },
        NetworkKind::Unrecognized(_) => {
            proof {
                assert(b@ =~= b@.subrange(0, b@.len() as int));
            }
            Ok((None, None, vstd::slice::slice_to_vec(b)))
        },
    }
}

/// Decodes from an Ethernet II header down.
fn decode_from_ethernet(b: &[u8]) -> (r: Option<ParsedPacket>)
    ensures
        ethernet_path_accepts(b@) <==> r.is_some(),
        r matches Some(p) ==> packet_decoded(b@, p),
{
    let (e, n) = match Ethernet2Header::decode(b) {
        Ok(v) => v,
        Err(_) => return None,
    };
    let k = kind_of_ether_type(e.ether_type);
    match decode_network(k, vstd::slice::slice_subrange(b, n, b.len())) {
        Ok((network, transport, payload)) => Some(ParsedPacket { link: Some(e), network, transport, payload }),
        Err(_) => None,
    }
}

/// Decodes from an IP header down, the version nibble choosing the decoder.
fn decode_from_ip(b: &[u8]) -> (r: Result<ParsedPacket, DecodeError>)
    ensures
        ip_path_accepts(b@) <==> r.is_ok(),
        r matches Ok(p) ==> p.link is None && network_decoded(
            spec_kind_of_version(b@[0] / 16),
            b@,
            p.network,
            p.transport,
            p.payload@,
        ),
        r matches Err(e) ==> e == ip_path_error(b@),
{
    if b.len() == 0 {
        return Err(DecodeError::Truncated { layer: Layer::Network, needed: 1, available: 0 });
    }
    let k = kind_of_version(b[0] / 16);
    let (network, transport, payload) = decode_network(k, b)?;
    Ok(ParsedPacket { link: None, network, transport, payload })
}

/// Decodes a packet: from an Ethernet II header down, and where that fails,
/// again from the start as a bare IP packet. An unrecognized EtherType,
/// version or protocol number, or a malformed length field, ends the decoding
/// with the remaining bytes as payload; only a header cut short fails its
/// path, and every error returned is `Truncated`.
pub fn parse_packet(data: &[u8]) -> (r: Result<ParsedPacket, DecodeError>)
    ensures
        r.is_ok() <==> ethernet_path_accepts(data@) || ip_path_accepts(data@),
        r matches Ok(p) ==> packet_decoded(data@, p),
        r matches Err(e) ==> e == ip_path_error(data@) && e is Truncated,
{
    match decode_from_ethernet(data) {
        Some(p) => Ok(p),
        None => decode_from_ip(data),
    }
}

/// A buffer with an Ethernet II header whose EtherType is neither IPv4 nor
/// IPv6 decodes to that link header, no network or transport header, and the
/// bytes after the link header as payload.
pub proof fn lemma_unrecognized_ether_type(b: Seq<u8>, p: ParsedPacket)
    requires
        b.len() >= 14,
        be16(b[12], b[13]) != ETHER_TYPE_IPV4,
        be16(b[12], b[13]) != ETHER_TYPE_IPV6,
        packet_decoded(b, p),
    ensures
        ethernet_path_accepts(b),
        p.link matches Some(e) && e.decoded_from(b),
        p.network is None,
        p.transport is None,
        p.payload@ == rest(b, 14),
{
}

/// A buffer on which decoding from an Ethernet II header fails, and which is
/// a complete bare IPv4 packet (whole header, and whole TCP or UDP header where
/// its protocol number announces one), decodes to no link header and the IPv4
/// header at its start.
pub proof fn lemma_bare_ipv4_fallback(b: Seq<u8>, p: ParsedPacket)
    requires
        !ethernet_path_accepts(b),
        Ipv4Header::accepts(b),
        transport_accepts(spec_kind_of_protocol(false, b[9]), rest(b, Ipv4Header::announced_len(b))),
    ensures
        ip_path_accepts(b),
        packet_decoded(b, p) ==> p.link is None,
        packet_decoded(b, p) ==> (p.network matches Some(NetworkHeader::Ipv4(h)) && h.decoded_from(b)),
{
}

/// Each stage at its minimum length: an Ethernet II header alone, with an
/// EtherType that names no modelled protocol, decodes to that header and an
/// empty payload; one byte fewer and the Ethernet reading fails.
pub proof fn lemma_link_minimum(e: Ethernet2Header, p: ParsedPacket)
    requires
        spec_kind_of_ether_type(e.ether_type) is Unrecognized,
    ensures
        e.wire().len() == 14,
        ethernet_path_accepts(e.wire()),
        packet_decoded(e.wire(), p) ==> p.link == Some(e) && p.network is None && p.transport is None
            && p.payload@.len() == 0,
        !ethernet_path_accepts(e.wire().drop_last()),
{
    lemma_ethernet_wire_decodes(e);
    let w = e.wire();
    lemma_be16_round_trip(e.ether_type);
    assert(be16(w[12], w[13]) == e.ether_type);
    if packet_decoded(w, p) {
        lemma_ethernet_round_trip(e, p.link.unwrap());
    }
}

/// An IPv4 header of 20 bytes announcing no payload and no modelled protocol
/// decodes to itself and an empty payload; one byte fewer is cut short.
pub proof fn lemma_ipv4_stage_minimum(
    h: Ipv4Header,
    n: Option<NetworkHeader>,
    t: Option<TransportHeader>,
    payload: Seq<u8>,
)
    requires
        h.wf(),
        h.options@.len() == 0,
        h.payload_len == 0,
        spec_kind_of_protocol(false, h.protocol) is Unrecognized,
    ensures
        h.wire().len() == 20,
        network_accepts(NetworkKind::Ipv4, h.wire()),
        network_decoded(NetworkKind::Ipv4, h.wire(), n, t, payload) ==> (n matches Some(
            NetworkHeader::Ipv4(d),
        ) && d.same(&h)) && t is None && payload.len() == 0,
        !network_accepts(NetworkKind::Ipv4, h.wire().drop_last()),
        network_error(NetworkKind::Ipv4, h.wire().drop_last()) == (DecodeError::Truncated {
            layer: Layer::Network,
            needed: 20,
            available: 19,
        }),
{
    lemma_ipv4_truncation(h);
    lemma_ipv4_wire_decodes(h);
    if network_decoded(NetworkKind::Ipv4, h.wire(), n, t, payload) {
        lemma_ipv4_round_trip(h, n.unwrap()->Ipv4_0);
    }
}

/// An IPv6 header announcing no modelled protocol decodes to itself and an
/// empty payload; one byte fewer is cut short.
pub proof fn lemma_ipv6_stage_minimum(
    h: Ipv6Header,
    n: Option<NetworkHeader>,
    t: Option<TransportHeader>,
    payload: Seq<u8>,
)
    requires
        h.wf(),
        spec_kind_of_protocol(true, h.next_header) is Unrecognized,
    ensures
        h.wire().len() == 40,
        network_accepts(NetworkKind::Ipv6, h.wire()),
        network_decoded(NetworkKind::Ipv6, h.wire(), n, t, payload) ==> (n matches Some(
            NetworkHeader::Ipv6(d),
        ) && d == h) && t is None && payload.len() == 0,
        !network_accepts(NetworkKind::Ipv6, h.wire().drop_last()),
        network_error(NetworkKind::Ipv6, h.wire().drop_last()) == (DecodeError::Truncated {
            layer: Layer::Network,
            needed: 40,
            available: 39,
        }),
{
    lemma_ipv6_wire_decodes(h);
    lemma_ipv6_round_trip(h, h);
    if network_decoded(NetworkKind::Ipv6, h.wire(), n, t, payload) {
        lemma_ipv6_round_trip(h, n.unwrap()->Ipv6_0);
    }
}

/// A TCP header without options decodes to itself and an empty payload; one
/// byte fewer is cut short.
pub proof fn lemma_tcp_stage_minimum(h: TcpHeader, t: Option<TransportHeader>, payload: Seq<u8>)
    requires
        h.wf(),
        h.options@.len() == 0,
    ensures
        h.wire().len() == 20,
        transport_accepts(TransportKind::Tcp, h.wire()),
        transport_decoded(TransportKind::Tcp, h.wire(), t, payload) ==> (t matches Some(
            TransportHeader::Tcp(d),
        ) && d.same(&h)) && payload.len() == 0,
        !transport_accepts(TransportKind::Tcp, h.wire().drop_last()),
        transport_error(TransportKind::Tcp, h.wire().drop_last()) == (DecodeError::Truncated {
            layer: Layer::Transport,
            needed: 20,
            available: 19,
        }),
{
    lemma_tcp_truncation(h);
    lemma_tcp_wire_decodes(h);
    if transport_decoded(TransportKind::Tcp, h.wire(), t, payload) {
        lemma_tcp_round_trip(h, t.unwrap()->Tcp_0);
    }
}

/// A UDP header decodes to itself and the bytes after it; at 8 bytes the
/// payload is empty, and one byte fewer is cut short.
pub proof fn lemma_udp_stage_minimum(h: UdpHeader, t: Option<TransportHeader>, payload: Seq<u8>)
    ensures
        h.wire().len() == 8,
        transport_accepts(TransportKind::Udp, h.wire()),
        transport_decoded(TransportKind::Udp, h.wire(), t, payload) ==> t == Some(TransportHeader::Udp(h))
            && payload.len() == 0,
        !transport_accepts(TransportKind::Udp, h.wire().drop_last()),
        transport_error(TransportKind::Udp, h.wire().drop_last()) == (DecodeError::Truncated {
            layer: Layer::Transport,
            needed: 8,
            available: 7,
        }),
{
    lemma_udp_wire_decodes(h);
    if transport_decoded(TransportKind::Udp, h.wire(), t, payload) {
        lemma_udp_round_trip(h, t.unwrap()->Udp_0);
    }
}

/// An ICMPv6 header decodes to itself; at 8 bytes the payload is empty, and
/// one byte fewer is cut short.
pub proof fn lemma_icmpv6_stage_minimum(h: Icmpv6Header, t: Option<TransportHeader>, payload: Seq<u8>)
    requires
        h.wf(),
    ensures
        h.wire().len() == 8,
        transport_accepts(TransportKind::Icmpv6, h.wire()),
        transport_decoded(TransportKind::Icmpv6, h.wire(), t, payload) ==> t == Some(
            TransportHeader::Icmpv6(h),
        ) && payload.len() == 0,
        !transport_accepts(TransportKind::Icmpv6, h.wire().drop_last()),
        transport_error(TransportKind::Icmpv6, h.wire().drop_last()) == (DecodeError::Truncated {
            layer: Layer::Transport,
            needed: 8,
            available: 7,
        }),
{
    lemma_icmpv6_wire_decodes(h);
    if transport_decoded(TransportKind::Icmpv6, h.wire(), t, payload) {
        lemma_icmpv6_round_trip(h, t.unwrap()->Icmpv6_0);
    }
}

} // verus!
