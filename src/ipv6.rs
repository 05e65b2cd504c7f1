//! IPv6 base header; 40 bytes on the wire.

use vstd::prelude::*;
use crate::wire::{be16, be16_bytes, lemma_be16_round_trip};
use crate::error::{DecodeError, Layer};

verus! {

/// Size of the IPv6 base header on the wire.
pub const IPV6_HEADER_LEN: usize = 40;

/// Largest value of the 20-bit flow label.
pub const FLOW_LABEL_MAX: u32 = 0xFFFFF;

/// An IPv6 base header. Extension headers are not decoded.
#[derive(Clone, Copy, Debug, PartialEq, Eq)]
pub struct Ipv6Header {
    pub traffic_class: u8,
    /// Only the low 20 bits are used.
    pub flow_label: u32,
    pub payload_length: u16,
    pub next_header: u8,
    pub hop_limit: u8,
    pub source: [u8; 16],
    pub destination: [u8; 16],
}

impl Ipv6Header {
    /// The flow label fits its 20 bits.
    pub open spec fn wf(self) -> bool {
        self.flow_label <= FLOW_LABEL_MAX
    }

    /// Wire form: version 6 and traffic class, flow label, payload length,
    /// next header, hop limit, source, destination.
    pub open spec fn wire(self) -> Seq<u8> {
        seq![
            (0x60 + self.traffic_class / 16) as u8,
            ((self.traffic_class % 16) * 16 + self.flow_label / 0x1_0000) as u8,
            (self.flow_label / 0x100 % 0x100) as u8,
            (self.flow_label % 0x100) as u8,
        ] + be16_bytes(self.payload_length) + seq![self.next_header, self.hop_limit]
            + self.source@ + self.destination@
    }

    /// `b` starts with an IPv6 base header: 40 bytes and version 6.
    pub open spec fn accepts(b: Seq<u8>) -> bool {
        b.len() >= 40 && b[0] / 16 == 6
    }

    /// The error that decoding `b` gives, when it fails.
    pub open spec fn decode_error(b: Seq<u8>) -> DecodeError {
        if b.len() < 40 {
            DecodeError::Truncated { layer: Layer::Network, needed: 40, available: b.len() as usize }
        } else {
            DecodeError::UnexpectedVersion { layer: Layer::Network, version: b[0] / 16 }
        }
    }

    /// `self` holds the fields that the first 40 bytes of `b` encode.
    pub open spec fn decoded_from(self, b: Seq<u8>) -> bool {
        &&& b.len() >= 40
        &&& self.traffic_class == (b[0] % 16) * 16 + b[1] / 16
        &&& self.flow_label == (b[1] % 16) as int * 0x1_0000 + b[2] as int * 0x100 + b[3] as int
        &&& self.payload_length == be16(b[4], b[5])
        &&& self.next_header == b[6]
        &&& self.hop_limit == b[7]
        &&& self.source@ == b.subrange(8, 24)
        &&& self.destination@ == b.subrange(24, 40)
    }

    /// A header with the given addresses, hop limit, next header and flow
    /// label masked to its low 20 bits; traffic class and payload length 0.
    pub fn new(
        source: [u8; 16],
        destination: [u8; 16],
        hop_limit: u8,
        next_header: u8,
        flow_label: u32,
    ) -> (r: Self)
        ensures
            r.wf(),
            r.source == source,
            r.destination == destination,
            r.hop_limit == hop_limit,
            r.next_header == next_header,
            r.flow_label == flow_label % 0x10_0000,
            r.traffic_class == 0,
            r.payload_length == 0,
    {
        let masked = flow_label & 0xFFFFF;
        assert(flow_label & 0xFFFFF == flow_label % 0x10_0000) by (bit_vector);
        Ipv6Header {
            traffic_class: 0,
            flow_label: masked,
            payload_length: 0,
            next_header,
            hop_limit,
            source,
            destination,
        }
    }

    pub fn source(&self) -> (r: [u8; 16])
        ensures
            r == self.source,
    {
        self.source
    }

    pub fn destination(&self) -> (r: [u8; 16])
        ensures
            r == self.destination,
    {
        self.destination
    }

    pub fn hop_limit(&self) -> (r: u8)
        ensures
            r == self.hop_limit,
    {
        self.hop_limit
    }

    pub fn next_header(&self) -> (r: u8)
        ensures
            r == self.next_header,
    {
        self.next_header
    }

    pub fn traffic_class(&self) -> (r: u8)
        ensures
            r == self.traffic_class,
    {
        self.traffic_class
    }

    pub fn flow_label(&self) -> (r: u32)
        ensures
            r == self.flow_label,
    {
        self.flow_label
    }

    pub fn payload_length(&self) -> (r: u16)
        ensures
            r == self.payload_length,
    {
        self.payload_length
    }

    /// Length of the base header on the wire.
    pub fn header_length(&self) -> (r: u8)
        ensures
            r == 40,
            r == self.wire().len(),
    {
        40
    }

    /// Serializes the header.
    pub fn to_bytes(&self) -> (r: Vec<u8>)
        requires
            self.wf(),
        ensures
            r@ == self.wire(),
    {
        ipv6_write(self)
    }

    /// Decodes a base header from the start of `b`; returns it with the
    /// number of bytes it occupies.
    pub fn decode(b: &[u8]) -> (r: Result<(Self, usize), DecodeError>)
        ensures
            Self::accepts(b@) <==> r.is_ok(),
            r matches Ok((h, n)) ==> n == 40 && h.wf() && h.decoded_from(b@),
            r matches Err(e) ==> e == Self::decode_error(b@),
    {
        if b.len() < IPV6_HEADER_LEN {
            return Err(DecodeError::Truncated {
                layer: Layer::Network,
                needed: IPV6_HEADER_LEN,
                available: b.len(),
            });
        }
        let version = b[0] / 16;
        if version != 6 {
            return Err(DecodeError::UnexpectedVersion { layer: Layer::Network, version });
        }
        match ipv6_from_slice(b) {
            Some(h) => Ok((h, IPV6_HEADER_LEN)),
            None => Err(DecodeError::UnexpectedVersion { layer: Layer::Network, version }),
        }
    }
}

/// Encoding then decoding a well-formed IPv6 header gives it back; the
/// encoding is 40 bytes and is accepted by the decoder.
pub proof fn lemma_ipv6_round_trip(h: Ipv6Header, d: Ipv6Header)
    requires
        h.wf(),
        d.decoded_from(h.wire()),
    ensures
        h.wire().len() == 40,
        Ipv6Header::accepts(h.wire()),
        d == h,
{
    lemma_be16_round_trip(h.payload_length);
    let w = h.wire();
    assert(w.subrange(8, 24) =~= h.source@);
    assert(w.subrange(24, 40) =~= h.destination@);
    assert(d.source =~= h.source);
    assert(d.destination =~= h.destination);
}

/// The encoding of every well-formed header is accepted by the decoder.
pub proof fn lemma_ipv6_wire_decodes(h: Ipv6Header)
    requires
        h.wf(),
    ensures
        h.decoded_from(h.wire()),
{
    lemma_be16_round_trip(h.payload_length);
    let w = h.wire();
    assert(w.subrange(8, 24) =~= h.source@);
    assert(w.subrange(24, 40) =~= h.destination@);
}

/// Bytes that follow an encoded header do not change what it decodes to,
/// and the decoder accepts the whole.
pub proof fn lemma_ipv6_decodes_prefix(h: Ipv6Header, rest: Seq<u8>, d: Ipv6Header)
    requires
        h.wf(),
        d.decoded_from(h.wire() + rest),
    ensures
        Ipv6Header::accepts(h.wire() + rest),
        d == h,
{
    let w = h.wire();
    let b = w + rest;
    lemma_ipv6_wire_decodes(h);
    assert(forall|i: int| 0 <= i < 40 ==> b[i] == w[i]);
    assert(b.subrange(8, 24) =~= w.subrange(8, 24));
    assert(b.subrange(24, 40) =~= w.subrange(24, 40));
    lemma_ipv6_round_trip(h, d);
}

/// The decoder accepts an encoded header followed by any bytes.
pub proof fn lemma_ipv6_accepts_prefix(h: Ipv6Header, rest: Seq<u8>)
    requires
        h.wf(),
    ensures
        Ipv6Header::accepts(h.wire() + rest),
        (h.wire() + rest)[6] == h.next_header,
{
    let w = h.wire();
    lemma_ipv6_wire_decodes(h);
    assert((w + rest)[0] == w[0]);
}

/// Relies on etherparse's `Ipv6Header::write`, which fails only on a flow
/// label above 20 bits and writes the 40 bytes of the base header.
#[verifier::external_body]
fn ipv6_write(h: &Ipv6Header) -> (r: Vec<u8>)
    requires
        h.wf(),
    ensures
        r@ == h.wire(),
{
    let e = etherparse::Ipv6Header {
        traffic_class: h.traffic_class,
        flow_label: h.flow_label,
        payload_length: h.payload_length,
        next_header: h.next_header,
        hop_limit: h.hop_limit,
        source: h.source,
        destination: h.destination,
    };
    let mut v = Vec::new();
    e.write(&mut v).unwrap();
    v
}

/// Relies on etherparse's `Ipv6Header::from_slice`: it fails only on a slice
/// shorter than 40 bytes or a version other than 6.
#[verifier::external_body]
fn ipv6_from_slice(b: &[u8]) -> (r: Option<Ipv6Header>)
    ensures
        r.is_some() <==> Ipv6Header::accepts(b@),
        r matches Some(h) ==> h.decoded_from(b@),
{
    match etherparse::Ipv6Header::from_slice(b) {
        Ok((h, _)) => Some(Ipv6Header {
            traffic_class: h.traffic_class,
            flow_label: h.flow_label,
            payload_length: h.payload_length,
            next_header: h.next_header,
            hop_limit: h.hop_limit,
            source: h.source,
            destination: h.destination,
        }),
        Err(_) => None,
    }
}

} // verus!
