//! UDP header: ports, length, checksum; 8 bytes on the wire.

use vstd::prelude::*;
use crate::wire::{be16, be16_bytes, lemma_be16_round_trip};
use crate::error::{DecodeError, Layer};

verus! {

/// Size of a UDP header on the wire.
pub const UDP_HEADER_LEN: usize = 8;

/// Largest payload whose length, with the header, fits the 16-bit length field.
pub const UDP_MAX_PAYLOAD_LEN: usize = 65527;

/// The checksum that etherparse computes for a UDP datagram carried over
/// IPv4: the one's-complement sum over the pseudo-header (addresses, protocol
/// 17, length), the header and the payload.
pub uninterp spec fn udp_ipv4_checksum_of(
    source: Seq<u8>,
    destination: Seq<u8>,
    source_port: u16,
    destination_port: u16,
    length: u16,
    payload: Seq<u8>,
) -> u16;

/// A UDP header.
#[derive(Clone, Copy, Debug, PartialEq, Eq, Structural)]
pub struct UdpHeader {
    pub source_port: u16,
    pub destination_port: u16,
    /// Header plus payload, in bytes.
    pub length: u16,
    pub checksum: u16,
}

impl UdpHeader {
    /// Wire form: source port, destination port, length, checksum, each
    /// big-endian.
    pub open spec fn wire(self) -> Seq<u8> {
        be16_bytes(self.source_port) + be16_bytes(self.destination_port) + be16_bytes(self.length)
            + be16_bytes(self.checksum)
    }

    /// `self` holds the fields that the first 8 bytes of `b` encode.
    pub open spec fn decoded_from(self, b: Seq<u8>) -> bool {
        &&& b.len() >= 8
        &&& self.source_port == be16(b[0], b[1])
        &&& self.destination_port == be16(b[2], b[3])
        &&& self.length == be16(b[4], b[5])
        &&& self.checksum == be16(b[6], b[7])
    }

    /// Payload length that the length field announces (zero when it is below
    /// the header size).
    pub open spec fn spec_payload_length(self) -> u16 {
        if self.length > 8 { (self.length - 8) as u16 } else { 0 }
    }

    pub fn new(source_port: u16, destination_port: u16, length: u16, checksum: u16) -> (r: Self)
        ensures
            r == (UdpHeader { source_port, destination_port, length, checksum }),
    {
        UdpHeader { source_port, destination_port, length, checksum }
    }

    pub fn source_port(&self) -> (r: u16)
        ensures
            r == self.source_port,
    {
        self.source_port
    }

    pub fn destination_port(&self) -> (r: u16)
        ensures
            r == self.destination_port,
    {
        self.destination_port
    }

    pub fn length(&self) -> (r: u16)
        ensures
            r == self.length,
    {
        self.length
    }

    pub fn checksum(&self) -> (r: u16)
        ensures
            r == self.checksum,
    {
        self.checksum
    }

    pub fn set_length(&mut self, length: u16)
        ensures
            *final(self) == (UdpHeader { length, ..*old(self) }),
    {
        self.length = length;
    }

    pub fn set_checksum(&mut self, checksum: u16)
        ensures
            *final(self) == (UdpHeader { checksum, ..*old(self) }),
    {
        self.checksum = checksum;
    }

    /// Length of the header on the wire.
    pub fn header_length(&self) -> (r: u8)
        ensures
            r == 8,
            r == self.wire().len(),
    {
        8
    }

    /// Payload length announced by the length field.
    pub fn payload_length(&self) -> (r: u16)
        ensures
            r == self.spec_payload_length(),
    {
        if self.length > 8 {
            self.length - 8
        } else {
            0
        }
    }

    /// Serializes the header; the checksum is written as stored.
    pub fn to_bytes(&self) -> (r: Vec<u8>)
        ensures
            r@ == self.wire(),
    {
        let a = udp_to_bytes(self);
        vstd::slice::slice_to_vec(&a)
    }

    /// Decodes a header from the start of `b`; returns it with the number of
    /// bytes it occupies.
    pub fn decode(b: &[u8]) -> (r: Result<(Self, usize), DecodeError>)
        ensures
            b@.len() >= 8 <==> r.is_ok(),
            r matches Ok((h, n)) ==> n == 8 && h.decoded_from(b@),
            r matches Err(e) ==> e == (DecodeError::Truncated {
                layer: Layer::Transport,
                needed: 8,
                available: b@.len() as usize,
            }),
    {
        let trunc = DecodeError::Truncated {
            layer: Layer::Transport,
            needed: UDP_HEADER_LEN,
            available: b.len(),
        };
        if b.len() < UDP_HEADER_LEN {
            return Err(trunc);
        }
        match udp_from_slice(b) {
            Some(h) => Ok((h, UDP_HEADER_LEN)),
            None => Err(trunc),
        }
    }

    /// Sets the length to cover the header and `payload`, then the checksum
    /// over the IPv4 pseudo-header, the header and `payload`.
    pub fn calc_checksum_ipv4(&mut self, source_ip: [u8; 4], dest_ip: [u8; 4], payload: &[u8])
        requires
            payload@.len() <= UDP_MAX_PAYLOAD_LEN,
        ensures
            final(self).source_port == old(self).source_port,
            final(self).destination_port == old(self).destination_port,
            final(self).length == 8 + payload@.len(),
            final(self).checksum == udp_ipv4_checksum_of(
                source_ip@,
                dest_ip@,
                old(self).source_port,
                old(self).destination_port,
                final(self).length,
                payload@,
            ),
    {
        self.length = 8 + payload.len() as u16;
        self.checksum = udp_checksum_ipv4(self, source_ip, dest_ip, payload);
    }
}

/// Encoding then decoding a UDP header gives it back; the encoding is 8 bytes.
pub proof fn lemma_udp_round_trip(h: UdpHeader, d: UdpHeader)
    requires
        d.decoded_from(h.wire()),
    ensures
        h.wire().len() == 8,
        d == h,
{
    lemma_be16_round_trip(h.source_port);
    lemma_be16_round_trip(h.destination_port);
    lemma_be16_round_trip(h.length);
    lemma_be16_round_trip(h.checksum);
}

/// The encoding of every header is accepted by the decoder.
pub proof fn lemma_udp_wire_decodes(h: UdpHeader)
    ensures
        h.decoded_from(h.wire()),
{
    lemma_be16_round_trip(h.source_port);
    lemma_be16_round_trip(h.destination_port);
    lemma_be16_round_trip(h.length);
    lemma_be16_round_trip(h.checksum);
}

/// Bytes that follow an encoded header do not change what it decodes to.
pub proof fn lemma_udp_decodes_prefix(h: UdpHeader, rest: Seq<u8>, d: UdpHeader)
    requires
        d.decoded_from(h.wire() + rest),
    ensures
        d == h,
{
    let w = h.wire();
    let b = w + rest;
    lemma_udp_wire_decodes(h);
    assert(forall|i: int| 0 <= i < 8 ==> b[i] == w[i]);
    lemma_udp_round_trip(h, d);
}

/// Relies on etherparse's `UdpHeader::to_bytes`: the four fields in order,
/// each big-endian.
#[verifier::external_body]
fn udp_to_bytes(h: &UdpHeader) -> (r: [u8; 8])
    ensures
        r@ == h.wire(),
{
    etherparse::UdpHeader {
        source_port: h.source_port,
        destination_port: h.destination_port,
        length: h.length,
        checksum: h.checksum,
    }.to_bytes()
}

/// Relies on etherparse's `UdpHeader::from_slice`: it fails only on a slice
/// shorter than 8 bytes and reads the four big-endian fields.
#[verifier::external_body]
fn udp_from_slice(b: &[u8]) -> (r: Option<UdpHeader>)
    ensures
        r.is_some() <==> b@.len() >= 8,
        r matches Some(h) ==> h.decoded_from(b@),
{
    match etherparse::UdpHeader::from_slice(b) {
        Ok((h, _)) => Some(UdpHeader {
            source_port: h.source_port,
            destination_port: h.destination_port,
            length: h.length,
            checksum: h.checksum,
        }),
        Err(_) => None,
    }
}

/// Relies on etherparse's `UdpHeader::calc_checksum_ipv4_raw`, which fails
/// only on a payload longer than 65527 bytes.
#[verifier::external_body]
fn udp_checksum_ipv4(h: &UdpHeader, source: [u8; 4], destination: [u8; 4], payload: &[u8]) -> (r: u16)
    requires
        payload@.len() <= UDP_MAX_PAYLOAD_LEN,
    ensures
        r == udp_ipv4_checksum_of(
            source@,
            destination@,
            h.source_port,
            h.destination_port,
            h.length,
            payload@,
        ),
{
    let e = etherparse::UdpHeader {
        source_port: h.source_port,
        destination_port: h.destination_port,
        length: h.length,
        checksum: h.checksum,
    };
    e.calc_checksum_ipv4_raw(source, destination, payload).unwrap()
}

} // verus!
