//! Ethernet II header: destination, source, EtherType; 14 bytes on the wire.

use vstd::prelude::*;
use crate::wire::{be16, be16_bytes, lemma_be16_round_trip};
use crate::error::{DecodeError, Layer};

verus! {

/// Size of an Ethernet II header on the wire.
pub const ETHERNET2_HEADER_LEN: usize = 14;

/// EtherType of an IPv4 payload.
pub const ETHER_TYPE_IPV4: u16 = 0x0800;

/// EtherType of an IPv6 payload.
pub const ETHER_TYPE_IPV6: u16 = 0x86DD;

/// An Ethernet II frame header.
#[derive(Clone, Copy, Debug, PartialEq, Eq)]
pub struct Ethernet2Header {
    pub source: [u8; 6],
    pub destination: [u8; 6],
    pub ether_type: u16,
}

impl Ethernet2Header {
    /// Wire form: destination, source, EtherType (big-endian).
    pub open spec fn wire(self) -> Seq<u8> {
        self.destination@ + self.source@ + be16_bytes(self.ether_type)
    }

    /// `self` holds the fields that the first 14 bytes of `b` encode.
    pub open spec fn decoded_from(self, b: Seq<u8>) -> bool {
        &&& b.len() >= 14
        &&& self.destination@ == b.subrange(0, 6)
        &&& self.source@ == b.subrange(6, 12)
        &&& self.ether_type == be16(b[12], b[13])
    }

    pub fn new(source: [u8; 6], destination: [u8; 6], ether_type: u16) -> (r: Self)
        ensures
            r.source == source,
            r.destination == destination,
            r.ether_type == ether_type,
    {
        Ethernet2Header { source, destination, ether_type }
    }

    pub fn source(&self) -> (r: [u8; 6])
        ensures
            r == self.source,
    {
        self.source
    }

    pub fn destination(&self) -> (r: [u8; 6])
        ensures
            r == self.destination,
    {
        self.destination
    }

    pub fn ether_type(&self) -> (r: u16)
        ensures
            r == self.ether_type,
    {
        self.ether_type
    }

    /// Length of the header on the wire.
    pub fn header_len(&self) -> (r: usize)
        ensures
            r == 14,
            r == self.wire().len(),
    {
        14
    }

    /// Serializes the header.
    pub fn to_bytes(&self) -> (r: Vec<u8>)
        ensures
            r@ == self.wire(),
    {
        let a = ethernet_to_bytes(self);
        vstd::slice::slice_to_vec(&a)
    }

    /// Decodes a header from the start of `b`; returns it with the number of
    /// bytes it occupies.
    pub fn decode(b: &[u8]) -> (r: Result<(Self, usize), DecodeError>)
        ensures
            b@.len() >= 14 <==> r.is_ok(),
            r matches Ok((h, n)) ==> n == 14 && h.decoded_from(b@),
            r matches Err(e) ==> e == (DecodeError::Truncated {
                layer: Layer::Link,
                needed: 14,
                available: b@.len() as usize,
            }),
    {
        if b.len() < ETHERNET2_HEADER_LEN {
            return Err(DecodeError::Truncated {
                layer: Layer::Link,
                needed: ETHERNET2_HEADER_LEN,
                available: b.len(),
            });
        }
        match ethernet_from_slice(b) {
            Some(h) => Ok((h, ETHERNET2_HEADER_LEN)),
            None => Err(DecodeError::Truncated {
                layer: Layer::Link,
                needed: ETHERNET2_HEADER_LEN,
                available: b.len(),
            }),
        }
    }
}

/// Encoding then decoding an Ethernet II header gives it back, and the
/// encoding is exactly 14 bytes long.
pub proof fn lemma_ethernet_round_trip(h: Ethernet2Header, d: Ethernet2Header)
    requires
        d.decoded_from(h.wire()),
    ensures
        h.wire().len() == 14,
        d == h,
{
    lemma_be16_round_trip(h.ether_type);
    let w = h.wire();
    assert(w.subrange(0, 6) =~= h.destination@);
    assert(w.subrange(6, 12) =~= h.source@);
    assert(d.destination =~= h.destination);
    assert(d.source =~= h.source);
}

/// Every encoded header decodes: the decoder accepts exactly the buffers of
/// at least 14 bytes, and the 14 bytes of an encoding are enough.
pub proof fn lemma_ethernet_wire_decodes(h: Ethernet2Header)
    ensures
        h.decoded_from(h.wire()),
{
    let w = h.wire();
    assert(w.subrange(0, 6) =~= h.destination@);
    assert(w.subrange(6, 12) =~= h.source@);
}

/// Bytes that follow an encoded header do not change what it decodes to.
pub proof fn lemma_ethernet_decodes_prefix(h: Ethernet2Header, rest: Seq<u8>, d: Ethernet2Header)
    requires
        d.decoded_from(h.wire() + rest),
    ensures
        d == h,
{
    let w = h.wire();
    let b = w + rest;
    lemma_ethernet_wire_decodes(h);
    assert(b.subrange(0, 6) =~= w.subrange(0, 6));
    assert(b.subrange(6, 12) =~= w.subrange(6, 12));
    assert(b[12] == w[12] && b[13] == w[13]);
    lemma_ethernet_round_trip(h, d);
}

/// Relies on etherparse's `Ethernet2Header::to_bytes`: destination, source,
/// then the EtherType in big-endian order.
#[verifier::external_body]
fn ethernet_to_bytes(h: &Ethernet2Header) -> (r: [u8; 14])
    ensures
        r@ == h.wire(),
{
    etherparse::Ethernet2Header {
        source: h.source,
        destination: h.destination,
        ether_type: h.ether_type,
    }.to_bytes()
}

/// Relies on etherparse's `Ethernet2Header::from_slice`: it fails only on a
/// slice shorter than 14 bytes and reads the fields at their fixed offsets.
#[verifier::external_body]
fn ethernet_from_slice(b: &[u8]) -> (r: Option<Ethernet2Header>)
    ensures
        r.is_some() <==> b@.len() >= 14,
        r matches Some(h) ==> h.decoded_from(b@),
{
    match etherparse::Ethernet2Header::from_slice(b) {
        Ok((h, _)) => Some(Ethernet2Header {
            source: h.source,
            destination: h.destination,
            ether_type: h.ether_type,
        }),
        Err(_) => None,
    }
}

} // verus!
