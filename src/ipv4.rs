//! IPv4 header with its options; 20 to 60 bytes on the wire.

use vstd::prelude::*;
use crate::wire::{be16, be16_bytes, lemma_be16_round_trip, read_be16};
use crate::error::{DecodeError, Layer};

verus! {

/// Size of an IPv4 header without options.
pub const IPV4_MIN_HEADER_LEN: usize = 20;

/// Largest size of the IPv4 options.
pub const IPV4_MAX_OPTIONS_LEN: usize = 40;

/// Largest fragment offset (13 bits).
pub const FRAGMENT_OFFSET_MAX: u16 = 0x1FFF;

/// An IPv4 header. The total length on the wire is the header length plus
/// `payload_len`.
#[derive(Clone, Debug, PartialEq, Eq)]
pub struct Ipv4Header {
    /// Differentiated services code point (6 bits).
    pub dscp: u8,
    /// Explicit congestion notification (2 bits).
    pub ecn: u8,
    pub payload_len: u16,
    pub identification: u16,
    pub dont_fragment: bool,
    pub more_fragments: bool,
    /// In units of 8 bytes (13 bits).
    pub fragments_offset: u16,
    pub time_to_live: u8,
    pub protocol: u8,
    pub header_checksum: u16,
    pub source: [u8; 4],
    pub destination: [u8; 4],
    /// Options and padding, kept as opaque bytes; a multiple of 4 bytes.
    pub options: Vec<u8>,
}

/// Flag bits of the byte that also holds the top of the fragment offset:
/// reserved (always clear), don't-fragment, more-fragments.
pub open spec fn flag_bits(dont_fragment: bool, more_fragments: bool) -> int {
    (if dont_fragment { 0x40int } else { 0 }) + (if more_fragments { 0x20int } else { 0 })
}

impl Ipv4Header {
    /// Every field fits its width on the wire.
    pub open spec fn wf(&self) -> bool {
        &&& self.dscp <= 0x3F
        &&& self.ecn <= 3
        &&& self.fragments_offset <= FRAGMENT_OFFSET_MAX
        &&& self.options@.len() <= IPV4_MAX_OPTIONS_LEN
        &&& self.options@.len() % 4 == 0
        &&& self.payload_len + 20 + self.options@.len() <= u16::MAX
    }

    /// Header length in 32-bit words (IHL).
    pub open spec fn spec_ihl(&self) -> int {
        5 + self.options@.len() as int / 4
    }

    pub open spec fn spec_header_len(&self) -> int {
        20 + self.options@.len() as int
    }

    pub open spec fn spec_total_len(&self) -> int {
        self.spec_header_len() + self.payload_len
    }

    /// Wire form (RFC 791), with the checksum as stored.
    pub open spec fn wire(&self) -> Seq<u8> {
        seq![(0x40 + self.spec_ihl()) as u8, (self.dscp * 4 + self.ecn) as u8]
            + be16_bytes(self.spec_total_len() as u16) + be16_bytes(self.identification)
            + seq![
                (flag_bits(self.dont_fragment, self.more_fragments) + self.fragments_offset / 0x100) as u8,
                (self.fragments_offset % 0x100) as u8,
                self.time_to_live,
                self.protocol,
            ] + be16_bytes(self.header_checksum) + self.source@ + self.destination@ + self.options@
    }

    /// The header length in bytes that the IHL nibble of `b` announces.
    pub open spec fn announced_len(b: Seq<u8>) -> int {
        (b[0] % 16) * 4
    }

    /// `b` starts with a complete IPv4 header.
    pub open spec fn accepts(b: Seq<u8>) -> bool {
        &&& b.len() >= 20
        &&& b[0] / 16 == 4
        &&& b[0] % 16 >= 5
        &&& b.len() >= Self::announced_len(b)
        &&& be16(b[2], b[3]) >= Self::announced_len(b)
    }

    /// `self` holds the fields of the header at the start of `b`.
    pub open spec fn decoded_from(&self, b: Seq<u8>) -> bool {
        &&& Self::accepts(b)
        &&& self.dscp == b[1] / 4
        &&& self.ecn == b[1] % 4
        &&& self.payload_len == be16(b[2], b[3]) - Self::announced_len(b)
        &&& self.identification == be16(b[4], b[5])
        &&& self.dont_fragment == (b[6] / 0x40 % 2 == 1)
        &&& self.more_fragments == (b[6] / 0x20 % 2 == 1)
        &&& self.fragments_offset == be16(b[6] % 0x20, b[7])
        &&& self.time_to_live == b[8]
        &&& self.protocol == b[9]
        &&& self.header_checksum == be16(b[10], b[11])
        &&& self.source@ == b.subrange(12, 16)
        &&& self.destination@ == b.subrange(16, 20)
        &&& self.options@ == b.subrange(20, Self::announced_len(b))
    }

    /// The error that decoding `b` gives, when it fails.
    pub open spec fn decode_error(b: Seq<u8>) -> DecodeError {
        if b.len() < 20 {
            DecodeError::Truncated { layer: Layer::Network, needed: 20, available: b.len() as usize }
        } else if b[0] / 16 != 4 {
            DecodeError::UnexpectedVersion { layer: Layer::Network, version: b[0] / 16 }
        } else if b[0] % 16 < 5 {
            DecodeError::HeaderLengthTooSmall { layer: Layer::Network, words: b[0] % 16 }
        } else if b.len() < Self::announced_len(b) {
            DecodeError::Truncated {
                layer: Layer::Network,
                needed: Self::announced_len(b) as usize,
                available: b.len() as usize,
            }
        } else {
            DecodeError::TotalLengthTooSmall { total_length: be16(b[2], b[3]) }
        }
    }

    /// All fields equal, options compared by content.
    pub open spec fn same(&self, o: &Ipv4Header) -> bool {
        &&& self.dscp == o.dscp
        &&& self.ecn == o.ecn
        &&& self.payload_len == o.payload_len
        &&& self.identification == o.identification
        &&& self.dont_fragment == o.dont_fragment
        &&& self.more_fragments == o.more_fragments
        &&& self.fragments_offset == o.fragments_offset
        &&& self.time_to_live == o.time_to_live
        &&& self.protocol == o.protocol
        &&& self.header_checksum == o.header_checksum
        &&& self.source == o.source
        &&& self.destination == o.destination
        &&& self.options@ == o.options@
    }

    /// A header with the given addresses, TTL and protocol; the other fields
    /// hold their defaults (don't-fragment set, no options, everything else 0).
    pub fn new(source: [u8; 4], destination: [u8; 4], ttl: u8, protocol: u8) -> (r: Self)
        ensures
            r.wf(),
            r.source == source,
            r.destination == destination,
            r.time_to_live == ttl,
            r.protocol == protocol,
            r.dscp == 0,
            r.ecn == 0,
            r.payload_len == 0,
            r.identification == 0,
            r.dont_fragment,
            !r.more_fragments,
            r.fragments_offset == 0,
            r.header_checksum == 0,
            r.options@.len() == 0,
    {
        Ipv4Header {
            dscp: 0,
            ecn: 0,
            payload_len: 0,
            identification: 0,
            dont_fragment: true,
            more_fragments: false,
            fragments_offset: 0,
            time_to_live: ttl,
            protocol,
            header_checksum: 0,
            source,
            destination,
            options: Vec::new(),
        }
    }

    pub fn source(&self) -> (r: [u8; 4])
        ensures
            r == self.source,
    {
        self.source
    }

    pub fn destination(&self) -> (r: [u8; 4])
        ensures
            r == self.destination,
    {
        self.destination
    }

    pub fn ttl(&self) -> (r: u8)
        ensures
            r == self.time_to_live,
    {
        self.time_to_live
    }

    pub fn protocol(&self) -> (r: u8)
        ensures
            r == self.protocol,
    {
        self.protocol
    }

    /// Header length in bytes, options included.
    pub fn header_length(&self) -> (r: u8)
        requires
            self.wf(),
        ensures
            r == self.spec_header_len(),
    {
        20 + self.options.len() as u8
    }

    /// Header length plus payload length.
    pub fn total_length(&self) -> (r: u16)
        requires
            self.wf(),
        ensures
            r == self.spec_total_len(),
    {
        self.payload_len + 20 + self.options.len() as u16
    }

    pub fn identification(&self) -> (r: u16)
        ensures
            r == self.identification,
    {
        self.identification
    }

    pub fn dont_fragment(&self) -> (r: bool)
        ensures
            r == self.dont_fragment,
    {
        self.dont_fragment
    }

    pub fn more_fragments(&self) -> (r: bool)
        ensures
            r == self.more_fragments,
    {
        self.more_fragments
    }

    pub fn fragment_offset(&self) -> (r: u16)
        ensures
            r == self.fragments_offset,
    {
        self.fragments_offset
    }

    /// Sets the fragmentation fields.
    pub fn set_fragmentation(&mut self, dont_fragment: bool, more_fragments: bool, offset: u16)
        requires
            old(self).wf(),
            offset <= FRAGMENT_OFFSET_MAX,
        ensures
            final(self).wf(),
            final(self).dont_fragment == dont_fragment,
            final(self).more_fragments == more_fragments,
            final(self).fragments_offset == offset,
            final(self).same(&(Ipv4Header {
                dont_fragment,
                more_fragments,
                fragments_offset: offset,
                ..*old(self)
            })),
    {
        self.dont_fragment = dont_fragment;
        self.more_fragments = more_fragments;
        self.fragments_offset = offset;
    }

    /// Serializes the header; the checksum is written as stored.
    pub fn to_bytes(&self) -> (r: Vec<u8>)
        requires
            self.wf(),
        ensures
            r@ == self.wire(),
    {
        ipv4_write_raw(self)
    }

    /// Decodes a header with its options from the start of `b`; returns it
    /// with the number of bytes it occupies.
    pub fn decode(b: &[u8]) -> (r: Result<(Self, usize), DecodeError>)
        ensures
            Self::accepts(b@) <==> r.is_ok(),
            r matches Ok((h, n)) ==> n == h.spec_header_len() && n == Self::announced_len(b@)
                && h.wf() && h.decoded_from(b@),
            r matches Err(e) ==> e == Self::decode_error(b@),
    {
        if b.len() < IPV4_MIN_HEADER_LEN {
            return Err(DecodeError::Truncated {
                layer: Layer::Network,
                needed: IPV4_MIN_HEADER_LEN,
                available: b.len(),
            });
        }
        let version = b[0] / 16;
        if version != 4 {
            return Err(DecodeError::UnexpectedVersion { layer: Layer::Network, version });
        }
        let words = b[0] % 16;
        if words < 5 {
            return Err(DecodeError::HeaderLengthTooSmall { layer: Layer::Network, words });
        }
        let len = words as usize * 4;
        if b.len() < len {
            return Err(DecodeError::Truncated { layer: Layer::Network, needed: len, available: b.len() });
        }
        let total = read_be16(b, 2);
        if (total as usize) < len {
            return Err(DecodeError::TotalLengthTooSmall { total_length: total });
        }
        match ipv4_from_slice(b) {
            Some(h) => {
                let n = h.header_length() as usize;
                Ok((h, n))
            },
            None => Err(DecodeError::TotalLengthTooSmall { total_length: total }),
        }
    }
}

/// Encoding then decoding a well-formed IPv4 header gives back every field,
/// options included; the decoder accepts the encoding.
pub proof fn lemma_ipv4_round_trip(h: Ipv4Header, d: Ipv4Header)
    requires
        h.wf(),
        d.decoded_from(h.wire()),
    ensures
        h.wire().len() == h.spec_header_len(),
        d.same(&h),
{
    lemma_ipv4_wire_decodes(h);
    assert(d.source =~= h.source);
    assert(d.destination =~= h.destination);
}

/// The encoding of every well-formed header is accepted and decodes to its
/// fields.
pub proof fn lemma_ipv4_wire_decodes(h: Ipv4Header)
    requires
        h.wf(),
    ensures
        h.wire().len() == h.spec_header_len(),
        h.decoded_from(h.wire()),
{
    lemma_be16_round_trip(h.spec_total_len() as u16);
    lemma_be16_round_trip(h.identification);
    lemma_be16_round_trip(h.header_checksum);
    let w = h.wire();
    assert(w.subrange(12, 16) =~= h.source@);
    assert(w.subrange(16, 20) =~= h.destination@);
    assert(w.subrange(20, 20 + h.options@.len() as int) =~= h.options@);
    let f = h.fragments_offset;
    let df = h.dont_fragment;
    let mf = h.more_fragments;
    assert(w[6] == (flag_bits(df, mf) + f / 0x100) as u8);
    assert(w[6] / 0x40 % 2 == 1 <==> df);
    assert(w[6] / 0x20 % 2 == 1 <==> mf);
    assert(w[6] % 0x20 == f / 0x100);
}

/// The encoding of a well-formed header is exactly long enough: the decoder
/// accepts it, and fails on it with `Truncated` once its last byte is gone.
pub proof fn lemma_ipv4_truncation(h: Ipv4Header)
    requires
        h.wf(),
    ensures
        Ipv4Header::accepts(h.wire()),
        !Ipv4Header::accepts(h.wire().drop_last()),
        Ipv4Header::decode_error(h.wire().drop_last()) == (DecodeError::Truncated {
            layer: Layer::Network,
            needed: if h.options@.len() == 0 { 20 } else { h.spec_header_len() as usize },
            available: (h.spec_header_len() - 1) as usize,
        }),
{
    lemma_ipv4_wire_decodes(h);
    let w = h.wire();
    let t = w.drop_last();
    assert(t[0] == w[0] && t[2] == w[2] && t[3] == w[3]);
}

/// A header with don't-fragment set, more-fragments clear and fragment offset
/// 0 is written with the flag bits `010`: byte 6 reads `0x40` and byte 7 reads 0.
pub proof fn lemma_ipv4_dont_fragment_bits(h: Ipv4Header)
    requires
        h.wf(),
        h.dont_fragment,
        !h.more_fragments,
        h.fragments_offset == 0,
    ensures
        h.wire()[6] / 0x20 == 0b010,
        h.wire()[6] == 0x40,
        h.wire()[7] == 0,
{
}

/// The decoder accepts an encoded header followed by any bytes, and reads its
/// length and protocol from it.
pub proof fn lemma_ipv4_accepts_prefix(h: Ipv4Header, rest: Seq<u8>)
    requires
        h.wf(),
    ensures
        Ipv4Header::accepts(h.wire() + rest),
        Ipv4Header::announced_len(h.wire() + rest) == h.spec_header_len(),
        (h.wire() + rest)[9] == h.protocol,
{
    let w = h.wire();
    let b = w + rest;
    lemma_ipv4_wire_decodes(h);
    assert(forall|i: int| 0 <= i < 20 ==> b[i] == w[i]);
}

/// Bytes that follow an encoded header do not change what it decodes to.
pub proof fn lemma_ipv4_decodes_prefix(h: Ipv4Header, rest: Seq<u8>, d: Ipv4Header)
    requires
        h.wf(),
        d.decoded_from(h.wire() + rest),
    ensures
        d.same(&h),
{
    let w = h.wire();
    let b = w + rest;
    lemma_ipv4_accepts_prefix(h, rest);
    assert(forall|i: int| 0 <= i < 20 ==> b[i] == w[i]);
    assert(b.subrange(12, 16) =~= w.subrange(12, 16));
    assert(b.subrange(16, 20) =~= w.subrange(16, 20));
    assert(b.subrange(20, h.spec_header_len()) =~= w.subrange(20, h.spec_header_len()));
    lemma_ipv4_round_trip(h, d);
}

/// Relies on etherparse's `Ipv4Header::write_raw`: it fails only on a field
/// out of range, and writes the header as RFC 791 lays it out, with the stored
/// checksum, then the options.
#[verifier::external_body]
fn ipv4_write_raw(h: &Ipv4Header) -> (r: Vec<u8>)
    requires
        h.wf(),
    ensures
        r@ == h.wire(),
{
    let mut e = etherparse::Ipv4Header::new(h.payload_len, h.time_to_live, h.protocol, h.source, h.destination);
    e.differentiated_services_code_point = h.dscp;
    e.explicit_congestion_notification = h.ecn;
    e.identification = h.identification;
    e.dont_fragment = h.dont_fragment;
    e.more_fragments = h.more_fragments;
    e.fragments_offset = h.fragments_offset;
    e.header_checksum = h.header_checksum;
    e.set_options(&h.options).unwrap();
    let mut v = Vec::new();
    e.write_raw(&mut v).unwrap();
    v
}

/// Relies on etherparse's `Ipv4Header::from_slice`: it accepts a slice that
/// holds the whole header (version 4, IHL at least 5, total length at least
/// the header length) and reads the fields and options from it.
#[verifier::external_body]
fn ipv4_from_slice(b: &[u8]) -> (r: Option<Ipv4Header>)
    ensures
        r.is_some() <==> Ipv4Header::accepts(b@),
        r matches Some(h) ==> h.decoded_from(b@),
{
    match etherparse::Ipv4Header::from_slice(b) {
        Ok((e, _)) => Some(Ipv4Header {
            dscp: e.differentiated_services_code_point, ecn: e.explicit_congestion_notification,
            payload_len: e.payload_len, identification: e.identification,
            dont_fragment: e.dont_fragment, more_fragments: e.more_fragments,
            fragments_offset: e.fragments_offset, time_to_live: e.time_to_live,
            protocol: e.protocol, header_checksum: e.header_checksum,
            source: e.source, destination: e.destination, options: e.options().to_vec(),
        }),
        Err(_) => None,
    }
}

} // verus!
