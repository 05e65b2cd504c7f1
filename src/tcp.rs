//! TCP header with its options; 20 to 60 bytes on the wire.

use vstd::prelude::*;
use crate::wire::{be16, be32, be16_bytes, be32_bytes, lemma_be16_round_trip, lemma_be32_round_trip};
use crate::error::{DecodeError, Layer};

verus! {

/// Size of a TCP header without options.
pub const TCP_MIN_HEADER_LEN: usize = 20;

/// Largest size of the TCP options.
pub const TCP_MAX_OPTIONS_LEN: usize = 40;

/// A TCP header. The data offset is derived from the length of the options.
#[derive(Clone, Debug, PartialEq, Eq)]
pub struct TcpHeader {
    pub source_port: u16,
    pub destination_port: u16,
    pub sequence_number: u32,
    pub acknowledgment_number: u32,
    pub ns: bool,
    pub fin: bool,
    pub syn: bool,
    pub rst: bool,
    pub psh: bool,
    pub ack: bool,
    pub urg: bool,
    pub ece: bool,
    pub cwr: bool,
    pub window_size: u16,
    pub checksum: u16,
    pub urgent_pointer: u16,
    /// Options and padding, kept as opaque bytes; a multiple of 4 bytes.
    pub options: Vec<u8>,
}

/// 1 for a set flag, 0 for a clear one.
pub open spec fn bit(b: bool) -> int {
    if b { 1 } else { 0 }
}

/// Bit `k` of `x` is set.
pub open spec fn bit_set(x: int, k: nat) -> bool
    decreases k,
{
    if k == 0 { x % 2 == 1 } else { bit_set(x / 2, (k - 1) as nat) }
}

impl TcpHeader {
    /// The options fit the data offset nibble.
    pub open spec fn wf(&self) -> bool {
        &&& self.options@.len() <= TCP_MAX_OPTIONS_LEN
        &&& self.options@.len() % 4 == 0
    }

    /// Header length in 32-bit words.
    pub open spec fn spec_data_offset(&self) -> int {
        5 + self.options@.len() as int / 4
    }

    pub open spec fn spec_header_len(&self) -> int {
        20 + self.options@.len() as int
    }

    /// The byte holding FIN (bit 0) up to CWR (bit 7).
    pub open spec fn flags_byte(&self) -> int {
        bit(self.fin) + 2 * (bit(self.syn) + 2 * (bit(self.rst) + 2 * (bit(self.psh) + 2 * (bit(
            self.ack,
        ) + 2 * (bit(self.urg) + 2 * (bit(self.ece) + 2 * bit(self.cwr)))))))
    }

    /// Wire form (RFC 793, with NS, ECE and CWR), checksum as stored.
    #[verifier::opaque]
    pub open spec fn wire(&self) -> Seq<u8> {
        be16_bytes(self.source_port) + be16_bytes(self.destination_port) + be32_bytes(
            self.sequence_number,
        ) + be32_bytes(self.acknowledgment_number) + seq![
            (self.spec_data_offset() * 16 + bit(self.ns)) as u8,
            self.flags_byte() as u8,
        ] + be16_bytes(self.window_size) + be16_bytes(self.checksum) + be16_bytes(
            self.urgent_pointer,
        ) + self.options@
    }

    /// The header length in bytes that the data offset nibble of `b` announces.
    pub open spec fn announced_len(b: Seq<u8>) -> int {
        (b[12] / 16) * 4
    }

    /// `b` starts with a complete TCP header.
    pub open spec fn accepts(b: Seq<u8>) -> bool {
        &&& b.len() >= 20
        &&& b[12] / 16 >= 5
        &&& b.len() >= Self::announced_len(b)
    }

    /// `self` holds the fields of the header at the start of `b`.
    pub open spec fn decoded_from(&self, b: Seq<u8>) -> bool {
        &&& Self::accepts(b)
        &&& self.source_port == be16(b[0], b[1])
        &&& self.destination_port == be16(b[2], b[3])
        &&& self.sequence_number == be32(b[4], b[5], b[6], b[7])
        &&& self.acknowledgment_number == be32(b[8], b[9], b[10], b[11])
        &&& self.ns == bit_set(b[12] as int, 0)
        &&& self.fin == bit_set(b[13] as int, 0)
        &&& self.syn == bit_set(b[13] as int, 1)
        &&& self.rst == bit_set(b[13] as int, 2)
        &&& self.psh == bit_set(b[13] as int, 3)
        &&& self.ack == bit_set(b[13] as int, 4)
        &&& self.urg == bit_set(b[13] as int, 5)
        &&& self.ece == bit_set(b[13] as int, 6)
        &&& self.cwr == bit_set(b[13] as int, 7)
        &&& self.window_size == be16(b[14], b[15])
        &&& self.checksum == be16(b[16], b[17])
        &&& self.urgent_pointer == be16(b[18], b[19])
        &&& self.options@ == b.subrange(20, Self::announced_len(b))
    }

    /// The error that decoding `b` gives, when it fails.
    pub open spec fn decode_error(b: Seq<u8>) -> DecodeError {
        if b.len() < 20 {
            DecodeError::Truncated { layer: Layer::Transport, needed: 20, available: b.len() as usize }
        } else if b[12] / 16 < 5 {
            DecodeError::HeaderLengthTooSmall { layer: Layer::Transport, words: b[12] / 16 }
        } else {
            DecodeError::Truncated {
                layer: Layer::Transport,
                needed: Self::announced_len(b) as usize,
                available: b.len() as usize,
            }
        }
    }

    /// All fields equal, options compared by content.
    pub open spec fn same(&self, o: &TcpHeader) -> bool {
        &&& self.source_port == o.source_port
        &&& self.destination_port == o.destination_port
        &&& self.sequence_number == o.sequence_number
        &&& self.acknowledgment_number == o.acknowledgment_number
        &&& self.ns == o.ns
        &&& self.fin == o.fin
        &&& self.syn == o.syn
        &&& self.rst == o.rst
        &&& self.psh == o.psh
        &&& self.ack == o.ack
        &&& self.urg == o.urg
        &&& self.ece == o.ece
        &&& self.cwr == o.cwr
        &&& self.window_size == o.window_size
        &&& self.checksum == o.checksum
        &&& self.urgent_pointer == o.urgent_pointer
        &&& self.options@ == o.options@
    }

    /// A header with the given ports, numbers and window; no flag set, no
    /// options, checksum and urgent pointer 0.
    pub fn new(
        source_port: u16,
        destination_port: u16,
        sequence_number: u32,
        acknowledgment_number: u32,
        window_size: u16,
    ) -> (r: Self)
        ensures
            r.wf(),
            r.source_port == source_port,
            r.destination_port == destination_port,
            r.sequence_number == sequence_number,
            r.acknowledgment_number == acknowledgment_number,
            r.window_size == window_size,
            !r.ns && !r.fin && !r.syn && !r.rst && !r.psh && !r.ack && !r.urg && !r.ece && !r.cwr,
            r.checksum == 0,
            r.urgent_pointer == 0,
            r.options@.len() == 0,
    {
        TcpHeader {
            source_port,
            destination_port,
            sequence_number,
            acknowledgment_number,
            ns: false,
            fin: false,
            syn: false,
            rst: false,
            psh: false,
            ack: false,
            urg: false,
            ece: false,
            cwr: false,
            window_size,
            checksum: 0,
            urgent_pointer: 0,
            options: Vec::new(),
        }
    }

    pub fn source_port(&self) -> (r: u16)
        ensures
            r == self.source_port,
    {
        self.source_port
    }

    pub fn destination_port(&self) -> (r: u16)
        ensures
            r == self.destination_port,
    {
        self.destination_port
    }

    pub fn sequence_number(&self) -> (r: u32)
        ensures
            r == self.sequence_number,
    {
        self.sequence_number
    }

    pub fn acknowledgment_number(&self) -> (r: u32)
        ensures
            r == self.acknowledgment_number,
    {
        self.acknowledgment_number
    }

    pub fn window_size(&self) -> (r: u16)
        ensures
            r == self.window_size,
    {
        self.window_size
    }

    pub fn urgent_pointer(&self) -> (r: u16)
        ensures
            r == self.urgent_pointer,
    {
        self.urgent_pointer
    }

    /// Header length in 32-bit words.
    pub fn data_offset(&self) -> (r: u8)
        requires
            self.wf(),
        ensures
            r == self.spec_data_offset(),
    {
        5 + (self.options.len() / 4) as u8
    }

    /// Header length in bytes, options included.
    pub fn header_length(&self) -> (r: u8)
        requires
            self.wf(),
        ensures
            r == self.spec_header_len(),
    {
        20 + self.options.len() as u8
    }

    pub fn syn(&self) -> (r: bool)
        ensures
            r == self.syn,
    {
        self.syn
    }

    pub fn ack(&self) -> (r: bool)
        ensures
            r == self.ack,
    {
        self.ack
    }

    pub fn psh(&self) -> (r: bool)
        ensures
            r == self.psh,
    {
        self.psh
    }

    pub fn rst(&self) -> (r: bool)
        ensures
            r == self.rst,
    {
        self.rst
    }

    pub fn fin(&self) -> (r: bool)
        ensures
            r == self.fin,
    {
        self.fin
    }

    pub fn urg(&self) -> (r: bool)
        ensures
            r == self.urg,
    {
        self.urg
    }

    pub fn ece(&self) -> (r: bool)
        ensures
            r == self.ece,
    {
        self.ece
    }

    pub fn cwr(&self) -> (r: bool)
        ensures
            r == self.cwr,
    {
        self.cwr
    }

    pub fn set_syn(&mut self, value: bool)
        ensures
            final(self).same(&(TcpHeader { syn: value, ..*old(self) })),
    {
        self.syn = value;
    }

    pub fn set_ack(&mut self, value: bool)
        ensures
            final(self).same(&(TcpHeader { ack: value, ..*old(self) })),
    {
        self.ack = value;
    }

    pub fn set_psh(&mut self, value: bool)
        ensures
            final(self).same(&(TcpHeader { psh: value, ..*old(self) })),
    {
        self.psh = value;
    }

    pub fn set_rst(&mut self, value: bool)
        ensures
            final(self).same(&(TcpHeader { rst: value, ..*old(self) })),
    {
        self.rst = value;
    }

    pub fn set_fin(&mut self, value: bool)
        ensures
            final(self).same(&(TcpHeader { fin: value, ..*old(self) })),
    {
        self.fin = value;
    }

    pub fn set_urg(&mut self, value: bool)
        ensures
            final(self).same(&(TcpHeader { urg: value, ..*old(self) })),
    {
        self.urg = value;
    }

    /// Serializes the header; the checksum is written as stored.
    pub fn to_bytes(&self) -> (r: Vec<u8>)
        requires
            self.wf(),
        ensures
            r@ == self.wire(),
    {
        tcp_write(self)
    }

    /// Decodes a header with its options from the start of `b`; returns it
    /// with the number of bytes it occupies.
    pub fn decode(b: &[u8]) -> (r: Result<(Self, usize), DecodeError>)
        ensures
            Self::accepts(b@) <==> r.is_ok(),
            r matches Ok((h, n)) ==> n == h.spec_header_len() && n == Self::announced_len(b@)
                && h.wf() && h.decoded_from(b@),
            r matches Err(e) ==> e == Self::decode_error(b@),
    {
        if b.len() < TCP_MIN_HEADER_LEN {
            return Err(DecodeError::Truncated {
                layer: Layer::Transport,
                needed: TCP_MIN_HEADER_LEN,
                available: b.len(),
            });
        }
        let words = b[12] / 16;
        if words < 5 {
            return Err(DecodeError::HeaderLengthTooSmall { layer: Layer::Transport, words });
        }
        let len = words as usize * 4;
        let trunc = DecodeError::Truncated { layer: Layer::Transport, needed: len, available: b.len() };
        if b.len() < len {
            return Err(trunc);
        }
        match tcp_from_slice(b) {
            Some(h) => {
                let n = h.header_length() as usize;
                Ok((h, n))
            },
            None => Err(trunc),
        }
    }
}

/// Division and remainder of `a + 2 * q` by 2, for `a` below 2.
proof fn lemma_halve(a: int, q: int)
    requires
        0 <= a < 2,
    ensures
        (a + 2 * q) / 2 == q,
        (a + 2 * q) % 2 == a,
{
    vstd::arithmetic::div_mod::lemma_fundamental_div_mod_converse(a + 2 * q, 2, q, a);
}

/// Each flag of the flags byte reads back as the flag that was written.
proof fn lemma_flags_byte(h: TcpHeader)
    ensures
        0 <= h.flags_byte() < 256,
        h.fin == bit_set(h.flags_byte(), 0),
        h.syn == bit_set(h.flags_byte(), 1),
        h.rst == bit_set(h.flags_byte(), 2),
        h.psh == bit_set(h.flags_byte(), 3),
        h.ack == bit_set(h.flags_byte(), 4),
        h.urg == bit_set(h.flags_byte(), 5),
        h.ece == bit_set(h.flags_byte(), 6),
        h.cwr == bit_set(h.flags_byte(), 7),
{
    reveal_with_fuel(bit_set, 8);
    let r7 = bit(h.cwr);
    let r6 = bit(h.ece) + 2 * r7;
    let r5 = bit(h.urg) + 2 * r6;
    let r4 = bit(h.ack) + 2 * r5;
    let r3 = bit(h.psh) + 2 * r4;
    let r2 = bit(h.rst) + 2 * r3;
    let r1 = bit(h.syn) + 2 * r2;
    let r0 = bit(h.fin) + 2 * r1;
    lemma_halve(bit(h.fin), r1);
    lemma_halve(bit(h.syn), r2);
    lemma_halve(bit(h.rst), r3);
    lemma_halve(bit(h.psh), r4);
    lemma_halve(bit(h.ack), r5);
    lemma_halve(bit(h.urg), r6);
    lemma_halve(bit(h.ece), r7);
    lemma_halve(bit(h.cwr), 0);
    assert(r0 == h.flags_byte());
}

/// The encoding of every well-formed header is accepted and decodes to its
/// fields.
pub proof fn lemma_tcp_wire_decodes(h: TcpHeader)
    requires
        h.wf(),
    ensures
        h.wire().len() == h.spec_header_len(),
        h.decoded_from(h.wire()),
{
    lemma_be16_round_trip(h.source_port);
    lemma_be16_round_trip(h.destination_port);
    lemma_be32_round_trip(h.sequence_number);
    lemma_be32_round_trip(h.acknowledgment_number);
    lemma_be16_round_trip(h.window_size);
    lemma_be16_round_trip(h.checksum);
    lemma_be16_round_trip(h.urgent_pointer);
    lemma_flags_byte(h);
    reveal_with_fuel(bit_set, 1);
    reveal(TcpHeader::wire);
    let w = h.wire();
    assert(w.subrange(20, 20 + h.options@.len() as int) =~= h.options@);
}

/// Encoding then decoding a well-formed TCP header gives back every field and
/// flag, options included.
pub proof fn lemma_tcp_round_trip(h: TcpHeader, d: TcpHeader)
    requires
        h.wf(),
        d.decoded_from(h.wire()),
    ensures
        h.wire().len() == h.spec_header_len(),
        d.same(&h),
{
    lemma_tcp_wire_decodes(h);
}

/// The encoding of a well-formed header is exactly long enough: the decoder
/// accepts it, and fails on it with `Truncated` once its last byte is gone.
pub proof fn lemma_tcp_truncation(h: TcpHeader)
    requires
        h.wf(),
    ensures
        TcpHeader::accepts(h.wire()),
        !TcpHeader::accepts(h.wire().drop_last()),
        TcpHeader::decode_error(h.wire().drop_last()) == (DecodeError::Truncated {
            layer: Layer::Transport,
            needed: if h.options@.len() == 0 { 20 } else { h.spec_header_len() as usize },
            available: (h.spec_header_len() - 1) as usize,
        }),
{
    lemma_tcp_wire_decodes(h);
    let w = h.wire();
    let t = w.drop_last();
    assert(t[12] == w[12]);
}

/// The decoder accepts an encoded header followed by any bytes, and reads its
/// length from it.
pub proof fn lemma_tcp_accepts_prefix(h: TcpHeader, rest: Seq<u8>)
    requires
        h.wf(),
    ensures
        h.wire().len() == h.spec_header_len(),
        TcpHeader::accepts(h.wire() + rest),
        TcpHeader::announced_len(h.wire() + rest) == h.spec_header_len(),
{
    let w = h.wire();
    lemma_tcp_wire_decodes(h);
    assert((w + rest)[12] == w[12]);
}

/// Bytes that follow an encoded header do not change what it decodes to.
pub proof fn lemma_tcp_decodes_prefix(h: TcpHeader, rest: Seq<u8>, d: TcpHeader)
    requires
        h.wf(),
        d.decoded_from(h.wire() + rest),
    ensures
        d.same(&h),
{
    let w = h.wire();
    let b = w + rest;
    lemma_tcp_accepts_prefix(h, rest);
    assert(forall|i: int| 0 <= i < 20 ==> b[i] == w[i]);
    assert(b.subrange(20, h.spec_header_len()) =~= w.subrange(20, h.spec_header_len()));
    lemma_tcp_round_trip(h, d);
}

/// Relies on etherparse's `TcpHeader::set_options_raw` (a multiple of 4
/// bytes, at most 40, sets the data offset to 5 plus a word per 4 bytes) and
/// `TcpHeader::write`, which writes the header as RFC 793 lays it out with the
/// stored checksum, then the options.
#[verifier::external_body]
fn tcp_write(h: &TcpHeader) -> (r: Vec<u8>)
    requires
        h.wf(),
    ensures
        r@ == h.wire(),
{
    let mut e = etherparse::TcpHeader::new(h.source_port, h.destination_port, h.sequence_number, h.window_size);
    e.acknowledgment_number = h.acknowledgment_number;
    e.ns = h.ns; e.fin = h.fin; e.syn = h.syn; e.rst = h.rst; e.psh = h.psh;
    e.ack = h.ack; e.urg = h.urg; e.ece = h.ece; e.cwr = h.cwr;
    e.checksum = h.checksum;
    e.urgent_pointer = h.urgent_pointer;
    e.set_options_raw(&h.options).unwrap();
    let mut v = Vec::new();
    e.write(&mut v).unwrap();
    v
}

/// Relies on etherparse's `TcpHeader::from_slice`: it accepts a slice that
/// holds the whole header (data offset at least 5) and reads the fields,
/// flags and options from it.
#[verifier::external_body]
fn tcp_from_slice(b: &[u8]) -> (r: Option<TcpHeader>)
    ensures
        r.is_some() <==> TcpHeader::accepts(b@),
        r matches Some(h) ==> h.decoded_from(b@),
{
    match etherparse::TcpHeader::from_slice(b) {
        Ok((e, _)) => Some(TcpHeader {
            source_port: e.source_port, destination_port: e.destination_port,
            sequence_number: e.sequence_number, acknowledgment_number: e.acknowledgment_number,
            ns: e.ns, fin: e.fin, syn: e.syn, rst: e.rst, psh: e.psh,
            ack: e.ack, urg: e.urg, ece: e.ece, cwr: e.cwr,
            window_size: e.window_size, checksum: e.checksum, urgent_pointer: e.urgent_pointer,
            options: e.options().to_vec(),
        }),
        Err(_) => None,
    }
}

} // verus!
