//! ICMPv6 header: a type/code classification and the checksum.

use vstd::prelude::*;
use crate::wire::{be16, be16_bytes, lemma_be16_round_trip};
use crate::error::{DecodeError, Layer};

verus! {

/// Size of the ICMPv6 header on the wire (type, code, checksum and the four
/// bytes that follow them).
pub const ICMPV6_HEADER_LEN: usize = 8;

pub const TYPE_DESTINATION_UNREACHABLE: u8 = 1;
pub const TYPE_PACKET_TOO_BIG: u8 = 2;
pub const TYPE_TIME_EXCEEDED: u8 = 3;
pub const TYPE_PARAMETER_PROBLEM: u8 = 4;
pub const TYPE_ECHO_REQUEST: u8 = 128;
pub const TYPE_ECHO_REPLY: u8 = 129;

/// The kind of an ICMPv6 message, by its type byte, with its code.
#[derive(Clone, Copy, Debug, PartialEq, Eq, Structural)]
pub enum Icmpv6Type {
    DestinationUnreachable { code: u8 },
    PacketTooBig { code: u8 },
    TimeExceeded { code: u8 },
    ParameterProblem { code: u8 },
    EchoRequest { code: u8 },
    EchoReply { code: u8 },
    /// Any other type byte.
    Other { type_u8: u8, code: u8 },
}

/// The type byte names one of the kinds that have a variant of their own.
pub open spec fn is_known_type(t: u8) -> bool {
    t == TYPE_DESTINATION_UNREACHABLE || t == TYPE_PACKET_TOO_BIG || t == TYPE_TIME_EXCEEDED
        || t == TYPE_PARAMETER_PROBLEM || t == TYPE_ECHO_REQUEST || t == TYPE_ECHO_REPLY
}

/// The kind that a type byte and a code byte describe.
pub open spec fn classify(t: u8, code: u8) -> Icmpv6Type {
    if t == TYPE_DESTINATION_UNREACHABLE {
        Icmpv6Type::DestinationUnreachable { code }
    } else if t == TYPE_PACKET_TOO_BIG {
        Icmpv6Type::PacketTooBig { code }
    } else if t == TYPE_TIME_EXCEEDED {
        Icmpv6Type::TimeExceeded { code }
    } else if t == TYPE_PARAMETER_PROBLEM {
        Icmpv6Type::ParameterProblem { code }
    } else if t == TYPE_ECHO_REQUEST {
        Icmpv6Type::EchoRequest { code }
    } else if t == TYPE_ECHO_REPLY {
        Icmpv6Type::EchoReply { code }
    } else {
        Icmpv6Type::Other { type_u8: t, code }
    }
}

impl Icmpv6Type {
    /// `Other` is kept for the type bytes without a variant of their own.
    pub open spec fn wf(self) -> bool {
        self matches Icmpv6Type::Other { type_u8, .. } ==> !is_known_type(type_u8)
    }

    pub open spec fn spec_type_u8(self) -> u8 {
        match self {
            Icmpv6Type::DestinationUnreachable { .. } => TYPE_DESTINATION_UNREACHABLE,
            Icmpv6Type::PacketTooBig { .. } => TYPE_PACKET_TOO_BIG,
            Icmpv6Type::TimeExceeded { .. } => TYPE_TIME_EXCEEDED,
            Icmpv6Type::ParameterProblem { .. } => TYPE_PARAMETER_PROBLEM,
            Icmpv6Type::EchoRequest { .. } => TYPE_ECHO_REQUEST,
            Icmpv6Type::EchoReply { .. } => TYPE_ECHO_REPLY,
            Icmpv6Type::Other { type_u8, .. } => type_u8,
        }
    }

    pub open spec fn spec_code_u8(self) -> u8 {
        match self {
            Icmpv6Type::DestinationUnreachable { code } => code,
            Icmpv6Type::PacketTooBig { code } => code,
            Icmpv6Type::TimeExceeded { code } => code,
            Icmpv6Type::ParameterProblem { code } => code,
            Icmpv6Type::EchoRequest { code } => code,
            Icmpv6Type::EchoReply { code } => code,
            Icmpv6Type::Other { code, .. } => code,
        }
    }

    /// The kind that a type byte and a code byte describe.
    pub fn from_type_code(t: u8, code: u8) -> (r: Self)
        ensures
            r == classify(t, code),
            r.wf(),
    {
        if t == TYPE_DESTINATION_UNREACHABLE {
            Icmpv6Type::DestinationUnreachable { code }
        } else if t == TYPE_PACKET_TOO_BIG {
            Icmpv6Type::PacketTooBig { code }
        } else if t == TYPE_TIME_EXCEEDED {
            Icmpv6Type::TimeExceeded { code }
        } else if t == TYPE_PARAMETER_PROBLEM {
            Icmpv6Type::ParameterProblem { code }
        } else if t == TYPE_ECHO_REQUEST {
            Icmpv6Type::EchoRequest { code }
        } else if t == TYPE_ECHO_REPLY {
            Icmpv6Type::EchoReply { code }
        } else {
            Icmpv6Type::Other { type_u8: t, code }
        }
    }

    /// The type byte on the wire.
    pub fn type_u8(&self) -> (r: u8)
        ensures
            r == self.spec_type_u8(),
    {
        match *self {
            Icmpv6Type::DestinationUnreachable { .. } => TYPE_DESTINATION_UNREACHABLE,
            Icmpv6Type::PacketTooBig { .. } => TYPE_PACKET_TOO_BIG,
            Icmpv6Type::TimeExceeded { .. } => TYPE_TIME_EXCEEDED,
            Icmpv6Type::ParameterProblem { .. } => TYPE_PARAMETER_PROBLEM,
            Icmpv6Type::EchoRequest { .. } => TYPE_ECHO_REQUEST,
            Icmpv6Type::EchoReply { .. } => TYPE_ECHO_REPLY,
            Icmpv6Type::Other { type_u8, .. } => type_u8,
        }
    }

    /// The code byte on the wire.
    pub fn code_u8(&self) -> (r: u8)
        ensures
            r == self.spec_code_u8(),
    {
        match *self {
            Icmpv6Type::DestinationUnreachable { code } => code,
            Icmpv6Type::PacketTooBig { code } => code,
            Icmpv6Type::TimeExceeded { code } => code,
            Icmpv6Type::ParameterProblem { code } => code,
            Icmpv6Type::EchoRequest { code } => code,
            Icmpv6Type::EchoReply { code } => code,
            Icmpv6Type::Other { code, .. } => code,
        }
    }
}

/// Classifying the bytes of a well-formed kind gives it back.
pub proof fn lemma_classify_round_trip(t: Icmpv6Type)
    requires
        t.wf(),
    ensures
        classify(t.spec_type_u8(), t.spec_code_u8()) == t,
{
}

/// An ICMPv6 header.
#[derive(Clone, Copy, Debug, PartialEq, Eq, Structural)]
pub struct Icmpv6Header {
    pub icmp_type: Icmpv6Type,
    pub checksum: u16,
}

impl Icmpv6Header {
    pub open spec fn wf(self) -> bool {
        self.icmp_type.wf()
    }

    /// Wire form: type, code, checksum (big-endian), then four zero bytes.
    pub open spec fn wire(self) -> Seq<u8> {
        seq![self.icmp_type.spec_type_u8(), self.icmp_type.spec_code_u8()] + be16_bytes(self.checksum)
            + seq![0u8, 0u8, 0u8, 0u8]
    }

    /// `self` holds the kind and checksum of the header at the start of `b`.
    pub open spec fn decoded_from(self, b: Seq<u8>) -> bool {
        &&& b.len() >= 8
        &&& self.icmp_type == classify(b[0], b[1])
        &&& self.checksum == be16(b[2], b[3])
    }

    pub fn new(icmp_type: Icmpv6Type, checksum: u16) -> (r: Self)
        ensures
            r == (Icmpv6Header { icmp_type, checksum }),
    {
        Icmpv6Header { icmp_type, checksum }
    }

    /// Length of the header on the wire.
    pub fn header_length(&self) -> (r: u8)
        ensures
            r == 8,
            r == self.wire().len(),
    {
        8
    }

    /// Serializes the header.
    pub fn to_bytes(&self) -> (r: Vec<u8>)
        ensures
            r@ == self.wire(),
    {
        icmpv6_to_bytes(self.icmp_type.type_u8(), self.icmp_type.code_u8(), self.checksum)
    }

    /// Decodes a header from the start of `b`; returns it with the number of
    /// bytes it occupies.
    pub fn decode(b: &[u8]) -> (r: Result<(Self, usize), DecodeError>)
        ensures
            b@.len() >= 8 <==> r.is_ok(),
            r matches Ok((h, n)) ==> n == 8 && h.wf() && h.decoded_from(b@),
            r matches Err(e) ==> e == (DecodeError::Truncated {
                layer: Layer::Transport,
                needed: 8,
                available: b@.len() as usize,
            }),
    {
        let trunc = DecodeError::Truncated {
            layer: Layer::Transport,
            needed: ICMPV6_HEADER_LEN,
            available: b.len(),
        };
        if b.len() < ICMPV6_HEADER_LEN {
            return Err(trunc);
        }
        let head = vstd::slice::slice_subrange(b, 0, ICMPV6_HEADER_LEN);
        match icmpv6_from_slice(head) {
            Some((t, code, checksum)) => {
                let icmp_type = Icmpv6Type::from_type_code(t, code);
                Ok((Icmpv6Header { icmp_type, checksum }, ICMPV6_HEADER_LEN))
            },
            None => Err(trunc),
        }
    }
}

/// Encoding then decoding a well-formed ICMPv6 header gives it back.
pub proof fn lemma_icmpv6_round_trip(h: Icmpv6Header, d: Icmpv6Header)
    requires
        h.wf(),
        d.decoded_from(h.wire()),
    ensures
        h.wire().len() == 8,
        d == h,
{
    lemma_be16_round_trip(h.checksum);
    lemma_classify_round_trip(h.icmp_type);
}

/// The encoding of every well-formed header decodes to it.
pub proof fn lemma_icmpv6_wire_decodes(h: Icmpv6Header)
    requires
        h.wf(),
    ensures
        h.decoded_from(h.wire()),
{
    lemma_be16_round_trip(h.checksum);
    lemma_classify_round_trip(h.icmp_type);
}

/// Relies on etherparse's `Icmpv6Header::to_bytes` for the `Unknown` kind:
/// type, code, checksum (big-endian) and the four given bytes.
#[verifier::external_body]
fn icmpv6_to_bytes(type_u8: u8, code_u8: u8, checksum: u16) -> (r: Vec<u8>)
    ensures
        r@ == seq![type_u8, code_u8] + be16_bytes(checksum) + seq![0u8, 0u8, 0u8, 0u8],
{
    let bytes5to8 = [0u8; 4];
    let icmp_type = etherparse::Icmpv6Type::Unknown { type_u8, code_u8, bytes5to8 };
    etherparse::Icmpv6Header { icmp_type, checksum }.to_bytes().to_vec()
}

/// Relies on etherparse's `Icmpv6Header::from_slice`, which accepts 8 bytes up
/// to `u32::MAX`, and on `Icmpv6Type::type_u8` and `code_u8`, which give back
/// the first two bytes whatever kind was recognised; returns them with the
/// checksum.
#[verifier::external_body]
fn icmpv6_from_slice(b: &[u8]) -> (r: Option<(u8, u8, u16)>)
    ensures
        r.is_some() <==> 8 <= b@.len() <= u32::MAX,
        r matches Some((t, c, s)) ==> t == b@[0] && c == b@[1] && s == be16(b@[2], b@[3]),
{
    match etherparse::Icmpv6Header::from_slice(b) {
        Ok((h, _)) => Some((h.icmp_type.type_u8(), h.icmp_type.code_u8(), h.checksum)),
        Err(_) => None,
    }
}

} // verus!
