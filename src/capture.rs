//! Reader for the classic packet-capture container: a 24-byte global header
//! (magic number, version, snapshot length, link-layer type), then records of
//! a 16-byte header (timestamp, captured length, length on the wire) followed by
//! the captured bytes.

use vstd::prelude::*;
use crate::wire::be32;
use crate::error::CaptureError;
use crate::packet::{parse_packet, packet_decoded, ethernet_path_accepts, ip_path_accepts, ParsedPacket};

verus! {

/// Size of the global header.
pub const GLOBAL_HEADER_LEN: usize = 24;

/// Size of a record header.
pub const RECORD_HEADER_LEN: usize = 16;

/// A 32-bit value at `i`, in the container's byte order.
pub open spec fn u32_at(b: Seq<u8>, i: int, big_endian: bool) -> u32 {
    if big_endian {
        be32(b[i], b[i + 1], b[i + 2], b[i + 3])
    } else {
        be32(b[i + 3], b[i + 2], b[i + 1], b[i])
    }
}

/// A 16-bit value at `i`, in the container's byte order.
pub open spec fn u16_at(b: Seq<u8>, i: int, big_endian: bool) -> u16 {
    if big_endian {
        (b[i] as int * 256 + b[i + 1] as int) as u16
    } else {
        (b[i + 1] as int * 256 + b[i] as int) as u16
    }
}

/// The byte order and timestamp resolution that the magic number at the
/// start of `b` announces: `(big_endian, nanosecond)`.
pub open spec fn spec_magic(b: Seq<u8>) -> Option<(bool, bool)> {
    if b.len() < 4 {
        None
    } else if b[0] == 0xD4 && b[1] == 0xC3 && b[2] == 0xB2 && b[3] == 0xA1 {
        Some((false, false))
    } else if b[0] == 0xA1 && b[1] == 0xB2 && b[2] == 0xC3 && b[3] == 0xD4 {
        Some((true, false))
    } else if b[0] == 0x4D && b[1] == 0x3C && b[2] == 0xB2 && b[3] == 0xA1 {
        Some((false, true))
    } else if b[0] == 0xA1 && b[1] == 0xB2 && b[2] == 0x3C && b[3] == 0x4D {
        Some((true, true))
    } else {
        None
    }
}

/// `b` starts with a well-formed global header.
pub open spec fn header_valid(b: Seq<u8>) -> bool {
    b.len() >= 24 && spec_magic(b) is Some
}

/// The captured bytes of the records from offset `pos` on. A record whose
/// header or bytes run past the end ends the sequence.
pub open spec fn records_from(b: Seq<u8>, pos: int, big_endian: bool) -> Seq<Seq<u8>>
    decreases b.len() - pos,
{
    if pos < 0 || pos + 16 > b.len() {
        Seq::empty()
    } else {
        let n = u32_at(b, pos + 8, big_endian) as int;
        if pos + 16 + n > b.len() {
            Seq::empty()
        } else {
            seq![b.subrange(pos + 16, pos + 16 + n)] + records_from(b, pos + 16 + n, big_endian)
        }
    }
}

/// The offset where the records from `pos` on end: the end of the last
/// complete record.
pub open spec fn records_end(b: Seq<u8>, pos: int, big_endian: bool) -> int
    decreases b.len() - pos,
{
    if pos < 0 || pos + 16 > b.len() {
        pos
    } else {
        let n = u32_at(b, pos + 8, big_endian) as int;
        if pos + 16 + n > b.len() {
            pos
        } else {
            records_end(b, pos + 16 + n, big_endian)
        }
    }
}

/// `tail` is a record cut short: too short for its header, or announcing more
/// captured bytes than follow its header.
pub open spec fn cut_record(tail: Seq<u8>, big_endian: bool) -> bool {
    tail.len() >= 16 ==> 16 + u32_at(tail, 8, big_endian) > tail.len()
}

/// The records of a container with a valid global header.
pub open spec fn container_records(b: Seq<u8>) -> Seq<Seq<u8>> {
    records_from(b, 24, spec_magic(b).unwrap().0)
}

/// The layered decoder succeeds on `b`.
pub open spec fn decodable(b: Seq<u8>) -> bool {
    ethernet_path_accepts(b) || ip_path_accepts(b)
}

/// The records that the layered decoder accepts, in order.
pub open spec fn decodable_records(s: Seq<Seq<u8>>) -> Seq<Seq<u8>>
    decreases s.len(),
{
    if s.len() == 0 {
        Seq::empty()
    } else {
        let init = decodable_records(s.drop_last());
        if decodable(s.last()) { init.push(s.last()) } else { init }
    }
}

/// The global header of a container.
#[derive(Clone, Copy, Debug, PartialEq, Eq, Structural)]
pub struct CaptureHeader {
    pub big_endian: bool,
    pub nanosecond: bool,
    pub version_major: u16,
    pub version_minor: u16,
    pub snaplen: u32,
    pub link_type: u32,
}

/// One record: its timestamp, the packet length on the wire and the captured bytes.
#[derive(Clone, Debug, PartialEq, Eq)]
pub struct CaptureRecord {
    pub ts_sec: u32,
    /// Microseconds, or nanoseconds in a nanosecond container.
    pub ts_frac: u32,
    pub orig_len: u32,
    pub data: Vec<u8>,
}

/// The global header that the first 24 bytes of `b` hold.
pub open spec fn spec_header(b: Seq<u8>) -> CaptureHeader {
    let (big_endian, nanosecond) = spec_magic(b).unwrap();
    CaptureHeader {
        big_endian,
        nanosecond,
        version_major: u16_at(b, 4, big_endian),
        version_minor: u16_at(b, 6, big_endian),
        snaplen: u32_at(b, 16, big_endian),
        link_type: u32_at(b, 20, big_endian),
    }
}

/// A forward-only cursor over the records of a container held in memory.
pub struct CaptureReader {
    data: Vec<u8>,
    pos: usize,
    header: CaptureHeader,
}

fn read_u32(b: &[u8], i: usize, big_endian: bool) -> (r: u32)
    requires
        i + 4 <= b@.len(),
    ensures
        r == u32_at(b@, i as int, big_endian),
{
    if big_endian {
        crate::wire::read_be32(b, i)
    } else {
        (b[i] as u32) + (b[i + 1] as u32) * 0x100 + (b[i + 2] as u32) * 0x1_0000 + (b[i + 3] as u32) * 0x100_0000
    }
}

fn read_u16(b: &[u8], i: usize, big_endian: bool) -> (r: u16)
    requires
        i + 2 <= b@.len(),
    ensures
        r == u16_at(b@, i as int, big_endian),
{
    if big_endian {
        (b[i] as u16) * 256 + (b[i + 1] as u16)
    } else {
        (b[i] as u16) + (b[i + 1] as u16) * 256
    }
}

/// Reads the magic number at the start of `b`.
fn read_magic(b: &[u8]) -> (r: Option<(bool, bool)>)
    ensures
        r == spec_magic(b@),
{
    if b.len() < 4 {
        None
    } else if b[0] == 0xD4 && b[1] == 0xC3 && b[2] == 0xB2 && b[3] == 0xA1 {
        Some((false, false))
    } else if b[0] == 0xA1 && b[1] == 0xB2 && b[2] == 0xC3 && b[3] == 0xD4 {
        Some((true, false))
    } else if b[0] == 0x4D && b[1] == 0x3C && b[2] == 0xB2 && b[3] == 0xA1 {
        Some((false, true))
    } else if b[0] == 0xA1 && b[1] == 0xB2 && b[2] == 0x3C && b[3] == 0x4D {
        Some((true, true))
    } else {
        None
    }
}

impl CaptureReader {
    /// The records not read yet.
    pub closed spec fn remaining(&self) -> Seq<Seq<u8>> {
        records_from(self.data@, self.pos as int, self.header.big_endian)
    }

    /// The header was read from the container bytes.
    pub closed spec fn wf(&self) -> bool {
        header_valid(self.data@) && self.header == spec_header(self.data@)
    }

    /// The container bytes.
    pub closed spec fn bytes(&self) -> Seq<u8> {
        self.data@
    }

    /// Offset of the next record header.
    pub closed spec fn cursor(&self) -> int {
        self.pos as int
    }

    /// Reads the global header; fails with `ContainerOpenFailed` when it is
    /// cut short or its magic number is unknown.
    pub fn open(data: Vec<u8>) -> (r: Result<CaptureReader, CaptureError>)
        ensures
            header_valid(data@) <==> r.is_ok(),
            r matches Ok(c) ==> c.wf() && c.bytes() == data@ && c.remaining() == container_records(data@),
            r matches Err(e) ==> e == CaptureError::ContainerOpenFailed,
    {
        if data.len() < GLOBAL_HEADER_LEN {
            return Err(CaptureError::ContainerOpenFailed);
        }
        let (big_endian, nanosecond) = match read_magic(data.as_slice()) {
            Some(m) => m,
            None => return Err(CaptureError::ContainerOpenFailed),
        };
        let b = data.as_slice();
        let header = CaptureHeader {
            big_endian,
            nanosecond,
            version_major: read_u16(b, 4, big_endian),
            version_minor: read_u16(b, 6, big_endian),
            snaplen: read_u32(b, 16, big_endian),
            link_type: read_u32(b, 20, big_endian),
        };
        Ok(CaptureReader { data, pos: GLOBAL_HEADER_LEN, header })
    }

    /// The global header.
    pub fn header(&self) -> (r: CaptureHeader)
        requires
            self.wf(),
        ensures
            r == spec_header(self.bytes()),
    {
        self.header
    }

    /// The next record, or `None` at the end of the container or at a record
    /// that runs past it; after that the reader stays at its end.
    pub fn next_record(&mut self) -> (r: Option<CaptureRecord>)
        requires
            old(self).wf(),
        ensures
            final(self).wf(),
            final(self).bytes() == old(self).bytes(),
            old(self).remaining().len() == 0 ==> r is None && final(self).remaining().len() == 0,
            old(self).remaining().len() > 0 ==> (r matches Some(rec)
                && rec.data@ == old(self).remaining()[0]
                && final(self).remaining() == old(self).remaining().drop_first()
                && rec.ts_sec == u32_at(old(self).bytes(), old(self).cursor(), spec_header(old(self).bytes()).big_endian)
                && rec.ts_frac == u32_at(old(self).bytes(), old(self).cursor() + 4, spec_header(old(self).bytes()).big_endian)
                && rec.orig_len == u32_at(old(self).bytes(), old(self).cursor() + 12, spec_header(old(self).bytes()).big_endian)),
    {
        let len = self.data.len();
        let pos = self.pos;
        if pos > len || len - pos < RECORD_HEADER_LEN {
            self.pos = len;
            proof {
                assert(self.remaining() =~= Seq::<Seq<u8>>::empty());
            }
            return None;
        }
        let b = self.data.as_slice();
        let be = self.header.big_endian;
        let n = read_u32(b, pos + 8, be) as usize;
        if n > len - pos - RECORD_HEADER_LEN {
            self.pos = len;
            proof {
                assert(self.remaining() =~= Seq::<Seq<u8>>::empty());
            }
            return None;
        }
        let start = pos + RECORD_HEADER_LEN;
        let data = vstd::slice::slice_to_vec(vstd::slice::slice_subrange(b, start, start + n));
        let rec = CaptureRecord {
            ts_sec: read_u32(b, pos, be),
            ts_frac: read_u32(b, pos + 4, be),
            orig_len: read_u32(b, pos + 12, be),
            data,
        };
        self.pos = start + n;
        proof {
            let old_rem = records_from(self.data@, pos as int, be);
            assert(old_rem.drop_first() =~= self.remaining());
        }
        Some(rec)
    }
}

/// Reads every record of a container and decodes each with the layered
/// decoder; records that do not decode are skipped. Fails only when the
/// global header is malformed.
pub fn parse_pcap_data(data: Vec<u8>) -> (r: Result<Vec<ParsedPacket>, CaptureError>)
    ensures
        header_valid(data@) <==> r.is_ok(),
        r matches Err(e) ==> e == CaptureError::ContainerOpenFailed,
        r matches Ok(ps) ==> ps@.len() == decodable_records(container_records(data@)).len()
            && forall|i: int| 0 <= i < ps@.len()
                ==> packet_decoded(#[trigger] decodable_records(container_records(data@))[i], ps@[i]),
{
    let ghost all = container_records(data@);
    let mut reader = CaptureReader::open(data)?;
    let mut out: Vec<ParsedPacket> = Vec::new();
    let ghost mut seen: Seq<Seq<u8>> = Seq::empty();
    loop
        invariant
            reader.wf(),
            seen + reader.remaining() == all,
            out@.len() == decodable_records(seen).len(),
            forall|i: int| 0 <= i < out@.len() ==> packet_decoded(#[trigger] decodable_records(seen)[i], out@[i]),
        ensures
            seen == all,
            out@.len() == decodable_records(seen).len(),
            forall|i: int| 0 <= i < out@.len() ==> packet_decoded(#[trigger] decodable_records(seen)[i], out@[i]),
        decreases reader.remaining().len(),
    {
        let ghost before = reader.remaining();
        match reader.next_record() {
            None => {
                assert(seen =~= all);
                break;
            },
            Some(rec) => {
                proof {
                    assert(before =~= seq![before[0]] + before.drop_first());
                    let next = seen.push(rec.data@);
                    assert(next.drop_last() =~= seen);
                    assert(next + reader.remaining() =~= all) by {
                        assert(seen + before == all);
                    }
                }
                match parse_packet(rec.data.as_slice()) {
                    Ok(p) => {
                        out.push(p);
                    },
                    Err(_) => {},
                }
                proof {
                    seen = seen.push(rec.data@);
                }
            },
        }
    }
    Ok(out)
}

/// A container that holds only its global header has no records.
pub proof fn lemma_no_records(b: Seq<u8>)
    requires
        header_valid(b),
        b.len() == 24,
    ensures
        container_records(b).len() == 0,
{
}

/// A record whose captured length runs past the end of the container ends
/// the sequence there.
pub proof fn lemma_truncated_record_ends(b: Seq<u8>, pos: int, big_endian: bool)
    requires
        0 <= pos,
        pos + 16 > b.len() || pos + 16 + u32_at(b, pos + 8, big_endian) > b.len(),
    ensures
        records_from(b, pos, big_endian).len() == 0,
{
}

/// Complete records followed by one cut short: the cut record adds nothing,
/// and the records read are the complete ones, in order.
pub proof fn lemma_cut_record_adds_nothing(b: Seq<u8>, tail: Seq<u8>, pos: int, big_endian: bool)
    requires
        0 <= pos <= b.len(),
        records_end(b, pos, big_endian) == b.len(),
        cut_record(tail, big_endian),
    ensures
        records_from(b + tail, pos, big_endian) == records_from(b, pos, big_endian),
    decreases b.len() - pos,
{
    let c = b + tail;
    if pos + 16 > b.len() {
        assert(pos == b.len());
        if c.len() >= pos + 16 {
            assert(u32_at(c, pos + 8, big_endian) == u32_at(tail, 8, big_endian));
        }
    } else {
        let n = u32_at(b, pos + 8, big_endian) as int;
        assert(u32_at(c, pos + 8, big_endian) == n);
        assert(pos + 16 + n <= b.len());
        assert(c.subrange(pos + 16, pos + 16 + n) =~= b.subrange(pos + 16, pos + 16 + n));
        lemma_cut_record_adds_nothing(b, tail, pos + 16 + n, big_endian);
    }
}

/// A container of complete records followed by one record cut short yields
/// the complete records only.
pub proof fn lemma_container_cut_record(b: Seq<u8>, tail: Seq<u8>)
    requires
        header_valid(b),
        records_end(b, 24, spec_magic(b).unwrap().0) == b.len(),
        cut_record(tail, spec_magic(b).unwrap().0),
    ensures
        header_valid(b + tail),
        container_records(b + tail) == container_records(b),
{
    let c = b + tail;
    assert(c[0] == b[0] && c[1] == b[1] && c[2] == b[2] && c[3] == b[3]);
    lemma_cut_record_adds_nothing(b, tail, 24, spec_magic(b).unwrap().0);
}

} // verus!
