//! Binary framing of byte fields.
//!
//! A field travels as an 8-byte little-endian length prefix followed by the
//! payload bytes, the fixed-width framing the portable state blobs use.
//! Decoding tolerates trailing bytes after a field, so several fields can be
//! laid out back to back and read off one after the other.

use vstd::prelude::*;
use vstd::bytes::{spec_u64_from_le_bytes, spec_u64_to_le_bytes, u64_from_le_bytes, u64_to_le_bytes};
use vstd::bytes::lemma_auto_spec_u64_to_from_le_bytes;
use vstd::slice::{slice_subrange, slice_to_vec};

verus! {

/// The framed form of a payload: 8-byte little-endian length, then the bytes.
pub open spec fn frame_of(payload: Seq<u8>) -> Seq<u8>
    recommends
        payload.len() <= u64::MAX,
{
    spec_u64_to_le_bytes(payload.len() as u64) + payload
}

/// Whether a well-formed framed field starts at offset `off` of `s`.
pub open spec fn field_at_ok(s: Seq<u8>, off: int) -> bool {
    &&& 0 <= off
    &&& off + 8 <= s.len()
    &&& spec_u64_from_le_bytes(s.subrange(off, off + 8)) <= s.len() - off - 8
}

/// The length of the field starting at offset `off`.
pub open spec fn field_at_len(s: Seq<u8>, off: int) -> int {
    spec_u64_from_le_bytes(s.subrange(off, off + 8)) as int
}

/// The payload of the field starting at offset `off`.
pub open spec fn field_at(s: Seq<u8>, off: int) -> Seq<u8> {
    s.subrange(off + 8, off + 8 + field_at_len(s, off))
}

/// The offset just past the field starting at offset `off`.
pub open spec fn field_at_end(s: Seq<u8>, off: int) -> int {
    off + 8 + field_at_len(s, off)
}

/// A framed field encodes exactly its payload: reading at the position where
/// `frame_of(x)` was laid down gives `x` back.
pub proof fn lemma_field_at_frame(s: Seq<u8>, off: int, x: Seq<u8>)
    requires
        0 <= off,
        off + 8 + x.len() <= s.len(),
        x.len() <= u64::MAX,
        s.subrange(off, off + 8 + x.len()) == frame_of(x),
    ensures
        field_at_ok(s, off),
        field_at(s, off) == x,
        field_at_end(s, off) == off + 8 + x.len(),
{
    lemma_auto_spec_u64_to_from_le_bytes();
    let w = frame_of(x);
    assert(spec_u64_to_le_bytes(x.len() as u64).len() == 8);
    assert(s.subrange(off, off + 8) =~= s.subrange(off, off + 8 + x.len()).subrange(0, 8));
    assert(w.subrange(0, 8) =~= spec_u64_to_le_bytes(x.len() as u64));
    assert(spec_u64_from_le_bytes(s.subrange(off, off + 8)) == x.len());
    assert(field_at(s, off) =~= s.subrange(off, off + 8 + x.len()).subrange(8, 8 + x.len() as int));
    assert(w.subrange(8, 8 + x.len() as int) =~= x);
    assert(field_at(s, off) =~= x);
}

/// A sequence that is exactly one framed field parses as that field.
pub proof fn lemma_frame_parses(x: Seq<u8>)
    requires
        x.len() <= u64::MAX,
    ensures
        frame_of(x).len() == 8 + x.len(),
        field_at_ok(frame_of(x), 0),
        field_at(frame_of(x), 0) == x,
        field_at_end(frame_of(x), 0) == frame_of(x).len(),
{
    lemma_auto_spec_u64_to_from_le_bytes();
    let s = frame_of(x);
    assert(s.subrange(0, 8 + x.len() as int) =~= s);
    lemma_field_at_frame(s, 0, x);
}

/// Write the framed form of `data` onto the end of `out`.
pub fn push_frame(out: &mut Vec<u8>, data: &[u8])
    ensures
        final(out)@ == old(out)@ + frame_of(data@),
{
    proof {
        lemma_auto_spec_u64_to_from_le_bytes();
    }
    let len_bytes = u64_to_le_bytes(data.len() as u64);
    out.extend_from_slice(len_bytes.as_slice());
    out.extend_from_slice(data);
    proof {
        assert(out@ =~= old(out)@ + frame_of(data@));
    }
}

/// Read the framed field starting at `off`; `None` if no well-formed field
/// starts there. On success returns the payload and the offset just past it.
pub fn read_field(s: &[u8], off: usize) -> (r: Option<(Vec<u8>, usize)>)
    requires
        off <= s@.len(),
    ensures
        match r {
            Some((v, end)) => {
                &&& field_at_ok(s@, off as int)
                &&& v@ == field_at(s@, off as int)
                &&& end as int == field_at_end(s@, off as int)
                &&& off < end <= s@.len()
            },
            None => !field_at_ok(s@, off as int),
        },
{
    proof {
        lemma_auto_spec_u64_to_from_le_bytes();
    }
    if s.len() - off < 8 {
        return None;
    }
    let prefix = slice_subrange(s, off, off + 8);
    let n = u64_from_le_bytes(prefix);
    let avail: usize = s.len() - off - 8;
    if n > avail as u64 {
        return None;
    }
    let n_us = n as usize;
    let payload = slice_subrange(s, off + 8, off + 8 + n_us);
    Some((slice_to_vec(payload), off + 8 + n_us))
}

} // verus!
