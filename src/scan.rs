//! Bounded marker search and little-endian field reads over an untrusted buffer.
use vstd::prelude::*;
use byteorder::{ByteOrder, LittleEndian};

verus! {

/// `pat` occurs in `b` starting at `off`, entirely inside `b`.
pub open spec fn bytes_at(b: Seq<u8>, pat: Seq<u8>, off: int) -> bool {
    0 <= off && off + pat.len() <= b.len() && b.subrange(off, off + pat.len()) == pat
}

/// The local-file-header marker `PK\x03\x04` starts at `i`.
pub open spec fn marker_at(b: Seq<u8>, i: int) -> bool {
    0 <= i && i + 4 <= b.len() && b[i] == 0x50 && b[i + 1] == 0x4B && b[i + 2] == 0x03 && b[i + 3]
        == 0x04
}

/// The first marker starting at or after `i` that ends at or before `end`.
pub open spec fn first_marker(b: Seq<u8>, i: int, end: int) -> Option<int>
    decreases end - i,
{
    if i + 4 > end {
        None
    } else if marker_at(b, i) {
        Some(i)
    } else {
        first_marker(b, i + 1, end)
    }
}

/// End of the search window: `start + range`, clamped to the buffer length.
pub open spec fn window_end(len: int, start: int, range: int) -> int {
    if start + range > len {
        len
    } else {
        start + range
    }
}

/// Position of the first marker inside `[start, min(start + range, len))`.
pub open spec fn scan_spec(b: Seq<u8>, start: int, range: int) -> Option<int> {
    if start >= b.len() {
        None
    } else {
        first_marker(b, start, window_end(b.len() as int, start, range))
    }
}

/// The unsigned 32-bit value stored little-endian in four bytes.
pub open spec fn le_u32(b0: u8, b1: u8, b2: u8, b3: u8) -> int {
    b0 as int + 0x100 * (b1 as int) + 0x10000 * (b2 as int) + 0x1000000 * (b3 as int)
}

/// Whether `sub_slice` occurs in `slice` at `start_offset`.
pub fn compare_bytes(slice: &[u8], sub_slice: &[u8], start_offset: usize) -> (r: bool)
    ensures
        r == bytes_at(slice@, sub_slice@, start_offset as int),
{
    let sl = sub_slice.len();
    if start_offset > slice.len() || sl > slice.len() - start_offset {
        return false;
    }
    let mut i: usize = 0;
    while i < sl
        invariant
            i <= sl,
            sl == sub_slice@.len(),
            start_offset + sl <= slice.len(),
            forall|k: int| 0 <= k < i ==> slice@[start_offset + k] == sub_slice@[k],
        decreases sl - i,
    {
        if slice[start_offset + i] != sub_slice[i] {
            assert(slice@.subrange(start_offset as int, start_offset + sl)[i as int]
                != sub_slice@[i as int]);
            return false;
        }
        i += 1;
    }
    assert(slice@.subrange(start_offset as int, start_offset + sl) =~= sub_slice@);
    true
}

proof fn lemma_first_marker_found(b: Seq<u8>, i: int, end: int)
    requires
        first_marker(b, i, end) is Some,
    ensures
        i <= first_marker(b, i, end)->0,
        first_marker(b, i, end)->0 + 4 <= end,
        marker_at(b, first_marker(b, i, end)->0),
    decreases end - i,
{
    if i + 4 <= end && !marker_at(b, i) {
        lemma_first_marker_found(b, i + 1, end);
    }
}

proof fn lemma_first_marker_none(b: Seq<u8>, i: int, end: int)
    requires
        i + 4 > end,
    ensures
        first_marker(b, i, end) is None,
{
}

/// Searches for the marker within `[start, min(start + range, buf.len()))` and
/// returns its position in `buf`.
pub fn search(buf: &[u8], start: usize, range: usize) -> (r: Option<usize>)
    ensures
        match r {
            Some(p) => scan_spec(buf@, start as int, range as int) == Some(p as int),
            None => scan_spec(buf@, start as int, range as int) is None,
        },
        (start >= buf@.len() || range == 0) ==> r is None,
        r matches Some(p) ==> start <= p && p + 4 <= buf@.len() && marker_at(buf@, p as int),
{
    let length = buf.len();
    if start >= length {
        return None;
    }
    let end: usize = if range > length - start {
        length
    } else {
        start + range
    };
    if end - start < 4 {
        proof {
            lemma_first_marker_none(buf@, start as int, end as int);
        }
        return None;
    }
    let mut i: usize = start;
    while i <= end - 4
        invariant
            start <= i,
            4 <= end <= buf@.len(),
            end == window_end(buf@.len() as int, start as int, range as int),
            first_marker(buf@, start as int, end as int) == first_marker(
                buf@,
                i as int,
                end as int,
            ),
        decreases end - i,
    {
        if buf[i] == 0x50 && buf[i + 1] == 0x4B && buf[i + 2] == 0x03 && buf[i + 3] == 0x04 {
            proof {
                lemma_first_marker_found(buf@, start as int, end as int);
            }
            return Some(i);
        }
        i += 1;
    }
    None
}

/// Relies on byteorder's `LittleEndian::read_u32`: the first four bytes of
/// `buf`, least significant first; it panics on fewer than four bytes.
#[verifier::external_body]
fn read_le_u32(buf: &[u8]) -> (r: u32)
    requires
        buf@.len() >= 4,
    ensures
        r as int == le_u32(buf@[0], buf@[1], buf@[2], buf@[3]),
{
    LittleEndian::read_u32(buf)
}

/// The little-endian 32-bit field at `offset`, if it lies inside `buf`.
pub fn read_u32_le(buf: &[u8], offset: usize) -> (r: Option<u32>)
    ensures
        match r {
            Some(v) => offset + 4 <= buf@.len() && v as int == le_u32(
                buf@[offset as int],
                buf@[offset + 1],
                buf@[offset + 2],
                buf@[offset + 3],
            ),
            None => offset + 4 > buf@.len(),
        },
{
    if offset > buf.len() || buf.len() - offset < 4 {
        return None;
    }
    let field = vstd::slice::slice_subrange(buf, offset, offset + 4);
    Some(read_le_u32(field))
}

} // verus!
