//! Frame scanner: locates command frames inside a raw receive buffer.
//!
//! A frame starts at the two-byte marker `0xAA 0x55`. The scanner walks the
//! buffer left to right, stops at the first marker, and decodes the 16 bytes
//! beginning there. A marker with fewer than 16 bytes after its start is an
//! incomplete match: no decode happens, and the caller keeps the tail and
//! rescans once more bytes arrive. A `0xAA` not immediately followed by
//! `0x55` is no marker at all.

use vstd::prelude::*;
use vstd::slice::{slice_index_get, slice_subrange};
use crate::frame::{decode_exact, frame_of_bytes, CommandFrame, FRAME_LEN};

verus! {

/// First byte of the frame marker.
pub const MARKER_BYTE_0: u8 = 0xAA;

/// Second byte of the frame marker.
pub const MARKER_BYTE_1: u8 = 0x55;

/// The two-byte marker `0xAA 0x55` starts at position `i` of `s`.
pub open spec fn marker_at(s: Seq<u8>, i: int) -> bool {
    0 <= i && i + 1 < s.len() && s[i] == 0xAA && s[i + 1] == 0x55
}

/// Position of the first marker at or after `i`, if any.
pub open spec fn find_marker_from(s: Seq<u8>, i: int) -> Option<int>
    decreases s.len() - i,
{
    if i + 1 >= s.len() {
        None
    } else if s[i] == 0xAA && s[i + 1] == 0x55 {
        Some(i)
    } else {
        find_marker_from(s, i + 1)
    }
}

/// `find_marker_from` returns the position of the first marker at or after
/// `i`, and `None` exactly when no position from `i` on holds one.
pub proof fn lemma_find_marker_from_correct(s: Seq<u8>, i: int)
    requires
        0 <= i,
    ensures
        match find_marker_from(s, i) {
            Some(m) => marker_at(s, m) && i <= m && forall|j: int|
                i <= j < m ==> !marker_at(s, j),
            None => forall|j: int| i <= j ==> !marker_at(s, j),
        },
    decreases s.len() - i,
{
    if i + 1 >= s.len() {
    } else if s[i] == 0xAA && s[i + 1] == 0x55 {
    } else {
        lemma_find_marker_from_correct(s, i + 1);
    }
}

/// A buffer in which no `0xAA` is immediately followed by `0x55` holds no
/// marker at all: the scanner never latches on a lone `0xAA`.
pub proof fn lemma_lone_marker_byte_ignored(s: Seq<u8>)
    requires
        forall|i: int| !(#[trigger] marker_at(s, i)),
    ensures
        find_marker_from(s, 0) is None,
{
    lemma_find_marker_from_correct(s, 0);
    if let Some(m) = find_marker_from(s, 0) {
        assert(marker_at(s, m));
        assert(false);
    }
}

/// Outcome of one scan over a receive buffer.
#[derive(Clone, Copy, Debug, PartialEq, Eq, Structural)]
pub enum ScanResult {
    /// A marker was found with a full 16 bytes from its start: the decoded
    /// frame.
    Found(CommandFrame),
    /// A marker was found at this position, but fewer than 16 bytes follow
    /// from its start. Nothing was decoded; the caller should keep the bytes
    /// from this position on and scan again after the next read.
    Incomplete(usize),
    /// No marker anywhere in the buffer.
    NoMarker,
}

/// Scan `buf` for the first marker and decode the frame starting there.
///
/// A frame is decoded only from a marker with at least 16 bytes from its
/// start, and only the first marker counts, even when bytes after it happen
/// to look like another marker. A lone `0xAA` without a following `0x55` is
/// passed over.
pub fn scan(buf: &[u8]) -> (r: ScanResult)
    ensures
        r == match find_marker_from(buf@, 0) {
            Some(i) => if buf@.len() - i >= 16 {
                ScanResult::Found(frame_of_bytes(buf@.subrange(i, i + 16)))
            } else {
                ScanResult::Incomplete(i as usize)
            },
            None => ScanResult::NoMarker,
        },
{
    let len = buf.len();
    if len < 2 {
        return ScanResult::NoMarker;
    }
    let mut j: usize = 0;
    while j < len - 1
        invariant
            len == buf@.len(),
            2 <= len,
            j <= len,
            find_marker_from(buf@, 0) == find_marker_from(buf@, j as int),
        decreases len - j,
    {
        if *slice_index_get(buf, j) == MARKER_BYTE_0 && *slice_index_get(buf, j + 1)
            == MARKER_BYTE_1 {
            if len - j >= FRAME_LEN {
                let body = slice_subrange(buf, j, j + FRAME_LEN);
                let f = decode_exact(body);
                proof {
                    assert(body@ =~= buf@.subrange(j as int, j + 16));
                }
                return ScanResult::Found(f);
            } else {
                return ScanResult::Incomplete(j);
            }
        }
        j = j + 1;
    }
    ScanResult::NoMarker
}

/// Drop everything before `pos` from a receive buffer, keeping the tail.
///
/// This is the retention step after an incomplete match: the bytes from the
/// reported marker position on are kept, and the next read's bytes are
/// appended before scanning again.
pub fn retain_tail(acc: &mut Vec<u8>, pos: usize)
    requires
        pos <= old(acc)@.len(),
    ensures
        final(acc)@ == old(acc)@.subrange(pos as int, old(acc)@.len() as int),
{
    let mut tail: Vec<u8> = Vec::new();
    let mut i: usize = pos;
    while i < acc.len()
        invariant
            pos <= i <= acc@.len(),
            acc@ == old(acc)@,
            tail@ == acc@.subrange(pos as int, i as int),
        decreases acc@.len() - i,
    {
        tail.push(acc[i]);
        proof {
            assert(acc@.subrange(pos as int, i + 1 as int) =~= acc@.subrange(
                pos as int,
                i as int,
            ).push(acc@[i as int]));
        }
        i = i + 1;
    }
    *acc = tail;
}

} // verus!
