//! The tally layout: two little-endian `u32` counters at the start of an
//! account's data, candidate A at bytes 0..4 and candidate B at bytes 4..8.

use byteorder::{ByteOrder, LittleEndian};
use vstd::prelude::*;

verus! {

/// Offset of the counter for candidate A.
pub const COUNTER_A_OFFSET: usize = 0;

/// Offset of the counter for candidate B.
pub const COUNTER_B_OFFSET: usize = 4;

/// Bytes that the two counters take.
pub const TALLY_LEN: usize = 8;

/// The unsigned value of the four bytes at `off`, least significant first.
pub open spec fn le_u32(b: Seq<u8>, off: int) -> int {
    b[off] as int + 256 * (b[off + 1] as int) + 65536 * (b[off + 2] as int) + 16777216 * (
    b[off + 3] as int)
}

/// The counter for candidate A.
pub open spec fn counter_a(d: Seq<u8>) -> int {
    le_u32(d, COUNTER_A_OFFSET as int)
}

/// The counter for candidate B.
pub open spec fn counter_b(d: Seq<u8>) -> int {
    le_u32(d, COUNTER_B_OFFSET as int)
}

/// A counter after one vote: one more, held at `u32::MAX` once it gets there.
pub open spec fn bumped(v: int) -> int {
    if v < u32::MAX {
        v + 1
    } else {
        v
    }
}

/// `after` is `before` with the counter at `off` bumped and every other byte kept.
pub open spec fn counter_bumped(before: Seq<u8>, after: Seq<u8>, off: int) -> bool {
    &&& after.len() == before.len()
    &&& le_u32(after, off) == bumped(le_u32(before, off))
    &&& forall|i: int|
        0 <= i < before.len() && !(off <= i < off + 4) ==> #[trigger] after[i] == before[i]
}

/// Relies on byteorder's `LittleEndian::read_u32`, which decodes the first four
/// bytes of the slice it is given, least significant first.
#[verifier::external_body]
fn read_le_u32(buf: &Vec<u8>, off: usize) -> (r: u32)
    requires
        off + 4 <= buf@.len(),
    ensures
        r as int == le_u32(buf@, off as int),
{
    LittleEndian::read_u32(&buf[off..])
}

/// Relies on byteorder's `LittleEndian::write_u32`, which overwrites the first
/// four bytes of the slice it is given with `n`, least significant first.
#[verifier::external_body]
fn write_le_u32(buf: &mut Vec<u8>, off: usize, n: u32)
    requires
        off + 4 <= old(buf)@.len(),
    ensures
        final(buf)@.len() == old(buf)@.len(),
        le_u32(final(buf)@, off as int) == n as int,
        forall|i: int|
            0 <= i < old(buf)@.len() && !(off <= i < off + 4) ==> #[trigger] final(buf)@[i]
                == old(buf)@[i],
{
    LittleEndian::write_u32(&mut buf[off..], n)
}

/// Adds one vote to the counter at `off`; a counter at `u32::MAX` stays there.
pub fn increment_counter(data: &mut Vec<u8>, off: usize)
    requires
        off + 4 <= old(data)@.len(),
    ensures
        counter_bumped(old(data)@, final(data)@, off as int),
{
    let v = read_le_u32(data, off);
    let next = v.saturating_add(1);
    write_le_u32(data, off, next);
}

} // verus!
