use vstd::bytes::{spec_u32_from_le_bytes, spec_u64_from_le_bytes, u32_from_le_bytes, u64_from_le_bytes};
use vstd::prelude::*;
use vstd::slice::slice_subrange;

verus! {

// The engine lays its blocks out as C does on a little-endian host: each
// field at its natural alignment, multi-byte integers least significant
// byte first.

/// Size of the architecture-specific part of the detail block.
pub const ARCH_PAYLOAD_SIZE: usize = 1480;

/// The `u32` stored at `off` in `s`.
pub open spec fn le_u32_at(s: Seq<u8>, off: int) -> u32 {
    spec_u32_from_le_bytes(s.subrange(off, off + 4))
}

/// The `u64` stored at `off` in `s`.
pub open spec fn le_u64_at(s: Seq<u8>, off: int) -> u64 {
    spec_u64_from_le_bytes(s.subrange(off, off + 8))
}

/// The low half of a 64-bit word, which is the 32-bit field stored first.
pub open spec fn low_half(w: u64) -> u32 {
    (w & 0xffff_ffff) as u32
}

/// The high half of a 64-bit word, which is the 32-bit field stored second.
pub open spec fn high_half(w: u64) -> u32 {
    (w >> 32) as u32
}

/// The number of entries that a count field `count` makes visible in a
/// fixed array of `cap`: never more than the array holds.
pub open spec fn visible_count(count: int, cap: int) -> int {
    if count <= cap {
        count
    } else {
        cap
    }
}

pub(crate) fn read_u32(s: &[u8], off: usize) -> (r: u32)
    requires
        off + 4 <= s@.len(),
    ensures
        r == le_u32_at(s@, off as int),
{
    let rest = slice_subrange(s, off, s.len());
    assert(rest@.subrange(0, 4) =~= s@.subrange(off as int, off + 4));
    u32_from_le_bytes(slice_subrange(rest, 0, 4))
}

pub(crate) fn read_u64(s: &[u8], off: usize) -> (r: u64)
    requires
        off + 8 <= s@.len(),
    ensures
        r == le_u64_at(s@, off as int),
{
    let rest = slice_subrange(s, off, s.len());
    assert(rest@.subrange(0, 8) =~= s@.subrange(off as int, off + 8));
    u64_from_le_bytes(slice_subrange(rest, 0, 8))
}

pub(crate) fn low_half_of(w: u64) -> (r: u32)
    ensures
        r == low_half(w),
{
    (w & 0xffff_ffff) as u32
}

pub(crate) fn high_half_of(w: u64) -> (r: u32)
    ensures
        r == high_half(w),
{
    (w >> 32) as u32
}

} // verus!
