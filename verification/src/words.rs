//! Reading and writing little-endian 32-bit scalars inside byte buffers.
//!
//! Every scalar in the serialized formats is four bytes wide: positions,
//! normals, tangents and texture coordinates are single-precision floats
//! (carried as their bit patterns) and face indices are unsigned 32-bit
//! integers. This module gives one verified reader and writer for such a
//! word at a byte offset, which the geometry and shape decoders share.

use vstd::bytes::{
    lemma_auto_spec_u32_to_from_le_bytes, spec_u32_from_le_bytes, spec_u32_to_le_bytes,
    u32_from_le_bytes, u32_to_le_bytes,
};
use vstd::prelude::*;
use vstd::slice::slice_subrange;

verus! {

/// The 32-bit word whose four little-endian bytes sit at `off` in `s`.
pub open spec fn spec_word_at(s: Seq<u8>, off: int) -> u32 {
    spec_u32_from_le_bytes(s.subrange(off, off + 4))
}

/// Reads the little-endian 32-bit word at byte offset `off`.
pub fn word_at(data: &[u8], off: usize) -> (r: u32)
    requires
        off + 4 <= data@.len(),
    ensures
        r == spec_word_at(data@, off as int),
{
    let n = data.len();
    let bytes = slice_subrange(data, off, off + 4);
    u32_from_le_bytes(bytes)
}

/// Appends the four little-endian bytes of `w`.
pub fn push_word(out: &mut Vec<u8>, w: u32)
    ensures
        final(out)@ == old(out)@ + spec_u32_to_le_bytes(w),
        final(out)@.len() == old(out)@.len() + 4,
{
    let mut bytes = u32_to_le_bytes(w);
    proof {
        lemma_auto_spec_u32_to_from_le_bytes();
    }
    out.append(&mut bytes);
}

/// A word read below the length of a prefix is the same in the longer buffer.
pub proof fn lemma_word_at_prefix(short: Seq<u8>, long: Seq<u8>, off: int)
    requires
        0 <= off,
        off + 4 <= short.len(),
        short.len() <= long.len(),
        short == long.subrange(0, short.len() as int),
    ensures
        spec_word_at(long, off) == spec_word_at(short, off),
{
    assert(long.subrange(off, off + 4) =~= short.subrange(off, off + 4));
}

/// Round trip: reading back the four bytes that `spec_u32_to_le_bytes` wrote
/// at offset `off` yields the written word.
pub proof fn lemma_word_at_written(s: Seq<u8>, off: int, w: u32)
    requires
        0 <= off,
        off + 4 <= s.len(),
        s.subrange(off, off + 4) == spec_u32_to_le_bytes(w),
    ensures
        spec_word_at(s, off) == w,
{
    lemma_auto_spec_u32_to_from_le_bytes();
    assert(spec_u32_to_le_bytes(w).len() == 4);
}

} // verus!
