//! Big- and little-endian field readers shared by the packet parsers.

use vstd::prelude::*;

verus! {

/// The big-endian 16-bit value at `offset`.
pub open spec fn be16(data: Seq<u8>, offset: int) -> int {
    data[offset] * 256 + data[offset + 1]
}

/// The little-endian 16-bit value at `offset`.
pub open spec fn le16(data: Seq<u8>, offset: int) -> int {
    data[offset] + data[offset + 1] * 256
}

/// The big-endian 32-bit value at `offset`.
pub open spec fn be32(data: Seq<u8>, offset: int) -> int {
    data[offset] * 0x1000000 + data[offset + 1] * 0x10000 + data[offset + 2] * 0x100 + data[offset
        + 3]
}

/// Reads the big-endian `u16` at `offset`.
pub fn read_u16_be(data: &[u8], offset: usize) -> (r: u16)
    requires
        offset + 1 < data@.len(),
    ensures
        r == be16(data@, offset as int),
{
    (data[offset] as u16) * 256 + (data[offset + 1] as u16)
}

/// Reads the little-endian `u16` at `offset`.
pub fn read_u16_le(data: &[u8], offset: usize) -> (r: u16)
    requires
        offset + 1 < data@.len(),
    ensures
        r == le16(data@, offset as int),
{
    (data[offset] as u16) + (data[offset + 1] as u16) * 256
}

/// Reads the big-endian `u32` at `offset`.
pub fn read_u32_be(data: &[u8], offset: usize) -> (r: u32)
    requires
        offset + 3 < data@.len(),
    ensures
        r == be32(data@, offset as int),
{
    (data[offset] as u32) * 0x1000000 + (data[offset + 1] as u32) * 0x10000 + (data[offset + 2] as u32)
        * 0x100 + (data[offset + 3] as u32)
}

/// Whether `data[offset..offset + pattern.len()]` equals `pattern`.
pub fn bytes_match_at(data: &[u8], offset: usize, pattern: &[u8]) -> (b: bool)
    requires
        offset + pattern@.len() <= data@.len(),
    ensures
        b == (data@.subrange(offset as int, offset + pattern@.len()) == pattern@),
{
    let mut i: usize = 0;
    while i < pattern.len()
        invariant
            offset + pattern@.len() <= data@.len(),
            data@.len() == data.len(),
            i <= pattern@.len(),
            forall|j: int| 0 <= j < i ==> data@[offset + j] == pattern@[j],
        decreases pattern.len() - i,
    {
        if data[offset + i] != pattern[i] {
            assert(data@.subrange(offset as int, offset + pattern@.len())[i as int] != pattern@[i as int]);
            return false;
        }
        i = i + 1;
    }
    assert(data@.subrange(offset as int, offset + pattern@.len()) =~= pattern@);
    true
}

} // verus!
