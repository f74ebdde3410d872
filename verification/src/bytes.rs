//! Little-endian integer views of byte sequences and the record checksum.
use vstd::prelude::*;

verus! {

/// The 16-bit little-endian value held by the two bytes of `s` at offset `i`.
pub open spec fn le16(s: Seq<u8>, i: int) -> u16
    recommends
        0 <= i,
        i + 2 <= s.len(),
{
    (s[i] + s[i + 1] * 0x100) as u16
}

/// The 32-bit little-endian value held by the four bytes of `s` at offset `i`.
pub open spec fn le32(s: Seq<u8>, i: int) -> u32
    recommends
        0 <= i,
        i + 4 <= s.len(),
{
    (s[i] + s[i + 1] * 0x100 + s[i + 2] * 0x10000 + s[i + 3] * 0x1000000) as u32
}

/// The 16-bit wrapping sum of a byte sequence, as carried in each record's
/// trailing checksum field.
pub open spec fn checksum16(s: Seq<u8>) -> u16
    decreases s.len(),
{
    if s.len() == 0 {
        0u16
    } else {
        ((checksum16(s.drop_last()) + s.last()) % 0x10000) as u16
    }
}

/// Computes the wrapping 16-bit byte sum of a buffer.
pub fn compute_checksum(data: &[u8]) -> (r: u16)
    ensures
        r == checksum16(data@),
{
    let mut sum: u16 = 0;
    let mut i: usize = 0;
    while i < data.len()
        invariant
            0 <= i <= data@.len(),
            sum == checksum16(data@.subrange(0, i as int)),
        decreases data@.len() - i,
    {
        proof {
            assert(data@.subrange(0, i + 1 as int).drop_last() =~= data@.subrange(0, i as int));
            assert(data@.subrange(0, i + 1 as int).last() == data@[i as int]);
        }
        sum = sum.wrapping_add(*vstd::slice::slice_index_get(data, i) as u16);
        i = i + 1;
    }
    proof {
        assert(data@.subrange(0, data@.len() as int) =~= data@);
    }
    sum
}

} // verus!
