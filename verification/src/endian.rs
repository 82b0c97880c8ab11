//! Little-endian integer fields.
//!
//! Every multi-byte integer on the wire is little-endian.  The spec
//! functions state the value of such a field as plain arithmetic over the
//! byte sequence; the executable readers and writers are proved against
//! them.

use vstd::prelude::*;

verus! {

/// The value of a 2-byte little-endian field.
pub open spec fn le16(b: Seq<u8>) -> int
    recommends
        b.len() == 2,
{
    b[0] + b[1] * 0x100
}

/// The value of a 4-byte little-endian field.
pub open spec fn le32(b: Seq<u8>) -> int
    recommends
        b.len() == 4,
{
    b[0] + b[1] * 0x100 + b[2] * 0x1_0000 + b[3] * 0x100_0000
}

/// The two bytes of a 16-bit value, least significant first.
pub open spec fn le16_bytes(v: u16) -> Seq<u8> {
    seq![(v % 0x100) as u8, (v / 0x100) as u8]
}

/// Reading back the bytes of a value gives the value.
pub proof fn lemma_le16_roundtrip(v: u16)
    ensures
        le16(le16_bytes(v)) == v,
{
}

/// Read the 2-byte little-endian field at `offset`.
pub fn read_u16_le(data: &[u8], offset: usize) -> (r: u16)
    requires
        offset + 2 <= data@.len(),
    ensures
        r == le16(data@.subrange(offset as int, offset + 2)),
{
    let lo = data[offset];
    let hi = data[offset + 1];
    (lo as u16) + (hi as u16) * 0x100
}

/// Read the 4-byte little-endian field at `offset`.
pub fn read_u32_le(data: &[u8], offset: usize) -> (r: u32)
    requires
        offset + 4 <= data@.len(),
    ensures
        r == le32(data@.subrange(offset as int, offset + 4)),
{
    let b0 = data[offset];
    let b1 = data[offset + 1];
    let b2 = data[offset + 2];
    let b3 = data[offset + 3];
    (b0 as u32) + (b1 as u32) * 0x100 + (b2 as u32) * 0x1_0000 + (b3 as u32) * 0x100_0000
}

/// Overwrite `data[offset]` and `data[offset + 1]` with `v`, least
/// significant byte first.
pub fn write_u16_le(data: &mut Vec<u8>, offset: usize, v: u16)
    requires
        offset + 2 <= old(data)@.len(),
    ensures
        final(data)@.len() == old(data)@.len(),
        final(data)@.subrange(offset as int, offset + 2) == le16_bytes(v),
        forall|i: int|
            0 <= i < old(data)@.len() && !(offset <= i < offset + 2) ==> final(data)@[i] == old(
                data,
            )@[i],
{
    let n = data.len();
    assert(offset + 2 <= n);
    data.set(offset, (v % 0x100) as u8);
    data.set(offset + 1, (v / 0x100) as u8);
    assert(data@.subrange(offset as int, offset + 2) =~= le16_bytes(v));
}

} // verus!
