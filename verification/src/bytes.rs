use vstd::prelude::*;

verus! {

/// The value of the four bytes `b[off..off + 4]` read as a little-endian `u32`.
pub open spec fn le_u32_at(b: Seq<u8>, off: int) -> int {
    b[off] as int + 256 * (b[off + 1] as int) + 65536 * (b[off + 2] as int) + 16777216 * (
    b[off + 3] as int)
}

/// The four little-endian bytes of `v`.
pub open spec fn le_bytes(v: u32) -> Seq<u8> {
    seq![
        (v % 256) as u8,
        ((v / 256) % 256) as u8,
        ((v / 65536) % 256) as u8,
        (v / 16777216) as u8,
    ]
}

/// Reads the little-endian `u32` stored at `bytes[offset..offset + 4]`.
pub fn read_u32_le(bytes: &[u8], offset: usize) -> (v: u32)
    requires
        offset + 4 <= bytes@.len(),
    ensures
        v as int == le_u32_at(bytes@, offset as int),
{
    let b0 = bytes[offset] as u32;
    let b1 = bytes[offset + 1] as u32;
    let b2 = bytes[offset + 2] as u32;
    let b3 = bytes[offset + 3] as u32;
    b0 + 256 * b1 + 65536 * b2 + 16777216 * b3
}

/// Stores `value` as four little-endian bytes at `bytes[offset..offset + 4]`.
pub fn write_u32_le(bytes: &mut [u8], offset: usize, value: u32)
    requires
        offset + 4 <= old(bytes)@.len(),
    ensures
        final(bytes)@ == old(bytes)@.subrange(0, offset as int) + le_bytes(value) + old(
            bytes,
        )@.subrange(offset + 4, old(bytes)@.len() as int),
{
    bytes[offset] = (value % 256) as u8;
    bytes[offset + 1] = ((value / 256) % 256) as u8;
    bytes[offset + 2] = ((value / 65536) % 256) as u8;
    bytes[offset + 3] = (value / 16777216) as u8;
    assert(bytes@ =~= old(bytes)@.subrange(0, offset as int) + le_bytes(value) + old(
        bytes,
    )@.subrange(offset + 4, old(bytes)@.len() as int));
}

/// Writing a `u32` and reading it back at the same offset gives the value
/// written, and bytes outside the four written ones keep their values.
pub proof fn lemma_write_then_read_u32_le(before: Seq<u8>, offset: int, value: u32)
    requires
        0 <= offset,
        offset + 4 <= before.len(),
    ensures
        ({
            let after = before.subrange(0, offset) + le_bytes(value) + before.subrange(
                offset + 4,
                before.len() as int,
            );
            &&& after.len() == before.len()
            &&& le_u32_at(after, offset) == value as int
            &&& forall|i: int|
                0 <= i < before.len() && !(offset <= i < offset + 4) ==> after[i] == before[i]
        }),
{
    let after = before.subrange(0, offset) + le_bytes(value) + before.subrange(
        offset + 4,
        before.len() as int,
    );
    assert(after[offset] == (value % 256) as u8);
    assert(after[offset + 1] == ((value / 256) % 256) as u8);
    assert(after[offset + 2] == ((value / 65536) % 256) as u8);
    assert(after[offset + 3] == (value / 16777216) as u8);
}

/// In a little-endian word the byte at the lowest offset is the least
/// significant and the one at the highest is the most significant, and every
/// word fits in 32 bits.
pub proof fn lemma_le_u32_byte_order(b: Seq<u8>, off: int)
    ensures
        le_u32_at(b, off) % 256 == b[off] as int,
        (le_u32_at(b, off) / 256) % 256 == b[off + 1] as int,
        (le_u32_at(b, off) / 65536) % 256 == b[off + 2] as int,
        le_u32_at(b, off) / 16777216 == b[off + 3] as int,
        0 <= le_u32_at(b, off) <= 0xffff_ffff,
{
}

/// The bytes of a word hold its value, least significant byte first.
pub proof fn lemma_le_bytes_exact(v: u32)
    ensures
        le_bytes(v).len() == 4,
        le_bytes(v)[0] as int == v % 256,
        le_bytes(v)[1] as int == (v / 256) % 256,
        le_bytes(v)[2] as int == (v / 65536) % 256,
        le_bytes(v)[3] as int == v / 16777216,
        le_u32_at(le_bytes(v), 0) == v,
{
}

} // verus!
