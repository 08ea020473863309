//! Little-endian readers and writers over plain byte buffers.
//!
//! ELF32 images are little-endian throughout, and the SCSI command set mixes
//! little- and big-endian fields; everything the loader interprets goes
//! through the functions in this module.

use vstd::prelude::*;

verus! {

/// The 16-bit little-endian value stored at `buf[i]` and `buf[i + 1]`.
pub open spec fn le16(buf: Seq<u8>, i: int) -> int {
    buf[i] + 0x100 * buf[i + 1]
}

/// The 32-bit little-endian value stored at `buf[i]` through `buf[i + 3]`.
pub open spec fn le32(buf: Seq<u8>, i: int) -> int {
    buf[i] + 0x100 * buf[i + 1] + 0x10000 * buf[i + 2] + 0x1000000 * buf[i + 3]
}

/// Read the 16-bit little-endian value at `off`.
pub fn read_u16_le(buf: &[u8], off: usize) -> (r: u16)
    requires
        off + 2 <= buf.len(),
    ensures
        r == le16(buf@, off as int),
{
    let b0 = buf[off];
    let b1 = buf[off + 1];
    (b0 as u16) + 0x100 * (b1 as u16)
}

/// Read the 32-bit little-endian value at `off`.
pub fn read_u32_le(buf: &[u8], off: usize) -> (r: u32)
    requires
        off + 4 <= buf.len(),
    ensures
        r == le32(buf@, off as int),
{
    let b0 = buf[off];
    let b1 = buf[off + 1];
    let b2 = buf[off + 2];
    let b3 = buf[off + 3];
    (b0 as u32) + 0x100 * (b1 as u32) + 0x10000 * (b2 as u32) + 0x1000000 * (b3 as u32)
}

/// `buf` with the little-endian encoding of `w` stored at `[i, i + 4)`.
pub open spec fn store_le32(buf: Seq<u8>, i: int, w: u32) -> Seq<u8> {
    buf.update(i, (w % 0x100) as u8).update(i + 1, ((w / 0x100) % 0x100) as u8).update(
        i + 2,
        ((w / 0x10000) % 0x100) as u8,
    ).update(i + 3, ((w / 0x1000000) % 0x100) as u8)
}

/// Reading back a stored word yields the word; all other bytes keep their
/// values.
pub proof fn lemma_store_le32(buf: Seq<u8>, i: int, w: u32)
    requires
        0 <= i,
        i + 4 <= buf.len(),
    ensures
        store_le32(buf, i, w).len() == buf.len(),
        le32(store_le32(buf, i, w), i) == w,
        forall|j: int| 0 <= j < buf.len() && !(i <= j < i + 4) ==> store_le32(buf, i, w)[j] == buf[j],
{
    assert(w == (w % 0x100) + 0x100 * ((w / 0x100) % 0x100) + 0x10000 * ((w / 0x10000) % 0x100)
        + 0x1000000 * ((w / 0x1000000) % 0x100)) by (bit_vector);
}

/// Overwrite `v[off .. off + 4]` with the little-endian encoding of `w`,
/// leaving every other byte as it was.
pub fn write_u32_le(v: &mut Vec<u8>, off: usize, w: u32)
    requires
        off + 4 <= old(v).len(),
    ensures
        final(v)@ == store_le32(old(v)@, off as int, w),
        final(v).len() == old(v).len(),
        le32(final(v)@, off as int) == w,
        forall|j: int| 0 <= j < old(v).len() && !(off <= j < off + 4) ==> final(v)@[j] == old(v)@[j],
{
    proof {
        lemma_store_le32(old(v)@, off as int, w);
    }
    proof {
        assert(w == (w % 0x100) + 0x100 * ((w / 0x100) % 0x100) + 0x10000 * ((w / 0x10000) % 0x100)
            + 0x1000000 * ((w / 0x1000000) % 0x100)) by (bit_vector);
    }
    v[off] = (w % 0x100) as u8;
    v[off + 1] = ((w / 0x100) % 0x100) as u8;
    v[off + 2] = ((w / 0x10000) % 0x100) as u8;
    v[off + 3] = ((w / 0x1000000) % 0x100) as u8;
    proof {
        assert(v@ =~= store_le32(old(v)@, off as int, w));
    }
}

/// Append the little-endian encoding of `w` to `v`.
pub fn push_u32_le(v: &mut Vec<u8>, w: u32)
    ensures
        final(v).len() == old(v).len() + 4,
        final(v)@.subrange(0, old(v).len() as int) == old(v)@,
        forall|j: int| 0 <= j < old(v).len() ==> final(v)@[j] == old(v)@[j],
        le32(final(v)@, old(v).len() as int) == w,
{
    proof {
        assert(w == (w % 0x100) + 0x100 * ((w / 0x100) % 0x100) + 0x10000 * ((w / 0x10000) % 0x100)
            + 0x1000000 * ((w / 0x1000000) % 0x100)) by (bit_vector);
    }
    let ghost n = v@.len() as int;
    v.push((w % 0x100) as u8);
    v.push(((w / 0x100) % 0x100) as u8);
    v.push(((w / 0x10000) % 0x100) as u8);
    v.push(((w / 0x1000000) % 0x100) as u8);
    proof {
        assert(v@.subrange(0, n) =~= old(v)@);
    }
}

} // verus!
