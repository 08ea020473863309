//! The arena: a single contiguous byte buffer sized exactly to the image's
//! memory span.  The application's entire loaded image — code, data, BSS,
//! relocated words and the patched syscall table — lives inside it.
//!
//! Virtual addresses are turned into arena offsets only through the
//! bounds-checked translation below; no write to the arena is ever performed
//! at an unchecked address.

use vstd::prelude::*;

use crate::bytes::{le32, read_u32_le, write_u32_le};

verus! {

/// The memory of one loaded application.
pub struct Arena {
    /// The image bytes, indexed by `vaddr - base_vaddr`.
    pub bytes: Vec<u8>,
    /// The lowest virtual address of any loadable segment; offset zero of
    /// `bytes` corresponds to it.
    pub base_vaddr: u32,
}

impl Arena {
    /// The whole virtual address range `[vaddr, vaddr + size)` falls inside
    /// the arena.
    pub open spec fn spec_translatable(self, vaddr: u32, size: u32) -> bool {
        self.base_vaddr <= vaddr && vaddr - self.base_vaddr + size <= self.bytes.len()
    }

    /// Allocate a zero-filled arena of exactly `total_size` bytes.
    pub fn new(total_size: usize, base_vaddr: u32) -> (r: Arena)
        ensures
            r.bytes@ == Seq::new(total_size as nat, |j: int| 0u8),
            r.base_vaddr == base_vaddr,
    {
        let bytes = vec![0u8; total_size];
        proof {
            assert(bytes@ =~= Seq::new(total_size as nat, |j: int| 0u8));
        }
        Arena { bytes, base_vaddr }
    }

    /// Number of bytes in the arena.
    pub fn len(&self) -> (r: usize)
        ensures
            r == self.bytes.len(),
    {
        self.bytes.len()
    }

    /// Translate the virtual address range `[vaddr, vaddr + size)` into an
    /// arena offset, verifying that the whole range lies inside the arena.
    pub fn translate_range(&self, vaddr: u32, size: u32) -> (r: Option<usize>)
        ensures
            match r {
                Some(off) => self.spec_translatable(vaddr, size) && off == vaddr
                    - self.base_vaddr,
                None => !self.spec_translatable(vaddr, size),
            },
    {
        if vaddr < self.base_vaddr {
            return None;
        }
        let off: u64 = (vaddr - self.base_vaddr) as u64;
        if off + size as u64 <= self.bytes.len() as u64 {
            Some(off as usize)
        } else {
            None
        }
    }

    /// Overwrite the arena bytes at `[off, off + data.len())` with `data`,
    /// leaving every other byte as it was.
    pub fn write_bytes(&mut self, off: usize, data: &[u8])
        requires
            off + data.len() <= old(self).bytes.len(),
        ensures
            final(self).base_vaddr == old(self).base_vaddr,
            final(self).bytes.len() == old(self).bytes.len(),
            forall|j: int|
                off <= j < off + data.len() ==> final(self).bytes@[j] == data@[j - off],
            forall|j: int|
                0 <= j < old(self).bytes.len() && !(off <= j < off + data.len())
                    ==> final(self).bytes@[j] == old(self).bytes@[j],
    {
        let mut k: usize = 0;
        while k < data.len()
            invariant
                k <= data.len(),
                off + data.len() <= self.bytes.len(),
                self.bytes.len() == old(self).bytes.len(),
                self.base_vaddr == old(self).base_vaddr,
                forall|j: int| off <= j < off + k ==> self.bytes@[j] == data@[j - off],
                forall|j: int|
                    0 <= j < self.bytes.len() && !(off <= j < off + k)
                        ==> self.bytes@[j] == old(self).bytes@[j],
            decreases data.len() - k,
        {
            let b = data[k];
            self.bytes[off + k] = b;
            k += 1;
        }
    }

    /// Zero the arena bytes at `[off, off + len)`, leaving every other byte
    /// as it was.
    pub fn fill_zero(&mut self, off: usize, len: usize)
        requires
            off + len <= old(self).bytes.len(),
        ensures
            final(self).base_vaddr == old(self).base_vaddr,
            final(self).bytes.len() == old(self).bytes.len(),
            forall|j: int| off <= j < off + len ==> final(self).bytes@[j] == 0u8,
            forall|j: int|
                0 <= j < old(self).bytes.len() && !(off <= j < off + len)
                    ==> final(self).bytes@[j] == old(self).bytes@[j],
    {
        let mut k: usize = 0;
        while k < len
            invariant
                k <= len,
                off + len <= self.bytes.len(),
                self.bytes.len() == old(self).bytes.len(),
                self.base_vaddr == old(self).base_vaddr,
                forall|j: int| off <= j < off + k ==> self.bytes@[j] == 0u8,
                forall|j: int|
                    0 <= j < self.bytes.len() && !(off <= j < off + k)
                        ==> self.bytes@[j] == old(self).bytes@[j],
            decreases len - k,
        {
            self.bytes[off + k] = 0u8;
            k += 1;
        }
    }

    /// Read the little-endian 32-bit word at arena offset `off`.
    pub fn read_word(&self, off: usize) -> (r: u32)
        requires
            off + 4 <= self.bytes.len(),
        ensures
            r == le32(self.bytes@, off as int),
    {
        read_u32_le(self.bytes.as_slice(), off)
    }

    /// Overwrite the little-endian 32-bit word at arena offset `off`,
    /// leaving every other byte as it was.
    pub fn write_word(&mut self, off: usize, w: u32)
        requires
            off + 4 <= old(self).bytes.len(),
        ensures
            final(self).base_vaddr == old(self).base_vaddr,
            final(self).bytes.len() == old(self).bytes.len(),
            le32(final(self).bytes@, off as int) == w,
            forall|j: int|
                0 <= j < old(self).bytes.len() && !(off <= j < off + 4) ==> final(self).bytes@[j]
                    == old(self).bytes@[j],
    {
        write_u32_le(&mut self.bytes, off, w);
    }
}

} // verus!
