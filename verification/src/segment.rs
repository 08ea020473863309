//! The segment materializer: copy a loadable segment's file bytes into the
//! arena and zero-fill the BSS tail.

use vstd::prelude::*;

use crate::arena::Arena;
use crate::elf::{ProgramHeader, PT_LOAD};
use crate::error::LoadError;

verus! {

/// The segment can be materialized: its file bytes exist, its memory span
/// fits inside the arena, and its in-file size does not exceed its in-memory
/// size.
pub open spec fn seg_loadable(a: Arena, ph: ProgramHeader, file: Seq<u8>) -> bool {
    &&& ph.p_filesz <= ph.p_memsz
    &&& a.spec_translatable(ph.p_vaddr, ph.p_memsz)
    &&& ph.p_offset + ph.p_filesz <= file.len()
}

/// The arena bytes after materializing `ph`: the segment's file bytes at
/// `[off, off + filesz)`, zeroes at `[off + filesz, off + memsz)`, and the
/// previous contents everywhere else, where `off = p_vaddr - base_vaddr`.
pub open spec fn spec_materialize(
    bytes: Seq<u8>,
    base_vaddr: u32,
    ph: ProgramHeader,
    file: Seq<u8>,
) -> Seq<u8> {
    let off = ph.p_vaddr - base_vaddr;
    Seq::new(
        bytes.len(),
        |j: int|
            if off <= j < off + ph.p_filesz {
                file[ph.p_offset + (j - off)]
            } else if off + ph.p_filesz <= j < off + ph.p_memsz {
                0u8
            } else {
                bytes[j]
            },
    )
}

/// The segment can be materialized into a buffer of `len` bytes based at
/// `base_vaddr`; the buffer-free form of `seg_loadable`.
pub open spec fn seg_fits(base_vaddr: u32, len: int, ph: ProgramHeader, file: Seq<u8>) -> bool {
    &&& ph.p_filesz <= ph.p_memsz
    &&& base_vaddr <= ph.p_vaddr
    &&& ph.p_vaddr - base_vaddr + ph.p_memsz <= len
    &&& ph.p_offset + ph.p_filesz <= file.len()
}

/// The arena bytes and error outcome of materializing the first `n`
/// program headers' loadable segments, in order, into `bytes`.
pub open spec fn spec_seg_fold(
    bytes: Seq<u8>,
    base_vaddr: u32,
    phs: Seq<ProgramHeader>,
    file: Seq<u8>,
    n: int,
) -> Result<Seq<u8>, LoadError>
    decreases n,
{
    if n <= 0 {
        Ok(bytes)
    } else {
        match spec_seg_fold(bytes, base_vaddr, phs, file, n - 1) {
            Err(e) => Err(e),
            Ok(prev) => {
                let ph = phs[n - 1];
                if ph.p_type != PT_LOAD {
                    Ok(prev)
                } else if !seg_fits(base_vaddr, prev.len() as int, ph, file) {
                    Err(LoadError::FailedToReadFile)
                } else {
                    Ok(spec_materialize(prev, base_vaddr, ph, file))
                }
            },
        }
    }
}

/// Once some prefix of the segment walk has failed, the walk over any
/// longer prefix fails with the same error.
pub proof fn lemma_seg_fold_prefix_err(
    bytes: Seq<u8>,
    base_vaddr: u32,
    phs: Seq<ProgramHeader>,
    file: Seq<u8>,
    n: int,
    m: int,
)
    requires
        0 <= n <= m,
        spec_seg_fold(bytes, base_vaddr, phs, file, n) is Err,
    ensures
        spec_seg_fold(bytes, base_vaddr, phs, file, m) == spec_seg_fold(
            bytes,
            base_vaddr,
            phs,
            file,
            n,
        ),
    decreases m,
{
    if m > n {
        lemma_seg_fold_prefix_err(bytes, base_vaddr, phs, file, n, m - 1);
    }
}

/// Copy `ph`'s file bytes into the arena at `p_vaddr - base_vaddr` and
/// zero-fill the remaining `p_memsz - p_filesz` bytes.
///
/// The zero-filled tail is all zeroes in the result regardless of what the
/// arena held before.  Fails with `FailedToReadFile` exactly when the
/// segment's file bytes or memory span are out of bounds; the arena is then
/// left unchanged.
pub fn materialize_segment(arena: &mut Arena, ph: &ProgramHeader, file: &[u8]) -> (r: Result<
    (),
    LoadError,
>)
    ensures
        final(arena).base_vaddr == old(arena).base_vaddr,
        match r {
            Ok(()) => seg_loadable(*old(arena), *ph, file@) && final(arena).bytes@
                == spec_materialize(old(arena).bytes@, old(arena).base_vaddr, *ph, file@),
            Err(e) => {
                &&& !seg_loadable(*old(arena), *ph, file@)
                &&& e == LoadError::FailedToReadFile
                &&& final(arena).bytes@ == old(arena).bytes@
            },
        },
{
    if ph.p_filesz > ph.p_memsz {
        return Err(LoadError::FailedToReadFile);
    }
    let off = match arena.translate_range(ph.p_vaddr, ph.p_memsz) {
        Some(off) => off,
        None => {
            return Err(LoadError::FailedToReadFile);
        },
    };
    if ph.p_offset as u64 + ph.p_filesz as u64 > file.len() as u64 {
        return Err(LoadError::FailedToReadFile);
    }
    let filesz = ph.p_filesz as usize;
    let memsz = ph.p_memsz as usize;
    let src = ph.p_offset as usize;
    let mut k: usize = 0;
    while k < filesz
        invariant
            k <= filesz,
            filesz <= memsz,
            off + memsz <= arena.bytes.len(),
            src + filesz <= file.len(),
            arena.bytes.len() == old(arena).bytes.len(),
            arena.base_vaddr == old(arena).base_vaddr,
            forall|j: int| off <= j < off + k ==> arena.bytes@[j] == file@[src + (j - off)],
            forall|j: int|
                0 <= j < arena.bytes.len() && !(off <= j < off + k) ==> arena.bytes@[j] == old(
                    arena,
                ).bytes@[j],
        decreases filesz - k,
    {
        let b = file[src + k];
        arena.bytes[off + k] = b;
        k += 1;
    }
    let mut k: usize = filesz;
    while k < memsz
        invariant
            filesz <= k <= memsz,
            off + memsz <= arena.bytes.len(),
            src + filesz <= file.len(),
            arena.bytes.len() == old(arena).bytes.len(),
            arena.base_vaddr == old(arena).base_vaddr,
            forall|j: int| off <= j < off + filesz ==> arena.bytes@[j] == file@[src + (j - off)],
            forall|j: int| off + filesz <= j < off + k ==> arena.bytes@[j] == 0u8,
            forall|j: int|
                0 <= j < arena.bytes.len() && !(off <= j < off + k) ==> arena.bytes@[j] == old(
                    arena,
                ).bytes@[j],
        decreases memsz - k,
    {
        arena.bytes[k + off] = 0u8;
        k += 1;
    }
    proof {
        assert(arena.bytes@ =~= spec_materialize(
            old(arena).bytes@,
            old(arena).base_vaddr,
            *ph,
            file@,
        ));
    }
    Ok(())
}

} // verus!
