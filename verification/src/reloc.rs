//! The relocation engine: walk a `SHT_REL` section and apply
//! `R_ARM_RELATIVE` fixups.
//!
//! The compiler emits addend-less `REL` relocations for ARM PIE binaries:
//! the link-time absolute address is already stored in the image, and adding
//! the runtime base address turns it into a correct absolute runtime
//! pointer.  Any other relocation type is a hard load failure.

use vstd::prelude::*;

use crate::arena::Arena;
use crate::bytes::{le32, lemma_store_le32, store_le32};
use crate::elf::{parse_relocation, spec_relocation, Relocation, SectionHeader, R_ARM_RELATIVE, REL_SIZE};
use crate::error::LoadError;

verus! {

/// File offset of relocation entry `i` of a `SHT_REL` section.
///
/// Entries are walked at the fixed 8-byte `REL` stride.
pub open spec fn rel_entry_offset(sh: SectionHeader, i: int) -> int {
    sh.sh_offset + REL_SIZE * i
}

/// Number of relocation entries a `SHT_REL` section declares.
pub open spec fn rel_count(sh: SectionHeader) -> int {
    sh.sh_size as int / sh.sh_entsize as int
}

/// The word at arena offset `t` after an `R_ARM_RELATIVE` fixup: the stored
/// word plus the runtime base address, wrapping at 32 bits.
pub open spec fn relocated_word(bytes: Seq<u8>, t: int, load_base: u32) -> u32 {
    ((le32(bytes, t) + load_base) % 0x1_0000_0000) as u32
}

/// The arena bytes and error outcome of applying the first `n` relocation
/// entries of `sh`, in order, to `bytes`.
pub open spec fn spec_apply_rel_section(
    bytes: Seq<u8>,
    base_vaddr: u32,
    file: Seq<u8>,
    sh: SectionHeader,
    n: int,
    load_base: u32,
) -> Result<Seq<u8>, LoadError>
    decreases n,
{
    if n <= 0 {
        Ok(bytes)
    } else {
        match spec_apply_rel_section(bytes, base_vaddr, file, sh, n - 1, load_base) {
            Err(e) => Err(e),
            Ok(prev) => {
                let eoff = rel_entry_offset(sh, n - 1);
                if eoff + REL_SIZE > file.len() {
                    Err(LoadError::FailedToReadFile)
                } else {
                    let rel = spec_relocation(file, eoff);
                    if rel.spec_kind() != R_ARM_RELATIVE {
                        Err(LoadError::UnknownRelocationType)
                    } else if !(base_vaddr <= rel.r_offset && rel.r_offset - base_vaddr + 4
                        <= prev.len()) {
                        Err(LoadError::FailedToReadFile)
                    } else {
                        let t = rel.r_offset - base_vaddr;
                        Ok(store_le32(prev, t, relocated_word(prev, t, load_base)))
                    }
                }
            },
        }
    }
}

/// Apply one `R_ARM_RELATIVE` fixup: read the word already stored at the
/// relocated address and overwrite it with that word plus `load_base`.
///
/// Fails with `UnknownRelocationType` exactly when the entry is not
/// `R_ARM_RELATIVE`, and with `FailedToReadFile` exactly when the relocated
/// word does not lie inside the arena; the arena is then left unchanged.
#[verifier::rlimit(100)]
pub fn apply_relocation(arena: &mut Arena, rel: &Relocation, load_base: u32) -> (r: Result<
    (),
    LoadError,
>)
    ensures
        final(arena).base_vaddr == old(arena).base_vaddr,
        final(arena).bytes.len() == old(arena).bytes.len(),
        match r {
            Ok(()) => {
                &&& rel.spec_kind() == R_ARM_RELATIVE
                &&& old(arena).spec_translatable(rel.r_offset, 4)
                &&& final(arena).bytes@ == store_le32(
                    old(arena).bytes@,
                    rel.r_offset - old(arena).base_vaddr,
                    relocated_word(
                        old(arena).bytes@,
                        rel.r_offset - old(arena).base_vaddr,
                        load_base,
                    ),
                )
                &&& le32(final(arena).bytes@, rel.r_offset - old(arena).base_vaddr)
                    == relocated_word(
                    old(arena).bytes@,
                    rel.r_offset - old(arena).base_vaddr,
                    load_base,
                )
            },
            Err(e) => {
                &&& final(arena).bytes@ == old(arena).bytes@
                &&& if rel.spec_kind() != R_ARM_RELATIVE {
                    e == LoadError::UnknownRelocationType
                } else {
                    !old(arena).spec_translatable(rel.r_offset, 4)
                        && e == LoadError::FailedToReadFile
                }
            },
        },
{
    if rel.kind() != R_ARM_RELATIVE {
        return Err(LoadError::UnknownRelocationType);
    }
    let t = match arena.translate_range(rel.r_offset, 4) {
        Some(t) => t,
        None => {
            return Err(LoadError::FailedToReadFile);
        },
    };
    let stored = arena.read_word(t);
    let w = stored.wrapping_add(load_base);
    proof {
        assert(w == ((stored + load_base) % 0x1_0000_0000) as u32) by (bit_vector)
            requires
                w == stored.wrapping_add(load_base),
        ;
        assert(w == relocated_word(arena.bytes@, t as int, load_base));
    }
    arena.write_word(t, w);
    Ok(())
}

/// Walk every relocation entry of a `SHT_REL` section and apply it.
///
/// Succeeds exactly when every entry can be read from the image, is of type
/// `R_ARM_RELATIVE`, and patches a word inside the arena; the arena then
/// holds the entries applied in order.  On failure the error of the first
/// offending entry is returned, and entries before it remain applied: a
/// partially relocated arena is never handed on.
#[verifier::rlimit(50)]
pub fn apply_rel_section(
    arena: &mut Arena,
    file: &[u8],
    sh: &SectionHeader,
    load_base: u32,
) -> (r: Result<(), LoadError>)
    requires
        old(arena).bytes.len() <= 0xffff_ffff,
    ensures
        final(arena).base_vaddr == old(arena).base_vaddr,
        final(arena).bytes.len() == old(arena).bytes.len(),
        match r {
            Ok(()) => sh.sh_entsize > 0 && spec_apply_rel_section(
                old(arena).bytes@,
                old(arena).base_vaddr,
                file@,
                *sh,
                rel_count(*sh),
                load_base,
            ) == Ok::<Seq<u8>, LoadError>(final(arena).bytes@),
            Err(e) => if sh.sh_entsize == 0 {
                e == LoadError::FailedToReadFile
            } else {
                spec_apply_rel_section(
                    old(arena).bytes@,
                    old(arena).base_vaddr,
                    file@,
                    *sh,
                    rel_count(*sh),
                    load_base,
                ) == Err::<Seq<u8>, LoadError>(e)
            },
        },
{
    if sh.sh_entsize == 0 {
        return Err(LoadError::FailedToReadFile);
    }
    let count: u32 = sh.sh_size / sh.sh_entsize;
    let mut i: u32 = 0;
    while i < count
        invariant
            i <= count,
            sh.sh_entsize > 0,
            count == rel_count(*sh),
            arena.bytes.len() == old(arena).bytes.len(),
            arena.bytes.len() <= 0xffff_ffff,
            arena.base_vaddr == old(arena).base_vaddr,
            spec_apply_rel_section(
                old(arena).bytes@,
                old(arena).base_vaddr,
                file@,
                *sh,
                i as int,
                load_base,
            ) == Ok::<Seq<u8>, LoadError>(arena.bytes@),
        decreases count - i,
    {
        let eoff: u64 = sh.sh_offset as u64 + (REL_SIZE as u64) * (i as u64);
        if eoff + REL_SIZE as u64 > file.len() as u64 {
            proof {
                lemma_apply_rel_prefix_err(
                    old(arena).bytes@,
                    old(arena).base_vaddr,
                    file@,
                    *sh,
                    i as int + 1,
                    rel_count(*sh),
                    load_base,
                );
            }
            return Err(LoadError::FailedToReadFile);
        }
        let rel = parse_relocation(file, eoff as usize);
        match apply_relocation(arena, &rel, load_base) {
            Ok(()) => {},
            Err(e) => {
                proof {
                    lemma_apply_rel_prefix_err(
                        old(arena).bytes@,
                        old(arena).base_vaddr,
                        file@,
                        *sh,
                        i as int + 1,
                        rel_count(*sh),
                        load_base,
                    );
                }
                return Err(e);
            },
        }
        i += 1;
    }
    Ok(())
}

/// A relocation walk fails only with `FailedToReadFile` or
/// `UnknownRelocationType`.
pub proof fn lemma_rel_section_errors(
    bytes: Seq<u8>,
    base_vaddr: u32,
    file: Seq<u8>,
    sh: SectionHeader,
    n: int,
    load_base: u32,
)
    ensures
        match spec_apply_rel_section(bytes, base_vaddr, file, sh, n, load_base) {
            Ok(_) => true,
            Err(e) => e == LoadError::FailedToReadFile || e == LoadError::UnknownRelocationType,
        },
    decreases n,
{
    if n > 0 {
        lemma_rel_section_errors(bytes, base_vaddr, file, sh, n - 1, load_base);
    }
}

/// Once some prefix of a relocation walk has failed, the walk over any
/// longer prefix fails with the same error.
proof fn lemma_apply_rel_prefix_err(
    bytes: Seq<u8>,
    base_vaddr: u32,
    file: Seq<u8>,
    sh: SectionHeader,
    n: int,
    m: int,
    load_base: u32,
)
    requires
        0 <= n <= m,
        spec_apply_rel_section(bytes, base_vaddr, file, sh, n, load_base) is Err,
    ensures
        spec_apply_rel_section(bytes, base_vaddr, file, sh, m, load_base)
            == spec_apply_rel_section(bytes, base_vaddr, file, sh, n, load_base),
    decreases m,
{
    if m > n {
        lemma_apply_rel_prefix_err(bytes, base_vaddr, file, sh, n, m - 1, load_base);
    }
}

} // verus!
