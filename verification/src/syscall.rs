//! The syscall-table ABI bridge.
//!
//! Every application binary defines a data symbol, `SYS_CALL_TABLE`, of
//! `SYS_CALL_TABLE_COUNT` pointer-sized words.  The loader writes one kernel
//! service pointer per syscall ordinal into that array, in a fixed,
//! versioned order: the ordinal order is a wire contract between the kernel
//! and every compiled application, and reordering it without recompiling all
//! applications is a silent ABI break.

use vstd::prelude::*;

use crate::arena::Arena;
use crate::bytes::le32;
use crate::elf::{
    parse_symbol, read_section_header, shdr_readable, spec_section_header, spec_shdr_offset,
    spec_symbol, ElfHeader, SectionHeader, Symbol, SHT_SYMTAB, SYMBOL_SIZE,
};
use crate::error::LoadError;

verus! {

/// Number of entries of the syscall table: one per `SyscallTable` variant.
pub const SYS_CALL_TABLE_COUNT: usize = 14;

/// Bytes the syscall table occupies in the image: one 32-bit word per entry.
pub const SYS_CALL_TABLE_BYTES: usize = 56;

/// The syscall identifiers, in their versioned wire order.
///
/// The ordinal of each variant is fixed by `spec_ordinal`; the patched table
/// holds the kernel pointer for ordinal `i` at word index `i`.
#[derive(Clone, Copy, Debug, PartialEq, Eq, Structural)]
pub enum SyscallTable {
    Alloc,
    Dealloc,
    PrintString,
    SleepMs,
    GetMs,
    DrawIter,
    GetKey,
    GenRand,
    ListDir,
    ReadFile,
    WriteFile,
    FileLen,
    AudioBufferReady,
    SendAudioBuffer,
}

impl SyscallTable {
    /// The wire ordinal of each syscall.
    pub open spec fn spec_ordinal(self) -> int {
        match self {
            SyscallTable::Alloc => 0,
            SyscallTable::Dealloc => 1,
            SyscallTable::PrintString => 2,
            SyscallTable::SleepMs => 3,
            SyscallTable::GetMs => 4,
            SyscallTable::DrawIter => 5,
            SyscallTable::GetKey => 6,
            SyscallTable::GenRand => 7,
            SyscallTable::ListDir => 8,
            SyscallTable::ReadFile => 9,
            SyscallTable::WriteFile => 10,
            SyscallTable::FileLen => 11,
            SyscallTable::AudioBufferReady => 12,
            SyscallTable::SendAudioBuffer => 13,
        }
    }

    /// The wire ordinal of this syscall.
    pub fn ordinal(&self) -> (r: u8)
        ensures
            r == self.spec_ordinal(),
    {
        match self {
            SyscallTable::Alloc => 0,
            SyscallTable::Dealloc => 1,
            SyscallTable::PrintString => 2,
            SyscallTable::SleepMs => 3,
            SyscallTable::GetMs => 4,
            SyscallTable::DrawIter => 5,
            SyscallTable::GetKey => 6,
            SyscallTable::GenRand => 7,
            SyscallTable::ListDir => 8,
            SyscallTable::ReadFile => 9,
            SyscallTable::WriteFile => 10,
            SyscallTable::FileLen => 11,
            SyscallTable::AudioBufferReady => 12,
            SyscallTable::SendAudioBuffer => 13,
        }
    }

    /// The syscall with a given wire ordinal.
    pub fn from_ordinal(i: u8) -> (r: Option<SyscallTable>)
        ensures
            match r {
                Some(c) => c.spec_ordinal() == i,
                None => i >= SYS_CALL_TABLE_COUNT,
            },
    {
        match i {
            0 => Some(SyscallTable::Alloc),
            1 => Some(SyscallTable::Dealloc),
            2 => Some(SyscallTable::PrintString),
            3 => Some(SyscallTable::SleepMs),
            4 => Some(SyscallTable::GetMs),
            5 => Some(SyscallTable::DrawIter),
            6 => Some(SyscallTable::GetKey),
            7 => Some(SyscallTable::GenRand),
            8 => Some(SyscallTable::ListDir),
            9 => Some(SyscallTable::ReadFile),
            10 => Some(SyscallTable::WriteFile),
            11 => Some(SyscallTable::FileLen),
            12 => Some(SyscallTable::AudioBufferReady),
            13 => Some(SyscallTable::SendAudioBuffer),
            _ => None,
        }
    }
}

/// Every syscall's ordinal lies below `SYS_CALL_TABLE_COUNT`, distinct
/// syscalls have distinct ordinals, and every ordinal below the count is
/// taken: the table's length equals the number of syscalls, so a kernel and
/// an application compiled against this enumeration agree on every slot.
pub proof fn lemma_syscall_ordinals_complete()
    ensures
        forall|c: SyscallTable| 0 <= #[trigger] c.spec_ordinal() < SYS_CALL_TABLE_COUNT,
        forall|c1: SyscallTable, c2: SyscallTable|
            #[trigger] c1.spec_ordinal() == #[trigger] c2.spec_ordinal() ==> c1 == c2,
{
}

/// The legacy revision of the wire contract, matched by the older
/// `CALL_ABI_TABLE` symbol of earlier application binaries.
#[derive(Clone, Copy, Debug, PartialEq, Eq, Structural)]
pub enum CallTable {
    Alloc,
    Dealloc,
    PrintString,
    SleepMs,
    GetMs,
    LockDisplay,
    DrawIter,
    GetKey,
    GenRand,
    ListDir,
    ReadFile,
    FileLen,
}

/// Number of entries of the legacy call table.
pub const ABI_CALL_TABLE_COUNT: usize = 12;

impl CallTable {
    /// The wire ordinal of each legacy call.
    pub open spec fn spec_ordinal(self) -> int {
        match self {
            CallTable::Alloc => 0,
            CallTable::Dealloc => 1,
            CallTable::PrintString => 2,
            CallTable::SleepMs => 3,
            CallTable::GetMs => 4,
            CallTable::LockDisplay => 5,
            CallTable::DrawIter => 6,
            CallTable::GetKey => 7,
            CallTable::GenRand => 8,
            CallTable::ListDir => 9,
            CallTable::ReadFile => 10,
            CallTable::FileLen => 11,
        }
    }

    /// The wire ordinal of this legacy call.
    pub fn ordinal(&self) -> (r: u8)
        ensures
            r == self.spec_ordinal(),
    {
        match self {
            CallTable::Alloc => 0,
            CallTable::Dealloc => 1,
            CallTable::PrintString => 2,
            CallTable::SleepMs => 3,
            CallTable::GetMs => 4,
            CallTable::LockDisplay => 5,
            CallTable::DrawIter => 6,
            CallTable::GetKey => 7,
            CallTable::GenRand => 8,
            CallTable::ListDir => 9,
            CallTable::ReadFile => 10,
            CallTable::FileLen => 11,
        }
    }
}

/// The kernel service pointers, one per syscall ordinal, injected into the
/// loader instead of being read from a process-wide table.
///
/// Pointer values are 32-bit words, as on the target; the kernel supplies
/// the address of each of its service entry points.
pub struct SyscallCaps {
    /// `entries[i]` is the kernel pointer for ordinal `i`.
    pub entries: Vec<u32>,
}

impl SyscallCaps {
    /// A capability set is well-formed when it holds exactly one pointer per
    /// syscall ordinal.
    pub open spec fn wf(self) -> bool {
        self.entries.len() == SYS_CALL_TABLE_COUNT
    }

    /// Bundle one kernel pointer per syscall ordinal.
    ///
    /// Returns `None` exactly when the pointer list does not match the
    /// syscall count of this kernel revision.
    pub fn new(entries: Vec<u32>) -> (r: Option<SyscallCaps>)
        ensures
            match r {
                Some(c) => c.wf() && c.entries@ == entries@,
                None => entries.len() != SYS_CALL_TABLE_COUNT,
            },
    {
        if entries.len() == SYS_CALL_TABLE_COUNT {
            Some(SyscallCaps { entries })
        } else {
            None
        }
    }

    /// The kernel pointer for one syscall.
    pub fn entry_for(&self, call: SyscallTable) -> (r: u32)
        requires
            self.wf(),
        ensures
            r == self.entries@[call.spec_ordinal()],
    {
        proof {
            lemma_syscall_ordinals_complete();
        }
        let i = call.ordinal();
        self.entries[i as usize]
    }
}

/// Write the syscall table at arena offset `off`: the kernel pointer for
/// ordinal `i` goes to word index `i`, for every ordinal.  No other arena
/// byte changes.
pub fn write_table(arena: &mut Arena, off: usize, caps: &SyscallCaps)
    requires
        off + SYS_CALL_TABLE_BYTES <= old(arena).bytes.len(),
        caps.wf(),
    ensures
        final(arena).base_vaddr == old(arena).base_vaddr,
        final(arena).bytes.len() == old(arena).bytes.len(),
        forall|k: int|
            0 <= k < SYS_CALL_TABLE_COUNT ==> le32(final(arena).bytes@, off + 4 * k)
                == caps.entries@[k],
        forall|j: int|
            0 <= j < old(arena).bytes.len() && !(off <= j < off + SYS_CALL_TABLE_BYTES)
                ==> final(arena).bytes@[j] == old(arena).bytes@[j],
{
    let mut k: usize = 0;
    while k < SYS_CALL_TABLE_COUNT
        invariant
            k <= SYS_CALL_TABLE_COUNT,
            off + SYS_CALL_TABLE_BYTES <= arena.bytes.len(),
            caps.wf(),
            arena.bytes.len() == old(arena).bytes.len(),
            arena.base_vaddr == old(arena).base_vaddr,
            forall|m: int| 0 <= m < k ==> le32(arena.bytes@, off + 4 * m) == caps.entries@[m],
            forall|j: int|
                0 <= j < old(arena).bytes.len() && !(off <= j < off + 4 * k) ==> arena.bytes@[j]
                    == old(arena).bytes@[j],
        decreases SYS_CALL_TABLE_COUNT - k,
    {
        let w = caps.entries[k];
        arena.write_word(off + 4 * k, w);
        k += 1;
    }
}

/// The bytes of the well-known ABI symbol name, `SYS_CALL_TABLE`.
pub open spec fn table_symbol_name() -> Seq<u8> {
    seq![0x53u8, 0x59, 0x53, 0x5f, 0x43, 0x41, 0x4c, 0x4c, 0x5f, 0x54, 0x41, 0x42, 0x4c, 0x45]
}

/// The string table holds the NUL-terminated ABI symbol name at position
/// `p`.
pub open spec fn name_matches_at(file: Seq<u8>, p: int) -> bool {
    &&& p >= 0
    &&& p + 15 <= file.len()
    &&& forall|k: int| 0 <= k < 14 ==> file[p + k] == table_symbol_name()[k]
    &&& file[p + 14] == 0
}

/// The ABI symbol name as a byte vector.
fn table_symbol_name_bytes() -> (r: Vec<u8>)
    ensures
        r@ == table_symbol_name(),
{
    let mut v: Vec<u8> = Vec::new();
    v.push(0x53);
    v.push(0x59);
    v.push(0x53);
    v.push(0x5f);
    v.push(0x43);
    v.push(0x41);
    v.push(0x4c);
    v.push(0x4c);
    v.push(0x5f);
    v.push(0x54);
    v.push(0x41);
    v.push(0x42);
    v.push(0x4c);
    v.push(0x45);
    proof {
        assert(v@ =~= table_symbol_name());
    }
    v
}

/// Compare the NUL-terminated name at string-table position `p` against the
/// ABI symbol name, reading at most its fixed length: a name that runs past
/// the image cannot match.
pub(crate) fn name_matches(file: &[u8], p: u64) -> (r: bool)
    ensures
        r == name_matches_at(file@, p as int),
{
    if file.len() < 15 || p > file.len() as u64 - 15 {
        return false;
    }
    let pos = p as usize;
    let name = table_symbol_name_bytes();
    let mut k: usize = 0;
    while k < 14
        invariant
            k <= 14,
            pos == p,
            pos + 15 <= file.len(),
            name@ == table_symbol_name(),
            forall|m: int| 0 <= m < k ==> file@[pos + m] == table_symbol_name()[m],
        decreases 14 - k,
    {
        if file[pos + k] != name[k] {
            return false;
        }
        k += 1;
    }
    file[pos + 14] == 0
}

/// The section header at table index `i`.
pub open spec fn shdr_at(file: Seq<u8>, h: ElfHeader, i: int) -> SectionHeader {
    spec_section_header(file, spec_shdr_offset(h, i))
}

/// Number of symbols a symbol-table section declares.
pub open spec fn sym_count(sh: SectionHeader) -> int {
    if sh.sh_entsize == 0 {
        0
    } else {
        sh.sh_size as int / sh.sh_entsize as int
    }
}

/// File offset of symbol `j` of a symbol-table section.
pub open spec fn sym_entry_offset(sh: SectionHeader, j: int) -> int {
    sh.sh_offset + sh.sh_entsize * j
}

/// Symbol `j` of a symbol-table section.
pub open spec fn sym_at(file: Seq<u8>, sh: SectionHeader, j: int) -> Symbol {
    spec_symbol(file, sym_entry_offset(sh, j))
}

/// Position of symbol `j`'s name inside the image: the symbol's name offset
/// within the string table that the section's `sh_link` designates.
pub open spec fn sym_name_pos(file: Seq<u8>, h: ElfHeader, sh: SectionHeader, j: int) -> int {
    shdr_at(file, h, sh.sh_link as int).sh_offset + sym_at(file, sh, j).st_name
}

/// Symbol `j` of section `i` is the ABI table symbol.
pub open spec fn is_table_sym(file: Seq<u8>, h: ElfHeader, i: int, j: int) -> bool {
    let sh = shdr_at(file, h, i);
    &&& sh.sh_type == SHT_SYMTAB
    &&& 0 <= j < sym_count(sh)
    &&& name_matches_at(file, sym_name_pos(file, h, sh, j))
}

/// Section `i` holds the ABI table symbol.
pub open spec fn section_has_table_sym(file: Seq<u8>, h: ElfHeader, i: int) -> bool {
    exists|j: int| is_table_sym(file, h, i, j)
}

/// Some symbol-table section of the image holds the ABI table symbol.
pub open spec fn has_table_sym(file: Seq<u8>, h: ElfHeader) -> bool {
    exists|i: int| 0 <= i < h.e_shnum && #[trigger] section_has_table_sym(file, h, i)
}

/// Every read the symbol scan performs stays inside the image: all section
/// headers are readable, and each symbol table has full-sized entries, a
/// readable string-table header, and symbols that lie inside the file.
pub open spec fn scan_clean(file: Seq<u8>, h: ElfHeader) -> bool {
    forall|i: int|
        0 <= i < h.e_shnum ==> {
            &&& #[trigger] shdr_readable(file, h, i)
            &&& (shdr_at(file, h, i).sh_type == SHT_SYMTAB ==> {
                let sh = shdr_at(file, h, i);
                &&& sh.sh_entsize >= SYMBOL_SIZE
                &&& shdr_readable(file, h, sh.sh_link as int)
                &&& forall|j: int|
                    0 <= j < sym_count(sh) ==> #[trigger] sym_entry_offset(sh, j) + SYMBOL_SIZE
                        <= file.len()
            })
        }
}

/// Scan every symbol-table section for the ABI table symbol; when found,
/// translate its address into the arena and write one kernel pointer per
/// syscall ordinal there, in wire order.
///
/// Returns the arena offset of the patched table.  When no symbol-table
/// entry carries the well-known name, fails with `SyscallTableNotFound`
/// after scanning all sections — and, on an image whose tables are all
/// readable, exactly then.  A read outside the image or a table outside the
/// arena fails with `FailedToReadFile`.  On any failure the arena is left
/// untouched: no partial patch is left in place.
#[verifier::rlimit(100)]
pub fn patch_syscalls(arena: &mut Arena, file: &[u8], h: &ElfHeader, caps: &SyscallCaps) -> (r:
    Result<usize, LoadError>)
    requires
        caps.wf(),
    ensures
        final(arena).base_vaddr == old(arena).base_vaddr,
        final(arena).bytes.len() == old(arena).bytes.len(),
        (scan_clean(file@, *h) && has_table_sym(file@, *h) && (forall|i: int, j: int|
            #[trigger] is_table_sym(file@, *h, i, j) ==> old(arena).spec_translatable(
                sym_at(file@, shdr_at(file@, *h, i), j).st_value,
                SYS_CALL_TABLE_BYTES as u32,
            ))) ==> r is Ok,
        match r {
            Ok(t) => {
                &&& exists|i: int, j: int|
                    {
                        &&& 0 <= i < h.e_shnum
                        &&& #[trigger] is_table_sym(file@, *h, i, j)
                        &&& old(arena).spec_translatable(
                            sym_at(file@, shdr_at(file@, *h, i), j).st_value,
                            SYS_CALL_TABLE_BYTES as u32,
                        )
                        &&& t == sym_at(file@, shdr_at(file@, *h, i), j).st_value - old(
                            arena,
                        ).base_vaddr
                    }
                &&& t + SYS_CALL_TABLE_BYTES <= old(arena).bytes.len()
                &&& forall|k: int|
                    0 <= k < SYS_CALL_TABLE_COUNT ==> le32(final(arena).bytes@, t + 4 * k)
                        == caps.entries@[k]
                &&& forall|j: int|
                    0 <= j < old(arena).bytes.len() && !(t <= j < t + SYS_CALL_TABLE_BYTES)
                        ==> final(arena).bytes@[j] == old(arena).bytes@[j]
            },
            Err(e) => {
                &&& final(arena).bytes@ == old(arena).bytes@
                &&& (e == LoadError::SyscallTableNotFound || e == LoadError::FailedToReadFile)
                &&& (e == LoadError::SyscallTableNotFound ==> !has_table_sym(file@, *h))
                &&& (scan_clean(file@, *h) && !has_table_sym(file@, *h) ==> e
                    == LoadError::SyscallTableNotFound)
            },
        },
{
    let mut i: u32 = 0;
    while i < h.e_shnum as u32
        invariant
            i <= h.e_shnum,
            caps.wf(),
            arena.bytes@ == old(arena).bytes@,
            arena.base_vaddr == old(arena).base_vaddr,
            forall|ii: int| 0 <= ii < i ==> !#[trigger] section_has_table_sym(file@, *h, ii),
        decreases h.e_shnum - i,
    {
        let sh = match read_section_header(file, h, i) {
            Ok(sh) => sh,
            Err(_) => {
                return Err(LoadError::FailedToReadFile);
            },
        };
        if sh.sh_type == SHT_SYMTAB {
            if sh.sh_entsize < SYMBOL_SIZE as u32 {
                return Err(LoadError::FailedToReadFile);
            }
            let str_sh = match read_section_header(file, h, sh.sh_link) {
                Ok(s) => s,
                Err(_) => {
                    return Err(LoadError::FailedToReadFile);
                },
            };
            let count: u32 = sh.sh_size / sh.sh_entsize;
            let mut j: u32 = 0;
            while j < count
                invariant
                    j <= count,
                    caps.wf(),
                    arena.bytes@ == old(arena).bytes@,
                    arena.base_vaddr == old(arena).base_vaddr,
                    0 <= i < h.e_shnum,
                    sh == shdr_at(file@, *h, i as int),
                    sh.sh_type == SHT_SYMTAB,
                    sh.sh_entsize >= SYMBOL_SIZE,
                    shdr_readable(file@, *h, i as int),
                    shdr_readable(file@, *h, sh.sh_link as int),
                    str_sh == shdr_at(file@, *h, sh.sh_link as int),
                    count == sym_count(sh),
                    forall|ii: int|
                        0 <= ii < i ==> !#[trigger] section_has_table_sym(file@, *h, ii),
                    forall|jj: int|
                        0 <= jj < j ==> !name_matches_at(
                            file@,
                            #[trigger] sym_name_pos(file@, *h, sh, jj),
                        ),
                decreases count - j,
            {
                let se: u64 = sh.sh_entsize as u64;
                let sj: u64 = j as u64;
                proof {
                    assert(se * sj <= 0xffff_ffffu64 * 0xffff_ffffu64) by (nonlinear_arith)
                        requires
                            se <= 0xffff_ffff,
                            sj <= 0xffff_ffff,
                    ;
                }
                let soff: u64 = sh.sh_offset as u64 + se * sj;
                if soff + SYMBOL_SIZE as u64 > file.len() as u64 {
                    proof {
                        if scan_clean(file@, *h) {
                            assert(shdr_readable(file@, *h, i as int));
                            assert(sym_entry_offset(sh, j as int) + SYMBOL_SIZE <= file@.len());
                        }
                    }
                    return Err(LoadError::FailedToReadFile);
                }
                let sym = parse_symbol(file, soff as usize);
                let npos: u64 = str_sh.sh_offset as u64 + sym.st_name as u64;
                if name_matches(file, npos) {
                    proof {
                        assert(is_table_sym(file@, *h, i as int, j as int));
                        assert(section_has_table_sym(file@, *h, i as int));
                        assert(has_table_sym(file@, *h));
                    }
                    let t = match arena.translate_range(
                        sym.st_value,
                        SYS_CALL_TABLE_BYTES as u32,
                    ) {
                        Some(t) => t,
                        None => {
                            return Err(LoadError::FailedToReadFile);
                        },
                    };
                    write_table(arena, t, caps);
                    return Ok(t);
                }
                j += 1;
            }
        }
        i += 1;
    }
    Err(LoadError::SyscallTableNotFound)
}

} // verus!
