//! ELF32 structures: the fixed-size header, program headers, section
//! headers, symbols and relocation entries, each parsed from little-endian
//! bytes with an exact contract.
//!
//! All structures here are transient: they are reconstructed from the raw
//! image whenever needed and never persisted.

use vstd::prelude::*;

use crate::bytes::{le16, le32, read_u16_le, read_u32_le};
use crate::error::LoadError;

verus! {

/// ELF file type for position-independent executables (`ET_DYN`).
pub const ET_DYN: u16 = 3;

/// Program header type of a loadable segment (`PT_LOAD`).
pub const PT_LOAD: u32 = 1;

/// Section header type of a symbol table (`SHT_SYMTAB`).
pub const SHT_SYMTAB: u32 = 2;

/// Section header type of an addend-less relocation table (`SHT_REL`).
pub const SHT_REL: u32 = 9;

/// The only supported relocation type: add the runtime base address to the
/// word already stored at the relocated location (`R_ARM_RELATIVE`).
pub const R_ARM_RELATIVE: u32 = 23;

/// Size in bytes of the ELF32 file header.
pub const ELF32_HEADER_SIZE: usize = 52;

/// Size in bytes of an ELF32 program header entry.
pub const PROGRAM_HEADER_SIZE: usize = 32;

/// Size in bytes of an ELF32 section header entry.
pub const SECTION_HEADER_SIZE: usize = 40;

/// Size in bytes of an ELF32 symbol table entry.
pub const SYMBOL_SIZE: usize = 16;

/// Size in bytes of an ELF32 `REL` relocation entry.
pub const REL_SIZE: usize = 8;

/// The fields of the ELF32 file header that the loader interprets.
#[derive(Clone, Copy, Debug, PartialEq, Eq, Structural)]
pub struct ElfHeader {
    /// Object file type; must be `ET_DYN` for a loadable image.
    pub e_type: u16,
    /// Virtual address of the entry point.
    pub e_entry: u32,
    /// File offset of the program header table.
    pub e_phoff: u32,
    /// Size of one program header table entry.
    pub e_phentsize: u16,
    /// Number of program header table entries.
    pub e_phnum: u16,
    /// File offset of the section header table.
    pub e_shoff: u32,
    /// Size of one section header table entry.
    pub e_shentsize: u16,
    /// Number of section header table entries.
    pub e_shnum: u16,
}

/// The fields of an ELF32 program header that the loader interprets.
#[derive(Clone, Copy, Debug, PartialEq, Eq, Structural)]
pub struct ProgramHeader {
    /// Segment type; only `PT_LOAD` segments are materialized.
    pub p_type: u32,
    /// File offset of the segment's bytes.
    pub p_offset: u32,
    /// Virtual address at which the segment expects to live.
    pub p_vaddr: u32,
    /// Number of bytes stored in the file.
    pub p_filesz: u32,
    /// Number of bytes occupied in memory; the tail past `p_filesz` is
    /// zero-filled, never copied.
    pub p_memsz: u32,
}

/// The fields of an ELF32 section header that the loader interprets.
#[derive(Clone, Copy, Debug, PartialEq, Eq, Structural)]
pub struct SectionHeader {
    /// Section type; only `SHT_SYMTAB` and `SHT_REL` are consumed.
    pub sh_type: u32,
    /// File offset of the section's bytes.
    pub sh_offset: u32,
    /// Size of the section in bytes.
    pub sh_size: u32,
    /// Index of an associated section (for a symbol table, its string table).
    pub sh_link: u32,
    /// Size of one entry, for sections that hold a table.
    pub sh_entsize: u32,
}

/// The fields of an ELF32 symbol table entry that the loader interprets.
#[derive(Clone, Copy, Debug, PartialEq, Eq, Structural)]
pub struct Symbol {
    /// Offset of the symbol's name in the associated string table.
    pub st_name: u32,
    /// The symbol's value: a virtual address within the image.
    pub st_value: u32,
}

/// An ELF32 addend-less relocation entry.
#[derive(Clone, Copy, Debug, PartialEq, Eq, Structural)]
pub struct Relocation {
    /// Virtual address of the word to patch.
    pub r_offset: u32,
    /// Relocation info word; the low byte is the relocation type.
    pub r_info: u32,
}

impl Relocation {
    /// The relocation type held in the low byte of `r_info`.
    pub open spec fn spec_kind(self) -> u32 {
        (self.r_info % 0x100) as u32
    }

    /// Extract the relocation type from the info word.
    pub fn kind(&self) -> (r: u32)
        ensures
            r == self.spec_kind(),
    {
        self.r_info % 0x100
    }
}

/// The header fields as stored in the first `ELF32_HEADER_SIZE` bytes of an
/// image, at their standard offsets.
pub open spec fn spec_header(file: Seq<u8>) -> ElfHeader {
    ElfHeader {
        e_type: le16(file, 16) as u16,
        e_entry: le32(file, 24) as u32,
        e_phoff: le32(file, 28) as u32,
        e_phentsize: le16(file, 42) as u16,
        e_phnum: le16(file, 44) as u16,
        e_shoff: le32(file, 32) as u32,
        e_shentsize: le16(file, 46) as u16,
        e_shnum: le16(file, 48) as u16,
    }
}

/// The program header stored at byte offset `off` of `file`.
pub open spec fn spec_program_header(file: Seq<u8>, off: int) -> ProgramHeader {
    ProgramHeader {
        p_type: le32(file, off) as u32,
        p_offset: le32(file, off + 4) as u32,
        p_vaddr: le32(file, off + 8) as u32,
        p_filesz: le32(file, off + 16) as u32,
        p_memsz: le32(file, off + 20) as u32,
    }
}

/// The section header stored at byte offset `off` of `file`.
pub open spec fn spec_section_header(file: Seq<u8>, off: int) -> SectionHeader {
    SectionHeader {
        sh_type: le32(file, off + 4) as u32,
        sh_offset: le32(file, off + 16) as u32,
        sh_size: le32(file, off + 20) as u32,
        sh_link: le32(file, off + 24) as u32,
        sh_entsize: le32(file, off + 36) as u32,
    }
}

/// The symbol stored at byte offset `off` of `file`.
pub open spec fn spec_symbol(file: Seq<u8>, off: int) -> Symbol {
    Symbol { st_name: le32(file, off) as u32, st_value: le32(file, off + 4) as u32 }
}

/// The relocation entry stored at byte offset `off` of `file`.
pub open spec fn spec_relocation(file: Seq<u8>, off: int) -> Relocation {
    Relocation { r_offset: le32(file, off) as u32, r_info: le32(file, off + 4) as u32 }
}

/// Parse the ELF32 file header from the start of `file`.
///
/// Fails with `FailedToReadFile` exactly when the image is shorter than the
/// fixed 52-byte header.
pub fn parse_header(file: &[u8]) -> (r: Result<ElfHeader, LoadError>)
    ensures
        match r {
            Ok(h) => file.len() >= ELF32_HEADER_SIZE && h == spec_header(file@),
            Err(e) => file.len() < ELF32_HEADER_SIZE && e == LoadError::FailedToReadFile,
        },
{
    if file.len() < ELF32_HEADER_SIZE {
        return Err(LoadError::FailedToReadFile);
    }
    Ok(ElfHeader {
        e_type: read_u16_le(file, 16),
        e_entry: read_u32_le(file, 24),
        e_phoff: read_u32_le(file, 28),
        e_phentsize: read_u16_le(file, 42),
        e_phnum: read_u16_le(file, 44),
        e_shoff: read_u32_le(file, 32),
        e_shentsize: read_u16_le(file, 46),
        e_shnum: read_u16_le(file, 48),
    })
}

/// Parse the program header stored at byte offset `off`.
pub fn parse_program_header(file: &[u8], off: usize) -> (r: ProgramHeader)
    requires
        off + PROGRAM_HEADER_SIZE <= file.len(),
    ensures
        r == spec_program_header(file@, off as int),
{
    ProgramHeader {
        p_type: read_u32_le(file, off),
        p_offset: read_u32_le(file, off + 4),
        p_vaddr: read_u32_le(file, off + 8),
        p_filesz: read_u32_le(file, off + 16),
        p_memsz: read_u32_le(file, off + 20),
    }
}

/// Parse the section header stored at byte offset `off`.
pub fn parse_section_header(file: &[u8], off: usize) -> (r: SectionHeader)
    requires
        off + SECTION_HEADER_SIZE <= file.len(),
    ensures
        r == spec_section_header(file@, off as int),
{
    SectionHeader {
        sh_type: read_u32_le(file, off + 4),
        sh_offset: read_u32_le(file, off + 16),
        sh_size: read_u32_le(file, off + 20),
        sh_link: read_u32_le(file, off + 24),
        sh_entsize: read_u32_le(file, off + 36),
    }
}

/// Parse the symbol stored at byte offset `off`.
pub fn parse_symbol(file: &[u8], off: usize) -> (r: Symbol)
    requires
        off + SYMBOL_SIZE <= file.len(),
    ensures
        r == spec_symbol(file@, off as int),
{
    Symbol { st_name: read_u32_le(file, off), st_value: read_u32_le(file, off + 4) }
}

/// Parse the relocation entry stored at byte offset `off`.
pub fn parse_relocation(file: &[u8], off: usize) -> (r: Relocation)
    requires
        off + REL_SIZE <= file.len(),
    ensures
        r == spec_relocation(file@, off as int),
{
    Relocation { r_offset: read_u32_le(file, off), r_info: read_u32_le(file, off + 4) }
}

/// Byte offset of program header `i` in the program header table.
pub open spec fn spec_phdr_offset(h: ElfHeader, i: int) -> int {
    h.e_phoff + h.e_phentsize * i
}

/// Byte offset of section header `i` in the section header table.
pub open spec fn spec_shdr_offset(h: ElfHeader, i: int) -> int {
    h.e_shoff + h.e_shentsize * i
}

/// The program header table is readable: each entry is large enough to hold
/// the fields the loader interprets, and the whole table lies inside the
/// file.
pub open spec fn phdr_table_readable(file: Seq<u8>, h: ElfHeader) -> bool {
    h.e_phnum == 0 || (h.e_phentsize >= PROGRAM_HEADER_SIZE && spec_phdr_offset(h, h.e_phnum - 1)
        + PROGRAM_HEADER_SIZE <= file.len())
}

/// Read all program headers of the image.
///
/// Fails with `FailedToReadFile` exactly when the table, or one of its
/// entries, cannot be read in full.
pub fn read_program_headers(file: &[u8], h: &ElfHeader) -> (r: Result<Vec<ProgramHeader>, LoadError>)
    ensures
        match r {
            Ok(phs) => {
                &&& phdr_table_readable(file@, *h)
                &&& phs@.len() == h.e_phnum
                &&& forall|i: int|
                    0 <= i < h.e_phnum ==> phs@[i] == spec_program_header(
                        file@,
                        spec_phdr_offset(*h, i),
                    )
            },
            Err(e) => !phdr_table_readable(file@, *h) && e == LoadError::FailedToReadFile,
        },
{
    let mut phs: Vec<ProgramHeader> = Vec::new();
    if h.e_phnum == 0 {
        return Ok(phs);
    }
    if h.e_phentsize < 32 {
        return Err(LoadError::FailedToReadFile);
    }
    let pe: u64 = h.e_phentsize as u64;
    let pm: u64 = (h.e_phnum - 1) as u64;
    proof {
        assert(pe * pm <= 0xffff * 0xffff) by (nonlinear_arith)
            requires
                pe <= 0xffff,
                pm <= 0xffff,
        ;
    }
    let last: u64 = h.e_phoff as u64 + pe * pm;
    if last + 32 > file.len() as u64 {
        return Err(LoadError::FailedToReadFile);
    }
    let mut i: usize = 0;
    while i < h.e_phnum as usize
        invariant
            i <= h.e_phnum,
            h.e_phnum > 0,
            h.e_phentsize >= 32,
            pe == h.e_phentsize,
            pm == h.e_phnum - 1,
            pe * pm <= 0xffff * 0xffff,
            h.e_phoff + pe * pm + 32 <= file.len(),
            phs@.len() == i,
            forall|k: int|
                0 <= k < i ==> phs@[k] == spec_program_header(file@, spec_phdr_offset(*h, k)),
        decreases h.e_phnum - i,
    {
        proof {
            assert(pe * i <= pe * pm) by (nonlinear_arith)
                requires
                    0 <= i <= pm,
                    pe >= 0,
            ;
        }
        let off: usize = (h.e_phoff as u64 + pe * (i as u64)) as usize;
        phs.push(parse_program_header(file, off));
        i += 1;
    }
    Ok(phs)
}

/// The section header table entry `i` is readable in full.
pub open spec fn shdr_readable(file: Seq<u8>, h: ElfHeader, i: int) -> bool {
    h.e_shentsize >= SECTION_HEADER_SIZE && spec_shdr_offset(h, i) + SECTION_HEADER_SIZE
        <= file.len()
}

/// Read section header `i` of the image.
///
/// Fails with `FailedToReadFile` exactly when the entry cannot be read in
/// full.
pub fn read_section_header(file: &[u8], h: &ElfHeader, i: u32) -> (r: Result<
    SectionHeader,
    LoadError,
>)
    ensures
        match r {
            Ok(sh) => shdr_readable(file@, *h, i as int) && sh == spec_section_header(
                file@,
                spec_shdr_offset(*h, i as int),
            ),
            Err(e) => !shdr_readable(file@, *h, i as int) && e == LoadError::FailedToReadFile,
        },
{
    if h.e_shentsize < 40 {
        return Err(LoadError::FailedToReadFile);
    }
    let se: u64 = h.e_shentsize as u64;
    let si: u64 = i as u64;
    proof {
        assert(se * si <= 0xffff * 0xffff_ffffu64) by (nonlinear_arith)
            requires
                se <= 0xffff,
                si <= 0xffff_ffff,
        ;
    }
    let off: u64 = h.e_shoff as u64 + se * si;
    if off + 40 > file.len() as u64 {
        return Err(LoadError::FailedToReadFile);
    }
    Ok(parse_section_header(file, off as usize))
}

} // verus!
