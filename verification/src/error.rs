//! The error surface of a load attempt.

use vstd::prelude::*;

verus! {

/// Why a load attempt failed.
///
/// Every internal step of the loader returns a `Result` with this error; no
/// partial state ever reaches the entry resolver.
///
/// - `FailedToReadFile`: a read fell outside the image, a structural field
///   made the image unloadable (a segment larger than its memory span, an
///   address outside the arena), or the storage layer reported an I/O fault.
/// - `ElfIsNotPie`: the ELF type field is not `ET_DYN`; rejected before any
///   arena is sized or touched.
/// - `UnknownRelocationType`: a relocation entry is not `R_ARM_RELATIVE`.
/// - `SyscallTableNotFound`: no symbol table entry carries the well-known
///   syscall-table symbol name.
#[derive(Clone, Copy, Debug, PartialEq, Eq, Structural)]
pub enum LoadError {
    FailedToReadFile,
    ElfIsNotPie,
    UnknownRelocationType,
    SyscallTableNotFound,
}

} // verus!
