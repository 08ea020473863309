//! The incremental load session: the loader as the storage task drives it.
//!
//! The image on the SD card is never copied into memory as a whole — RAM is
//! a few hundred kilobytes.  A session instead issues one bounded read
//! request at a time (never more than one transfer buffer of 512 bytes),
//! consumes the bytes the storage layer hands back, and walks the load
//! state machine forward: header, type check, layout, arena, segments,
//! relocations, syscall table, entry point.  A failed step moves the
//! session to its failed state; no state is ever retried and no partially
//! loaded image is handed out.

use vstd::prelude::*;

use crate::arena::Arena;
use crate::bytes::le32;
use crate::elf::{
    parse_header, parse_program_header, parse_relocation, parse_section_header, parse_symbol,
    spec_header, spec_relocation, ElfHeader, ProgramHeader, SectionHeader, Symbol, ET_DYN,
    PT_LOAD, R_ARM_RELATIVE, SHT_REL, SHT_SYMTAB,
};
use crate::error::LoadError;
use crate::layout::plan_layout;
use crate::loader::{EntryHandle, LoadedImage};
use crate::reloc::apply_relocation;
use crate::syscall::{
    name_matches, write_table, SyscallCaps, SYS_CALL_TABLE_BYTES, SYS_CALL_TABLE_COUNT,
};

verus! {

/// Largest read a session ever requests: one transfer buffer.
pub const MAX_READ_LEN: usize = 512;

/// Where a load attempt stands.  Each attempt walks these states in order,
/// or drops to `Failed` from any of them; `Ready` and `Failed` are
/// terminal.
#[derive(Clone, Copy, Debug, PartialEq, Eq, Structural)]
pub enum SessionPhase {
    Start,
    HeaderRead,
    TypeValidated,
    LayoutPlanned,
    ArenaAllocated,
    SegmentsLoaded,
    Relocated,
    SyscallTablePatched,
    Ready,
    Failed,
}

/// The position of a phase in the load order; `Failed` sits above all, so
/// every step a session takes moves its phase upward.
pub open spec fn spec_rank(p: SessionPhase) -> int {
    match p {
        SessionPhase::Start => 0,
        SessionPhase::HeaderRead => 1,
        SessionPhase::TypeValidated => 2,
        SessionPhase::LayoutPlanned => 3,
        SessionPhase::ArenaAllocated => 4,
        SessionPhase::SegmentsLoaded => 5,
        SessionPhase::Relocated => 6,
        SessionPhase::SyscallTablePatched => 7,
        SessionPhase::Ready => 8,
        SessionPhase::Failed => 9,
    }
}

/// What the next fed bytes will be interpreted as.
#[derive(Clone, Copy, Debug, PartialEq, Eq, Structural)]
enum Pending {
    Idle,
    Header,
    Phdr,
    SegChunk,
    RelShdr,
    RelEntry,
    SymShdr,
    StrShdr,
    SymEntry,
    NameProbe,
}

/// One incremental load attempt.
pub struct LoadSession {
    file_len: u64,
    load_base: u32,
    caps: SyscallCaps,
    phase: SessionPhase,
    error: Option<LoadError>,
    pending: Pending,
    req_off: u64,
    req_len: usize,
    header: ElfHeader,
    phs: Vec<ProgramHeader>,
    arena: Arena,
    seg_index: usize,
    seg_done: u32,
    sect_index: u32,
    rel_sh: SectionHeader,
    rel_index: u32,
    rel_total: u32,
    sym_sh: SectionHeader,
    str_sh: SectionHeader,
    sym_index: u32,
    sym_total: u32,
    cur_sym: Symbol,
    table_offset: usize,
    entry_offset: usize,
    trace: Ghost<Seq<(int, Seq<u8>)>>,
}

impl LoadSession {
    /// Where the load attempt stands.
    pub closed spec fn spec_phase(self) -> SessionPhase {
        self.phase
    }

    /// The session still wants bytes.
    pub open spec fn spec_active(self) -> bool {
        !(self.spec_phase() is Ready || self.spec_phase() is Failed)
    }

    /// The length of the image the session was told it is reading.
    pub closed spec fn spec_file_len(self) -> int {
        self.file_len as int
    }

    /// The kernel service pointers the session patches in.
    pub closed spec fn spec_caps(self) -> Seq<u32> {
        self.caps.entries@
    }

    /// Why the session failed.
    pub closed spec fn spec_error(self) -> Option<LoadError> {
        self.error
    }

    /// File offset of the pending read request.
    pub closed spec fn spec_req_off(self) -> int {
        self.req_off as int
    }

    /// Length of the pending read request.
    pub closed spec fn spec_req_len(self) -> int {
        self.req_len as int
    }

    /// The record of the reads answered so far: for each, the requested
    /// file offset and the bytes that were handed back.
    pub closed spec fn spec_trace(self) -> Seq<(int, Seq<u8>)> {
        self.trace@
    }

    /// The session's internal consistency: the pending request is bounded
    /// and lies inside the image, the bytes it expects match what the state
    /// machine will do with them, and a ready session really holds a
    /// patched table.
    pub closed spec fn wf(self) -> bool {
        &&& self.caps.wf()
        &&& (self.phase is Failed <==> self.error is Some)
        &&& (self.pending is Idle <==> (self.phase is Ready || self.phase is Failed))
        &&& (!(self.pending is Idle) ==> 0 < self.req_len <= MAX_READ_LEN && self.req_off
            + self.req_len <= self.file_len)
        &&& (self.pending is Header ==> self.phase is Start && self.req_len == 52)
        &&& (self.pending is Phdr ==> self.phase is TypeValidated && self.req_len == 32)
        &&& (self.pending is SegChunk ==> {
            let ph = self.phs@[self.seg_index as int];
            &&& self.phase is ArenaAllocated
            &&& self.seg_index < self.phs.len()
            &&& ph.p_filesz <= ph.p_memsz
            &&& self.arena.base_vaddr <= ph.p_vaddr
            &&& ph.p_vaddr - self.arena.base_vaddr + ph.p_memsz <= self.arena.bytes.len()
            &&& self.seg_done + self.req_len <= ph.p_filesz
            &&& ph.p_offset + ph.p_filesz <= self.file_len
            &&& self.req_off == ph.p_offset + self.seg_done
            &&& self.arena.bytes.len() <= 0xffff_ffff
        })
        &&& (self.pending is RelShdr ==> self.phase is SegmentsLoaded && self.req_len == 40
            && self.sect_index < self.header.e_shnum && self.arena.bytes.len() <= 0xffff_ffff)
        &&& (self.pending is RelEntry ==> self.phase is SegmentsLoaded && self.req_len == 8
            && self.sect_index < self.header.e_shnum && self.rel_index < self.rel_total
            && self.arena.bytes.len() <= 0xffff_ffff)
        &&& (self.pending is SymShdr ==> self.phase is Relocated && self.req_len == 40
            && self.sect_index < self.header.e_shnum)
        &&& (self.pending is StrShdr ==> self.phase is Relocated && self.req_len == 40
            && self.sect_index < self.header.e_shnum && self.sym_sh.sh_entsize >= 16)
        &&& (self.pending is SymEntry ==> self.phase is Relocated && self.req_len == 16
            && self.sym_sh.sh_entsize >= 16)
        &&& (self.pending is NameProbe ==> self.phase is Relocated && self.req_len == 15
            && self.sym_sh.sh_entsize >= 16)
        &&& (self.phase is Ready ==> {
            &&& self.table_offset + SYS_CALL_TABLE_BYTES <= self.arena.bytes.len()
            &&& forall|k: int|
                0 <= k < SYS_CALL_TABLE_COUNT ==> le32(
                    self.arena.bytes@,
                    self.table_offset + 4 * k,
                ) == self.caps.entries@[k]
            &&& self.entry_offset + 1 <= self.arena.bytes.len()
        })
    }

    /// Open a load attempt on an image of `file_len` bytes, to be placed at
    /// `load_base`, with the given kernel service pointers.
    ///
    /// An image too short for the fixed header fails at once.
    pub fn new(file_len: u64, load_base: u32, caps: SyscallCaps) -> (r: LoadSession)
        requires
            caps.wf(),
        ensures
            r.wf(),
            r.spec_caps() == caps.entries@,
            r.spec_trace() == Seq::<(int, Seq<u8>)>::empty(),
            r.spec_phase() == (if file_len >= 52 {
                SessionPhase::Start
            } else {
                SessionPhase::Failed
            }),
    {
        let short = file_len < 52;
        LoadSession {
            file_len,
            load_base,
            caps,
            phase: if short {
                SessionPhase::Failed
            } else {
                SessionPhase::Start
            },
            error: if short {
                Some(LoadError::FailedToReadFile)
            } else {
                None
            },
            pending: if short {
                Pending::Idle
            } else {
                Pending::Header
            },
            req_off: 0,
            req_len: 52,
            header: ElfHeader {
                e_type: 0,
                e_entry: 0,
                e_phoff: 0,
                e_phentsize: 0,
                e_phnum: 0,
                e_shoff: 0,
                e_shentsize: 0,
                e_shnum: 0,
            },
            phs: Vec::new(),
            arena: Arena::new(0, 0),
            seg_index: 0,
            seg_done: 0,
            sect_index: 0,
            rel_sh: SectionHeader { sh_type: 0, sh_offset: 0, sh_size: 0, sh_link: 0, sh_entsize: 0 },
            rel_index: 0,
            rel_total: 0,
            sym_sh: SectionHeader { sh_type: 0, sh_offset: 0, sh_size: 0, sh_link: 0, sh_entsize: 0 },
            str_sh: SectionHeader { sh_type: 0, sh_offset: 0, sh_size: 0, sh_link: 0, sh_entsize: 0 },
            sym_index: 0,
            sym_total: 0,
            cur_sym: Symbol { st_name: 0, st_value: 0 },
            table_offset: 0,
            entry_offset: 0,
            trace: Ghost(Seq::empty()),
        }
    }

    /// Where the load attempt stands.
    pub fn current_phase(&self) -> (r: SessionPhase)
        ensures
            r == self.spec_phase(),
    {
        self.phase
    }

    /// The next read the session needs: a file offset and a length.
    ///
    /// Every request is bounded by one transfer buffer and lies inside the
    /// image; `None` means the session is done, one way or the other.
    pub fn next_request(&self) -> (r: Option<(u64, usize)>)
        requires
            self.wf(),
        ensures
            match r {
                Some(q) => {
                    &&& self.spec_active()
                    &&& q.0 == self.spec_req_off()
                    &&& q.1 == self.spec_req_len()
                    &&& 0 < q.1 <= MAX_READ_LEN
                    &&& q.0 + q.1 <= self.spec_file_len()
                },
                None => !self.spec_active(),
            },
    {
        if matches!(self.pending, Pending::Idle) {
            None
        } else {
            Some((self.req_off, self.req_len))
        }
    }

    /// Drop to the failed state.
    fn fail(&mut self, e: LoadError)
        requires
            old(self).caps.wf(),
        ensures
            final(self).wf(),
            final(self).spec_phase() is Failed,
            final(self).spec_error() == Some(e),
            final(self).spec_caps() == old(self).spec_caps(),
            final(self).spec_file_len() == old(self).spec_file_len(),
            final(self).spec_trace() == old(self).spec_trace(),
    {
        self.phase = SessionPhase::Failed;
        self.error = Some(e);
        self.pending = Pending::Idle;
    }

    /// Find the next loadable segment with file bytes and request its first
    /// chunk; past the last segment, move on to the relocation pass.
    fn start_segment_scan(&mut self)
        requires
            old(self).caps.wf(),
            old(self).error is None,
            old(self).phase is ArenaAllocated,
            old(self).arena.bytes.len() <= 0xffff_ffff,
            old(self).seg_index <= old(self).phs.len(),
        ensures
            final(self).wf(),
            spec_rank(final(self).spec_phase()) >= spec_rank(SessionPhase::ArenaAllocated),
            !(final(self).spec_phase() is Ready),
            final(self).spec_phase() is Failed ==> final(self).spec_error() == Some(LoadError::FailedToReadFile) || final(self).spec_error() == Some(LoadError::SyscallTableNotFound),
            final(self).spec_caps() == old(self).spec_caps(),
            final(self).spec_file_len() == old(self).spec_file_len(),
            final(self).spec_trace() == old(self).spec_trace(),
    {
        loop
            invariant
                self.caps.wf(),
                self.caps.entries@ == old(self).caps.entries@,
                self.error is None,
                self.phase is ArenaAllocated,
                self.arena.bytes.len() <= 0xffff_ffff,
                self.seg_index <= self.phs.len(),
                self.file_len == old(self).file_len,
                self.trace@ == old(self).trace@,
            decreases self.phs.len() - self.seg_index,
        {
            if self.seg_index >= self.phs.len() {
                self.phase = SessionPhase::SegmentsLoaded;
                self.sect_index = 0;
                self.start_rel_scan();
                return;
            }
            let ph = self.phs[self.seg_index];
            if ph.p_type == PT_LOAD {
                if ph.p_filesz > ph.p_memsz {
                    self.fail(LoadError::FailedToReadFile);
                    return;
                }
                let t = match self.arena.translate_range(ph.p_vaddr, ph.p_memsz) {
                    Some(t) => t,
                    None => {
                        self.fail(LoadError::FailedToReadFile);
                        return;
                    },
                };
                if ph.p_offset as u64 + ph.p_filesz as u64 > self.file_len {
                    self.fail(LoadError::FailedToReadFile);
                    return;
                }
                // Zero the whole span first, as the batch materializer
                // does: a later segment's BSS tail must end up zero even
                // where an earlier segment put bytes there.
                self.arena.fill_zero(t, ph.p_memsz as usize);
                if ph.p_filesz > 0 {
                    self.seg_done = 0;
                    self.req_off = ph.p_offset as u64;
                    self.req_len = if ph.p_filesz as usize > MAX_READ_LEN {
                        MAX_READ_LEN
                    } else {
                        ph.p_filesz as usize
                    };
                    self.pending = Pending::SegChunk;
                    return;
                }
            }
            self.seg_index = self.seg_index + 1;
        }
    }

    /// Request the next section header of the relocation pass; past the
    /// last section, move on to the symbol pass.
    fn start_rel_scan(&mut self)
        requires
            old(self).caps.wf(),
            old(self).error is None,
            old(self).phase is SegmentsLoaded,
            old(self).arena.bytes.len() <= 0xffff_ffff,
        ensures
            final(self).wf(),
            spec_rank(final(self).spec_phase()) >= spec_rank(SessionPhase::SegmentsLoaded),
            !(final(self).spec_phase() is Ready),
            final(self).spec_phase() is Failed ==> final(self).spec_error() == Some(LoadError::FailedToReadFile) || final(self).spec_error() == Some(LoadError::SyscallTableNotFound),
            final(self).spec_caps() == old(self).spec_caps(),
            final(self).spec_file_len() == old(self).spec_file_len(),
            final(self).spec_trace() == old(self).spec_trace(),
    {
        if self.sect_index < self.header.e_shnum as u32 {
            if self.header.e_shentsize < 40 {
                self.fail(LoadError::FailedToReadFile);
                return;
            }
            let se: u64 = self.header.e_shentsize as u64;
            let si: u64 = self.sect_index as u64;
            proof {
                assert(se * si <= 0xffff * 0xffff_ffffu64) by (nonlinear_arith)
                    requires
                        se <= 0xffff,
                        si <= 0xffff_ffff,
                ;
            }
            let off: u64 = self.header.e_shoff as u64 + se * si;
            if off + 40 > self.file_len {
                self.fail(LoadError::FailedToReadFile);
                return;
            }
            self.req_off = off;
            self.req_len = 40;
            self.pending = Pending::RelShdr;
        } else {
            self.phase = SessionPhase::Relocated;
            self.sect_index = 0;
            self.start_sym_scan();
        }
    }

    /// Request the next section header of the symbol pass; past the last
    /// section the ABI symbol was never found, which fails the load.
    fn start_sym_scan(&mut self)
        requires
            old(self).caps.wf(),
            old(self).error is None,
            old(self).phase is Relocated,
        ensures
            final(self).wf(),
            spec_rank(final(self).spec_phase()) >= spec_rank(SessionPhase::Relocated),
            !(final(self).spec_phase() is Ready),
            final(self).spec_phase() is Failed ==> final(self).spec_error() == Some(LoadError::FailedToReadFile) || final(self).spec_error() == Some(LoadError::SyscallTableNotFound),
            final(self).spec_caps() == old(self).spec_caps(),
            final(self).spec_file_len() == old(self).spec_file_len(),
            final(self).spec_trace() == old(self).spec_trace(),
    {
        if self.sect_index < self.header.e_shnum as u32 {
            if self.header.e_shentsize < 40 {
                self.fail(LoadError::FailedToReadFile);
                return;
            }
            let se: u64 = self.header.e_shentsize as u64;
            let si: u64 = self.sect_index as u64;
            proof {
                assert(se * si <= 0xffff * 0xffff_ffffu64) by (nonlinear_arith)
                    requires
                        se <= 0xffff,
                        si <= 0xffff_ffff,
                ;
            }
            let off: u64 = self.header.e_shoff as u64 + se * si;
            if off + 40 > self.file_len {
                self.fail(LoadError::FailedToReadFile);
                return;
            }
            self.req_off = off;
            self.req_len = 40;
            self.pending = Pending::SymShdr;
        } else {
            self.fail(LoadError::SyscallTableNotFound);
        }
    }

    /// Step past the current symbol: request the next one, or move the
    /// symbol pass to the next section.
    fn advance_sym(&mut self)
        requires
            old(self).caps.wf(),
            old(self).error is None,
            old(self).phase is Relocated,
            old(self).sym_sh.sh_entsize >= 16,
        ensures
            final(self).wf(),
            spec_rank(final(self).spec_phase()) >= spec_rank(SessionPhase::Relocated),
            !(final(self).spec_phase() is Ready),
            final(self).spec_phase() is Failed ==> final(self).spec_error() == Some(LoadError::FailedToReadFile) || final(self).spec_error() == Some(LoadError::SyscallTableNotFound),
            final(self).spec_caps() == old(self).spec_caps(),
            final(self).spec_file_len() == old(self).spec_file_len(),
            final(self).spec_trace() == old(self).spec_trace(),
    {
        if self.sym_index < u32::MAX {
            self.sym_index = self.sym_index + 1;
        }
        if self.sym_index < self.sym_total {
            let se: u64 = self.sym_sh.sh_entsize as u64;
            let sj: u64 = self.sym_index as u64;
            proof {
                assert(se * sj <= 0xffff_ffffu64 * 0xffff_ffffu64) by (nonlinear_arith)
                    requires
                        se <= 0xffff_ffff,
                        sj <= 0xffff_ffff,
                ;
            }
            let off: u64 = self.sym_sh.sh_offset as u64 + se * sj;
            if off + 16 > self.file_len {
                self.fail(LoadError::FailedToReadFile);
                return;
            }
            self.req_off = off;
            self.req_len = 16;
            self.pending = Pending::SymEntry;
        } else {
            self.sect_index = if self.sect_index < u32::MAX {
                self.sect_index + 1
            } else {
                self.sect_index
            };
            self.start_sym_scan();
        }
    }

    /// Hand the session the bytes of its pending request.
    ///
    /// Every call is recorded in the trace: the requested offset and the
    /// bytes handed back.  Bytes of the wrong length — a short read — fail
    /// the load with `FailedToReadFile`.  Each call moves the phase forward
    /// in the load order, or to the failed state; never backward.  Which
    /// errors a call can raise is pinned by the phase it starts from:
    /// only the header step rejects with `ElfIsNotPie` (and exactly when
    /// the fed header is short, not `ET_DYN`, or declares no readable
    /// program header table), only the relocation pass rejects with
    /// `UnknownRelocationType` (and then the fed entry's type byte is not
    /// `R_ARM_RELATIVE`), and the session becomes ready only on a probe
    /// that read exactly the ABI symbol name.
    #[verifier::rlimit(100)]
    pub fn feed(&mut self, data: &[u8])
        requires
            old(self).wf(),
            old(self).spec_active(),
        ensures
            final(self).wf(),
            spec_rank(final(self).spec_phase()) >= spec_rank(old(self).spec_phase()),
            final(self).spec_caps() == old(self).spec_caps(),
            final(self).spec_file_len() == old(self).spec_file_len(),
            final(self).spec_trace() == old(self).spec_trace().push(
                (old(self).spec_req_off(), data@),
            ),
            data.len() != old(self).spec_req_len() ==> final(self).spec_phase() is Failed
                && final(self).spec_error() == Some(LoadError::FailedToReadFile),
            final(self).spec_phase() is Ready ==> old(self).spec_phase() is Relocated
                && crate::syscall::name_matches_at(data@, 0),
            final(self).spec_phase() is Failed && old(self).spec_phase() is Start ==> final(self).spec_error() == Some(LoadError::FailedToReadFile) || final(self).spec_error()
                == Some(LoadError::ElfIsNotPie),
            final(self).spec_phase() is Failed && (old(self).spec_phase() is TypeValidated || old(self).spec_phase() is ArenaAllocated || old(self).spec_phase() is Relocated)
                ==> final(self).spec_error() == Some(LoadError::FailedToReadFile) || final(self).spec_error() == Some(LoadError::SyscallTableNotFound),
            final(self).spec_phase() is Failed && old(self).spec_phase() is SegmentsLoaded
                ==> final(self).spec_error() == Some(LoadError::FailedToReadFile) || final(self).spec_error() == Some(LoadError::UnknownRelocationType) || final(self).spec_error() == Some(LoadError::SyscallTableNotFound),
            final(self).spec_error() == Some(LoadError::UnknownRelocationType) ==> old(self).spec_phase() is SegmentsLoaded && data.len() == 8 && spec_relocation(data@, 0).spec_kind() != R_ARM_RELATIVE,
            old(self).spec_phase() is Start ==> {
                &&& (final(self).spec_phase() is Failed <==> data.len() != 52 || spec_header(
                    data@,
                ).e_type != ET_DYN || spec_header(data@).e_phnum == 0 || spec_header(
                    data@,
                ).e_phentsize < 32 || spec_header(data@).e_phoff + 32 > old(self).spec_file_len())
                &&& (data.len() == 52 && spec_header(data@).e_type != ET_DYN
                    ==> final(self).spec_error() == Some(LoadError::ElfIsNotPie))
                &&& (!(final(self).spec_phase() is Failed) ==> final(self).spec_phase()
                    is TypeValidated)
            },
    {
        proof {
            self.trace@ = self.trace@.push((self.req_off as int, data@));
        }
        if data.len() != self.req_len {
            self.fail(LoadError::FailedToReadFile);
            return;
        }
        let pending = self.pending;
        match pending {
            Pending::Idle => {
                proof {
                    assert(false);
                }
            },
            Pending::Header => {
                let h = match parse_header(data) {
                    Ok(h) => h,
                    Err(e) => {
                        self.fail(e);
                        return;
                    },
                };
                self.header = h;
                self.phase = SessionPhase::HeaderRead;
                if h.e_type != ET_DYN {
                    self.fail(LoadError::ElfIsNotPie);
                    return;
                }
                self.phase = SessionPhase::TypeValidated;
                self.phs = Vec::new();
                if h.e_phnum == 0 {
                    // No loadable segment can exist: the layout is empty.
                    self.fail(LoadError::FailedToReadFile);
                    return;
                }
                if h.e_phentsize < 32 {
                    self.fail(LoadError::FailedToReadFile);
                    return;
                }
                let off: u64 = h.e_phoff as u64;
                if off + 32 > self.file_len {
                    self.fail(LoadError::FailedToReadFile);
                    return;
                }
                self.req_off = off;
                self.req_len = 32;
                self.pending = Pending::Phdr;
            },
            Pending::Phdr => {
                let ph = parse_program_header(data, 0);
                self.phs.push(ph);
                if self.phs.len() < self.header.e_phnum as usize {
                    let se: u64 = self.header.e_phentsize as u64;
                    let si: u64 = self.phs.len() as u64;
                    proof {
                        assert(se * si <= 0xffffu64 * 0xffffu64) by (nonlinear_arith)
                            requires
                                se <= 0xffff,
                                si <= 0xffff,
                        ;
                    }
                    let off: u64 = self.header.e_phoff as u64 + se * si;
                    if off + 32 > self.file_len {
                        self.fail(LoadError::FailedToReadFile);
                        return;
                    }
                    self.req_off = off;
                    self.req_len = 32;
                } else {
                    let plan = match plan_layout(&self.phs) {
                        Ok(p) => p,
                        Err(e) => {
                            self.fail(e);
                            return;
                        },
                    };
                    self.phase = SessionPhase::LayoutPlanned;
                    if plan.total_size == 0 {
                        // An empty arena must never be allocated.
                        self.fail(LoadError::FailedToReadFile);
                        return;
                    }
                    self.arena = Arena::new(plan.total_size, plan.min_vaddr);
                    self.phase = SessionPhase::ArenaAllocated;
                    self.seg_index = 0;
                    self.start_segment_scan();
                }
            },
            Pending::SegChunk => {
                let ph = self.phs[self.seg_index];
                let t = (ph.p_vaddr - self.arena.base_vaddr) as usize;
                self.arena.write_bytes(t + self.seg_done as usize, data);
                self.seg_done = self.seg_done + data.len() as u32;
                if self.seg_done < ph.p_filesz {
                    let left = ph.p_filesz - self.seg_done;
                    self.req_off = ph.p_offset as u64 + self.seg_done as u64;
                    self.req_len = if left as usize > MAX_READ_LEN {
                        MAX_READ_LEN
                    } else {
                        left as usize
                    };
                } else {
                    self.seg_index = self.seg_index + 1;
                    self.start_segment_scan();
                }
            },
            Pending::RelShdr => {
                let sh = parse_section_header(data, 0);
                if sh.sh_type == SHT_REL {
                    if sh.sh_entsize == 0 {
                        self.fail(LoadError::FailedToReadFile);
                        return;
                    }
                    let total = sh.sh_size / sh.sh_entsize;
                    if total == 0 {
                        self.sect_index = self.sect_index + 1;
                        self.start_rel_scan();
                        return;
                    }
                    let off: u64 = sh.sh_offset as u64;
                    if off + 8 > self.file_len {
                        self.fail(LoadError::FailedToReadFile);
                        return;
                    }
                    self.rel_sh = sh;
                    self.rel_index = 0;
                    self.rel_total = total;
                    self.req_off = off;
                    self.req_len = 8;
                    self.pending = Pending::RelEntry;
                } else {
                    self.sect_index = self.sect_index + 1;
                    self.start_rel_scan();
                }
            },
            Pending::RelEntry => {
                let rel = parse_relocation(data, 0);
                match apply_relocation(&mut self.arena, &rel, self.load_base) {
                    Ok(()) => {},
                    Err(e) => {
                        self.fail(e);
                        return;
                    },
                }
                self.rel_index = self.rel_index + 1;
                if self.rel_index < self.rel_total {
                    let off: u64 = self.rel_sh.sh_offset as u64 + 8u64 * (self.rel_index as u64);
                    if off + 8 > self.file_len {
                        self.fail(LoadError::FailedToReadFile);
                        return;
                    }
                    self.req_off = off;
                    self.req_len = 8;
                } else {
                    self.sect_index = self.sect_index + 1;
                    self.start_rel_scan();
                }
            },
            Pending::SymShdr => {
                let sh = parse_section_header(data, 0);
                if sh.sh_type == SHT_SYMTAB {
                    if sh.sh_entsize < 16 {
                        self.fail(LoadError::FailedToReadFile);
                        return;
                    }
                    if self.header.e_shentsize < 40 {
                        self.fail(LoadError::FailedToReadFile);
                        return;
                    }
                    let se: u64 = self.header.e_shentsize as u64;
                    let li: u64 = sh.sh_link as u64;
                    proof {
                        assert(se * li <= 0xffff * 0xffff_ffffu64) by (nonlinear_arith)
                            requires
                                se <= 0xffff,
                                li <= 0xffff_ffff,
                        ;
                    }
                    let off: u64 = self.header.e_shoff as u64 + se * li;
                    if off + 40 > self.file_len {
                        self.fail(LoadError::FailedToReadFile);
                        return;
                    }
                    self.sym_sh = sh;
                    self.req_off = off;
                    self.req_len = 40;
                    self.pending = Pending::StrShdr;
                } else {
                    self.sect_index = self.sect_index + 1;
                    self.start_sym_scan();
                }
            },
            Pending::StrShdr => {
                self.str_sh = parse_section_header(data, 0);
                self.sym_total = self.sym_sh.sh_size / self.sym_sh.sh_entsize;
                if self.sym_total == 0 {
                    self.sect_index = self.sect_index + 1;
                    self.start_sym_scan();
                    return;
                }
                self.sym_index = 0;
                let off: u64 = self.sym_sh.sh_offset as u64;
                if off + 16 > self.file_len {
                    self.fail(LoadError::FailedToReadFile);
                    return;
                }
                self.req_off = off;
                self.req_len = 16;
                self.pending = Pending::SymEntry;
            },
            Pending::SymEntry => {
                let sym = parse_symbol(data, 0);
                self.cur_sym = sym;
                let npos: u64 = self.str_sh.sh_offset as u64 + sym.st_name as u64;
                if npos + 15 > self.file_len {
                    // The name runs past the image; it cannot match.
                    self.advance_sym();
                    return;
                }
                self.req_off = npos;
                self.req_len = 15;
                self.pending = Pending::NameProbe;
            },
            Pending::NameProbe => {
                if name_matches(data, 0) {
                    let t = match self.arena.translate_range(
                        self.cur_sym.st_value,
                        SYS_CALL_TABLE_BYTES as u32,
                    ) {
                        Some(t) => t,
                        None => {
                            self.fail(LoadError::FailedToReadFile);
                            return;
                        },
                    };
                    write_table(&mut self.arena, t, &self.caps);
                    self.table_offset = t;
                    self.phase = SessionPhase::SyscallTablePatched;
                    let eo = match self.arena.translate_range(self.header.e_entry, 1) {
                        Some(eo) => eo,
                        None => {
                            self.fail(LoadError::FailedToReadFile);
                            return;
                        },
                    };
                    self.entry_offset = eo;
                    self.pending = Pending::Idle;
                    self.phase = SessionPhase::Ready;
                } else {
                    self.advance_sym();
                }
            },
        }
    }

    /// Close the session: the loaded image on success, the reason on
    /// failure.
    pub fn finish(self) -> (r: Result<LoadedImage, LoadError>)
        requires
            self.wf(),
            !self.spec_active(),
        ensures
            match r {
                Ok(img) => {
                    &&& self.spec_phase() is Ready
                    &&& img.table_offset + SYS_CALL_TABLE_BYTES <= img.arena.bytes.len()
                    &&& forall|k: int|
                        0 <= k < SYS_CALL_TABLE_COUNT ==> le32(
                            img.arena.bytes@,
                            img.table_offset + 4 * k,
                        ) == self.spec_caps()[k]
                    &&& img.entry.spec_offset() + 1 <= img.arena.bytes.len()
                },
                Err(e) => self.spec_phase() is Failed && self.spec_error() == Some(e),
            },
    {
        match self.error {
            Some(e) => Err(e),
            None => Ok(
                LoadedImage {
                    arena: self.arena,
                    entry: EntryHandle::from_offset(self.entry_offset),
                    table_offset: self.table_offset,
                },
            ),
        }
    }
}

} // verus!
