//! The loader: validate a position-independent ELF32 image, size an arena to
//! its memory span, materialize its loadable segments, apply its
//! relocations, patch its syscall table, and resolve its entry point.
//!
//! A load attempt either completes all of these steps or fails outright with
//! a `LoadError`; no partially constructed arena is ever handed on.  The
//! image bytes are supplied by the storage layer; the storage lock that
//! keeps two loads from interleaving is modeled by `StorageLock`.

use vstd::prelude::*;

use crate::arena::Arena;
use crate::bytes::le32;
use crate::elf::{
    read_program_headers, read_section_header, parse_header, phdr_table_readable, shdr_readable,
    spec_header, spec_phdr_offset, spec_program_header, spec_section_header, spec_shdr_offset,
    ElfHeader, ProgramHeader, ET_DYN, PT_LOAD, SHT_REL,
};
use crate::error::LoadError;
use crate::layout::{any_load, is_load, lemma_no_load, max_load_end, min_load_vaddr, plan_layout, seg_end};
use crate::reloc::{apply_rel_section, lemma_rel_section_errors, rel_count, spec_apply_rel_section};
use crate::segment::{lemma_seg_fold_prefix_err, materialize_segment, seg_fits, spec_seg_fold};
use crate::syscall::{
    has_table_sym, is_table_sym, patch_syscalls, scan_clean, section_has_table_sym, shdr_at,
    sym_at, SyscallCaps, SYS_CALL_TABLE_BYTES, SYS_CALL_TABLE_COUNT,
};

verus! {

/// The program headers of an image, as the header declares them.
pub open spec fn spec_phs(file: Seq<u8>) -> Seq<ProgramHeader> {
    Seq::new(
        spec_header(file).e_phnum as nat,
        |i: int| spec_program_header(file, spec_phdr_offset(spec_header(file), i)),
    )
}

/// The arena bytes and error outcome of walking the first `n` section
/// headers and applying every `SHT_REL` section among them to `bytes`.
pub open spec fn spec_sect_fold(
    bytes: Seq<u8>,
    base_vaddr: u32,
    file: Seq<u8>,
    h: ElfHeader,
    n: int,
    load_base: u32,
) -> Result<Seq<u8>, LoadError>
    decreases n,
{
    if n <= 0 {
        Ok(bytes)
    } else {
        match spec_sect_fold(bytes, base_vaddr, file, h, n - 1, load_base) {
            Err(e) => Err(e),
            Ok(prev) => {
                if !shdr_readable(file, h, n - 1) {
                    Err(LoadError::FailedToReadFile)
                } else {
                    let sh = spec_section_header(file, spec_shdr_offset(h, n - 1));
                    if sh.sh_type != SHT_REL {
                        Ok(prev)
                    } else if sh.sh_entsize == 0 {
                        Err(LoadError::FailedToReadFile)
                    } else {
                        spec_apply_rel_section(prev, base_vaddr, file, sh, rel_count(sh), load_base)
                    }
                }
            },
        }
    }
}

/// The bytes a successful load leaves in the arena, before the syscall
/// table is patched in: a zeroed arena spanning the image's loadable
/// segments, the segments materialized in order, then every `SHT_REL`
/// section applied in order.
pub open spec fn spec_loaded_image_bytes(file: Seq<u8>, load_base: u32) -> Result<
    Seq<u8>,
    LoadError,
> {
    let h = spec_header(file);
    let phs = spec_phs(file);
    let minv = min_load_vaddr(phs, phs.len() as int);
    let maxv = max_load_end(phs, phs.len() as int);
    let zeros = Seq::new((maxv - minv) as nat, |j: int| 0u8);
    match spec_seg_fold(zeros, minv as u32, phs, file, phs.len() as int) {
        Err(e) => Err(e),
        Ok(seg) => spec_sect_fold(seg, minv as u32, file, h, h.e_shnum as int, load_base),
    }
}

/// Once some prefix of the section walk has failed, the walk over any
/// longer prefix fails with the same error.
pub proof fn lemma_sect_fold_prefix_err(
    bytes: Seq<u8>,
    base_vaddr: u32,
    file: Seq<u8>,
    h: ElfHeader,
    n: int,
    m: int,
    load_base: u32,
)
    requires
        0 <= n <= m,
        spec_sect_fold(bytes, base_vaddr, file, h, n, load_base) is Err,
    ensures
        spec_sect_fold(bytes, base_vaddr, file, h, m, load_base) == spec_sect_fold(
            bytes,
            base_vaddr,
            file,
            h,
            n,
            load_base,
        ),
    decreases m,
{
    if m > n {
        lemma_sect_fold_prefix_err(bytes, base_vaddr, file, h, n, m - 1, load_base);
    }
}

/// The virtual address range `[vaddr, vaddr + size)` lies inside the span
/// of the image's loadable segments.
pub open spec fn addr_in_image(file: Seq<u8>, vaddr: u32, size: int) -> bool {
    let phs = spec_phs(file);
    let minv = min_load_vaddr(phs, phs.len() as int);
    let maxv = max_load_end(phs, phs.len() as int);
    minv <= vaddr && vaddr - minv + size <= maxv - minv
}

/// The image is well formed up to its symbol scan: a complete
/// position-independent header, a readable program header table, segment
/// ends within 32 bits, a nonempty memory span, segments and relocations
/// that apply cleanly, and readable section and symbol tables.
pub open spec fn image_well_formed(file: Seq<u8>, load_base: u32) -> bool {
    &&& file.len() >= 52
    &&& spec_header(file).e_type == ET_DYN
    &&& phdr_table_readable(file, spec_header(file))
    &&& forall|k: int|
        0 <= k < spec_phs(file).len() && is_load(#[trigger] spec_phs(file)[k]) ==> seg_end(
            spec_phs(file)[k],
        ) <= 0xffff_ffff
    &&& max_load_end(spec_phs(file), spec_phs(file).len() as int) - min_load_vaddr(
        spec_phs(file),
        spec_phs(file).len() as int,
    ) > 0
    &&& spec_loaded_image_bytes(file, load_base) is Ok
    &&& scan_clean(file, spec_header(file))
}

/// The image loads to completion: it is well formed, carries the ABI table
/// symbol, every occurrence of that symbol names a table inside the image's
/// span, and the entry point lies inside the span too.  On such an image the
/// loader owes success.
pub open spec fn image_fully_loadable(file: Seq<u8>, load_base: u32) -> bool {
    &&& image_well_formed(file, load_base)
    &&& has_table_sym(file, spec_header(file))
    &&& forall|i: int, j: int|
        #[trigger] is_table_sym(file, spec_header(file), i, j) ==> addr_in_image(
            file,
            sym_at(file, shdr_at(file, spec_header(file), i), j).st_value,
            SYS_CALL_TABLE_BYTES as int,
        )
    &&& addr_in_image(file, spec_header(file).e_entry, 1)
}

/// A validated, callable entry point.
///
/// Only the entry resolver at the end of a successful load constructs one:
/// a caller cannot fabricate an executable entry point from a raw address.
pub struct EntryHandle {
    offset: usize,
}

impl EntryHandle {
    /// The arena offset of the entry point.
    pub closed spec fn spec_offset(self) -> int {
        self.offset as int
    }

    /// Resolve an entry point; only the two entry resolvers call this.
    pub(crate) fn from_offset(offset: usize) -> (r: EntryHandle)
        ensures
            r.spec_offset() == offset,
    {
        EntryHandle { offset }
    }

    /// The arena offset of the entry point; the callable address is the
    /// arena's runtime base address plus this offset.
    pub fn offset(&self) -> (r: usize)
        ensures
            r == self.spec_offset(),
    {
        self.offset
    }
}

/// A fully loaded application image, ready for the execution handoff.
pub struct LoadedImage {
    /// The application's memory: segments materialized, words relocated,
    /// syscall table patched.
    pub arena: Arena,
    /// The validated entry point.
    pub entry: EntryHandle,
    /// Arena offset of the patched syscall table.
    pub table_offset: usize,
}

/// Load a position-independent ELF32 image.
///
/// `file` holds the image bytes as read from storage, `load_base` is the
/// runtime address at which the arena will be placed, and `caps` are the
/// kernel service pointers to patch into the image's syscall table.
///
/// Fails with `ElfIsNotPie` exactly when the image has a complete header
/// whose type is not `ET_DYN` — before any arena is sized or touched.  On
/// success the arena spans exactly the image's loadable segments, the entry
/// offset is the entry address relative to the arena base, and the syscall
/// table inside the arena holds the kernel pointer for ordinal `k` at word
/// `k`, for every ordinal.
pub fn load_image(file: &[u8], load_base: u32, caps: &SyscallCaps) -> (r: Result<
    LoadedImage,
    LoadError,
>)
    requires
        caps.wf(),
    ensures
        image_fully_loadable(file@, load_base) ==> r is Ok,
        match r {
            Ok(img) => {
                &&& file.len() >= 52
                &&& spec_header(file@).e_type == ET_DYN
                &&& phdr_table_readable(file@, spec_header(file@))
                &&& any_load(spec_phs(file@), spec_phs(file@).len() as int)
                &&& img.arena.base_vaddr == min_load_vaddr(
                    spec_phs(file@),
                    spec_phs(file@).len() as int,
                )
                &&& img.arena.bytes.len() == max_load_end(
                    spec_phs(file@),
                    spec_phs(file@).len() as int,
                ) - min_load_vaddr(spec_phs(file@), spec_phs(file@).len() as int)
                &&& img.arena.bytes.len() > 0
                &&& img.arena.spec_translatable(spec_header(file@).e_entry, 1)
                &&& img.entry.spec_offset() == spec_header(file@).e_entry - img.arena.base_vaddr
                &&& img.table_offset + SYS_CALL_TABLE_BYTES <= img.arena.bytes.len()
                &&& exists|i: int, j: int|
                    {
                        &&& 0 <= i < spec_header(file@).e_shnum
                        &&& #[trigger] is_table_sym(file@, spec_header(file@), i, j)
                        &&& img.table_offset == sym_at(
                            file@,
                            shdr_at(file@, spec_header(file@), i),
                            j,
                        ).st_value - img.arena.base_vaddr
                    }
                &&& forall|k: int|
                    0 <= k < SYS_CALL_TABLE_COUNT ==> le32(
                        img.arena.bytes@,
                        img.table_offset + 4 * k,
                    ) == caps.entries@[k]
                &&& (spec_loaded_image_bytes(file@, load_base) matches Ok(pre)
                    && forall|j: int|
                        0 <= j < img.arena.bytes.len() && !(img.table_offset <= j
                            < img.table_offset + SYS_CALL_TABLE_BYTES) ==> img.arena.bytes@[j]
                            == pre[j])
            },
            Err(e) => {
                &&& (e == LoadError::ElfIsNotPie <==> file.len() >= 52 && spec_header(
                    file@,
                ).e_type != ET_DYN)
                &&& (e == LoadError::SyscallTableNotFound ==> !has_table_sym(
                    file@,
                    spec_header(file@),
                ))
                &&& (image_well_formed(file@, load_base) && !has_table_sym(
                    file@,
                    spec_header(file@),
                ) ==> e == LoadError::SyscallTableNotFound)
                &&& (e == LoadError::UnknownRelocationType ==> spec_loaded_image_bytes(
                    file@,
                    load_base,
                ) == Err::<Seq<u8>, LoadError>(LoadError::UnknownRelocationType))
            },
        },
{
    let h = match parse_header(file) {
        Ok(h) => h,
        Err(e) => {
            return Err(e);
        },
    };
    // Reject non-PIE images before any memory is sized or touched.
    if h.e_type != ET_DYN {
        return Err(LoadError::ElfIsNotPie);
    }
    let phs = match read_program_headers(file, &h) {
        Ok(phs) => phs,
        Err(e) => {
            return Err(e);
        },
    };
    proof {
        assert(phs@ =~= spec_phs(file@));
    }
    let plan = match plan_layout(&phs) {
        Ok(p) => p,
        Err(e) => {
            proof {
                let k = choose|k: int|
                    0 <= k < phs@.len() && is_load(phs@[k]) && seg_end(phs@[k]) > 0xffff_ffff;
                assert(is_load(spec_phs(file@)[k]) && seg_end(spec_phs(file@)[k]) > 0xffff_ffff);
            }
            return Err(e);
        },
    };
    // An image without loadable bytes cannot be launched; reject it before
    // an empty arena is allocated.
    if plan.total_size == 0 {
        proof {
            if !any_load(phs@, phs@.len() as int) {
                lemma_no_load(phs@, phs@.len() as int);
            }
        }
        return Err(LoadError::FailedToReadFile);
    }
    let mut arena = Arena::new(plan.total_size, plan.min_vaddr);
    let ghost zeros = arena.bytes@;
    let mut i: usize = 0;
    while i < phs.len()
        invariant
            i <= phs@.len(),
            phs@ == spec_phs(file@),
            h == spec_header(file@),
            h.e_type == ET_DYN,
            file.len() >= 52,
            arena.base_vaddr == plan.min_vaddr,
            arena.bytes.len() == plan.total_size,
            0 < plan.total_size <= 0xffff_ffff,
            zeros == Seq::new(plan.total_size as nat, |j: int| 0u8),
            plan.min_vaddr == min_load_vaddr(phs@, phs@.len() as int),
            plan.total_size == max_load_end(phs@, phs@.len() as int) - min_load_vaddr(
                phs@,
                phs@.len() as int,
            ),
            spec_seg_fold(zeros, plan.min_vaddr, phs@, file@, i as int) == Ok::<
                Seq<u8>,
                LoadError,
            >(arena.bytes@),
        decreases phs@.len() - i,
    {
        let ph = phs[i];
        if ph.p_type == PT_LOAD {
            let ghost before = arena.bytes@;
            match materialize_segment(&mut arena, &ph, file) {
                Ok(()) => {},
                Err(e) => {
                    proof {
                        assert(!seg_fits(plan.min_vaddr, before.len() as int, ph, file@));
                        assert(spec_seg_fold(zeros, plan.min_vaddr, phs@, file@, i as int + 1)
                            is Err);
                        lemma_seg_fold_prefix_err(
                            zeros,
                            plan.min_vaddr,
                            phs@,
                            file@,
                            i as int + 1,
                            phs@.len() as int,
                        );
                        assert(Seq::new(
                            (max_load_end(spec_phs(file@), spec_phs(file@).len() as int)
                                - min_load_vaddr(spec_phs(file@), spec_phs(file@).len() as int))
                                as nat,
                            |j: int| 0u8,
                        ) =~= zeros);
                        assert(spec_loaded_image_bytes(file@, load_base) is Err);
                    }
                    return Err(e);
                },
            }
        }
        i += 1;
    }
    let ghost seg_bytes = arena.bytes@;
    let mut s: u32 = 0;
    while s < h.e_shnum as u32
        invariant
            s <= h.e_shnum,
            h == spec_header(file@),
            h.e_type == ET_DYN,
            file.len() >= 52,
            phs@ == spec_phs(file@),
            arena.base_vaddr == plan.min_vaddr,
            arena.bytes.len() == plan.total_size,
            0 < plan.total_size <= 0xffff_ffff,
            zeros == Seq::new(plan.total_size as nat, |j: int| 0u8),
            plan.min_vaddr == min_load_vaddr(phs@, phs@.len() as int),
            plan.total_size == max_load_end(phs@, phs@.len() as int) - min_load_vaddr(
                phs@,
                phs@.len() as int,
            ),
            spec_seg_fold(zeros, plan.min_vaddr, phs@, file@, phs@.len() as int) == Ok::<
                Seq<u8>,
                LoadError,
            >(seg_bytes),
            spec_sect_fold(seg_bytes, plan.min_vaddr, file@, h, s as int, load_base) == Ok::<
                Seq<u8>,
                LoadError,
            >(arena.bytes@),
        decreases h.e_shnum - s,
    {
        let sh = match read_section_header(file, &h, s) {
            Ok(sh) => sh,
            Err(e) => {
                return Err(e);
            },
        };
        if sh.sh_type == SHT_REL {
            let ghost pre = arena.bytes@;
            match apply_rel_section(&mut arena, file, &sh, load_base) {
                Ok(()) => {},
                Err(e) => {
                    proof {
                        lemma_rel_section_errors(
                            pre,
                            plan.min_vaddr,
                            file@,
                            sh,
                            rel_count(sh),
                            load_base,
                        );
                        assert(spec_sect_fold(
                            seg_bytes,
                            plan.min_vaddr,
                            file@,
                            h,
                            s as int + 1,
                            load_base,
                        ) == Err::<Seq<u8>, LoadError>(e));
                        lemma_sect_fold_prefix_err(
                            seg_bytes,
                            plan.min_vaddr,
                            file@,
                            h,
                            s as int + 1,
                            h.e_shnum as int,
                            load_base,
                        );
                        assert(Seq::new(
                            (max_load_end(spec_phs(file@), spec_phs(file@).len() as int)
                                - min_load_vaddr(spec_phs(file@), spec_phs(file@).len() as int))
                                as nat,
                            |j: int| 0u8,
                        ) =~= zeros);
                        assert(spec_loaded_image_bytes(file@, load_base) == Err::<
                            Seq<u8>,
                            LoadError,
                        >(e));
                    }
                    return Err(e);
                },
            }
        }
        s += 1;
    }
    proof {
        assert(Seq::new(
            (max_load_end(spec_phs(file@), spec_phs(file@).len() as int) - min_load_vaddr(
                spec_phs(file@),
                spec_phs(file@).len() as int,
            )) as nat,
            |j: int| 0u8,
        ) =~= zeros);
        assert(spec_loaded_image_bytes(file@, load_base) == Ok::<Seq<u8>, LoadError>(
            arena.bytes@,
        ));
    }
    let ghost pre_patch = arena.bytes@;
    let table_offset = match patch_syscalls(&mut arena, file, &h, caps) {
        Ok(t) => t,
        Err(e) => {
            proof {
                if image_fully_loadable(file@, load_base) {
                    assert forall|i: int, j: int|
                        #[trigger] is_table_sym(file@, h, i, j) implies pre_patch.len()
                        == plan.total_size && plan.min_vaddr <= sym_at(
                        file@,
                        shdr_at(file@, h, i),
                        j,
                    ).st_value && sym_at(file@, shdr_at(file@, h, i), j).st_value
                        - plan.min_vaddr + SYS_CALL_TABLE_BYTES <= plan.total_size by {
                        assert(addr_in_image(
                            file@,
                            sym_at(file@, shdr_at(file@, h, i), j).st_value,
                            SYS_CALL_TABLE_BYTES as int,
                        ));
                    }
                    assert(false);
                }
            }
            return Err(e);
        },
    };
    let entry_off = match arena.translate_range(h.e_entry, 1) {
        Some(off) => off,
        None => {
            proof {
                let (ci, cj): (int, int) = choose|ci: int, cj: int|
                    0 <= ci < h.e_shnum && #[trigger] is_table_sym(file@, h, ci, cj);
                assert(section_has_table_sym(file@, h, ci));
                assert(has_table_sym(file@, h));
                if image_fully_loadable(file@, load_base) {
                    assert(addr_in_image(file@, h.e_entry, 1));
                    assert(false);
                }
            }
            return Err(LoadError::FailedToReadFile);
        },
    };
    Ok(LoadedImage { arena, entry: EntryHandle { offset: entry_off }, table_offset })
}

/// The storage mutual-exclusion lock.
///
/// The loader holds it for the whole duration of a load — header reads,
/// segment copies, relocation reads, symbol scan — so no second load (nor
/// any other storage user) can interleave reads with one in progress.
pub struct StorageLock {
    /// Whether some load currently holds the storage.
    pub held: bool,
}

impl StorageLock {
    /// A fresh lock; the storage is free.
    pub fn new() -> (r: StorageLock)
        ensures
            !r.held,
    {
        StorageLock { held: false }
    }

    /// Try to take the storage for a load.
    ///
    /// While a load already holds the lock, a second attempt fails and the
    /// lock stays held by the first; otherwise the attempt succeeds and the
    /// lock is held from now on.
    pub fn try_acquire(&mut self) -> (r: bool)
        ensures
            final(self).held,
            r == !old(self).held,
    {
        if self.held {
            false
        } else {
            self.held = true;
            true
        }
    }

    /// Release the storage after a load has completed or failed.
    pub fn release(&mut self)
        ensures
            !final(self).held,
    {
        self.held = false;
    }
}

/// Load an image while holding the storage lock.
///
/// While another load holds the lock, the attempt fails with
/// `FailedToReadFile` — storage-lock contention is an I/O failure — and the
/// lock stays held by the load in progress.  Otherwise the lock is held for
/// the whole load and released before returning.
pub fn load_image_locked(
    lock: &mut StorageLock,
    file: &[u8],
    load_base: u32,
    caps: &SyscallCaps,
) -> (r: Result<LoadedImage, LoadError>)
    requires
        caps.wf(),
    ensures
        old(lock).held ==> r == Err::<LoadedImage, LoadError>(LoadError::FailedToReadFile)
            && final(lock).held,
        !old(lock).held ==> !final(lock).held,
        !old(lock).held && image_fully_loadable(file@, load_base) ==> r is Ok,
        match r {
            Ok(img) => {
                &&& !old(lock).held
                &&& img.arena.spec_translatable(spec_header(file@).e_entry, 1)
                &&& img.entry.spec_offset() == spec_header(file@).e_entry - img.arena.base_vaddr
                &&& img.table_offset + SYS_CALL_TABLE_BYTES <= img.arena.bytes.len()
                &&& forall|k: int|
                    0 <= k < SYS_CALL_TABLE_COUNT ==> le32(
                        img.arena.bytes@,
                        img.table_offset + 4 * k,
                    ) == caps.entries@[k]
                &&& (spec_loaded_image_bytes(file@, load_base) matches Ok(pre)
                    && forall|j: int|
                        0 <= j < img.arena.bytes.len() && !(img.table_offset <= j
                            < img.table_offset + SYS_CALL_TABLE_BYTES) ==> img.arena.bytes@[j]
                            == pre[j])
            },
            Err(e) => e == LoadError::ElfIsNotPie <==> !old(lock).held && file.len() >= 52
                && spec_header(file@).e_type != ET_DYN,
        },
{
    if !lock.try_acquire() {
        return Err(LoadError::FailedToReadFile);
    }
    let r = load_image(file, load_base, caps);
    lock.release();
    r
}

/// The shared flag the kernel context sets while an application runs.
///
/// While the flag signals an active application, the kernel pauses its own
/// UI rendering and input routing and keeps its hands off the display; when
/// the application returns, the kernel resumes them.
pub struct ExecFlags {
    /// Whether a loaded application currently runs.
    pub app_active: bool,
    /// Whether the kernel's own UI renders and routes input.
    pub ui_enabled: bool,
}

impl ExecFlags {
    /// The kernel and the flags are in step: its UI runs exactly while no
    /// application does.
    pub open spec fn wf(self) -> bool {
        self.ui_enabled == !self.app_active
    }

    /// At boot the kernel UI runs and no application does.
    pub fn new() -> (r: ExecFlags)
        ensures
            r.wf(),
            !r.app_active,
    {
        ExecFlags { app_active: false, ui_enabled: true }
    }

    /// An application is about to run: pause the kernel UI.
    pub fn launch(&mut self)
        ensures
            final(self).wf(),
            final(self).app_active,
    {
        self.app_active = true;
        self.ui_enabled = false;
    }

    /// The application returned: resume the kernel UI.
    pub fn resume(&mut self)
        ensures
            final(self).wf(),
            !final(self).app_active,
    {
        self.app_active = false;
        self.ui_enabled = true;
    }
}

/// The single-slot execution handoff channel.
///
/// The kernel context produces at most one `LoadedImage` per launch; the
/// application context consumes exactly one and then blocks on calling the
/// entry point.  The arena travels with the entry handle, so it stays alive
/// for the whole run.
pub struct LaunchSlot {
    slot: Option<LoadedImage>,
}

impl LaunchSlot {
    /// Whether an image is waiting to be executed.
    pub closed spec fn spec_occupied(self) -> bool {
        self.slot is Some
    }

    /// An empty slot.
    pub fn new() -> (r: LaunchSlot)
        ensures
            !r.spec_occupied(),
    {
        LaunchSlot { slot: None }
    }

    /// Offer a loaded image for execution.
    ///
    /// While a previous image has not been consumed, the offer is refused
    /// and the image is handed back: the channel never holds more than one.
    pub fn offer(&mut self, img: LoadedImage) -> (r: Result<(), LoadedImage>)
        ensures
            !old(self).spec_occupied() ==> final(self).spec_occupied() && r is Ok,
            old(self).spec_occupied() ==> *final(self) == *old(self) && r is Err,
    {
        if self.slot.is_some() {
            Err(img)
        } else {
            self.slot = Some(img);
            Ok(())
        }
    }

    /// Consume the waiting image, leaving the slot empty.
    pub fn take(&mut self) -> (r: Option<LoadedImage>)
        ensures
            !final(self).spec_occupied(),
            r is Some <==> old(self).spec_occupied(),
    {
        self.slot.take()
    }
}

} // verus!
